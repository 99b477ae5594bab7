use vstd::prelude::*;
use sha2::Digest;

verus! {

/// What SHA-256 returns for a given byte sequence. The digest is a function
/// of the input bytes alone, so it can be given a name without a body.
pub uninterp spec fn sha256_of(bytes: Seq<u8>) -> Seq<u8>;

/// Relies on sha2::Sha256::digest: one SHA-256 digest of the input bytes,
/// always exactly 32 bytes long and depending on the input bytes alone.
#[verifier::external_body]
pub(crate) fn sha256(bytes: &[u8]) -> (r: Vec<u8>)
    ensures
        r@ == sha256_of(bytes@),
        r@.len() == 32,
{
    sha2::Sha256::digest(bytes).to_vec()
}

/// Lexicographic order on byte sequences, as `[u8]`'s `Ord` orders them.
pub open spec fn lex_le(a: Seq<u8>, b: Seq<u8>) -> bool
    decreases a.len(),
{
    if a.len() == 0 {
        true
    } else if b.len() == 0 {
        false
    } else if a[0] < b[0] {
        true
    } else if a[0] > b[0] {
        false
    } else {
        lex_le(a.drop_first(), b.drop_first())
    }
}

/// The two values of a sibling pair, in sorted order, concatenated.
pub open spec fn sorted_concat(a: Seq<u8>, b: Seq<u8>) -> Seq<u8> {
    if lex_le(a, b) {
        a + b
    } else {
        b + a
    }
}

/// One level of the Merkle tree: hash of the sorted pair.
pub open spec fn node_hash(a: Seq<u8>, b: Seq<u8>) -> Seq<u8> {
    sha256_of(sorted_concat(a, b))
}

/// The tree leaf derived from a claimant identity: a single SHA-256 digest
/// of the raw identity bytes.
pub open spec fn leaf_hash_of(identity: Seq<u8>) -> Seq<u8> {
    sha256_of(identity)
}

pub fn leaf_hash(identity: &[u8]) -> (r: Vec<u8>)
    ensures
        r@ == leaf_hash_of(identity@),
        r@.len() == 32,
{
    sha256(identity)
}

pub proof fn lemma_lex_le_total(a: Seq<u8>, b: Seq<u8>)
    ensures
        lex_le(a, b) || lex_le(b, a),
    decreases a.len(),
{
    if a.len() != 0 && b.len() != 0 && a[0] == b[0] {
        lemma_lex_le_total(a.drop_first(), b.drop_first());
    }
}

pub proof fn lemma_lex_le_antisymmetric(a: Seq<u8>, b: Seq<u8>)
    requires
        lex_le(a, b),
        lex_le(b, a),
    ensures
        a == b,
    decreases a.len(),
{
    if a.len() == 0 {
        assert(b.len() == 0);
        assert(a =~= b);
    } else {
        assert(b.len() != 0);
        assert(a[0] == b[0]);
        lemma_lex_le_antisymmetric(a.drop_first(), b.drop_first());
        assert forall|i: int| 0 <= i < a.len() implies a[i] == b[i] by {
            if i > 0 {
                assert(a.drop_first()[i - 1] == b.drop_first()[i - 1]);
            }
        }
        assert(a =~= b);
    }
}

/// Hashing a sibling pair is order-independent: the two values are sorted
/// before they are concatenated, so swapping them changes nothing.
pub proof fn lemma_node_hash_comm(a: Seq<u8>, b: Seq<u8>)
    ensures
        node_hash(a, b) == node_hash(b, a),
{
    lemma_lex_le_total(a, b);
    if lex_le(a, b) && lex_le(b, a) {
        lemma_lex_le_antisymmetric(a, b);
    }
}

proof fn lemma_lex_le_skip_step(a: Seq<u8>, b: Seq<u8>, i: int)
    requires
        0 <= i < a.len(),
        i < b.len(),
        a[i] == b[i],
    ensures
        lex_le(a.skip(i), b.skip(i)) == lex_le(a.skip(i + 1), b.skip(i + 1)),
{
    assert(a.skip(i)[0] == a[i]);
    assert(b.skip(i)[0] == b[i]);
    assert(a.skip(i).drop_first() =~= a.skip(i + 1));
    assert(b.skip(i).drop_first() =~= b.skip(i + 1));
}

/// Compares two byte vectors in lexicographic order.
pub(crate) fn lex_le_bytes(a: &Vec<u8>, b: &Vec<u8>) -> (r: bool)
    ensures
        r == lex_le(a@, b@),
{
    let mut i: usize = 0;
    proof {
        assert(a@.skip(0) =~= a@);
        assert(b@.skip(0) =~= b@);
    }
    loop
        invariant
            0 <= i <= a@.len(),
            i <= b@.len(),
            lex_le(a@, b@) == lex_le(a@.skip(i as int), b@.skip(i as int)),
            lex_le(b@, a@) == lex_le(b@.skip(i as int), a@.skip(i as int)),
        ensures
            0 <= i <= a@.len(),
            i <= b@.len(),
            i == a@.len() || i == b@.len(),
            lex_le(a@, b@) == lex_le(a@.skip(i as int), b@.skip(i as int)),
        decreases a@.len() - i,
    {
        if i >= a.len() {
            break;
        }
        if i >= b.len() {
            break;
        }
        let x = a[i];
        let y = b[i];
        if x < y {
            assert(a@.skip(i as int)[0] == a@[i as int]);
            assert(b@.skip(i as int)[0] == b@[i as int]);
            return true;
        }
        if x > y {
            assert(a@.skip(i as int)[0] == a@[i as int]);
            assert(b@.skip(i as int)[0] == b@[i as int]);
            return false;
        }
        proof {
            lemma_lex_le_skip_step(a@, b@, i as int);
            lemma_lex_le_skip_step(b@, a@, i as int);
        }
        i = i + 1;
    }
    i >= a.len()
}

/// One vector followed by the other, as plain bytes.
pub(crate) fn concat_bytes(a: &Vec<u8>, b: &Vec<u8>) -> (r: Vec<u8>)
    ensures
        r@ == a@ + b@,
{
    let mut r: Vec<u8> = Vec::new();
    let mut i: usize = 0;
    while i < a.len()
        invariant
            0 <= i <= a@.len(),
            r@ =~= a@.take(i as int),
        decreases a@.len() - i,
    {
        r.push(a[i]);
        i = i + 1;
    }
    let mut j: usize = 0;
    while j < b.len()
        invariant
            0 <= j <= b@.len(),
            r@ =~= a@ + b@.take(j as int),
        decreases b@.len() - j,
    {
        r.push(b[j]);
        j = j + 1;
    }
    assert(r@ =~= a@ + b@);
    r
}

/// Hash of one tree level: sorts the pair as raw byte arrays, concatenates,
/// and digests. Swapping the arguments gives the same result.
pub fn hash_pair(a: &Vec<u8>, b: &Vec<u8>) -> (r: Vec<u8>)
    ensures
        r@ == node_hash(a@, b@),
        r@.len() == 32,
{
    let joined = if lex_le_bytes(a, b) {
        concat_bytes(a, b)
    } else {
        concat_bytes(b, a)
    };
    sha256(joined.as_slice())
}

/// Byte-for-byte equality of two byte vectors.
pub(crate) fn bytes_eq(a: &Vec<u8>, b: &Vec<u8>) -> (r: bool)
    ensures
        r == (a@ == b@),
{
    if a.len() != b.len() {
        return false;
    }
    let mut i: usize = 0;
    while i < a.len()
        invariant
            0 <= i <= a@.len(),
            a@.len() == b@.len(),
            forall|j: int| 0 <= j < i ==> a@[j] == b@[j],
        decreases a@.len() - i,
    {
        if a[i] != b[i] {
            return false;
        }
        i = i + 1;
    }
    proof {
        assert(a@ =~= b@);
    }
    true
}

} // verus!
