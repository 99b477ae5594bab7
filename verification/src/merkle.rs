use vstd::prelude::*;
use vstd::string::StringSliceAdditionalSpecFns;
use vstd::utf8::encode_utf8;
use crate::error::{ContractError, is_not_authorized, is_validation_error};
use crate::hash::{bytes_eq, hash_pair, leaf_hash, leaf_hash_of, node_hash};
use crate::hex_codec::{decode_fixed, hex_decoded, is_hex_of_len};

verus! {

/// A proof element is 64 hex characters: the encoding of one 32-byte
/// sibling hash.
pub open spec fn element_ok(s: Seq<char>) -> bool {
    is_hex_of_len(encode_utf8(s), 32)
}

pub open spec fn proof_ok(merkle_proof: Seq<Seq<char>>) -> bool {
    forall|i: int| 0 <= i < merkle_proof.len() ==> element_ok(#[trigger] merkle_proof[i])
}

/// The sibling hashes a proof decodes to, in order.
pub open spec fn decoded_elements(merkle_proof: Seq<Seq<char>>) -> Seq<Seq<u8>> {
    merkle_proof.map_values(|s: Seq<char>| hex_decoded(encode_utf8(s)))
}

/// Folds a hash through a sequence of sibling hashes, sorting each pair
/// before hashing. An empty sequence leaves the hash as it is.
pub open spec fn fold_proof(h: Seq<u8>, elems: Seq<Seq<u8>>) -> Seq<u8>
    decreases elems.len(),
{
    if elems.len() == 0 {
        h
    } else {
        fold_proof(node_hash(h, elems[0]), elems.drop_first())
    }
}

/// The candidate root an identity and a proof reconstruct: the leaf hash
/// of the identity's bytes, folded through the decoded proof elements.
pub open spec fn merkle_root_of(identity: Seq<char>, merkle_proof: Seq<Seq<char>>) -> Seq<u8> {
    fold_proof(leaf_hash_of(encode_utf8(identity)), decoded_elements(merkle_proof))
}

/// Folds the proof into the candidate root for this identity. Stops at the
/// first proof element that is not 64 hex characters, with no further
/// hashing.
pub fn compute_merkle_hash(identity: &str, merkle_proof: &Vec<String>) -> (r: Result<
    Vec<u8>,
    ContractError,
>)
    ensures
        match r {
            Ok(v) => proof_ok(merkle_proof.deep_view()) && v@ == merkle_root_of(
                identity@,
                merkle_proof.deep_view(),
            ) && v@.len() == 32,
            Err(e) => !proof_ok(merkle_proof.deep_view()) && is_validation_error(
                e,
                "error hex decoding merkle proof"@,
            ),
        },
{
    let ghost dv = merkle_proof.deep_view();
    let mut hash = leaf_hash(identity.as_bytes());
    proof {
        assert(decoded_elements(dv).skip(0) =~= decoded_elements(dv));
    }
    let mut i: usize = 0;
    while i < merkle_proof.len()
        invariant
            0 <= i <= dv.len(),
            dv == merkle_proof.deep_view(),
            dv.len() == merkle_proof@.len(),
            hash@.len() == 32,
            forall|j: int| 0 <= j < i ==> element_ok(#[trigger] dv[j]),
            merkle_root_of(identity@, dv) == fold_proof(
                hash@,
                decoded_elements(dv).skip(i as int),
            ),
        decreases dv.len() - i,
    {
        let elem: &String = &merkle_proof[i];
        let sibling = match decode_fixed(elem.as_str(), 32) {
            Ok(v) => v,
            Err(_) => {
                proof {
                    assert(!element_ok(dv[i as int]));
                }
                return Err(ContractError::validation_error("error hex decoding merkle proof"));
            },
        };
        let next = hash_pair(&hash, &sibling);
        proof {
            let elems = decoded_elements(dv);
            assert(elems.skip(i as int)[0] == elems[i as int]);
            assert(elems.skip(i as int).drop_first() =~= elems.skip(i as int + 1));
        }
        hash = next;
        i = i + 1;
    }
    Ok(hash)
}

/// Checks a claimant's proof against the expected root: folds the decoded
/// proof into a candidate root, then compares it byte-for-byte.
pub fn verify(identity: &str, merkle_proof: &Vec<String>, expected_root: &Vec<u8>) -> (r: Result<
    (),
    ContractError,
>)
    ensures
        match r {
            Ok(_) => proof_ok(merkle_proof.deep_view()) && merkle_root_of(
                identity@,
                merkle_proof.deep_view(),
            ) == expected_root@,
            Err(e) => if !proof_ok(merkle_proof.deep_view()) {
                is_validation_error(e, "error hex decoding merkle proof"@)
            } else {
                merkle_root_of(identity@, merkle_proof.deep_view()) != expected_root@
                    && is_not_authorized(e, "merkle tree verification failed"@)
            },
        },
{
    let candidate = match compute_merkle_hash(identity, merkle_proof) {
        Ok(v) => v,
        Err(e) => {
            return Err(e);
        },
    };
    if bytes_eq(&candidate, expected_root) {
        Ok(())
    } else {
        Err(ContractError::not_authorized("merkle tree verification failed"))
    }
}

} // verus!
