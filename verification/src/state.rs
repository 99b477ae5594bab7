use vstd::prelude::*;
use vstd::utf8::encode_utf8;
use crate::error::{ContractError, is_not_authorized, is_validation_error};
use crate::hash::bytes_eq;
use crate::hex_codec::{decode_fixed, hex_decoded, is_hex_of_len};
use crate::merkle::{compute_merkle_hash, merkle_root_of, proof_ok};
use crate::msg::InstantiateMsg;
use crate::responses::{Attribute, Response, dec_str, fmt_u128};
use crate::token::Token;

verus! {

/// The immutable airdrop configuration, set exactly once at initialization.
#[derive(Debug)]
pub struct Config {
    /// Admin of the airdrop.
    pub owner: String,
    /// Token type being airdropped.
    pub token: Token,
    /// Token amount claimable by each recipient.
    pub amount: u128,
    /// Merkle tree root hash, as 64 hex characters.
    pub root: String,
    /// Number of total claims in the Merkle tree.
    pub size: u64,
}

/// Descriptive metadata of the airdrop; only the name is required.
#[derive(Debug)]
pub struct AirdropMetadata {
    /// Name of the airdrop.
    pub name: String,
    /// Free-form description of the airdrop.
    pub description: Option<String>,
}

pub type ExecuteResult = Result<Response, ContractError>;

/// The five durable slots of the contract, held as one in-memory handle.
/// The host's key-value store owns the persisted copies; each operation
/// works on a handle like this one and the surrounding plumbing loads and
/// saves it around the call.
#[derive(Debug)]
pub struct AirdropStore {
    pub config: Option<Config>,
    pub metadata: Option<AirdropMetadata>,
    pub root: Option<String>,
    /// The identities that have claimed; membership alone carries meaning.
    pub claims: Vec<String>,
    pub n_claims_processed: Option<u64>,
}

/// Membership of an identity in the recorded claim set.
pub open spec fn contains_id(claims: Seq<Seq<char>>, id: Seq<char>) -> bool {
    exists|i: int| 0 <= i < claims.len() && claims[i] == id
}

impl AirdropStore {
    /// The recorded claimant identities, as sequences of characters.
    pub open spec fn claim_ids(self) -> Seq<Seq<char>> {
        self.claims.deep_view()
    }

    pub open spec fn has_claim(self, id: Seq<char>) -> bool {
        contains_id(self.claim_ids(), id)
    }

    /// The 32 bytes the stored root decodes to.
    pub open spec fn root_bytes(self) -> Seq<u8>
        recommends
            self.root is Some,
    {
        hex_decoded(encode_utf8(self.root->0@))
    }

    pub open spec fn initialized(self) -> bool {
        &&& self.config is Some
        &&& self.metadata is Some
        &&& self.root is Some
        &&& self.n_claims_processed is Some
    }

    /// Internal invariant: recorded claimants are distinct, the processed
    /// counter moves in lockstep with the claim set, and a stored root is
    /// always exactly 64 hex characters.
    pub open spec fn inv(self) -> bool {
        &&& forall|i: int, j: int|
            0 <= i < j < self.claim_ids().len() ==> self.claim_ids()[i] != self.claim_ids()[j]
        &&& (self.n_claims_processed matches Some(n) ==> n == self.claim_ids().len())
        &&& (self.n_claims_processed is None ==> self.claim_ids().len() == 0)
        &&& (self.root matches Some(r) ==> is_hex_of_len(encode_utf8(r@), 32))
    }

    /// Pure lookup: has this identity already claimed?
    pub fn has_claimed(&self, identity: &String) -> (r: bool)
        ensures
            r == self.has_claim(identity@),
    {
        let n = self.claims.len();
        let mut i: usize = 0;
        while i < n
            invariant
                0 <= i <= n,
                n == self.claims@.len(),
                forall|j: int| 0 <= j < i ==> self.claim_ids()[j] != identity@,
            decreases n - i,
        {
            if self.claims[i] == *identity {
                proof {
                    assert(self.claim_ids()[i as int] == identity@);
                }
                return true;
            }
            i = i + 1;
        }
        false
    }

    /// Records a claim, or fails when the identity is already present: the
    /// double-claim guard. A recorded claim is never removed.
    pub fn mark_claimed(&mut self, identity: &String) -> (r: Result<(), ContractError>)
        ensures
            final(self).config == old(self).config,
            final(self).metadata == old(self).metadata,
            final(self).root == old(self).root,
            final(self).n_claims_processed == old(self).n_claims_processed,
            if old(self).has_claim(identity@) {
                r matches Err(e) && is_not_authorized(e, "claimed"@) && *final(self) == *old(self)
            } else {
                r is Ok && final(self).claim_ids() == old(self).claim_ids().push(identity@)
            },
    {
        if self.has_claimed(identity) {
            return Err(ContractError::not_authorized("claimed"));
        }
        self.claims.push(identity.clone());
        proof {
            assert(self.claim_ids() =~= old(self).claim_ids().push(identity@));
        }
        Ok(())
    }

    /// Adds one to the processed-claims counter and returns the new count.
    /// Always called together with `mark_claimed`, as one logical unit.
    pub fn increment_processed(&mut self) -> (r: Result<u64, ContractError>)
        requires
            old(self).n_claims_processed matches Some(n) ==> n < u64::MAX,
        ensures
            final(self).config == old(self).config,
            final(self).metadata == old(self).metadata,
            final(self).root == old(self).root,
            final(self).claims == old(self).claims,
            match old(self).n_claims_processed {
                Some(n) => r matches Ok(m) && m == n + 1 && final(self).n_claims_processed
                    == Some((n + 1) as u64),
                None => r matches Err(e) && e matches ContractError::Std { .. } && *final(self)
                    == *old(self),
            },
    {
        match self.n_claims_processed {
            Some(n) => {
                let m = n + 1;
                self.n_claims_processed = Some(m);
                Ok(m)
            },
            None => Err(
                ContractError::Std { msg: "n_claims_processed not found".to_owned() },
            ),
        }
    }
}

/// Everything an execute-path operation works on: the store handle and the
/// identity of the caller.
pub struct ExecuteContext {
    pub store: AirdropStore,
    pub sender: String,
}

/// Read-only counterpart of `ExecuteContext` for queries.
pub struct QueryContext {
    pub store: AirdropStore,
}

/// What one claim attempt decides, as a function of the store, the caller
/// identity and the proof: the already-claimed guard comes first, then
/// proof well-formedness, then the root comparison.
pub enum ClaimDecision {
    AlreadyClaimed,
    InvalidProof,
    RootMismatch,
    Accepted,
}

pub open spec fn claim_decision(
    store: AirdropStore,
    sender: Seq<char>,
    merkle_proof: Seq<Seq<char>>,
) -> ClaimDecision
    recommends
        store.root is Some,
{
    if store.has_claim(sender) {
        ClaimDecision::AlreadyClaimed
    } else if !proof_ok(merkle_proof) {
        ClaimDecision::InvalidProof
    } else if merkle_root_of(sender, merkle_proof) != store.root_bytes() {
        ClaimDecision::RootMismatch
    } else {
        ClaimDecision::Accepted
    }
}

/// The acknowledgement record of a successful initialization.
pub open spec fn is_instantiate_response(r: Response) -> bool {
    &&& r.messages@.len() == 0
    &&& r.attributes@.len() == 1
    &&& r.attributes@[0].key@ == "action"@
    &&& r.attributes@[0].value@ == "instantiate"@
}

/// The output of a successful claim: one transfer instruction for the
/// configured amount to the claimant, plus the action, amount and claimant
/// as attributes.
pub open spec fn is_claim_response(r: Response, cfg: Config, claimant: Seq<char>) -> bool {
    &&& r.messages@.len() == 1
    &&& r.messages@[0].token == cfg.token
    &&& r.messages@[0].recipient@ == claimant
    &&& r.messages@[0].amount == cfg.amount
    &&& r.attributes@.len() == 3
    &&& r.attributes@[0].key@ == "action"@ && r.attributes@[0].value@ == "claim"@
    &&& r.attributes@[1].key@ == "amount"@ && r.attributes@[1].value@ == dec_str(cfg.amount as nat)
    &&& r.attributes@[2].key@ == "claimant"@ && r.attributes@[2].value@ == claimant
}

/// Everything `claim` promises: the decision taken on the old store fixes
/// both the result and the new store. Failures leave the store unchanged;
/// success records the claimant and moves the counter by one.
pub open spec fn claim_post(
    pre: ExecuteContext,
    post: ExecuteContext,
    merkle_proof: Seq<Seq<char>>,
    r: ExecuteResult,
) -> bool {
    &&& post.sender == pre.sender
    &&& post.store.inv()
    &&& post.store.initialized()
    &&& post.store.config == pre.store.config
    &&& post.store.metadata == pre.store.metadata
    &&& post.store.root == pre.store.root
    &&& match claim_decision(pre.store, pre.sender@, merkle_proof) {
        ClaimDecision::AlreadyClaimed => r matches Err(e) && is_not_authorized(e, "claimed"@)
            && post.store == pre.store,
        ClaimDecision::InvalidProof => r matches Err(e) && is_validation_error(
            e,
            "error hex decoding merkle proof"@,
        ) && post.store == pre.store,
        ClaimDecision::RootMismatch => r matches Err(e) && is_not_authorized(
            e,
            "merkle tree verification failed"@,
        ) && post.store == pre.store,
        ClaimDecision::Accepted => {
            &&& r matches Ok(resp) && is_claim_response(resp, pre.store.config->0, pre.sender@)
            &&& post.store.claim_ids() == pre.store.claim_ids().push(pre.sender@)
            &&& post.store.n_claims_processed == Some(
                (pre.store.n_claims_processed->0 + 1) as u64,
            )
        },
    }
}

impl ExecuteContext {
    /// Validates that the root is exactly 64 hex characters and stores it.
    pub fn set_merkle_root(&mut self, root: String) -> (r: Result<(), ContractError>)
        ensures
            final(self).sender == old(self).sender,
            final(self).store.config == old(self).store.config,
            final(self).store.metadata == old(self).store.metadata,
            final(self).store.claims == old(self).store.claims,
            final(self).store.n_claims_processed == old(self).store.n_claims_processed,
            if is_hex_of_len(encode_utf8(root@), 32) {
                r is Ok && final(self).store.root == Some(root)
            } else {
                r matches Err(e) && is_validation_error(e, "error hex decoding merkle root"@)
                    && *final(self) == *old(self)
            },
    {
        match decode_fixed(root.as_str(), 32) {
            Ok(_) => {},
            Err(_) => {
                return Err(ContractError::validation_error("error hex decoding merkle root"));
            },
        }
        self.store.root = Some(root);
        Ok(())
    }

    /// Loads and decodes the stored root. A missing slot is a storage
    /// error; a stored root that does not decode is a validation error.
    pub fn load_merkle_root(&self) -> (r: Result<Vec<u8>, ContractError>)
        ensures
            match r {
                Ok(v) => self.store.root matches Some(root) && is_hex_of_len(
                    encode_utf8(root@),
                    32,
                ) && v@ == self.store.root_bytes() && v@.len() == 32,
                Err(e) => match self.store.root {
                    Some(root) => !is_hex_of_len(encode_utf8(root@), 32) && is_validation_error(
                        e,
                        "error hex decoding merkle root"@,
                    ),
                    None => e matches ContractError::Std { .. },
                },
            },
    {
        let root = match &self.store.root {
            Some(r) => r,
            None => {
                return Err(ContractError::Std { msg: "merkle root not found".to_owned() });
            },
        };
        match decode_fixed(root.as_str(), 32) {
            Ok(v) => Ok(v),
            Err(_) => Err(ContractError::validation_error("error hex decoding merkle root")),
        }
    }

    /// Top-level initialization of contract state: validates and stores the
    /// root, persists config and metadata, and zeroes the processed
    /// counter. Runs exactly once, at contract creation, on an empty claim
    /// set; a failure writes nothing. The amount and size are stored as
    /// given, with no further checks here.
    pub fn instantiate(&mut self, msg: InstantiateMsg) -> (r: ExecuteResult)
        requires
            old(self).store.claims@.len() == 0,
        ensures
            final(self).sender == old(self).sender,
            final(self).store.claims == old(self).store.claims,
            if is_hex_of_len(encode_utf8(msg.config.root@), 32) {
                &&& r matches Ok(resp) && is_instantiate_response(resp)
                &&& final(self).store.config == Some(msg.config)
                &&& final(self).store.metadata == Some(msg.metadata)
                &&& final(self).store.root == Some(msg.config.root)
                &&& final(self).store.n_claims_processed == Some(0u64)
                &&& final(self).store.inv()
                &&& final(self).store.initialized()
            } else {
                r matches Err(e) && is_validation_error(e, "error hex decoding merkle root"@)
                    && *final(self) == *old(self)
            },
    {
        let InstantiateMsg { config, metadata } = msg;

        // The root is validated before any slot is written, so a rejected
        // root leaves no partial state behind.
        let root = config.root.clone();
        match self.set_merkle_root(root) {
            Ok(_) => {},
            Err(e) => {
                return Err(e);
            },
        }

        self.store.config = Some(config);
        self.store.metadata = Some(metadata);
        self.store.n_claims_processed = Some(0);

        Ok(
            Response {
                messages: Vec::new(),
                attributes: vec![
                    Attribute { key: "action".to_owned(), value: "instantiate".to_owned() },
                ],
            },
        )
    }

    /// One claim transition: reject if the caller has already claimed,
    /// verify the proof against the stored root, then record the claim,
    /// move the counter by one and emit the transfer instruction. Any
    /// failure leaves the store unchanged.
    pub fn claim(&mut self, merkle_proof: Vec<String>) -> (r: ExecuteResult)
        requires
            old(self).store.inv(),
            old(self).store.initialized(),
        ensures
            claim_post(*old(self), *final(self), merkle_proof.deep_view(), r),
    {
        let claimant = self.sender.clone();

        // Prevent double claims: checked before any verification, so the
        // error for a used identity is stable whatever the proof holds.
        if self.store.has_claimed(&claimant) {
            return Err(ContractError::not_authorized("claimed"));
        }

        // Apply Merkle tree verification.
        let proposed_root_hash = match compute_merkle_hash(claimant.as_str(), &merkle_proof) {
            Ok(v) => v,
            Err(e) => {
                return Err(e);
            },
        };
        let expected_root_hash = match self.load_merkle_root() {
            Ok(v) => v,
            Err(e) => {
                return Err(e);
            },
        };
        if !bytes_eq(&proposed_root_hash, &expected_root_hash) {
            return Err(ContractError::not_authorized("merkle tree verification failed"));
        }

        // Construct the payout instruction for the claimant.
        let config = match &self.store.config {
            Some(c) => c,
            None => {
                return Err(ContractError::Std { msg: "config not found".to_owned() });
            },
        };
        let transfer_submsg = config.token.transfer(claimant.as_str(), config.amount);
        let amount_value = fmt_u128(config.amount);

        // Record the claim and move the counter, as one logical unit.
        match self.store.mark_claimed(&claimant) {
            Ok(_) => {},
            Err(e) => {
                return Err(e);
            },
        }
        let n_recorded = self.store.claims.len();
        proof {
            // The counter equals the size of the claim set just recorded,
            // which fits in a vector, so adding one cannot overflow.
            assert(n_recorded == self.store.claim_ids().len());
            assert(self.store.claim_ids().len() == old(self).store.claim_ids().len() + 1);
            assert(old(self).store.n_claims_processed->0 == old(self).store.claim_ids().len());
            assert(old(self).store.n_claims_processed->0 < u64::MAX);
        }
        match self.store.increment_processed() {
            Ok(_) => {},
            Err(e) => {
                return Err(e);
            },
        }

        proof {
            let pre_ids = old(self).store.claim_ids();
            let post_ids = self.store.claim_ids();
            assert forall|i: int, j: int| 0 <= i < j < post_ids.len() implies post_ids[i]
                != post_ids[j] by {
                if j == post_ids.len() - 1 {
                    assert(post_ids[i] == pre_ids[i]);
                }
            }
        }

        Ok(
            Response {
                messages: vec![transfer_submsg],
                attributes: vec![
                    Attribute { key: "action".to_owned(), value: "claim".to_owned() },
                    Attribute { key: "amount".to_owned(), value: amount_value },
                    Attribute { key: "claimant".to_owned(), value: claimant },
                ],
            },
        )
    }
}

} // verus!
