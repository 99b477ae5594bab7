use vstd::prelude::*;
use crate::error::{is_not_authorized, ContractError};
use crate::state::{claim_decision, claim_post, ClaimDecision, ExecuteContext, ExecuteResult};

verus! {

/// Two errors carry the same variant and the same reason text.
pub open spec fn same_error(a: ContractError, b: ContractError) -> bool {
    match (a, b) {
        (
            ContractError::NotAuthorized { reason: ra },
            ContractError::NotAuthorized { reason: rb },
        ) => ra@ == rb@,
        (
            ContractError::ValidationError { reason: ra },
            ContractError::ValidationError { reason: rb },
        ) => ra@ == rb@,
        (ContractError::Std { msg: ma }, ContractError::Std { msg: mb }) => ma@ == mb@,
        _ => false,
    }
}

/// A claim succeeds exactly once: when a first claim is accepted, a second
/// claim by the same identity — whatever proof it carries — fails as
/// already claimed and moves nothing.
pub proof fn lemma_claim_is_one_shot(
    s0: ExecuteContext,
    s1: ExecuteContext,
    s2: ExecuteContext,
    first_proof: Seq<Seq<char>>,
    second_proof: Seq<Seq<char>>,
    r1: ExecuteResult,
    r2: ExecuteResult,
)
    requires
        claim_post(s0, s1, first_proof, r1),
        claim_post(s1, s2, second_proof, r2),
        claim_decision(s0.store, s0.sender@, first_proof) is Accepted,
    ensures
        r1 is Ok,
        r2 matches Err(e) && is_not_authorized(e, "claimed"@),
        s2.store == s1.store,
{
    assert(s1.store.claim_ids()[s0.store.claim_ids().len() as int] == s0.sender@);
    assert(s1.store.has_claim(s1.sender@));
}

/// Failed claims are idempotent: after a claim that was not accepted, the
/// store is exactly what it was, so repeating the same claim yields the
/// same error, and the processed counter never moves.
pub proof fn lemma_failed_claim_idempotent(
    s0: ExecuteContext,
    s1: ExecuteContext,
    s2: ExecuteContext,
    merkle_proof: Seq<Seq<char>>,
    r1: ExecuteResult,
    r2: ExecuteResult,
)
    requires
        claim_post(s0, s1, merkle_proof, r1),
        claim_post(s1, s2, merkle_proof, r2),
        !(claim_decision(s0.store, s0.sender@, merkle_proof) is Accepted),
    ensures
        s1.store == s0.store,
        s2.store == s0.store,
        r1 is Err && r2 is Err && same_error(r1->Err_0, r2->Err_0),
        s2.store.n_claims_processed == s0.store.n_claims_processed,
{
}

/// Once recorded, a claim stays recorded: any later claim — by any caller,
/// with any outcome — leaves every already-claimed identity claimed.
pub proof fn lemma_claimed_stays_claimed(
    pre: ExecuteContext,
    post: ExecuteContext,
    id: Seq<char>,
    merkle_proof: Seq<Seq<char>>,
    r: ExecuteResult,
)
    requires
        claim_post(pre, post, merkle_proof, r),
        pre.store.has_claim(id),
    ensures
        post.store.has_claim(id),
{
    if claim_decision(pre.store, pre.sender@, merkle_proof) is Accepted {
        let i = choose|i: int|
            0 <= i < pre.store.claim_ids().len() && pre.store.claim_ids()[i] == id;
        assert(post.store.claim_ids()[i] == id);
    }
}

} // verus!
