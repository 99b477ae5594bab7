use vstd::prelude::*;
use crate::error::ContractError;
use crate::msg::{ClaimMsg, ExecuteMsg, QueryMsg};
use crate::query::{query_config, query_has_claim};
use crate::responses::{ConfigResponse, HasClaimedResponse};
use crate::state::{claim_post, ExecuteContext, ExecuteResult, QueryContext};

verus! {

/// An answer of the query dispatcher, one arm per query. The surrounding
/// plumbing serializes it for the host.
#[derive(Debug)]
pub enum QueryAnswer {
    Config(ConfigResponse),
    HasClaimed(HasClaimedResponse),
}

/// Handler of one claim message: the caller held in the context claims
/// with the proof the message carries.
pub fn exec_claim(ctx: &mut ExecuteContext, msg: ClaimMsg) -> (r: ExecuteResult)
    requires
        old(ctx).store.inv(),
        old(ctx).store.initialized(),
    ensures
        claim_post(*old(ctx), *final(ctx), msg.proof.deep_view(), r),
{
    ctx.claim(msg.proof)
}

/// Dispatches one execute message to its handler.
pub fn execute(ctx: &mut ExecuteContext, msg: ExecuteMsg) -> (r: ExecuteResult)
    requires
        old(ctx).store.inv(),
        old(ctx).store.initialized(),
    ensures
        msg matches ExecuteMsg::Claim(m) ==> claim_post(
            *old(ctx),
            *final(ctx),
            m.proof.deep_view(),
            r,
        ),
{
    match msg {
        ExecuteMsg::Claim(m) => exec_claim(ctx, m),
    }
}

/// Dispatches one query message to its handler.
pub fn query(ctx: QueryContext, msg: QueryMsg) -> (r: Result<QueryAnswer, ContractError>)
    ensures
        match msg {
            QueryMsg::Config {  } => match ctx.store.config {
                Some(c) => r matches Ok(a) && a matches QueryAnswer::Config(resp) && resp.0 == c,
                None => r matches Err(e) && e matches ContractError::Std { .. },
            },
            QueryMsg::HasClaimed { address } => r matches Ok(a) && a
                matches QueryAnswer::HasClaimed(resp) && resp.has_claimed == ctx.store.has_claim(
                address@,
            ),
        },
{
    match msg {
        QueryMsg::Config {  } => match query_config(ctx) {
            Ok(resp) => Ok(QueryAnswer::Config(resp)),
            Err(e) => Err(e),
        },
        QueryMsg::HasClaimed { address } => match query_has_claim(ctx, address) {
            Ok(resp) => Ok(QueryAnswer::HasClaimed(resp)),
            Err(e) => Err(e),
        },
    }
}

} // verus!
