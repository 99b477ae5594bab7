use vstd::prelude::*;
use crate::error::ContractError;
use crate::responses::{ConfigResponse, HasClaimedResponse};
use crate::state::QueryContext;

verus! {

/// Read-only query: has this address already claimed? A pure lookup, with
/// no authorization required.
pub fn query_has_claim(ctx: QueryContext, claimant: String) -> (r: Result<
    HasClaimedResponse,
    ContractError,
>)
    ensures
        r matches Ok(resp) && resp.has_claimed == ctx.store.has_claim(claimant@),
{
    Ok(HasClaimedResponse { has_claimed: ctx.store.has_claimed(&claimant) })
}

/// Read-only query: the full stored config record. Fails with a storage
/// error when called before initialization.
pub fn query_config(ctx: QueryContext) -> (r: Result<ConfigResponse, ContractError>)
    ensures
        match ctx.store.config {
            Some(c) => r matches Ok(resp) && resp.0 == c,
            None => r matches Err(e) && e matches ContractError::Std { .. },
        },
{
    match ctx.store.config {
        Some(c) => Ok(ConfigResponse(c)),
        None => Err(ContractError::Std { msg: "config not found".to_owned() }),
    }
}

} // verus!
