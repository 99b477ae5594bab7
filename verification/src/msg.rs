use vstd::prelude::*;
use crate::state::{AirdropMetadata, Config};

verus! {

/// Initialization input: the immutable config plus descriptive metadata.
pub struct InstantiateMsg {
    pub metadata: AirdropMetadata,
    pub config: Config,
}

/// The closed set of execute operations.
pub enum ExecuteMsg {
    Claim(ClaimMsg),
}

/// A claim attempt: the ordered proof path; the claimant is the caller.
pub struct ClaimMsg {
    pub proof: Vec<String>,
}

/// The closed set of queries.
pub enum QueryMsg {
    Config {},
    HasClaimed { address: String },
}

/// The migration hook re-stamps version metadata only; it carries nothing.
pub struct MigrateMsg {}

} // verus!
