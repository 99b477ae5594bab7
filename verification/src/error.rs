use vstd::prelude::*;

verus! {

/// Errors surfaced by the airdrop contract.
///
/// `NotAuthorized` is a semantic rejection of a claim attempt; its two
/// reasons ("claimed" and "merkle tree verification failed") stay
/// distinguishable so a caller can tell "already used" from "bad proof".
/// `ValidationError` reports malformed hex input in the root or in a proof
/// element. `Std` stands for errors of the underlying store, such as a read
/// of a slot that was never written.
#[derive(Debug)]
pub enum ContractError {
    NotAuthorized { reason: String },
    ValidationError { reason: String },
    Std { msg: String },
}

pub open spec fn is_not_authorized(e: ContractError, reason: Seq<char>) -> bool {
    e matches ContractError::NotAuthorized { reason: r } && r@ == reason
}

pub open spec fn is_validation_error(e: ContractError, reason: Seq<char>) -> bool {
    e matches ContractError::ValidationError { reason: r } && r@ == reason
}

impl ContractError {
    /// The fixed reason string carried by this error, for callers that
    /// only need the text.
    pub fn reason_str(&self) -> (r: &str)
        ensures
            match self {
                ContractError::NotAuthorized { reason } => r@ == reason@,
                ContractError::ValidationError { reason } => r@ == reason@,
                ContractError::Std { msg } => r@ == msg@,
            },
    {
        match self {
            ContractError::NotAuthorized { reason } => reason.as_str(),
            ContractError::ValidationError { reason } => reason.as_str(),
            ContractError::Std { msg } => msg.as_str(),
        }
    }

    pub fn not_authorized(reason: &str) -> (e: ContractError)
        ensures
            is_not_authorized(e, reason@),
    {
        ContractError::NotAuthorized { reason: reason.to_owned() }
    }

    pub fn validation_error(reason: &str) -> (e: ContractError)
        ensures
            is_validation_error(e, reason@),
    {
        ContractError::ValidationError { reason: reason.to_owned() }
    }
}

} // verus!
