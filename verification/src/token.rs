use vstd::prelude::*;

verus! {

/// The token being airdropped, named by its denomination.
#[derive(Debug)]
pub struct Token {
    pub denom: String,
}

/// An opaque transfer instruction handed to the host: send `amount` of
/// `token` to `recipient`. The host carries it out after the claim commits;
/// this core does not observe the outcome.
#[derive(Debug)]
pub struct TransferMsg {
    pub token: Token,
    pub recipient: String,
    pub amount: u128,
}

impl Token {
    /// Builds the transfer instruction for one claim payout.
    pub fn transfer(&self, recipient: &str, amount: u128) -> (m: TransferMsg)
        ensures
            m.token == *self,
            m.recipient@ == recipient@,
            m.amount == amount,
    {
        TransferMsg {
            token: Token { denom: self.denom.clone() },
            recipient: recipient.to_owned(),
            amount,
        }
    }
}

} // verus!
