//! The reasons for which an invocation is aborted.

use vstd::prelude::*;

verus! {

/// Why an invocation was aborted. An aborted invocation changes nothing.
#[derive(Clone, Copy, Debug, PartialEq, Eq, Structural)]
pub enum ContractError {
    /// An owner-only operation was called by another account.
    Unauthorized,
    /// The attached payment equals neither the normal nor the VIP fee.
    InvalidPaymentAmount,
    /// A ticket was to be minted before the ticket token was configured.
    TokenNotConfigured,
}

impl ContractError {
    /// The abort reason as the caller of the contract reads it.
    pub fn message(&self) -> (text: &'static str)
        ensures
            text@ == match *self {
                ContractError::Unauthorized => "Endpoint can only be called by owner"@,
                ContractError::InvalidPaymentAmount =>
                    "Registration fee is incorrect; please pay either the normal or VIP fee."@,
                ContractError::TokenNotConfigured =>
                    "NFT token ID is not set. Please set it first."@,
            },
    {
        match self {
            ContractError::Unauthorized => "Endpoint can only be called by owner",
            ContractError::InvalidPaymentAmount =>
                "Registration fee is incorrect; please pay either the normal or VIP fee.",
            ContractError::TokenNotConfigured => "NFT token ID is not set. Please set it first.",
        }
    }
}

} // verus!
