//! The protocol's failure kinds. Every failure aborts the call with no state
//! mutation; none is retried internally.

use vstd::prelude::*;

verus! {

#[derive(Clone, Copy, Debug, PartialEq, Eq, Structural)]
pub enum ContractError {
    /// A referenced exchange or counter-offer is absent.
    NotFound,
    /// The caller's identity does not match the required party.
    Unauthorized,
    /// Settlement was attempted by neither matched party.
    CannotClaim,
    /// A counter-offer against one's own exchange (degenerate self-match).
    SenderIsReceiver,
    /// The counter-offered asset comes from the wrong collection.
    WrongTokenCollection,
    /// The counter-offered asset is not the requested one.
    WrongToken,
    /// Exchanger withdrawal blocked by an existing counter-offer.
    CantWithdraw,
    /// Unrecognized deposit-notification discriminator.
    WrongAction,
    /// The identity codec rejected an address.
    InvalidAddress,
    /// A malformed deposit-notification payload.
    DecodeError,
}

impl ContractError {
    /// A short description, in place of a display implementation.
    pub fn describe(&self) -> (s: &'static str)
    {
        match self {
            ContractError::NotFound => "not found",
            ContractError::Unauthorized => "unauthorized",
            ContractError::CannotClaim => "cannot claim",
            ContractError::SenderIsReceiver => "sender cannot be receiver",
            ContractError::WrongTokenCollection => "wrong token collection",
            ContractError::WrongToken => "wrong token received",
            ContractError::CantWithdraw => "withdrawal not available",
            ContractError::WrongAction => "wrong action",
            ContractError::InvalidAddress => "invalid address",
            ContractError::DecodeError => "malformed payload",
        }
    }
}

} // verus!
