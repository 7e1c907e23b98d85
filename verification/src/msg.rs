//! The protocol's inbound message surface: initialization, commands, deposit
//! notifications and queries. All fields are plain values; decoding the wire
//! form into these shapes happens outside the library.

use vstd::prelude::*;

verus! {

/// One-time initialization: sets the display name and fixes the owner to the
/// initializing identity.
#[derive(Debug)]
pub struct InstantiateMsg {
    pub name: String,
}

/// A deposit notification from an asset collection: the collection calls in
/// with the depositor, the deposited token, and an attached payload.
#[derive(Debug)]
pub struct ReceivedNft {
    /// The depositing party (human-facing form).
    pub sender: String,
    /// The deposited token's identifier.
    pub token_id: String,
    /// The decoded payload carried with the deposit.
    pub payload: ReceivePayload,
}

/// The decoded fields of a deposit-notification payload. Absent fields are
/// `None`; which ones must be present depends on the `action` discriminator.
#[derive(Debug)]
pub struct ReceivePayload {
    pub action: Option<String>,
    pub receiver_token_contract_address: Option<String>,
    pub receiver_token_id: Option<String>,
    pub receiver: Option<String>,
    pub exchange_id: Option<String>,
}

/// An exchange proposal, deposited by the offering party.
#[derive(Debug)]
pub struct ExchangeNft {
    pub receiver_token_contract_address: String,
    pub receiver_token_id: String,
    pub receiver: String,
    pub action: String,
}

/// A counter-offer proposal, deposited by the invited party.
#[derive(Debug)]
pub struct CounterOfferNft {
    pub exchange_id: String,
    pub action: String,
}

/// The bare payload discriminator.
#[derive(Debug)]
pub struct Action {
    pub action: String,
}

/// The caller-invoked command surface.
#[derive(Debug)]
pub enum ExecuteMsg {
    ExchangeNfts { exchange_id: String },
    WithdrawAllReceiversNfts {},
    WithdrawAllExchangersNfts {},
    WithdrawReceiverNft { exchange_id: String },
    WithdrawExchangerNft { exchange_id: String },
    ReceiveNft(ReceivedNft),
}

/// The read-only query surface.
#[derive(Debug)]
pub enum QueryMsg {
    GetExchanges { receiver: Option<String>, exchanger: Option<String> },
    GetCompletedExchanges { receiver: Option<String>, exchanger: Option<String> },
    GetCounterOffers { receiver: String },
}

} // verus!
