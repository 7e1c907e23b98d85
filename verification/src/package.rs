//! Outward-facing value shapes: transfer instructions for the external
//! custody service, and query responses with identities restored to their
//! human-facing form.

use vstd::prelude::*;

verus! {

/// A declarative request to move one asset to one recipient, executed outside
/// this library by an external custody service. Constructing this value
/// correctly is the library's whole obligation; it never executes transfers.
#[derive(Debug)]
pub struct TransferInstruction {
    /// The asset collection holding the token (human-facing identity).
    pub collection: String,
    /// The token to move.
    pub token_id: String,
    /// The new holder (human-facing identity).
    pub recipient: String,
}

/// The display name set at initialization.
#[derive(Debug)]
pub struct ContractInfoResponse {
    pub name: String,
}

/// One exchange, projected for queries with human-facing identities.
#[derive(Debug)]
pub struct QueryExchangesResult {
    pub id: String,
    pub exchanger_token_id: String,
    pub receiver_token_id: String,
    pub exchanger: String,
    pub receiver: String,
    pub exchanger_contract_addr: String,
    pub receiver_contract_addr: String,
    pub exchange_time: u64,
}

/// One counter-offer, projected for queries.
#[derive(Debug)]
pub struct QueryCounterOffersResult {
    pub id: String,
    pub exchange_id: String,
    pub counter_offer_time: u64,
    pub sender: String,
    pub contract_addr: String,
    pub token_id: String,
}

#[derive(Debug)]
pub struct ExchangesResponse {
    pub exchanges: Vec<QueryExchangesResult>,
}

#[derive(Debug)]
pub struct CounterOffersResponse {
    pub counter_offers: Vec<QueryCounterOffersResult>,
}

/// The result of a dispatched query.
#[derive(Debug)]
pub enum QueryAnswer {
    Exchanges(ExchangesResponse),
    CounterOffers(CounterOffersResponse),
}

} // verus!
