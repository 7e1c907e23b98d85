//! The persisted entities and the state handle: four independent registries,
//! two monotonic counters and two singletons, passed explicitly to every
//! operation.

use crate::ids::{dec_str, lemma_dec_str_injective};
use crate::package::ContractInfoResponse;
use crate::registry::Registry;
use vstd::prelude::*;

verus! {

/// One outstanding offer: an identified asset held in escrow against a
/// requested counter-asset. Immutable once created; removed exactly once, by
/// settlement (archived) or by exchanger withdrawal (deleted).
#[derive(Debug)]
pub struct Exchange {
    /// Collection of the offered asset (canonical identity).
    pub exchanger_token_contract_addr: Vec<u8>,
    /// Collection of the requested asset (canonical identity).
    pub receiver_token_contract_addr: Vec<u8>,
    /// The offering party (canonical identity).
    pub exchanger: Vec<u8>,
    /// The offered token.
    pub exchanger_token_id: String,
    /// The party invited to counter (canonical identity).
    pub receiver: Vec<u8>,
    /// The requested token.
    pub receiver_token_id: String,
    /// Creation time.
    pub exchange_time: u64,
}

/// At most one per exchange, keyed by the exchange's own id. Exists only
/// while a deposit of the exact requested asset is held against the offer.
#[derive(Debug)]
pub struct CounterOffer {
    /// The exchange this deposit counters.
    pub exchange_id: String,
    /// Creation time.
    pub counter_offer_time: u64,
    /// The counter-offering party (human-facing form).
    pub sender: String,
    /// Collection of the counter-offered asset (human-facing form).
    pub contract_addr: String,
    /// The counter-offered token.
    pub token_id: String,
}

/// The singleton configuration: the administrative owner, fixed at
/// initialization.
#[derive(Debug)]
pub struct Config {
    pub owner: Vec<u8>,
}

/// The whole persistent state, handed explicitly to each operation.
pub struct State {
    pub contract_info: Option<ContractInfoResponse>,
    pub config: Option<Config>,
    pub exchanges_count: u64,
    pub completed_exchanges_count: u64,
    pub exchanges: Registry<Exchange>,
    pub counter_offers: Registry<CounterOffer>,
    pub completed_exchanges: Registry<Exchange>,
}

/// `k` is an id that a counter standing at `count` has already issued.
pub open spec fn is_issued_id(k: Seq<char>, count: nat) -> bool {
    exists|n: nat| 1 <= n <= count && k == #[trigger] dec_str(n)
}

/// An id a counter has issued differs from the one it will issue next.
pub proof fn lemma_fresh_id(k: Seq<char>, count: nat)
    requires
        is_issued_id(k, count),
    ensures
        k != dec_str(count + 1),
{
    let n = choose|n: nat| 1 <= n <= count && k == #[trigger] dec_str(n);
    lemma_dec_str_injective(n, count + 1);
}

impl State {
    /// Well-formedness: registries are sorted with unique keys, and the keyed
    /// registries hold only ids their counters have issued.
    pub open spec fn wf(&self) -> bool {
        &&& self.exchanges.wf()
        &&& self.counter_offers.wf()
        &&& self.completed_exchanges.wf()
        &&& forall|i: int|
            0 <= i < self.exchanges@.len() ==> is_issued_id(
                #[trigger] self.exchanges@[i].0@,
                self.exchanges_count as nat,
            )
        &&& forall|i: int|
            0 <= i < self.completed_exchanges@.len() ==> is_issued_id(
                #[trigger] self.completed_exchanges@[i].0@,
                self.completed_exchanges_count as nat,
            )
    }

    /// The empty state, before initialization.
    pub fn new() -> (s: State)
        ensures
            s.wf(),
            s.contract_info is None,
            s.config is None,
            s.exchanges_count == 0,
            s.completed_exchanges_count == 0,
            s.exchanges@ =~= Seq::<(String, Exchange)>::empty(),
            s.counter_offers@ =~= Seq::<(String, CounterOffer)>::empty(),
            s.completed_exchanges@ =~= Seq::<(String, Exchange)>::empty(),
    {
        State {
            contract_info: None,
            config: None,
            exchanges_count: 0,
            completed_exchanges_count: 0,
            exchanges: Registry::new(),
            counter_offers: Registry::new(),
            completed_exchanges: Registry::new(),
        }
    }
}

/// The number of exchange ids issued so far.
pub fn num_exchanges(state: &State) -> (n: u64)
    ensures
        n == state.exchanges_count,
{
    state.exchanges_count
}

/// Issues the next exchange id number. The counter only ever increases.
pub fn increment_exchanges(state: &mut State) -> (n: u64)
    requires
        old(state).exchanges_count < u64::MAX,
    ensures
        n == old(state).exchanges_count + 1,
        *final(state) == (State { exchanges_count: n, ..*old(state) }),
{
    let n = state.exchanges_count + 1;
    state.exchanges_count = n;
    n
}

/// The number of archive ids issued so far.
pub fn num_completed_exchanges(state: &State) -> (n: u64)
    ensures
        n == state.completed_exchanges_count,
{
    state.completed_exchanges_count
}

/// Issues the next archive id number. The counter only ever increases.
pub fn increment_completed_exchanges(state: &mut State) -> (n: u64)
    requires
        old(state).completed_exchanges_count < u64::MAX,
    ensures
        n == old(state).completed_exchanges_count + 1,
        *final(state) == (State { completed_exchanges_count: n, ..*old(state) }),
{
    let n = state.completed_exchanges_count + 1;
    state.completed_exchanges_count = n;
    n
}

} // verus!
