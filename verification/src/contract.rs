//! The exchange/counter-offer lifecycle: creation, matching, authorization,
//! settlement, withdrawal, bulk recovery, and the read-only query layer.
//!
//! Every operation takes the state handle explicitly, re-reads what it needs
//! and re-writes what it changes within the call; a failed call leaves the
//! state exactly as it was.

use crate::addr::{addr_canonicalize, addr_humanize, bytes_eq, canon_of, human_of};
use crate::error::ContractError;
use crate::ids::{dec_str, lemma_dec_str_lex_monotonic, lex_lt, str_eq, u64_to_dec};
use crate::msg::{CounterOfferNft, ExchangeNft, ExecuteMsg, InstantiateMsg, QueryMsg, ReceivePayload,
    ReceivedNft};
use crate::package::{ContractInfoResponse, CounterOffersResponse, ExchangesResponse, QueryAnswer,
    QueryCounterOffersResult, QueryExchangesResult, TransferInstruction};
use crate::registry::{reg_contains, reg_find, reg_idx, Registry};
use crate::state::{is_issued_id, lemma_fresh_id, increment_completed_exchanges,
    increment_exchanges, Config, CounterOffer, Exchange, State};
use vstd::prelude::*;

verus! {

/// `m` instructs the custody service to move `token_id` of the collection
/// `collection` to `recipient` (both given canonically, carried humanized).
pub open spec fn instr_is(
    m: TransferInstruction,
    collection: Seq<u8>,
    recipient: Seq<u8>,
    token_id: Seq<char>,
) -> bool {
    &&& human_of(collection) is Some
    &&& human_of(recipient) is Some
    &&& m.collection@ == human_of(collection).unwrap()
    &&& m.recipient@ == human_of(recipient).unwrap()
    &&& m.token_id@ == token_id
}

/// Constructs the transfer instruction moving `token_id` of `contract_addr`
/// to `recipient`, restoring both identities to human-facing form.
pub fn transfer_nft(contract_addr: &Vec<u8>, recipient: &Vec<u8>, token_id: &String) -> (r:
    Result<TransferInstruction, ContractError>)
    ensures
        r is Ok <==> human_of(contract_addr@) is Some && human_of(recipient@) is Some,
        r is Ok ==> instr_is(r->Ok_0, contract_addr@, recipient@, token_id@),
        r is Err ==> r->Err_0 == ContractError::InvalidAddress,
{
    let recipient_h = match addr_humanize(recipient) {
        Some(h) => h,
        None => {
            return Err(ContractError::InvalidAddress);
        },
    };
    let contract_h = match addr_humanize(contract_addr) {
        Some(h) => h,
        None => {
            return Err(ContractError::InvalidAddress);
        },
    };
    Ok(TransferInstruction { collection: contract_h, token_id: token_id.clone(), recipient: recipient_h })
}

/// One-time initialization: records the display name and fixes the owner to
/// the initializing identity.
pub fn instantiate(state: &mut State, info_sender: &String, msg: InstantiateMsg) -> (r: Result<
    (),
    ContractError,
>)
    requires
        old(state).wf(),
    ensures
        final(state).wf(),
        r is Ok <==> canon_of(info_sender@) is Some,
        r is Err ==> *final(state) == *old(state) && r->Err_0 == ContractError::InvalidAddress,
        r is Ok ==> ({
            &&& final(state).config is Some
            &&& final(state).config.unwrap().owner@ == canon_of(info_sender@).unwrap()
            &&& final(state).contract_info is Some
            &&& final(state).contract_info.unwrap().name == msg.name
            &&& final(state).exchanges == old(state).exchanges
            &&& final(state).counter_offers == old(state).counter_offers
            &&& final(state).completed_exchanges == old(state).completed_exchanges
            &&& final(state).exchanges_count == old(state).exchanges_count
            &&& final(state).completed_exchanges_count == old(state).completed_exchanges_count
        }),
{
    let owner = match addr_canonicalize(info_sender.as_str()) {
        Some(c) => c,
        None => {
            return Err(ContractError::InvalidAddress);
        },
    };
    state.config = Some(Config { owner });
    state.contract_info = Some(ContractInfoResponse { name: msg.name });
    Ok(())
}

/// All four identities of a proposal canonicalize, so creation is owed.
pub open spec fn exchanger_receive_accepts(
    msg: ExchangeNft,
    info_sender: Seq<char>,
    rcv_sender: Seq<char>,
) -> bool {
    &&& canon_of(msg.receiver_token_contract_address@) is Some
    &&& canon_of(info_sender) is Some
    &&& canon_of(msg.receiver@) is Some
    &&& canon_of(rcv_sender) is Some
}

/// The exchange persisted for a proposal: the depositor becomes the
/// exchanger, the deposited token the offered asset, and the requested
/// collection, token and invited party are copied from the proposal.
pub open spec fn created_exchange(
    e: Exchange,
    msg: ExchangeNft,
    info_sender: Seq<char>,
    rcv_sender: Seq<char>,
    token_id: Seq<char>,
    now: u64,
) -> bool {
    &&& e.receiver_token_contract_addr@ == canon_of(msg.receiver_token_contract_address@).unwrap()
    &&& e.exchanger_token_contract_addr@ == canon_of(info_sender).unwrap()
    &&& e.exchanger@ == canon_of(rcv_sender).unwrap()
    &&& e.receiver@ == canon_of(msg.receiver@).unwrap()
    &&& e.exchanger_token_id@ == token_id
    &&& e.receiver_token_id@ == msg.receiver_token_id@
    &&& e.exchange_time == now
}

/// After an accepted exchange creation: a fresh exchange stands under the
/// next issued id and nothing else moved.
pub open spec fn exchanger_received_state(
    pre: State,
    post: State,
    msg: ExchangeNft,
    info_sender: Seq<char>,
    rcv_sender: Seq<char>,
    token_id: Seq<char>,
    now: u64,
) -> bool {
    let id = dec_str((pre.exchanges_count + 1) as nat);
    &&& post.exchanges_count == pre.exchanges_count + 1
    &&& reg_find(post.exchanges@, id) is Some
    &&& created_exchange(
        reg_find(post.exchanges@, id).unwrap(),
        msg,
        info_sender,
        rcv_sender,
        token_id,
        now,
    )
    &&& forall|k: Seq<char>|
        k != id ==> reg_find(post.exchanges@, k) == reg_find(pre.exchanges@, k)
    &&& post.exchanges@.len() == pre.exchanges@.len() + 1
    &&& post.counter_offers == pre.counter_offers
    &&& post.completed_exchanges == pre.completed_exchanges
    &&& post.completed_exchanges_count == pre.completed_exchanges_count
    &&& post.config == pre.config
    &&& post.contract_info == pre.contract_info
}

/// Creation: allocates the next exchange id and persists a new exchange
/// under it. No uniqueness check against existing offers of the same asset
/// is performed; duplicate offers are permitted by design.
pub fn try_exchanger_receive(
    state: &mut State,
    now: u64,
    info_sender: &String,
    rcv_sender: &String,
    rcv_token_id: &String,
    msg: &ExchangeNft,
) -> (r: Result<String, ContractError>)
    requires
        old(state).wf(),
        old(state).exchanges_count < u64::MAX,
    ensures
        final(state).wf(),
        r is Ok <==> exchanger_receive_accepts(*msg, info_sender@, rcv_sender@),
        r is Err ==> *final(state) == *old(state) && r->Err_0 == ContractError::InvalidAddress,
        r is Ok ==> r->Ok_0@ == dec_str((old(state).exchanges_count + 1) as nat)
            && exchanger_received_state(
            *old(state),
            *final(state),
            *msg,
            info_sender@,
            rcv_sender@,
            rcv_token_id@,
            now,
        ),
{
    let receiver_contract = match addr_canonicalize(msg.receiver_token_contract_address.as_str()) {
        Some(c) => c,
        None => {
            return Err(ContractError::InvalidAddress);
        },
    };
    let exchanger_contract = match addr_canonicalize(info_sender.as_str()) {
        Some(c) => c,
        None => {
            return Err(ContractError::InvalidAddress);
        },
    };
    let receiver = match addr_canonicalize(msg.receiver.as_str()) {
        Some(c) => c,
        None => {
            return Err(ContractError::InvalidAddress);
        },
    };
    let exchanger = match addr_canonicalize(rcv_sender.as_str()) {
        Some(c) => c,
        None => {
            return Err(ContractError::InvalidAddress);
        },
    };
    let n = increment_exchanges(state);
    let id = u64_to_dec(n);
    let exchange = Exchange {
        receiver_token_contract_addr: receiver_contract,
        exchanger_token_contract_addr: exchanger_contract,
        exchanger_token_id: rcv_token_id.clone(),
        receiver_token_id: msg.receiver_token_id.clone(),
        receiver,
        exchanger,
        exchange_time: now,
    };
    proof {
        if reg_contains(state.exchanges@, id@) {
            let w = reg_idx(state.exchanges@, id@);
            assert(is_issued_id(state.exchanges@[w].0@, old(state).exchanges_count as nat));
            lemma_fresh_id(id@, old(state).exchanges_count as nat);
        }
    }
    state.exchanges.insert(id.clone(), exchange);
    proof {
        assert(is_issued_id(id@, n as nat)) by {
            assert(1 <= n as nat <= n as nat && id@ == dec_str(n as nat));
        }
        assert forall|i: int| 0 <= i < state.exchanges@.len() implies is_issued_id(
            #[trigger] state.exchanges@[i].0@,
            n as nat,
        ) by {
            let k = state.exchanges@[i].0@;
            if k != id@ {
                assert(reg_contains(old(state).exchanges@, k));
                let w = reg_idx(old(state).exchanges@, k);
                assert(is_issued_id(old(state).exchanges@[w].0@, old(state).exchanges_count as nat));
                let m = choose|m: nat|
                    1 <= m <= old(state).exchanges_count as nat && k == #[trigger] dec_str(m);
                assert(1 <= m <= n as nat && k == dec_str(m));
            }
        }
    }
    Ok(id)
}

/// The failure, if any, that a counter-offer deposit meets, checked in order:
/// the exchange must exist, must not be a self-exchange, the deposit must
/// come from the requested collection, carry the requested token, and be
/// sent by the invited receiver.
pub open spec fn receiver_receive_err(
    s: State,
    exchange_id: Seq<char>,
    info_sender: Seq<char>,
    rcv_sender: Seq<char>,
    token_id: Seq<char>,
) -> Option<ContractError> {
    if reg_find(s.exchanges@, exchange_id) is None {
        Some(ContractError::NotFound)
    } else {
        let e = reg_find(s.exchanges@, exchange_id).unwrap();
        if e.receiver@ == e.exchanger@ {
            Some(ContractError::SenderIsReceiver)
        } else if canon_of(info_sender) is None {
            Some(ContractError::InvalidAddress)
        } else if e.receiver_token_contract_addr@ != canon_of(info_sender).unwrap() {
            Some(ContractError::WrongTokenCollection)
        } else if e.receiver_token_id@ != token_id {
            Some(ContractError::WrongToken)
        } else if canon_of(rcv_sender) is None {
            Some(ContractError::InvalidAddress)
        } else if e.receiver@ != canon_of(rcv_sender).unwrap() {
            Some(ContractError::Unauthorized)
        } else if human_of(e.receiver_token_contract_addr@) is None {
            Some(ContractError::InvalidAddress)
        } else {
            None
        }
    }
}

/// The counter-offer persisted for an accepted deposit: keyed by the
/// exchange's id, carrying the depositor and the requested asset.
pub open spec fn created_counter_offer(
    co: CounterOffer,
    s: State,
    exchange_id: Seq<char>,
    rcv_sender: Seq<char>,
    now: u64,
) -> bool {
    let e = reg_find(s.exchanges@, exchange_id).unwrap();
    &&& co.exchange_id@ == exchange_id
    &&& co.sender@ == rcv_sender
    &&& co.contract_addr@ == human_of(e.receiver_token_contract_addr@).unwrap()
    &&& co.token_id@ == e.receiver_token_id@
    &&& co.counter_offer_time == now
}

/// After an accepted counter-offer deposit: the counter-offer stands under
/// the exchange's id (any prior one overwritten) and nothing else moved.
pub open spec fn receiver_received_state(
    pre: State,
    post: State,
    exchange_id: Seq<char>,
    rcv_sender: Seq<char>,
    now: u64,
) -> bool {
    &&& reg_find(post.counter_offers@, exchange_id) is Some
    &&& created_counter_offer(
        reg_find(post.counter_offers@, exchange_id).unwrap(),
        pre,
        exchange_id,
        rcv_sender,
        now,
    )
    &&& forall|k: Seq<char>|
        k != exchange_id ==> reg_find(post.counter_offers@, k) == reg_find(
            pre.counter_offers@,
            k,
        )
    &&& post.counter_offers@.len() == if reg_contains(pre.counter_offers@, exchange_id) {
        pre.counter_offers@.len() as int
    } else {
        pre.counter_offers@.len() + 1int
    }
    &&& post.exchanges == pre.exchanges
    &&& post.completed_exchanges == pre.completed_exchanges
    &&& post.exchanges_count == pre.exchanges_count
    &&& post.completed_exchanges_count == pre.completed_exchanges_count
    &&& post.config == pre.config
    &&& post.contract_info == pre.contract_info
}

/// Counter-offer creation: validates the deposit against the existing
/// exchange and persists it under the exchange's id, overwriting any prior
/// counter-offer for that exchange (last writer wins, by design).
pub fn try_receiver_receive(
    state: &mut State,
    now: u64,
    info_sender: &String,
    rcv_sender: &String,
    rcv_token_id: &String,
    msg: &CounterOfferNft,
) -> (r: Result<(), ContractError>)
    requires
        old(state).wf(),
    ensures
        final(state).wf(),
        match receiver_receive_err(
            *old(state),
            msg.exchange_id@,
            info_sender@,
            rcv_sender@,
            rcv_token_id@,
        ) {
            Some(e) => r == Err::<(), ContractError>(e) && *final(state) == *old(state),
            None => r is Ok && receiver_received_state(
                *old(state),
                *final(state),
                msg.exchange_id@,
                rcv_sender@,
                now,
            ),
        },
{
    let ex = match state.exchanges.get(msg.exchange_id.as_str()) {
        Some(e) => e,
        None => {
            return Err(ContractError::NotFound);
        },
    };
    if bytes_eq(&ex.receiver, &ex.exchanger) {
        return Err(ContractError::SenderIsReceiver);
    }
    let sender_canon = match addr_canonicalize(info_sender.as_str()) {
        Some(c) => c,
        None => {
            return Err(ContractError::InvalidAddress);
        },
    };
    if !bytes_eq(&ex.receiver_token_contract_addr, &sender_canon) {
        return Err(ContractError::WrongTokenCollection);
    }
    if !str_eq(ex.receiver_token_id.as_str(), rcv_token_id.as_str()) {
        return Err(ContractError::WrongToken);
    }
    let rcv_canon = match addr_canonicalize(rcv_sender.as_str()) {
        Some(c) => c,
        None => {
            return Err(ContractError::InvalidAddress);
        },
    };
    if !bytes_eq(&ex.receiver, &rcv_canon) {
        return Err(ContractError::Unauthorized);
    }
    let contract_h = match addr_humanize(&ex.receiver_token_contract_addr) {
        Some(h) => h,
        None => {
            return Err(ContractError::InvalidAddress);
        },
    };
    let counter_offer = CounterOffer {
        sender: rcv_sender.clone(),
        exchange_id: msg.exchange_id.clone(),
        contract_addr: contract_h,
        token_id: ex.receiver_token_id.clone(),
        counter_offer_time: now,
    };
    state.counter_offers.insert(msg.exchange_id.clone(), counter_offer);
    Ok(())
}

/// The failure, if any, that settlement meets: both the exchange and its
/// counter-offer must exist, and the caller must be one of the matched
/// parties.
pub open spec fn exchange_err(s: State, exchange_id: Seq<char>, sender: Seq<char>) -> Option<
    ContractError,
> {
    if reg_find(s.exchanges@, exchange_id) is None {
        Some(ContractError::NotFound)
    } else if reg_find(s.counter_offers@, exchange_id) is None {
        Some(ContractError::NotFound)
    } else {
        let ex = reg_find(s.exchanges@, exchange_id).unwrap();
        let co = reg_find(s.counter_offers@, exchange_id).unwrap();
        if canon_of(sender) is None {
            Some(ContractError::InvalidAddress)
        } else if !(ex.exchanger@ == canon_of(sender).unwrap() || co.sender@ == sender) {
            Some(ContractError::CannotClaim)
        } else if human_of(ex.receiver@) is None || human_of(ex.exchanger_token_contract_addr@)
            is None || human_of(ex.exchanger@) is None || human_of(
            ex.receiver_token_contract_addr@,
        ) is None {
            Some(ContractError::InvalidAddress)
        } else {
            None
        }
    }
}

/// After settlement: the exchange and its counter-offer are gone from their
/// ledgers, the exchange (unchanged) is archived under the next archive id,
/// and nothing else moved.
pub open spec fn settled_state(pre: State, post: State, exchange_id: Seq<char>) -> bool {
    let ex = reg_find(pre.exchanges@, exchange_id).unwrap();
    let archive_id = dec_str((pre.completed_exchanges_count + 1) as nat);
    &&& post.exchanges_count == pre.exchanges_count
    &&& post.completed_exchanges_count == pre.completed_exchanges_count + 1
    &&& reg_find(post.exchanges@, exchange_id) is None
    &&& reg_find(post.counter_offers@, exchange_id) is None
    &&& forall|k: Seq<char>|
        k != exchange_id ==> reg_find(post.exchanges@, k) == reg_find(pre.exchanges@, k)
    &&& forall|k: Seq<char>|
        k != exchange_id ==> reg_find(post.counter_offers@, k) == reg_find(
            pre.counter_offers@,
            k,
        )
    &&& post.exchanges@.len() == pre.exchanges@.len() - 1
    &&& post.counter_offers@.len() == pre.counter_offers@.len() - 1
    &&& reg_find(post.completed_exchanges@, archive_id) == Some(ex)
    &&& forall|k: Seq<char>|
        k != archive_id ==> reg_find(post.completed_exchanges@, k) == reg_find(
            pre.completed_exchanges@,
            k,
        )
    &&& post.completed_exchanges@.len() == pre.completed_exchanges@.len() + 1
    &&& post.config == pre.config
    &&& post.contract_info == pre.contract_info
}

/// The two settlement instructions: the exchanger's deposit moves to the
/// receiver, and the requested asset moves to the exchanger.
pub open spec fn settlement_msgs(
    pre: State,
    exchange_id: Seq<char>,
    msgs: Seq<TransferInstruction>,
) -> bool {
    let ex = reg_find(pre.exchanges@, exchange_id).unwrap();
    &&& msgs.len() == 2
    &&& instr_is(msgs[0], ex.exchanger_token_contract_addr@, ex.receiver@, ex.exchanger_token_id@)
    &&& instr_is(msgs[1], ex.receiver_token_contract_addr@, ex.exchanger@, ex.receiver_token_id@)
}

/// The whole settlement contract: the decided failure with the state
/// untouched, or the settled state with the two instructions.
pub open spec fn exchange_post(
    pre: State,
    post: State,
    exchange_id: Seq<char>,
    sender: Seq<char>,
    r: Result<Vec<TransferInstruction>, ContractError>,
) -> bool {
    match exchange_err(pre, exchange_id, sender) {
        Some(e) => r == Err::<Vec<TransferInstruction>, ContractError>(e) && post == pre,
        None => r is Ok && settled_state(pre, post, exchange_id) && settlement_msgs(
            pre,
            exchange_id,
            r->Ok_0@,
        ),
    }
}

/// Settlement: either matched party may trigger it once a counter-offer
/// stands; it emits the two paired transfer instructions, archives the
/// exchange, and deletes both ledger entries.
pub fn try_exchange(state: &mut State, info_sender: &String, exchange_id: &String) -> (r: Result<
    Vec<TransferInstruction>,
    ContractError,
>)
    requires
        old(state).wf(),
        old(state).completed_exchanges_count < u64::MAX,
    ensures
        final(state).wf(),
        exchange_post(*old(state), *final(state), exchange_id@, info_sender@, r),
        r is Ok ==> reg_find(old(state).exchanges@, exchange_id@) is Some && reg_find(
            old(state).counter_offers@,
            exchange_id@,
        ) is Some,
{
    let ex = match state.exchanges.get(exchange_id.as_str()) {
        Some(e) => e,
        None => {
            return Err(ContractError::NotFound);
        },
    };
    let co = match state.counter_offers.get(exchange_id.as_str()) {
        Some(c) => c,
        None => {
            return Err(ContractError::NotFound);
        },
    };
    let sender_canon = match addr_canonicalize(info_sender.as_str()) {
        Some(c) => c,
        None => {
            return Err(ContractError::InvalidAddress);
        },
    };
    let authorized = bytes_eq(&ex.exchanger, &sender_canon) || str_eq(
        co.sender.as_str(),
        info_sender.as_str(),
    );
    if !authorized {
        return Err(ContractError::CannotClaim);
    }
    let inst1 = match transfer_nft(&ex.exchanger_token_contract_addr, &ex.receiver, &ex.exchanger_token_id) {
        Ok(m) => m,
        Err(e) => {
            return Err(e);
        },
    };
    let inst2 = match transfer_nft(&ex.receiver_token_contract_addr, &ex.exchanger, &ex.receiver_token_id) {
        Ok(m) => m,
        Err(e) => {
            return Err(e);
        },
    };
    let n = increment_completed_exchanges(state);
    let archive_id = u64_to_dec(n);
    proof {
        if reg_contains(state.completed_exchanges@, archive_id@) {
            let w = reg_idx(state.completed_exchanges@, archive_id@);
            assert(is_issued_id(
                state.completed_exchanges@[w].0@,
                old(state).completed_exchanges_count as nat,
            ));
            lemma_fresh_id(archive_id@, old(state).completed_exchanges_count as nat);
        }
    }
    let ex_owned = state.exchanges.remove(exchange_id.as_str()).unwrap();
    state.completed_exchanges.insert(archive_id, ex_owned);
    let ghost archive_key = dec_str(n as nat);
    let _removed_co = state.counter_offers.remove(exchange_id.as_str());
    proof {
        assert(is_issued_id(archive_key, n as nat)) by {
            assert(1 <= n as nat <= n as nat && archive_key == dec_str(n as nat));
        }
        assert forall|i: int| 0 <= i < state.completed_exchanges@.len() implies is_issued_id(
            #[trigger] state.completed_exchanges@[i].0@,
            n as nat,
        ) by {
            let k = state.completed_exchanges@[i].0@;
            if k != archive_key {
                assert(reg_contains(old(state).completed_exchanges@, k));
                let w = reg_idx(old(state).completed_exchanges@, k);
                assert(is_issued_id(
                    old(state).completed_exchanges@[w].0@,
                    old(state).completed_exchanges_count as nat,
                ));
                let m = choose|m: nat|
                    1 <= m <= old(state).completed_exchanges_count as nat && k == #[trigger] dec_str(
                        m,
                    );
                assert(1 <= m <= n as nat && k == dec_str(m));
            }
        }
        assert forall|i: int| 0 <= i < state.exchanges@.len() implies is_issued_id(
            #[trigger] state.exchanges@[i].0@,
            state.exchanges_count as nat,
        ) by {
            let k = state.exchanges@[i].0@;
            assert(reg_contains(old(state).exchanges@, k));
            let w = reg_idx(old(state).exchanges@, k);
            assert(is_issued_id(old(state).exchanges@[w].0@, old(state).exchanges_count as nat));
        }
    }
    let mut msgs: Vec<TransferInstruction> = Vec::new();
    msgs.push(inst1);
    msgs.push(inst2);
    Ok(msgs)
}

/// The failure, if any, that an exchanger withdrawal meets. It fails with
/// `CantWithdraw` exactly where a counter-offer for the exchange stands:
/// once countered, the exchanger's only path forward is settlement.
pub open spec fn exchanger_withdraw_err(s: State, exchange_id: Seq<char>, sender: Seq<char>)
    -> Option<ContractError> {
    if reg_find(s.counter_offers@, exchange_id) is Some {
        Some(ContractError::CantWithdraw)
    } else if reg_find(s.exchanges@, exchange_id) is None {
        Some(ContractError::NotFound)
    } else {
        let ex = reg_find(s.exchanges@, exchange_id).unwrap();
        if canon_of(sender) is None {
            Some(ContractError::InvalidAddress)
        } else if ex.exchanger@ == canon_of(sender).unwrap() {
            if human_of(ex.exchanger@) is None || human_of(ex.exchanger_token_contract_addr@)
                is None {
                Some(ContractError::InvalidAddress)
            } else {
                None
            }
        } else {
            Some(ContractError::Unauthorized)
        }
    }
}

/// After an exchanger withdrawal: the exchange is gone, nothing else moved,
/// and no archive entry was created.
pub open spec fn exchanger_withdrawn_state(pre: State, post: State, exchange_id: Seq<char>)
    -> bool {
    &&& reg_find(post.exchanges@, exchange_id) is None
    &&& forall|k: Seq<char>|
        k != exchange_id ==> reg_find(post.exchanges@, k) == reg_find(pre.exchanges@, k)
    &&& post.exchanges@.len() == pre.exchanges@.len() - 1
    &&& post.counter_offers == pre.counter_offers
    &&& post.completed_exchanges == pre.completed_exchanges
    &&& post.exchanges_count == pre.exchanges_count
    &&& post.completed_exchanges_count == pre.completed_exchanges_count
    &&& post.config == pre.config
    &&& post.contract_info == pre.contract_info
}

/// The whole exchanger-withdrawal contract.
pub open spec fn exchanger_withdraw_post(
    pre: State,
    post: State,
    exchange_id: Seq<char>,
    sender: Seq<char>,
    r: Result<Vec<TransferInstruction>, ContractError>,
) -> bool {
    match exchanger_withdraw_err(pre, exchange_id, sender) {
        Some(e) => r == Err::<Vec<TransferInstruction>, ContractError>(e) && post == pre,
        None => ({
            let ex = reg_find(pre.exchanges@, exchange_id).unwrap();
            &&& r is Ok
            &&& exchanger_withdrawn_state(pre, post, exchange_id)
            &&& r->Ok_0@.len() == 1
            &&& instr_is(
                r->Ok_0@[0],
                ex.exchanger_token_contract_addr@,
                ex.exchanger@,
                ex.exchanger_token_id@,
            )
        }),
    }
}

/// Exchanger withdrawal: absent a counter-offer, the offering party reclaims
/// its deposit and the exchange is deleted outright. It fails with
/// `CantWithdraw` if and only if a counter-offer for the exchange stands at
/// call time.
pub fn try_exchanger_withdraw(state: &mut State, info_sender: &String, exchange_id: &String) -> (r:
    Result<Vec<TransferInstruction>, ContractError>)
    requires
        old(state).wf(),
    ensures
        final(state).wf(),
        exchanger_withdraw_post(*old(state), *final(state), exchange_id@, info_sender@, r),
        r == Err::<Vec<TransferInstruction>, ContractError>(ContractError::CantWithdraw)
            <==> reg_find(old(state).counter_offers@, exchange_id@) is Some,
{
    let counter_offer_exists = match state.counter_offers.get(exchange_id.as_str()) {
        Some(_) => true,
        None => false,
    };
    if counter_offer_exists {
        return Err(ContractError::CantWithdraw);
    }
    let ex = match state.exchanges.get(exchange_id.as_str()) {
        Some(e) => e,
        None => {
            return Err(ContractError::NotFound);
        },
    };
    let sender_canon = match addr_canonicalize(info_sender.as_str()) {
        Some(c) => c,
        None => {
            return Err(ContractError::InvalidAddress);
        },
    };
    if !bytes_eq(&ex.exchanger, &sender_canon) {
        return Err(ContractError::Unauthorized);
    }
    let inst = match transfer_nft(&ex.exchanger_token_contract_addr, &ex.exchanger, &ex.exchanger_token_id) {
        Ok(m) => m,
        Err(e) => {
            return Err(e);
        },
    };
    let _removed = state.exchanges.remove(exchange_id.as_str());
    proof {
        assert forall|i: int| 0 <= i < state.exchanges@.len() implies is_issued_id(
            #[trigger] state.exchanges@[i].0@,
            state.exchanges_count as nat,
        ) by {
            let k = state.exchanges@[i].0@;
            assert(reg_contains(old(state).exchanges@, k));
            let w = reg_idx(old(state).exchanges@, k);
            assert(is_issued_id(old(state).exchanges@[w].0@, old(state).exchanges_count as nat));
        }
    }
    let mut msgs: Vec<TransferInstruction> = Vec::new();
    msgs.push(inst);
    Ok(msgs)
}

/// The failure, if any, that a receiver withdrawal meets: the counter-offer
/// must exist and the caller must be its sender.
pub open spec fn receiver_withdraw_err(s: State, exchange_id: Seq<char>, sender: Seq<char>)
    -> Option<ContractError> {
    if reg_find(s.counter_offers@, exchange_id) is None {
        Some(ContractError::NotFound)
    } else {
        let co = reg_find(s.counter_offers@, exchange_id).unwrap();
        if co.sender@ == sender {
            if canon_of(co.contract_addr@) is None || canon_of(co.sender@) is None {
                Some(ContractError::InvalidAddress)
            } else if human_of(canon_of(co.sender@).unwrap()) is None || human_of(
                canon_of(co.contract_addr@).unwrap(),
            ) is None {
                Some(ContractError::InvalidAddress)
            } else {
                None
            }
        } else {
            Some(ContractError::Unauthorized)
        }
    }
}

/// After a receiver withdrawal: the counter-offer is gone and the exchange
/// survives, open for a new counter-offer.
pub open spec fn receiver_withdrawn_state(pre: State, post: State, exchange_id: Seq<char>)
    -> bool {
    &&& reg_find(post.counter_offers@, exchange_id) is None
    &&& forall|k: Seq<char>|
        k != exchange_id ==> reg_find(post.counter_offers@, k) == reg_find(
            pre.counter_offers@,
            k,
        )
    &&& post.counter_offers@.len() == pre.counter_offers@.len() - 1
    &&& post.exchanges == pre.exchanges
    &&& post.completed_exchanges == pre.completed_exchanges
    &&& post.exchanges_count == pre.exchanges_count
    &&& post.completed_exchanges_count == pre.completed_exchanges_count
    &&& post.config == pre.config
    &&& post.contract_info == pre.contract_info
}

/// The whole receiver-withdrawal contract.
pub open spec fn receiver_withdraw_post(
    pre: State,
    post: State,
    exchange_id: Seq<char>,
    sender: Seq<char>,
    r: Result<Vec<TransferInstruction>, ContractError>,
) -> bool {
    match receiver_withdraw_err(pre, exchange_id, sender) {
        Some(e) => r == Err::<Vec<TransferInstruction>, ContractError>(e) && post == pre,
        None => ({
            let co = reg_find(pre.counter_offers@, exchange_id).unwrap();
            &&& r is Ok
            &&& receiver_withdrawn_state(pre, post, exchange_id)
            &&& r->Ok_0@.len() == 1
            &&& instr_is(
                r->Ok_0@[0],
                canon_of(co.contract_addr@).unwrap(),
                canon_of(co.sender@).unwrap(),
                co.token_id@,
            )
        }),
    }
}

/// Receiver withdrawal: the counter-offering party reclaims its deposit and
/// only the counter-offer is deleted; the exchange survives.
pub fn try_receiver_withdraw(state: &mut State, info_sender: &String, exchange_id: &String) -> (r:
    Result<Vec<TransferInstruction>, ContractError>)
    requires
        old(state).wf(),
    ensures
        final(state).wf(),
        receiver_withdraw_post(*old(state), *final(state), exchange_id@, info_sender@, r),
{
    let co = match state.counter_offers.get(exchange_id.as_str()) {
        Some(c) => c,
        None => {
            return Err(ContractError::NotFound);
        },
    };
    if !str_eq(co.sender.as_str(), info_sender.as_str()) {
        return Err(ContractError::Unauthorized);
    }
    let contract_canon = match addr_canonicalize(co.contract_addr.as_str()) {
        Some(c) => c,
        None => {
            return Err(ContractError::InvalidAddress);
        },
    };
    let sender_canon = match addr_canonicalize(co.sender.as_str()) {
        Some(c) => c,
        None => {
            return Err(ContractError::InvalidAddress);
        },
    };
    let inst = match transfer_nft(&contract_canon, &sender_canon, &co.token_id) {
        Ok(m) => m,
        Err(e) => {
            return Err(e);
        },
    };
    let _removed = state.counter_offers.remove(exchange_id.as_str());
    let mut msgs: Vec<TransferInstruction> = Vec::new();
    msgs.push(inst);
    Ok(msgs)
}

/// The return instruction for one outstanding exchange can be built.
pub open spec fn exchanger_return_ok(e: Exchange) -> bool {
    &&& human_of(e.exchanger@) is Some
    &&& human_of(e.exchanger_token_contract_addr@) is Some
}

/// Builds, in ascending key order, the instruction returning each
/// outstanding deposit to its exchanger. Any entry that fails aborts the
/// whole batch.
fn build_exchanger_returns(reg: &Registry<Exchange>) -> (r: Result<
    Vec<TransferInstruction>,
    ContractError,
>)
    ensures
        r is Ok <==> (forall|i: int|
            0 <= i < reg@.len() ==> exchanger_return_ok(#[trigger] reg@[i].1)),
        r is Err ==> r->Err_0 == ContractError::InvalidAddress,
        r is Ok ==> ({
            &&& r->Ok_0@.len() == reg@.len()
            &&& forall|i: int|
                0 <= i < reg@.len() ==> instr_is(
                    #[trigger] r->Ok_0@[i],
                    reg@[i].1.exchanger_token_contract_addr@,
                    reg@[i].1.exchanger@,
                    reg@[i].1.exchanger_token_id@,
                )
        }),
{
    let n = reg.len();
    let mut msgs: Vec<TransferInstruction> = Vec::new();
    let mut i: usize = 0;
    while i < n
        invariant
            i <= n,
            n == reg@.len(),
            msgs@.len() == i,
            forall|j: int| 0 <= j < i ==> exchanger_return_ok(#[trigger] reg@[j].1),
            forall|j: int|
                0 <= j < i ==> instr_is(
                    #[trigger] msgs@[j],
                    reg@[j].1.exchanger_token_contract_addr@,
                    reg@[j].1.exchanger@,
                    reg@[j].1.exchanger_token_id@,
                ),
        decreases n - i,
    {
        let e = reg.entry(i);
        match transfer_nft(&e.1.exchanger_token_contract_addr, &e.1.exchanger, &e.1.exchanger_token_id) {
            Ok(m) => {
                msgs.push(m);
            },
            Err(err) => {
                return Err(err);
            },
        }
        i = i + 1;
    }
    Ok(msgs)
}

/// The failure, if any, that a bulk unwind meets before touching any entry:
/// the configuration must stand and the caller must be the configured owner.
pub open spec fn admin_auth_err(s: State, sender: Seq<char>) -> Option<ContractError> {
    if s.config is None {
        Some(ContractError::NotFound)
    } else if canon_of(sender) is None {
        Some(ContractError::InvalidAddress)
    } else if s.config.unwrap().owner@ != canon_of(sender).unwrap() {
        Some(ContractError::Unauthorized)
    } else {
        None
    }
}

/// The failure, if any, of the whole exchanger bulk unwind.
pub open spec fn withdraw_all_exchangers_err(s: State, sender: Seq<char>) -> Option<
    ContractError,
> {
    match admin_auth_err(s, sender) {
        Some(e) => Some(e),
        None => if forall|i: int|
            0 <= i < s.exchanges@.len() ==> exchanger_return_ok(#[trigger] s.exchanges@[i].1) {
            None
        } else {
            Some(ContractError::InvalidAddress)
        },
    }
}

/// The whole exchanger bulk-unwind contract: on failure (a non-owner caller
/// among them) no registry mutation and no instructions; on success one
/// return instruction per entry, in ascending key order, and an emptied
/// exchange ledger.
pub open spec fn withdraw_all_exchangers_post(
    pre: State,
    post: State,
    sender: Seq<char>,
    r: Result<Vec<TransferInstruction>, ContractError>,
) -> bool {
    match withdraw_all_exchangers_err(pre, sender) {
        Some(e) => r == Err::<Vec<TransferInstruction>, ContractError>(e) && post == pre,
        None => ({
            &&& r is Ok
            &&& r->Ok_0@.len() == pre.exchanges@.len()
            &&& forall|i: int|
                0 <= i < pre.exchanges@.len() ==> instr_is(
                    #[trigger] r->Ok_0@[i],
                    pre.exchanges@[i].1.exchanger_token_contract_addr@,
                    pre.exchanges@[i].1.exchanger@,
                    pre.exchanges@[i].1.exchanger_token_id@,
                )
            &&& post.exchanges@.len() == 0
            &&& post.counter_offers == pre.counter_offers
            &&& post.completed_exchanges == pre.completed_exchanges
            &&& post.exchanges_count == pre.exchanges_count
            &&& post.completed_exchanges_count == pre.completed_exchanges_count
            &&& post.config == pre.config
            &&& post.contract_info == pre.contract_info
        }),
    }
}

/// Administrative recovery: the owner unwinds every outstanding exchange,
/// emitting one return instruction per entry in ascending key order and
/// emptying the ledger. Unconditional: it does not check for counter-offers.
/// A failure on any entry aborts the whole call with no state committed.
pub fn try_withdraw_all_exchangers_nfts(state: &mut State, info_sender: &String) -> (r: Result<
    Vec<TransferInstruction>,
    ContractError,
>)
    requires
        old(state).wf(),
    ensures
        final(state).wf(),
        withdraw_all_exchangers_post(*old(state), *final(state), info_sender@, r),
{
    let owner = match &state.config {
        Some(c) => c,
        None => {
            return Err(ContractError::NotFound);
        },
    };
    let sender_canon = match addr_canonicalize(info_sender.as_str()) {
        Some(c) => c,
        None => {
            return Err(ContractError::InvalidAddress);
        },
    };
    if !bytes_eq(&owner.owner, &sender_canon) {
        return Err(ContractError::Unauthorized);
    }
    let msgs = match build_exchanger_returns(&state.exchanges) {
        Ok(m) => m,
        Err(e) => {
            return Err(e);
        },
    };
    state.exchanges.clear();
    Ok(msgs)
}

/// The return instruction for one counter-offer can be built: its stored
/// human-facing identities canonicalize, and those restore again.
pub open spec fn receiver_return_ok(co: CounterOffer) -> bool {
    &&& canon_of(co.contract_addr@) is Some
    &&& canon_of(co.sender@) is Some
    &&& human_of(canon_of(co.sender@).unwrap()) is Some
    &&& human_of(canon_of(co.contract_addr@).unwrap()) is Some
}

/// The instruction returning a counter-offered asset to its sender.
pub open spec fn receiver_return_instr(m: TransferInstruction, co: CounterOffer) -> bool {
    instr_is(m, canon_of(co.contract_addr@).unwrap(), canon_of(co.sender@).unwrap(), co.token_id@)
}

/// Builds, in ascending key order, the instruction returning each
/// counter-offered asset to its sender. Any entry that fails aborts the
/// whole batch.
fn build_receiver_returns(reg: &Registry<CounterOffer>) -> (r: Result<
    Vec<TransferInstruction>,
    ContractError,
>)
    ensures
        r is Ok <==> (forall|i: int|
            0 <= i < reg@.len() ==> receiver_return_ok(#[trigger] reg@[i].1)),
        r is Err ==> r->Err_0 == ContractError::InvalidAddress,
        r is Ok ==> ({
            &&& r->Ok_0@.len() == reg@.len()
            &&& forall|i: int|
                0 <= i < reg@.len() ==> receiver_return_instr(
                    #[trigger] r->Ok_0@[i],
                    reg@[i].1,
                )
        }),
{
    let n = reg.len();
    let mut msgs: Vec<TransferInstruction> = Vec::new();
    let mut i: usize = 0;
    while i < n
        invariant
            i <= n,
            n == reg@.len(),
            msgs@.len() == i,
            forall|j: int| 0 <= j < i ==> receiver_return_ok(#[trigger] reg@[j].1),
            forall|j: int| 0 <= j < i ==> receiver_return_instr(#[trigger] msgs@[j], reg@[j].1),
        decreases n - i,
    {
        let co = reg.entry(i);
        let contract_canon = match addr_canonicalize(co.1.contract_addr.as_str()) {
            Some(c) => c,
            None => {
                return Err(ContractError::InvalidAddress);
            },
        };
        let sender_canon = match addr_canonicalize(co.1.sender.as_str()) {
            Some(c) => c,
            None => {
                return Err(ContractError::InvalidAddress);
            },
        };
        match transfer_nft(&contract_canon, &sender_canon, &co.1.token_id) {
            Ok(m) => {
                msgs.push(m);
            },
            Err(err) => {
                return Err(err);
            },
        }
        i = i + 1;
    }
    Ok(msgs)
}

/// The failure, if any, of the whole receiver bulk unwind.
pub open spec fn withdraw_all_receivers_err(s: State, sender: Seq<char>) -> Option<
    ContractError,
> {
    match admin_auth_err(s, sender) {
        Some(e) => Some(e),
        None => if forall|i: int|
            0 <= i < s.counter_offers@.len() ==> receiver_return_ok(
                #[trigger] s.counter_offers@[i].1,
            ) {
            None
        } else {
            Some(ContractError::InvalidAddress)
        },
    }
}

/// The whole receiver bulk-unwind contract.
pub open spec fn withdraw_all_receivers_post(
    pre: State,
    post: State,
    sender: Seq<char>,
    r: Result<Vec<TransferInstruction>, ContractError>,
) -> bool {
    match withdraw_all_receivers_err(pre, sender) {
        Some(e) => r == Err::<Vec<TransferInstruction>, ContractError>(e) && post == pre,
        None => ({
            &&& r is Ok
            &&& r->Ok_0@.len() == pre.counter_offers@.len()
            &&& forall|i: int|
                0 <= i < pre.counter_offers@.len() ==> receiver_return_instr(
                    #[trigger] r->Ok_0@[i],
                    pre.counter_offers@[i].1,
                )
            &&& post.counter_offers@.len() == 0
            &&& post.exchanges == pre.exchanges
            &&& post.completed_exchanges == pre.completed_exchanges
            &&& post.exchanges_count == pre.exchanges_count
            &&& post.completed_exchanges_count == pre.completed_exchanges_count
            &&& post.config == pre.config
            &&& post.contract_info == pre.contract_info
        }),
    }
}

/// Administrative recovery: the owner unwinds every counter-offer, emitting
/// one return instruction per entry in ascending key order and emptying the
/// ledger. A failure on any entry aborts the whole call with no state
/// committed. Running both recovery operations fully drains the escrow.
pub fn try_withdraw_all_receivers_nfts(state: &mut State, info_sender: &String) -> (r: Result<
    Vec<TransferInstruction>,
    ContractError,
>)
    requires
        old(state).wf(),
    ensures
        final(state).wf(),
        withdraw_all_receivers_post(*old(state), *final(state), info_sender@, r),
{
    let owner = match &state.config {
        Some(c) => c,
        None => {
            return Err(ContractError::NotFound);
        },
    };
    let sender_canon = match addr_canonicalize(info_sender.as_str()) {
        Some(c) => c,
        None => {
            return Err(ContractError::InvalidAddress);
        },
    };
    if !bytes_eq(&owner.owner, &sender_canon) {
        return Err(ContractError::Unauthorized);
    }
    let msgs = match build_receiver_returns(&state.counter_offers) {
        Ok(m) => m,
        Err(e) => {
            return Err(e);
        },
    };
    state.counter_offers.clear();
    Ok(msgs)
}

/// The failure a deposit payload meets before any protocol logic runs: a
/// missing discriminator or missing fields decode to nothing, and an unknown
/// discriminator is rejected outright.
pub open spec fn router_decode_err(p: ReceivePayload) -> Option<ContractError> {
    if p.action is None {
        Some(ContractError::DecodeError)
    } else if p.action.unwrap()@ == "receiver_receive"@ {
        if p.exchange_id is None {
            Some(ContractError::DecodeError)
        } else {
            None
        }
    } else if p.action.unwrap()@ == "exchanger_receive"@ {
        if p.receiver_token_contract_address is None || p.receiver_token_id is None || p.receiver
            is None {
            Some(ContractError::DecodeError)
        } else {
            None
        }
    } else {
        Some(ContractError::WrongAction)
    }
}

/// The proposal carried by an exchanger deposit payload.
pub open spec fn payload_exchange_nft(p: ReceivePayload) -> ExchangeNft {
    ExchangeNft {
        receiver_token_contract_address: p.receiver_token_contract_address.unwrap(),
        receiver_token_id: p.receiver_token_id.unwrap(),
        receiver: p.receiver.unwrap(),
        action: p.action.unwrap(),
    }
}

/// The whole deposit-routing contract: decode and discriminator failures,
/// then the contract of the dispatched deposit handler.
pub open spec fn receive_router_post(
    pre: State,
    post: State,
    now: u64,
    info_sender: Seq<char>,
    rcv_msg: ReceivedNft,
    r: Result<Vec<TransferInstruction>, ContractError>,
) -> bool {
    match router_decode_err(rcv_msg.payload) {
        Some(e) => r == Err::<Vec<TransferInstruction>, ContractError>(e) && post == pre,
        None => if rcv_msg.payload.action.unwrap()@ == "receiver_receive"@ {
            match receiver_receive_err(
                pre,
                rcv_msg.payload.exchange_id.unwrap()@,
                info_sender,
                rcv_msg.sender@,
                rcv_msg.token_id@,
            ) {
                Some(e) => r == Err::<Vec<TransferInstruction>, ContractError>(e) && post == pre,
                None => r is Ok && r->Ok_0@.len() == 0 && receiver_received_state(
                    pre,
                    post,
                    rcv_msg.payload.exchange_id.unwrap()@,
                    rcv_msg.sender@,
                    now,
                ),
            }
        } else {
            if exchanger_receive_accepts(
                payload_exchange_nft(rcv_msg.payload),
                info_sender,
                rcv_msg.sender@,
            ) {
                r is Ok && r->Ok_0@.len() == 0 && exchanger_received_state(
                    pre,
                    post,
                    payload_exchange_nft(rcv_msg.payload),
                    info_sender,
                    rcv_msg.sender@,
                    rcv_msg.token_id@,
                    now,
                )
            } else {
                r == Err::<Vec<TransferInstruction>, ContractError>(ContractError::InvalidAddress)
                    && post == pre
            }
        },
    }
}

/// Routes a deposit notification by its `action` discriminator to exchange
/// creation or counter-offer creation; unknown discriminators fail with
/// `WrongAction`.
pub fn try_receive_router(
    state: &mut State,
    now: u64,
    info_sender: &String,
    rcv_msg: ReceivedNft,
) -> (r: Result<Vec<TransferInstruction>, ContractError>)
    requires
        old(state).wf(),
        old(state).exchanges_count < u64::MAX,
    ensures
        final(state).wf(),
        receive_router_post(*old(state), *final(state), now, info_sender@, rcv_msg, r),
{
    let action = match &rcv_msg.payload.action {
        Some(a) => a.clone(),
        None => {
            return Err(ContractError::DecodeError);
        },
    };
    if str_eq(action.as_str(), "receiver_receive") {
        let exchange_id = match &rcv_msg.payload.exchange_id {
            Some(x) => x.clone(),
            None => {
                return Err(ContractError::DecodeError);
            },
        };
        let m = CounterOfferNft { exchange_id, action };
        match try_receiver_receive(state, now, info_sender, &rcv_msg.sender, &rcv_msg.token_id, &m) {
            Ok(_accepted) => Ok(Vec::new()),
            Err(e) => Err(e),
        }
    } else if str_eq(action.as_str(), "exchanger_receive") {
        let contract_address = match &rcv_msg.payload.receiver_token_contract_address {
            Some(x) => x.clone(),
            None => {
                return Err(ContractError::DecodeError);
            },
        };
        let receiver_token_id = match &rcv_msg.payload.receiver_token_id {
            Some(x) => x.clone(),
            None => {
                return Err(ContractError::DecodeError);
            },
        };
        let receiver = match &rcv_msg.payload.receiver {
            Some(x) => x.clone(),
            None => {
                return Err(ContractError::DecodeError);
            },
        };
        let m = ExchangeNft {
            receiver_token_contract_address: contract_address,
            receiver_token_id,
            receiver,
            action,
        };
        match try_exchanger_receive(state, now, info_sender, &rcv_msg.sender, &rcv_msg.token_id, &m) {
            Ok(_issued_id) => Ok(Vec::new()),
            Err(e) => Err(e),
        }
    } else {
        Err(ContractError::WrongAction)
    }
}

/// Command dispatch: every command's full contract, by message.
pub fn execute(state: &mut State, now: u64, info_sender: &String, msg: ExecuteMsg) -> (r: Result<
    Vec<TransferInstruction>,
    ContractError,
>)
    requires
        old(state).wf(),
        old(state).exchanges_count < u64::MAX,
        old(state).completed_exchanges_count < u64::MAX,
    ensures
        final(state).wf(),
        // the id counters only ever increase
        final(state).exchanges_count >= old(state).exchanges_count,
        final(state).completed_exchanges_count >= old(state).completed_exchanges_count,
        match msg {
            ExecuteMsg::ExchangeNfts { exchange_id } => exchange_post(
                *old(state),
                *final(state),
                exchange_id@,
                info_sender@,
                r,
            ),
            ExecuteMsg::WithdrawAllReceiversNfts {  } => withdraw_all_receivers_post(
                *old(state),
                *final(state),
                info_sender@,
                r,
            ),
            ExecuteMsg::WithdrawAllExchangersNfts {  } => withdraw_all_exchangers_post(
                *old(state),
                *final(state),
                info_sender@,
                r,
            ),
            ExecuteMsg::WithdrawReceiverNft { exchange_id } => receiver_withdraw_post(
                *old(state),
                *final(state),
                exchange_id@,
                info_sender@,
                r,
            ),
            ExecuteMsg::WithdrawExchangerNft { exchange_id } => exchanger_withdraw_post(
                *old(state),
                *final(state),
                exchange_id@,
                info_sender@,
                r,
            ),
            ExecuteMsg::ReceiveNft(rcv_msg) => receive_router_post(
                *old(state),
                *final(state),
                now,
                info_sender@,
                rcv_msg,
                r,
            ),
        },
{
    match msg {
        ExecuteMsg::ExchangeNfts { exchange_id } => try_exchange(state, info_sender, &exchange_id),
        ExecuteMsg::WithdrawAllReceiversNfts {  } => try_withdraw_all_receivers_nfts(
            state,
            info_sender,
        ),
        ExecuteMsg::WithdrawAllExchangersNfts {  } => try_withdraw_all_exchangers_nfts(
            state,
            info_sender,
        ),
        ExecuteMsg::WithdrawReceiverNft { exchange_id } => try_receiver_withdraw(
            state,
            info_sender,
            &exchange_id,
        ),
        ExecuteMsg::WithdrawExchangerNft { exchange_id } => try_exchanger_withdraw(
            state,
            info_sender,
            &exchange_id,
        ),
        ExecuteMsg::ReceiveNft(rcv_msg) => try_receive_router(state, now, info_sender, rcv_msg),
    }
}

/// The string an absent filter compares as: the empty string.
pub open spec fn opt_filter_view(o: Option<String>) -> Seq<char> {
    match o {
        Some(s) => s@,
        None => Seq::<char>::empty(),
    }
}

/// All four identities of an exchange restore to human-facing form.
pub open spec fn exchange_parses(e: Exchange) -> bool {
    &&& human_of(e.exchanger_token_contract_addr@) is Some
    &&& human_of(e.receiver_token_contract_addr@) is Some
    &&& human_of(e.exchanger@) is Some
    &&& human_of(e.receiver@) is Some
}

pub open spec fn all_exchanges_parse(s: Seq<(String, Exchange)>) -> bool {
    forall|i: int| 0 <= i < s.len() ==> exchange_parses(#[trigger] s[i].1)
}

/// The filter: with either filter present an entry passes where its
/// (humanized) exchanger or receiver equals the respective filter string
/// (inclusive or, an absent side comparing as empty); with both absent,
/// every entry passes.
pub open spec fn exchange_passes(
    e: Exchange,
    exchanger: Option<String>,
    receiver: Option<String>,
) -> bool {
    if exchanger is Some || receiver is Some {
        human_of(e.exchanger@).unwrap() == opt_filter_view(exchanger) || human_of(
            e.receiver@,
        ).unwrap() == opt_filter_view(receiver)
    } else {
        true
    }
}

/// The entries that pass the filter, in their stored order.
pub open spec fn filter_exchanges(
    s: Seq<(String, Exchange)>,
    exchanger: Option<String>,
    receiver: Option<String>,
) -> Seq<(String, Exchange)>
    decreases s.len(),
{
    if s.len() == 0 {
        Seq::<(String, Exchange)>::empty()
    } else {
        let rest = filter_exchanges(s.drop_last(), exchanger, receiver);
        if exchange_passes(s.last().1, exchanger, receiver) {
            rest.push(s.last())
        } else {
            rest
        }
    }
}

/// `q` is the human-facing projection of the exchange `e` stored under `id`.
pub open spec fn parsed_exchange(q: QueryExchangesResult, id: Seq<char>, e: Exchange) -> bool {
    &&& q.id@ == id
    &&& q.exchanger_token_id@ == e.exchanger_token_id@
    &&& q.receiver_token_id@ == e.receiver_token_id@
    &&& q.exchanger_contract_addr@ == human_of(e.exchanger_token_contract_addr@).unwrap()
    &&& q.receiver_contract_addr@ == human_of(e.receiver_token_contract_addr@).unwrap()
    &&& q.exchanger@ == human_of(e.exchanger@).unwrap()
    &&& q.receiver@ == human_of(e.receiver@).unwrap()
    &&& q.exchange_time == e.exchange_time
}

/// The response holds exactly the filtered entries, projected, in ascending
/// key order.
pub open spec fn exchanges_query_ok(
    s: Seq<(String, Exchange)>,
    exchanger: Option<String>,
    receiver: Option<String>,
    resp: ExchangesResponse,
) -> bool {
    let f = filter_exchanges(s, exchanger, receiver);
    &&& resp.exchanges@.len() == f.len()
    &&& forall|j: int|
        0 <= j < f.len() ==> parsed_exchange(#[trigger] resp.exchanges@[j], f[j].0@, f[j].1)
}

/// Projects one stored exchange to human-facing form.
pub fn parse_exchanges(id: &String, exchange: &Exchange) -> (r: Result<
    QueryExchangesResult,
    ContractError,
>)
    ensures
        r is Ok <==> exchange_parses(*exchange),
        r is Err ==> r->Err_0 == ContractError::InvalidAddress,
        r is Ok ==> parsed_exchange(r->Ok_0, id@, *exchange),
{
    let exchanger_contract = match addr_humanize(&exchange.exchanger_token_contract_addr) {
        Some(h) => h,
        None => {
            return Err(ContractError::InvalidAddress);
        },
    };
    let receiver_contract = match addr_humanize(&exchange.receiver_token_contract_addr) {
        Some(h) => h,
        None => {
            return Err(ContractError::InvalidAddress);
        },
    };
    let exchanger_h = match addr_humanize(&exchange.exchanger) {
        Some(h) => h,
        None => {
            return Err(ContractError::InvalidAddress);
        },
    };
    let receiver_h = match addr_humanize(&exchange.receiver) {
        Some(h) => h,
        None => {
            return Err(ContractError::InvalidAddress);
        },
    };
    Ok(QueryExchangesResult {
        id: id.clone(),
        exchanger_token_id: exchange.exchanger_token_id.clone(),
        receiver_token_id: exchange.receiver_token_id.clone(),
        exchanger: exchanger_h,
        receiver: receiver_h,
        exchanger_contract_addr: exchanger_contract,
        receiver_contract_addr: receiver_contract,
        exchange_time: exchange.exchange_time,
    })
}

/// Projects and filters one whole exchange registry.
fn project_exchanges(
    reg: &Registry<Exchange>,
    exchanger: &Option<String>,
    receiver: &Option<String>,
) -> (r: Result<ExchangesResponse, ContractError>)
    ensures
        r is Ok <==> all_exchanges_parse(reg@),
        r is Err ==> r->Err_0 == ContractError::InvalidAddress,
        r is Ok ==> exchanges_query_ok(reg@, *exchanger, *receiver, r->Ok_0),
{
    let n = reg.len();
    let mut out: Vec<QueryExchangesResult> = Vec::new();
    let mut i: usize = 0;
    while i < n
        invariant
            i <= n,
            n == reg@.len(),
            forall|j: int| 0 <= j < i ==> exchange_parses(#[trigger] reg@[j].1),
            out@.len() == filter_exchanges(reg@.take(i as int), *exchanger, *receiver).len(),
            forall|j: int|
                0 <= j < out@.len() ==> parsed_exchange(
                    #[trigger] out@[j],
                    filter_exchanges(reg@.take(i as int), *exchanger, *receiver)[j].0@,
                    filter_exchanges(reg@.take(i as int), *exchanger, *receiver)[j].1,
                ),
        decreases n - i,
    {
        let e = reg.entry(i);
        let q = match parse_exchanges(&e.0, &e.1) {
            Ok(q) => q,
            Err(err) => {
                return Err(err);
            },
        };
        let passes = if exchanger.is_some() || receiver.is_some() {
            let exf = match exchanger {
                Some(x) => x.as_str(),
                None => "",
            };
            let rf = match receiver {
                Some(x) => x.as_str(),
                None => "",
            };
            str_eq(q.exchanger.as_str(), exf) || str_eq(q.receiver.as_str(), rf)
        } else {
            true
        };
        proof {
            reveal_strlit("");
            assert(""@ =~= Seq::<char>::empty());
            assert(passes == exchange_passes(reg@[i as int].1, *exchanger, *receiver));
            let s_i = reg@.take(i as int);
            let s_i1 = reg@.take(i + 1);
            assert(s_i1.drop_last() =~= s_i);
            assert(s_i1.last() == reg@[i as int]);
        }
        if passes {
            out.push(q);
        }
        i = i + 1;
    }
    proof {
        assert(reg@.take(n as int) =~= reg@);
    }
    Ok(ExchangesResponse { exchanges: out })
}

/// A counter-offer passes the mandatory sender filter by exact match.
pub open spec fn counter_offer_passes(co: CounterOffer, sender: Seq<char>) -> bool {
    co.sender@ == sender
}

pub open spec fn filter_counter_offers(s: Seq<(String, CounterOffer)>, sender: Seq<char>) -> Seq<
    (String, CounterOffer),
>
    decreases s.len(),
{
    if s.len() == 0 {
        Seq::<(String, CounterOffer)>::empty()
    } else {
        let rest = filter_counter_offers(s.drop_last(), sender);
        if counter_offer_passes(s.last().1, sender) {
            rest.push(s.last())
        } else {
            rest
        }
    }
}

/// `q` is the projection of the counter-offer `co` stored under `id`.
pub open spec fn parsed_counter_offer(
    q: QueryCounterOffersResult,
    id: Seq<char>,
    co: CounterOffer,
) -> bool {
    &&& q.id@ == id
    &&& q.exchange_id@ == id
    &&& q.token_id@ == co.token_id@
    &&& q.contract_addr@ == co.contract_addr@
    &&& q.sender@ == co.sender@
    &&& q.counter_offer_time == co.counter_offer_time
}

pub open spec fn counter_offers_query_ok(
    s: Seq<(String, CounterOffer)>,
    sender: Seq<char>,
    resp: CounterOffersResponse,
) -> bool {
    let f = filter_counter_offers(s, sender);
    &&& resp.counter_offers@.len() == f.len()
    &&& forall|j: int|
        0 <= j < f.len() ==> parsed_counter_offer(
            #[trigger] resp.counter_offers@[j],
            f[j].0@,
            f[j].1,
        )
}

/// Projects one stored counter-offer; its identities are already stored in
/// human-facing form, so projection cannot fail.
pub fn parse_counter_offers(id: &String, counter_offer: &CounterOffer) -> (r:
    QueryCounterOffersResult)
    ensures
        parsed_counter_offer(r, id@, *counter_offer),
{
    QueryCounterOffersResult {
        id: id.clone(),
        token_id: counter_offer.token_id.clone(),
        contract_addr: counter_offer.contract_addr.clone(),
        sender: counter_offer.sender.clone(),
        exchange_id: id.clone(),
        counter_offer_time: counter_offer.counter_offer_time,
    }
}

/// Read-only projection of the exchange ledger, optionally filtered.
pub fn query_exchanges(
    state: &State,
    exchanger: &Option<String>,
    receiver: &Option<String>,
) -> (r: Result<ExchangesResponse, ContractError>)
    ensures
        r is Ok <==> all_exchanges_parse(state.exchanges@),
        r is Err ==> r->Err_0 == ContractError::InvalidAddress,
        r is Ok ==> exchanges_query_ok(state.exchanges@, *exchanger, *receiver, r->Ok_0),
{
    project_exchanges(&state.exchanges, exchanger, receiver)
}

/// Read-only projection of the archive, optionally filtered.
pub fn query_completed_exchanges(
    state: &State,
    exchanger: &Option<String>,
    receiver: &Option<String>,
) -> (r: Result<ExchangesResponse, ContractError>)
    ensures
        r is Ok <==> all_exchanges_parse(state.completed_exchanges@),
        r is Err ==> r->Err_0 == ContractError::InvalidAddress,
        r is Ok ==> exchanges_query_ok(state.completed_exchanges@, *exchanger, *receiver, r->Ok_0),
{
    project_exchanges(&state.completed_exchanges, exchanger, receiver)
}

/// Read-only projection of the counter-offer ledger: exact matches on the
/// mandatory sender filter.
pub fn query_counter_offers(state: &State, sender: &String) -> (r: Result<
    CounterOffersResponse,
    ContractError,
>)
    ensures
        r is Ok,
        counter_offers_query_ok(state.counter_offers@, sender@, r->Ok_0),
{
    let reg = &state.counter_offers;
    let n = reg.len();
    let mut out: Vec<QueryCounterOffersResult> = Vec::new();
    let mut i: usize = 0;
    while i < n
        invariant
            i <= n,
            n == reg@.len(),
            out@.len() == filter_counter_offers(reg@.take(i as int), sender@).len(),
            forall|j: int|
                0 <= j < out@.len() ==> parsed_counter_offer(
                    #[trigger] out@[j],
                    filter_counter_offers(reg@.take(i as int), sender@)[j].0@,
                    filter_counter_offers(reg@.take(i as int), sender@)[j].1,
                ),
        decreases n - i,
    {
        let co = reg.entry(i);
        let passes = str_eq(co.1.sender.as_str(), sender.as_str());
        proof {
            let s_i = reg@.take(i as int);
            let s_i1 = reg@.take(i + 1);
            assert(s_i1.drop_last() =~= s_i);
            assert(s_i1.last() == reg@[i as int]);
        }
        if passes {
            let q = parse_counter_offers(&co.0, &co.1);
            out.push(q);
        }
        i = i + 1;
    }
    proof {
        assert(reg@.take(n as int) =~= reg@);
    }
    Ok(CounterOffersResponse { counter_offers: out })
}

/// Query dispatch.
pub fn query(state: &State, msg: &QueryMsg) -> (r: Result<QueryAnswer, ContractError>)
    ensures
        match *msg {
            QueryMsg::GetExchanges { receiver: rf, exchanger: exf } => ({
                &&& (r is Ok <==> all_exchanges_parse(state.exchanges@))
                &&& r is Err ==> r->Err_0 == ContractError::InvalidAddress
                &&& r is Ok ==> (r->Ok_0 matches QueryAnswer::Exchanges(resp)
                    && exchanges_query_ok(state.exchanges@, exf, rf, resp))
            }),
            QueryMsg::GetCompletedExchanges { receiver: rf, exchanger: exf } => ({
                &&& (r is Ok <==> all_exchanges_parse(state.completed_exchanges@))
                &&& r is Err ==> r->Err_0 == ContractError::InvalidAddress
                &&& r is Ok ==> (r->Ok_0 matches QueryAnswer::Exchanges(resp)
                    && exchanges_query_ok(state.completed_exchanges@, exf, rf, resp))
            }),
            QueryMsg::GetCounterOffers { receiver: sender } => ({
                &&& r is Ok
                &&& r->Ok_0 matches QueryAnswer::CounterOffers(resp) && counter_offers_query_ok(
                    state.counter_offers@,
                    sender@,
                    resp,
                )
            }),
        },
{
    match msg {
        QueryMsg::GetExchanges { receiver, exchanger } => {
            match query_exchanges(state, exchanger, receiver) {
                Ok(resp) => Ok(QueryAnswer::Exchanges(resp)),
                Err(e) => Err(e),
            }
        },
        QueryMsg::GetCompletedExchanges { receiver, exchanger } => {
            match query_completed_exchanges(state, exchanger, receiver) {
                Ok(resp) => Ok(QueryAnswer::Exchanges(resp)),
                Err(e) => Err(e),
            }
        },
        QueryMsg::GetCounterOffers { receiver } => {
            match query_counter_offers(state, receiver) {
                Ok(resp) => Ok(QueryAnswer::CounterOffers(resp)),
                Err(e) => Err(e),
            }
        },
    }
}

/// Law: while ids remain single digits, each newly issued exchange id
/// orders strictly after every previously issued one in the registry's
/// lexicographic order. From the tenth id on the inherited order diverges
/// from numeric order — "10" sorts before "9" — so the guarantee is stated
/// for the single-digit regime.
pub proof fn lemma_new_id_after_all_issued(issued: nat, count: nat)
    requires
        1 <= issued <= count,
        count < 9,
    ensures
        lex_lt(dec_str(issued), dec_str(count + 1)),
{
    lemma_dec_str_lex_monotonic(issued, count + 1);
}

/// Law: with both filters absent, the query keeps every entry unchanged, in
/// its stored (ascending key) order.
pub proof fn lemma_filter_exchanges_no_filter(s: Seq<(String, Exchange)>)
    ensures
        filter_exchanges(s, None, None) == s,
    decreases s.len(),
{
    if s.len() == 0 {
        assert(filter_exchanges(s, None, None) =~= s);
    } else {
        lemma_filter_exchanges_no_filter(s.drop_last());
        assert(exchange_passes(s.last().1, None, None));
        assert(s.drop_last().push(s.last()) =~= s);
    }
}

/// Law (completeness): the filtered sequence keeps every entry whose
/// humanized exchanger or receiver matches a given filter.
pub proof fn lemma_filter_exchanges_complete(
    s: Seq<(String, Exchange)>,
    exchanger: Option<String>,
    receiver: Option<String>,
    i: int,
)
    requires
        0 <= i < s.len(),
        exchange_passes(s[i].1, exchanger, receiver),
    ensures
        exists|j: int|
            0 <= j < filter_exchanges(s, exchanger, receiver).len() && filter_exchanges(
                s,
                exchanger,
                receiver,
            )[j] == s[i],
    decreases s.len(),
{
    let f = filter_exchanges(s, exchanger, receiver);
    let rest = filter_exchanges(s.drop_last(), exchanger, receiver);
    if i == s.len() - 1 {
        assert(f[f.len() - 1] == s[i]);
    } else {
        assert(s.drop_last()[i] == s[i]);
        lemma_filter_exchanges_complete(s.drop_last(), exchanger, receiver, i);
        let j = choose|j: int| 0 <= j < rest.len() && rest[j] == s.drop_last()[i];
        if exchange_passes(s.last().1, exchanger, receiver) {
            assert(f[j] == rest[j]);
        } else {
            assert(f == rest);
        }
    }
}

/// Law: naming one party as both filters keeps exactly the entries where
/// that party is the exchanger or the receiver. (With a single filter
/// given, the inherited behavior — preserved here — compares the other
/// side against the empty string, so an entry naming the party only on the
/// unfiltered side is not returned.)
pub proof fn lemma_filter_party_either_side(s: Seq<(String, Exchange)>, x: String, i: int)
    requires
        0 <= i < s.len(),
    ensures
        exchange_passes(s[i].1, Some(x), Some(x)) <==> (human_of(s[i].1.exchanger@).unwrap()
            == x@ || human_of(s[i].1.receiver@).unwrap() == x@),
{
}

/// Law (soundness): everything the filtered sequence holds is one of the
/// stored entries, and matches the filter.
pub proof fn lemma_filter_exchanges_sound(
    s: Seq<(String, Exchange)>,
    exchanger: Option<String>,
    receiver: Option<String>,
    j: int,
)
    requires
        0 <= j < filter_exchanges(s, exchanger, receiver).len(),
    ensures
        exchange_passes(filter_exchanges(s, exchanger, receiver)[j].1, exchanger, receiver),
        exists|i: int|
            0 <= i < s.len() && s[i] == filter_exchanges(s, exchanger, receiver)[j],
    decreases s.len(),
{
    let f = filter_exchanges(s, exchanger, receiver);
    let rest = filter_exchanges(s.drop_last(), exchanger, receiver);
    if s.len() > 0 {
        if exchange_passes(s.last().1, exchanger, receiver) && j == rest.len() {
            assert(f[j] == s.last());
            assert(s[s.len() - 1] == f[j]);
        } else {
            assert(f[j] == rest[j]);
            lemma_filter_exchanges_sound(s.drop_last(), exchanger, receiver, j);
            let i = choose|i: int| 0 <= i < s.drop_last().len() && s.drop_last()[i] == rest[j];
            assert(s[i] == f[j]);
        }
    }
}

} // verus!
