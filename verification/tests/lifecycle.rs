//! End-to-end lifecycle scenarios: creation, matching, settlement,
//! withdrawal and bulk recovery, run against the real identity codec.

use cosmwasm_std::Api;
use cw_one2one_nft::contract::{
    instantiate, try_exchange, try_exchanger_receive, try_exchanger_withdraw,
    try_receiver_receive, try_receiver_withdraw, try_withdraw_all_exchangers_nfts,
    try_withdraw_all_receivers_nfts,
};
use cw_one2one_nft::error::ContractError;
use cw_one2one_nft::msg::{CounterOfferNft, ExchangeNft, InstantiateMsg};
use cw_one2one_nft::state::{num_completed_exchanges, num_exchanges, State};

fn canon(s: &str) -> Vec<u8> {
    cosmwasm_std::testing::MockApi::default()
        .addr_canonicalize(s)
        .unwrap()
        .as_slice()
        .to_vec()
}

fn fresh_state(owner: &str) -> State {
    let mut state = State::new();
    instantiate(
        &mut state,
        &owner.to_string(),
        InstantiateMsg { name: "one2one".to_string() },
    )
    .unwrap();
    state
}

fn proposal(receiver_contract: &str, receiver_token: &str, receiver: &str) -> ExchangeNft {
    ExchangeNft {
        receiver_token_contract_address: receiver_contract.to_string(),
        receiver_token_id: receiver_token.to_string(),
        receiver: receiver.to_string(),
        action: "exchanger_receive".to_string(),
    }
}

/// alice offers t1 (collection c1) for bob's t2 (collection c2).
fn create_default(state: &mut State) -> String {
    try_exchanger_receive(
        state,
        7,
        &"c1a".to_string(),
        &"alice".to_string(),
        &"t1".to_string(),
        &proposal("c2b", "t2", "bob"),
    )
    .unwrap()
}

fn counter_default(state: &mut State, id: &str) {
    try_receiver_receive(
        state,
        8,
        &"c2b".to_string(),
        &"bob".to_string(),
        &"t2".to_string(),
        &CounterOfferNft {
            exchange_id: id.to_string(),
            action: "receiver_receive".to_string(),
        },
    )
    .unwrap();
}

#[test]
fn instantiate_fixes_owner_canonically() {
    let state = fresh_state("admin");
    let config = state.config.as_ref().unwrap();
    assert_eq!(config.owner, canon("admin"));
    // the codec transforms the address: the stored form is not the input
    assert_ne!(config.owner, b"admin".to_vec());
    assert_eq!(state.contract_info.as_ref().unwrap().name, "one2one");
}

#[test]
fn create_assigns_sequential_ids_and_stores_exchange() {
    let mut state = fresh_state("admin");
    let id1 = create_default(&mut state);
    assert_eq!(id1, "1");
    let id2 = try_exchanger_receive(
        &mut state,
        9,
        &"c1a".to_string(),
        &"alice".to_string(),
        &"t9".to_string(),
        &proposal("c2b", "t8", "bob"),
    )
    .unwrap();
    assert_eq!(id2, "2");
    assert_eq!(num_exchanges(&state), 2);
    // the just-created exchange is immediately readable, unchanged
    let entry = &state.exchanges.entries[0];
    assert_eq!(entry.0, "1");
    assert_eq!(entry.1.exchanger, canon("alice"));
    assert_eq!(entry.1.receiver, canon("bob"));
    assert_eq!(entry.1.exchanger_token_contract_addr, canon("c1a"));
    assert_eq!(entry.1.receiver_token_contract_addr, canon("c2b"));
    assert_eq!(entry.1.exchanger_token_id, "t1");
    assert_eq!(entry.1.receiver_token_id, "t2");
    assert_eq!(entry.1.exchange_time, 7);
}

#[test]
fn settlement_emits_paired_transfers_and_archives() {
    let mut state = fresh_state("admin");
    let id = create_default(&mut state);
    counter_default(&mut state, &id);
    let msgs = try_exchange(&mut state, &"alice".to_string(), &id).unwrap();
    assert_eq!(msgs.len(), 2);
    // the exchanger's deposit goes to the receiver
    assert_eq!(msgs[0].collection, "c1a");
    assert_eq!(msgs[0].token_id, "t1");
    assert_eq!(msgs[0].recipient, "bob");
    // the counter-offered asset goes to the exchanger
    assert_eq!(msgs[1].collection, "c2b");
    assert_eq!(msgs[1].token_id, "t2");
    assert_eq!(msgs[1].recipient, "alice");
    // both ledgers are empty, the archive holds one copy under "1"
    assert_eq!(state.exchanges.entries.len(), 0);
    assert_eq!(state.counter_offers.entries.len(), 0);
    assert_eq!(state.completed_exchanges.entries.len(), 1);
    let archived = &state.completed_exchanges.entries[0];
    assert_eq!(archived.0, "1");
    assert_eq!(archived.1.exchanger, canon("alice"));
    assert_eq!(archived.1.receiver, canon("bob"));
    assert_eq!(archived.1.exchanger_token_id, "t1");
    assert_eq!(archived.1.receiver_token_id, "t2");
    assert_eq!(num_completed_exchanges(&state), 1);
}

#[test]
fn either_matched_party_may_settle() {
    let mut state = fresh_state("admin");
    let id = create_default(&mut state);
    counter_default(&mut state, &id);
    // the counter-offering party triggers settlement this time
    let msgs = try_exchange(&mut state, &"bob".to_string(), &id).unwrap();
    assert_eq!(msgs.len(), 2);
}

#[test]
fn exchanger_withdraw_returns_deposit_without_archiving() {
    let mut state = fresh_state("admin");
    let id = create_default(&mut state);
    let msgs = try_exchanger_withdraw(&mut state, &"alice".to_string(), &id).unwrap();
    assert_eq!(msgs.len(), 1);
    assert_eq!(msgs[0].collection, "c1a");
    assert_eq!(msgs[0].token_id, "t1");
    assert_eq!(msgs[0].recipient, "alice");
    assert_eq!(state.exchanges.entries.len(), 0);
    assert_eq!(state.completed_exchanges.entries.len(), 0);
}

#[test]
fn exchanger_withdraw_blocked_exactly_while_countered() {
    let mut state = fresh_state("admin");
    let id = create_default(&mut state);
    counter_default(&mut state, &id);
    let err = try_exchanger_withdraw(&mut state, &"alice".to_string(), &id).unwrap_err();
    assert_eq!(err, ContractError::CantWithdraw);
    assert_eq!(state.exchanges.entries.len(), 1);
    // once the receiver withdraws the counter-offer, the path reopens
    let back = try_receiver_withdraw(&mut state, &"bob".to_string(), &id).unwrap();
    assert_eq!(back.len(), 1);
    assert_eq!(back[0].collection, "c2b");
    assert_eq!(back[0].token_id, "t2");
    assert_eq!(back[0].recipient, "bob");
    assert_eq!(state.counter_offers.entries.len(), 0);
    assert_eq!(state.exchanges.entries.len(), 1);
    let msgs = try_exchanger_withdraw(&mut state, &"alice".to_string(), &id).unwrap();
    assert_eq!(msgs.len(), 1);
}

#[test]
fn receiver_withdraw_keeps_exchange_open() {
    let mut state = fresh_state("admin");
    let id = create_default(&mut state);
    counter_default(&mut state, &id);
    try_receiver_withdraw(&mut state, &"bob".to_string(), &id).unwrap();
    assert_eq!(state.exchanges.entries.len(), 1);
    // a fresh counter-offer against the surviving exchange is accepted
    counter_default(&mut state, &id);
    assert_eq!(state.counter_offers.entries.len(), 1);
}

#[test]
fn counter_offer_overwrites_prior_one() {
    let mut state = fresh_state("admin");
    let id = create_default(&mut state);
    counter_default(&mut state, &id);
    assert_eq!(state.counter_offers.entries[0].1.counter_offer_time, 8);
    // a second deposit silently replaces the first: last writer wins
    try_receiver_receive(
        &mut state,
        42,
        &"c2b".to_string(),
        &"bob".to_string(),
        &"t2".to_string(),
        &CounterOfferNft {
            exchange_id: id.clone(),
            action: "receiver_receive".to_string(),
        },
    )
    .unwrap();
    assert_eq!(state.counter_offers.entries.len(), 1);
    assert_eq!(state.counter_offers.entries[0].1.counter_offer_time, 42);
}

#[test]
fn non_owner_cannot_bulk_withdraw() {
    let mut state = fresh_state("admin");
    let id = create_default(&mut state);
    counter_default(&mut state, &id);
    let err =
        try_withdraw_all_exchangers_nfts(&mut state, &"alice".to_string()).unwrap_err();
    assert_eq!(err, ContractError::Unauthorized);
    // no registry mutation, no instructions emitted
    assert_eq!(state.exchanges.entries.len(), 1);
    assert_eq!(state.counter_offers.entries.len(), 1);
    let err2 = try_withdraw_all_receivers_nfts(&mut state, &"bob".to_string()).unwrap_err();
    assert_eq!(err2, ContractError::Unauthorized);
    assert_eq!(state.counter_offers.entries.len(), 1);
}

#[test]
fn owner_drains_escrow_with_both_recoveries() {
    let mut state = fresh_state("admin");
    let id = create_default(&mut state);
    counter_default(&mut state, &id);
    let second = try_exchanger_receive(
        &mut state,
        9,
        &"c1a".to_string(),
        &"carol".to_string(),
        &"t5".to_string(),
        &proposal("c2b", "t6", "dave"),
    )
    .unwrap();
    assert_eq!(second, "2");
    let ex_msgs = try_withdraw_all_exchangers_nfts(&mut state, &"admin".to_string()).unwrap();
    assert_eq!(ex_msgs.len(), 2);
    assert_eq!(ex_msgs[0].recipient, "alice");
    assert_eq!(ex_msgs[0].token_id, "t1");
    assert_eq!(ex_msgs[1].recipient, "carol");
    assert_eq!(ex_msgs[1].token_id, "t5");
    assert_eq!(state.exchanges.entries.len(), 0);
    // the exchanger unwind does not touch counter-offers
    assert_eq!(state.counter_offers.entries.len(), 1);
    let co_msgs = try_withdraw_all_receivers_nfts(&mut state, &"admin".to_string()).unwrap();
    assert_eq!(co_msgs.len(), 1);
    assert_eq!(co_msgs[0].recipient, "bob");
    assert_eq!(co_msgs[0].token_id, "t2");
    assert_eq!(state.counter_offers.entries.len(), 0);
}

#[test]
fn empty_ledgers_yield_empty_results() {
    let mut state = fresh_state("admin");
    let msgs = try_withdraw_all_exchangers_nfts(&mut state, &"admin".to_string()).unwrap();
    assert_eq!(msgs.len(), 0);
    let msgs = try_withdraw_all_receivers_nfts(&mut state, &"admin".to_string()).unwrap();
    assert_eq!(msgs.len(), 0);
    assert_eq!(num_exchanges(&state), 0);
    assert_eq!(num_completed_exchanges(&state), 0);
}

#[test]
fn uppercase_addresses_canonicalize_case_insensitively() {
    // the codec folds case: both spellings act as the same party
    assert_eq!(canon("ALICE"), canon("alice"));
}
