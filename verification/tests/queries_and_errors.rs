//! The query layer's filtering and ordering, the command/query dispatch,
//! and an input for every error kind.

use cw_one2one_nft::contract::{
    execute, instantiate, query, query_counter_offers, query_exchanges, try_exchange,
    try_exchanger_receive, try_receiver_receive, try_receiver_withdraw,
};
use cw_one2one_nft::error::ContractError;
use cw_one2one_nft::msg::{
    CounterOfferNft, ExchangeNft, ExecuteMsg, InstantiateMsg, QueryMsg, ReceivePayload,
    ReceivedNft,
};
use cw_one2one_nft::package::QueryAnswer;
use cw_one2one_nft::state::State;

fn fresh_state(owner: &str) -> State {
    let mut state = State::new();
    instantiate(
        &mut state,
        &owner.to_string(),
        InstantiateMsg { name: "one2one".to_string() },
    )
    .unwrap();
    state
}

fn proposal(receiver_contract: &str, receiver_token: &str, receiver: &str) -> ExchangeNft {
    ExchangeNft {
        receiver_token_contract_address: receiver_contract.to_string(),
        receiver_token_id: receiver_token.to_string(),
        receiver: receiver.to_string(),
        action: "exchanger_receive".to_string(),
    }
}

fn create(state: &mut State, exchanger: &str, token: &str, receiver: &str, wanted: &str) -> String {
    try_exchanger_receive(
        state,
        7,
        &"c1a".to_string(),
        &exchanger.to_string(),
        &token.to_string(),
        &proposal("c2b", wanted, receiver),
    )
    .unwrap()
}

fn counter(state: &mut State, sender: &str, token: &str, id: &str) -> Result<(), ContractError> {
    try_receiver_receive(
        state,
        8,
        &"c2b".to_string(),
        &sender.to_string(),
        &token.to_string(),
        &CounterOfferNft {
            exchange_id: id.to_string(),
            action: "receiver_receive".to_string(),
        },
    )
}

#[test]
fn no_filter_returns_all_in_lexicographic_order() {
    let mut state = fresh_state("admin");
    for i in 0..11 {
        let token = format!("t{}", i);
        create(&mut state, "alice", &token, "bob", "t2");
    }
    let resp = query_exchanges(&state, &None, &None).unwrap();
    let ids: Vec<String> = resp.exchanges.iter().map(|e| e.id.clone()).collect();
    // decimal ids iterate in lexicographic, not numeric, order
    assert_eq!(
        ids,
        vec!["1", "10", "11", "2", "3", "4", "5", "6", "7", "8", "9"]
    );
    // projection restores human-facing identities
    assert_eq!(resp.exchanges[0].exchanger, "alice");
    assert_eq!(resp.exchanges[0].receiver, "bob");
    assert_eq!(resp.exchanges[0].exchanger_contract_addr, "c1a");
    assert_eq!(resp.exchanges[0].receiver_contract_addr, "c2b");
}

#[test]
fn filter_matches_exchanger_or_receiver_inclusively() {
    let mut state = fresh_state("admin");
    create(&mut state, "alice", "t1", "bob", "t2");
    create(&mut state, "carol", "t3", "dave", "t4");
    // an exchanger filter also catches entries where it is the receiver
    let by_alice = query_exchanges(&state, &Some("alice".to_string()), &None).unwrap();
    assert_eq!(by_alice.exchanges.len(), 1);
    assert_eq!(by_alice.exchanges[0].id, "1");
    let by_bob_as_exchanger = query_exchanges(&state, &Some("bob".to_string()), &None).unwrap();
    assert_eq!(by_bob_as_exchanger.exchanges.len(), 0);
    let by_bob_as_receiver = query_exchanges(&state, &None, &Some("bob".to_string())).unwrap();
    assert_eq!(by_bob_as_receiver.exchanges.len(), 1);
    let both = query_exchanges(
        &state,
        &Some("alice".to_string()),
        &Some("dave".to_string()),
    )
    .unwrap();
    assert_eq!(both.exchanges.len(), 2);
    let nobody = query_exchanges(&state, &Some("erin".to_string()), &None).unwrap();
    assert_eq!(nobody.exchanges.len(), 0);
    // naming one party on both sides catches it as exchanger or receiver
    let bob_either = query_exchanges(
        &state,
        &Some("bob".to_string()),
        &Some("bob".to_string()),
    )
    .unwrap();
    assert_eq!(bob_either.exchanges.len(), 1);
    assert_eq!(bob_either.exchanges[0].receiver, "bob");
}

#[test]
fn counter_offer_query_matches_sender_exactly() {
    let mut state = fresh_state("admin");
    let id1 = create(&mut state, "alice", "t1", "bob", "t2");
    create(&mut state, "carol", "t3", "dave", "t2");
    counter(&mut state, "bob", "t2", &id1).unwrap();
    counter(&mut state, "dave", "t2", "2").unwrap();
    let bobs = query_counter_offers(&state, &"bob".to_string()).unwrap();
    assert_eq!(bobs.counter_offers.len(), 1);
    assert_eq!(bobs.counter_offers[0].id, "1");
    assert_eq!(bobs.counter_offers[0].exchange_id, "1");
    assert_eq!(bobs.counter_offers[0].sender, "bob");
    assert_eq!(bobs.counter_offers[0].token_id, "t2");
    assert_eq!(bobs.counter_offers[0].contract_addr, "c2b");
    let nobody = query_counter_offers(&state, &"erin".to_string()).unwrap();
    assert_eq!(nobody.counter_offers.len(), 0);
}

#[test]
fn completed_query_shows_settled_exchanges() {
    let mut state = fresh_state("admin");
    let id = create(&mut state, "alice", "t1", "bob", "t2");
    counter(&mut state, "bob", "t2", &id).unwrap();
    try_exchange(&mut state, &"alice".to_string(), &id).unwrap();
    let answer = query(
        &state,
        &QueryMsg::GetCompletedExchanges { receiver: None, exchanger: None },
    )
    .unwrap();
    match answer {
        QueryAnswer::Exchanges(resp) => {
            assert_eq!(resp.exchanges.len(), 1);
            assert_eq!(resp.exchanges[0].id, "1");
            assert_eq!(resp.exchanges[0].exchanger, "alice");
        },
        QueryAnswer::CounterOffers(_) => panic!("wrong answer shape"),
    }
    let open = query(
        &state,
        &QueryMsg::GetExchanges { receiver: None, exchanger: None },
    )
    .unwrap();
    match open {
        QueryAnswer::Exchanges(resp) => assert_eq!(resp.exchanges.len(), 0),
        QueryAnswer::CounterOffers(_) => panic!("wrong answer shape"),
    }
}

fn payload(
    action: Option<&str>,
    contract: Option<&str>,
    token: Option<&str>,
    receiver: Option<&str>,
    exchange_id: Option<&str>,
) -> ReceivePayload {
    ReceivePayload {
        action: action.map(|s| s.to_string()),
        receiver_token_contract_address: contract.map(|s| s.to_string()),
        receiver_token_id: token.map(|s| s.to_string()),
        receiver: receiver.map(|s| s.to_string()),
        exchange_id: exchange_id.map(|s| s.to_string()),
    }
}

#[test]
fn execute_routes_deposits_by_action() {
    let mut state = fresh_state("admin");
    let deposit = ExecuteMsg::ReceiveNft(ReceivedNft {
        sender: "alice".to_string(),
        token_id: "t1".to_string(),
        payload: payload(Some("exchanger_receive"), Some("c2b"), Some("t2"), Some("bob"), None),
    });
    let msgs = execute(&mut state, 7, &"c1a".to_string(), deposit).unwrap();
    assert_eq!(msgs.len(), 0);
    assert_eq!(state.exchanges.entries.len(), 1);
    let counter_deposit = ExecuteMsg::ReceiveNft(ReceivedNft {
        sender: "bob".to_string(),
        token_id: "t2".to_string(),
        payload: payload(Some("receiver_receive"), None, None, None, Some("1")),
    });
    execute(&mut state, 8, &"c2b".to_string(), counter_deposit).unwrap();
    assert_eq!(state.counter_offers.entries.len(), 1);
    let msgs = execute(
        &mut state,
        9,
        &"bob".to_string(),
        ExecuteMsg::ExchangeNfts { exchange_id: "1".to_string() },
    )
    .unwrap();
    assert_eq!(msgs.len(), 2);
}

#[test]
fn errors_describe_themselves() {
    assert_eq!(ContractError::CantWithdraw.describe(), "withdrawal not available");
    assert_eq!(ContractError::SenderIsReceiver.describe(), "sender cannot be receiver");
    assert_eq!(ContractError::WrongAction.describe(), "wrong action");
}

#[test]
fn unknown_action_is_rejected() {
    let mut state = fresh_state("admin");
    let deposit = ExecuteMsg::ReceiveNft(ReceivedNft {
        sender: "alice".to_string(),
        token_id: "t1".to_string(),
        payload: payload(Some("burn_everything"), None, None, None, None),
    });
    let err = execute(&mut state, 7, &"c1a".to_string(), deposit).unwrap_err();
    assert_eq!(err, ContractError::WrongAction);
    assert_eq!(state.exchanges.entries.len(), 0);
}

#[test]
fn malformed_payloads_fail_to_decode() {
    let mut state = fresh_state("admin");
    // no discriminator at all
    let no_action = ExecuteMsg::ReceiveNft(ReceivedNft {
        sender: "alice".to_string(),
        token_id: "t1".to_string(),
        payload: payload(None, Some("c2b"), Some("t2"), Some("bob"), None),
    });
    let err = execute(&mut state, 7, &"c1a".to_string(), no_action).unwrap_err();
    assert_eq!(err, ContractError::DecodeError);
    // a counter-offer without its exchange id
    let no_id = ExecuteMsg::ReceiveNft(ReceivedNft {
        sender: "bob".to_string(),
        token_id: "t2".to_string(),
        payload: payload(Some("receiver_receive"), None, None, None, None),
    });
    let err = execute(&mut state, 7, &"c2b".to_string(), no_id).unwrap_err();
    assert_eq!(err, ContractError::DecodeError);
    // a proposal missing a field
    let no_receiver = ExecuteMsg::ReceiveNft(ReceivedNft {
        sender: "alice".to_string(),
        token_id: "t1".to_string(),
        payload: payload(Some("exchanger_receive"), Some("c2b"), Some("t2"), None, None),
    });
    let err = execute(&mut state, 7, &"c1a".to_string(), no_receiver).unwrap_err();
    assert_eq!(err, ContractError::DecodeError);
}

#[test]
fn settlement_requires_both_ledger_entries() {
    let mut state = fresh_state("admin");
    let err = try_exchange(&mut state, &"alice".to_string(), &"1".to_string()).unwrap_err();
    assert_eq!(err, ContractError::NotFound);
    let id = create(&mut state, "alice", "t1", "bob", "t2");
    // an exchange without a counter-offer cannot settle either
    let err = try_exchange(&mut state, &"alice".to_string(), &id).unwrap_err();
    assert_eq!(err, ContractError::NotFound);
}

#[test]
fn settlement_by_stranger_cannot_claim() {
    let mut state = fresh_state("admin");
    let id = create(&mut state, "alice", "t1", "bob", "t2");
    counter(&mut state, "bob", "t2", &id).unwrap();
    let err = try_exchange(&mut state, &"erin".to_string(), &id).unwrap_err();
    assert_eq!(err, ContractError::CannotClaim);
    assert_eq!(state.exchanges.entries.len(), 1);
    assert_eq!(state.counter_offers.entries.len(), 1);
}

#[test]
fn counter_offer_validation_errors() {
    let mut state = fresh_state("admin");
    // against a missing exchange
    let err = counter(&mut state, "bob", "t2", "9").unwrap_err();
    assert_eq!(err, ContractError::NotFound);
    let id = create(&mut state, "alice", "t1", "bob", "t2");
    // from the wrong collection
    let err = try_receiver_receive(
        &mut state,
        8,
        &"c3x".to_string(),
        &"bob".to_string(),
        &"t2".to_string(),
        &CounterOfferNft { exchange_id: id.clone(), action: "receiver_receive".to_string() },
    )
    .unwrap_err();
    assert_eq!(err, ContractError::WrongTokenCollection);
    // with the wrong token
    let err = counter(&mut state, "bob", "t9", &id).unwrap_err();
    assert_eq!(err, ContractError::WrongToken);
    // from a party other than the invited receiver
    let err = counter(&mut state, "erin", "t2", &id).unwrap_err();
    assert_eq!(err, ContractError::Unauthorized);
    assert_eq!(state.counter_offers.entries.len(), 0);
}

#[test]
fn self_exchange_is_degenerate() {
    let mut state = fresh_state("admin");
    let id = create(&mut state, "alice", "t1", "alice", "t2");
    let err = counter(&mut state, "alice", "t2", &id).unwrap_err();
    assert_eq!(err, ContractError::SenderIsReceiver);
}

#[test]
fn receiver_withdraw_errors() {
    let mut state = fresh_state("admin");
    let err =
        try_receiver_withdraw(&mut state, &"bob".to_string(), &"1".to_string()).unwrap_err();
    assert_eq!(err, ContractError::NotFound);
    let id = create(&mut state, "alice", "t1", "bob", "t2");
    counter(&mut state, "bob", "t2", &id).unwrap();
    let err = try_receiver_withdraw(&mut state, &"erin".to_string(), &id).unwrap_err();
    assert_eq!(err, ContractError::Unauthorized);
    assert_eq!(state.counter_offers.entries.len(), 1);
}

#[test]
fn too_short_addresses_are_invalid() {
    // the codec rejects addresses shorter than three characters
    let mut state = State::new();
    let err = instantiate(
        &mut state,
        &"ab".to_string(),
        InstantiateMsg { name: "one2one".to_string() },
    )
    .unwrap_err();
    assert_eq!(err, ContractError::InvalidAddress);
    assert!(state.config.is_none());
    let mut state = fresh_state("admin");
    let err = try_exchanger_receive(
        &mut state,
        7,
        &"c1a".to_string(),
        &"al".to_string(),
        &"t1".to_string(),
        &proposal("c2b", "t2", "bob"),
    )
    .unwrap_err();
    assert_eq!(err, ContractError::InvalidAddress);
    assert_eq!(state.exchanges.entries.len(), 0);
}
