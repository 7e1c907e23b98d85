//! The identity codec: conversion between human-facing addresses and their
//! canonical storage form. The codec is an external collaborator; the
//! library consumes it through the two trusted wrappers below and reasons
//! about their results only through the names `canon_of` and `human_of`.

use vstd::prelude::*;
use cosmwasm_std::Api;

verus! {

/// What the codec returns for a human-facing address: its canonical bytes,
/// or `None` where the address is rejected. The result depends on the input
/// alone.
pub uninterp spec fn canon_of(s: Seq<char>) -> Option<Seq<u8>>;

/// What the codec returns for canonical bytes: the human-facing address, or
/// `None` where the bytes decode to no address. The result depends on the
/// bytes alone.
pub uninterp spec fn human_of(b: Seq<u8>) -> Option<Seq<char>>;

/// Relies on `cosmwasm_std::testing::MockApi::addr_canonicalize`: it
/// validates and transforms the input string deterministically, with no
/// other input, and every canonical address it produces has the api's fixed
/// canonical length of 54 bytes.
#[verifier::external_body]
pub fn addr_canonicalize(input: &str) -> (r: Option<Vec<u8>>)
    ensures
        r is Some <==> canon_of(input@) is Some,
        r is Some ==> r.unwrap()@ == canon_of(input@).unwrap(),
        r is Some ==> r.unwrap()@.len() == 54,
{
    let api = cosmwasm_std::testing::MockApi::default();
    match api.addr_canonicalize(input) {
        Ok(c) => Some(c.as_slice().to_vec()),
        Err(_) => None,
    }
}

/// Relies on `cosmwasm_std::testing::MockApi::addr_humanize`: it validates
/// and inverts the canonical transformation deterministically, with no other
/// input.
#[verifier::external_body]
pub fn addr_humanize(canon: &Vec<u8>) -> (r: Option<String>)
    ensures
        r is Some <==> human_of(canon@) is Some,
        r is Some ==> r.unwrap()@ == human_of(canon@).unwrap(),
{
    let api = cosmwasm_std::testing::MockApi::default();
    match api.addr_humanize(&cosmwasm_std::CanonicalAddr::from(canon.as_slice())) {
        Ok(a) => Some(a.into_string()),
        Err(_) => None,
    }
}

/// Decides equality of two canonical identities.
pub fn bytes_eq(a: &Vec<u8>, b: &Vec<u8>) -> (r: bool)
    ensures
        r == (a@ == b@),
{
    let n = a.len();
    if n != b.len() {
        return false;
    }
    let mut i: usize = 0;
    while i < n
        invariant
            i <= n,
            n == a@.len(),
            n == b@.len(),
            forall|j: int| 0 <= j < i ==> a@[j] == b@[j],
        decreases n - i,
    {
        if a[i] != b[i] {
            return false;
        }
        i = i + 1;
    }
    proof {
        assert(a@ =~= b@);
    }
    true
}

} // verus!
