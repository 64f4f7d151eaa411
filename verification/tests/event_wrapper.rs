use std::collections::HashMap;

use horizon_contracts::addr::Addr;
use horizon_contracts::error::ContractError;
use horizon_contracts::event_wrapper::{allowance, approve, balance_of, burn, burn_from, transfer, transfer_from, BalanceWrite, EventWrapper};

fn addr(s: &str) -> Addr {
    Addr::new(s.as_bytes().to_vec())
}

/// The wrapper with its stored balances and allowances.
struct W {
    state: EventWrapper,
    balances: HashMap<Vec<u8>, i128>,
    allowances: HashMap<(Vec<u8>, Vec<u8>), i128>,
}

impl W {
    fn setup() -> W {
        let mut state = EventWrapper::new();
        state.initialize(addr("ADMIN"), addr("UNDERLYING"), "native".to_string(), "native".to_string(), 7).unwrap();
        W { state, balances: HashMap::new(), allowances: HashMap::new() }
    }
    fn bal(&self, a: &str) -> i128 {
        balance_of(self.balances.get(a.as_bytes()).copied())
    }
    fn apply(&mut self, w: Vec<BalanceWrite>) {
        for x in w {
            self.balances.insert(x.account.bytes, x.balance);
        }
    }
    fn wrap(&mut self, a: &str, amount: i128) {
        let b = self.state.wrap(self.bal(a), amount).unwrap();
        self.balances.insert(a.as_bytes().to_vec(), b);
    }
    fn allow(&self, from: &str, spender: &str) -> i128 {
        allowance(self.allowances.get(&(from.as_bytes().to_vec(), spender.as_bytes().to_vec())).copied())
    }
}

#[test]
fn test_metadata_mirrored() {
    let w = W::setup();
    assert_eq!(w.state.name().unwrap(), "native");
    assert_eq!(w.state.symbol().unwrap(), "native");
    assert_eq!(w.state.decimals().unwrap(), 7);
}

#[test]
fn test_wrap_mints_wrapped_balance() {
    let mut w = W::setup();
    w.wrap("USER", 1000);
    assert_eq!(w.bal("USER"), 1000);
}

#[test]
fn test_unwrap_returns_underlying() {
    let mut w = W::setup();
    w.wrap("USER", 500);
    let b = w.state.unwrap(w.bal("USER"), 300).unwrap();
    assert_eq!(b, 200);
}

#[test]
fn test_transfer() {
    let mut w = W::setup();
    w.wrap("ALICE", 200);
    let writes = transfer(&addr("ALICE"), &addr("BOB"), w.bal("ALICE"), w.bal("BOB"), 150).unwrap();
    w.apply(writes);
    assert_eq!(w.bal("ALICE"), 50);
    assert_eq!(w.bal("BOB"), 150);
}

#[test]
fn test_approve_and_transfer_from() {
    let mut w = W::setup();
    w.wrap("ALICE", 500);
    let a = approve(300).unwrap();
    w.allowances.insert((b"ALICE".to_vec(), b"SPENDER".to_vec()), a);
    assert_eq!(w.allow("ALICE", "SPENDER"), 300);
    let (na, writes) = transfer_from(&addr("ALICE"), &addr("BOB"), w.allow("ALICE", "SPENDER"), w.bal("ALICE"), w.bal("BOB"), 200).unwrap();
    w.allowances.insert((b"ALICE".to_vec(), b"SPENDER".to_vec()), na);
    w.apply(writes);
    assert_eq!(w.allow("ALICE", "SPENDER"), 100);
    assert_eq!(w.bal("ALICE"), 300);
    assert_eq!(w.bal("BOB"), 200);
}

#[test]
fn test_burn() {
    let mut w = W::setup();
    w.wrap("USER", 400);
    assert_eq!(burn(w.bal("USER"), 100), Ok(300));
}

#[test]
fn test_burn_from() {
    let mut w = W::setup();
    w.wrap("ALICE", 400);
    w.allowances.insert((b"ALICE".to_vec(), b"SPENDER".to_vec()), approve(200).unwrap());
    assert_eq!(burn_from(w.allow("ALICE", "SPENDER"), w.bal("ALICE"), 150), Ok((50, 250)));
}

#[test]
fn test_set_admin() {
    let mut w = W::setup();
    let old = w.state.set_admin(addr("NEW_ADMIN")).unwrap();
    assert_eq!(old.bytes, b"ADMIN".to_vec());
    assert_eq!(w.state.admin().unwrap().bytes, b"NEW_ADMIN".to_vec());
}

#[test]
fn test_mint_by_admin() {
    let w = W::setup();
    assert_eq!(w.state.mint(0, 777), Ok(777));
}

#[test]
fn test_unwrap_more_than_balance_panics() {
    let mut w = W::setup();
    w.wrap("USER", 100);
    assert_eq!(w.state.unwrap(w.bal("USER"), 101), Err(ContractError::InsufficientWrappedBalance));
}

#[test]
fn test_transfer_insufficient_balance_panics() {
    let mut w = W::setup();
    w.wrap("ALICE", 100);
    let r = transfer(&addr("ALICE"), &addr("BOB"), w.bal("ALICE"), w.bal("BOB"), 101);
    assert_eq!(r.err(), Some(ContractError::InsufficientBalance));
}

#[test]
fn test_transfer_from_exceeds_allowance_panics() {
    let mut w = W::setup();
    w.wrap("ALICE", 500);
    w.allowances.insert((b"ALICE".to_vec(), b"SPENDER".to_vec()), approve(100).unwrap());
    let r = transfer_from(&addr("ALICE"), &addr("BOB"), w.allow("ALICE", "SPENDER"), w.bal("ALICE"), w.bal("BOB"), 101);
    assert_eq!(r.err(), Some(ContractError::InsufficientAllowance));
}

#[test]
fn wrapper_refusals() {
    let mut w = W::setup();
    assert_eq!(approve(-1), Err(ContractError::AmountNegative));
    assert_eq!(w.state.initialize(addr("A"), addr("U"), String::new(), String::new(), 0), Err(ContractError::AlreadyInitialized));
    assert_eq!(EventWrapper::new().name().err(), Some(ContractError::NotInitialized));
}

#[test]
fn self_transfer_keeps_the_balance() {
    let mut w = W::setup();
    w.wrap("ALICE", 100);
    let writes = transfer(&addr("ALICE"), &addr("ALICE"), w.bal("ALICE"), w.bal("ALICE"), 40).unwrap();
    w.apply(writes);
    assert_eq!(w.bal("ALICE"), 100);
    assert_eq!(transfer(&addr("ALICE"), &addr("ALICE"), 100, 100, 101).err(), Some(ContractError::InsufficientBalance));
}
