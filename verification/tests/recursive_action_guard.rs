use std::collections::HashMap;

use horizon_contracts::addr::Addr;
use horizon_contracts::error::ContractError;
use horizon_contracts::recursive_action_guard::{exit, get_depth, RecursiveActionGuard};

/// The guard with its stored depths, keyed by (caller, action).
struct Guard {
    g: RecursiveActionGuard,
    depths: HashMap<(String, String), u32>,
}

fn setup(max_depth: u32) -> Guard {
    let mut g = RecursiveActionGuard::new();
    g.initialize(Addr::new(b"ADMIN".to_vec()), max_depth).unwrap();
    Guard { g, depths: HashMap::new() }
}

impl Guard {
    fn key(caller: &str, action: &str) -> (String, String) {
        (caller.to_string(), action.to_string())
    }
    fn get_depth(&self, caller: &str, action: &str) -> u32 {
        get_depth(self.depths.get(&Self::key(caller, action)).copied())
    }
    fn enter(&mut self, caller: &str, action: &str) -> Result<u32, ContractError> {
        let k = Self::key(caller, action);
        match self.g.enter(self.depths.get(&k).copied()) {
            Ok(d) => {
                self.depths.insert(k, d);
                Ok(d)
            }
            Err((e, report)) => {
                assert_eq!(report.max_depth, self.g.get_max_depth());
                Err(e)
            }
        }
    }
    fn exit(&mut self, caller: &str, action: &str) -> Result<u32, ContractError> {
        let k = Self::key(caller, action);
        let (d, to_store) = exit(self.depths.get(&k).copied())?;
        match to_store {
            Some(v) => {
                self.depths.insert(k, v);
            }
            None => {
                self.depths.remove(&k);
            }
        }
        Ok(d)
    }
}

#[test]
fn test_enter_and_exit() {
    let mut g = setup(3);
    assert_eq!(g.get_depth("CALLER", "transfer"), 0);
    assert_eq!(g.enter("CALLER", "transfer"), Ok(1));
    assert_eq!(g.get_depth("CALLER", "transfer"), 1);
    assert_eq!(g.enter("CALLER", "transfer"), Ok(2));
    assert_eq!(g.exit("CALLER", "transfer"), Ok(1));
    assert_eq!(g.exit("CALLER", "transfer"), Ok(0));
    assert_eq!(g.get_depth("CALLER", "transfer"), 0);
    assert!(g.depths.is_empty());
}

#[test]
fn test_blocks_at_max_depth() {
    let mut g = setup(2);
    g.enter("CALLER", "swap").unwrap();
    g.enter("CALLER", "swap").unwrap();
    assert_eq!(g.enter("CALLER", "swap"), Err(ContractError::RecursiveLoopDetected));
}

#[test]
fn test_independent_callers() {
    let mut g = setup(2);
    g.enter("A", "mint").unwrap();
    g.enter("A", "mint").unwrap();
    assert_eq!(g.enter("B", "mint"), Ok(1));
}

#[test]
fn test_independent_actions() {
    let mut g = setup(2);
    g.enter("CALLER", "mint").unwrap();
    g.enter("CALLER", "mint").unwrap();
    assert_eq!(g.enter("CALLER", "burn"), Ok(1));
}

#[test]
fn test_exit_without_enter_panics() {
    let mut g = setup(3);
    assert_eq!(g.exit("CALLER", "noop"), Err(ContractError::NoActiveEntry));
}

#[test]
fn guard_double_init_is_refused() {
    let mut g = setup(3);
    assert_eq!(g.g.initialize(Addr::new(b"ADMIN".to_vec()), 3), Err(ContractError::AlreadyInitialized));
}

#[test]
fn test_admin_set_max_depth() {
    let mut g = setup(3);
    assert_eq!(g.g.get_max_depth(), 3);
    g.g.set_max_depth(4).unwrap();
    assert_eq!(g.g.get_max_depth(), 4);
    assert_eq!(g.g.set_max_depth(0), Err(ContractError::MaxDepthZero));
}

#[test]
fn test_depth_resets_after_full_exit() {
    let mut g = setup(3);
    g.enter("CALLER", "relay").unwrap();
    g.enter("CALLER", "relay").unwrap();
    g.exit("CALLER", "relay").unwrap();
    g.exit("CALLER", "relay").unwrap();
    assert_eq!(g.enter("CALLER", "relay"), Ok(1));
}

#[test]
fn uninitialized_guard_uses_default_depth() {
    let mut g = RecursiveActionGuard::new();
    assert_eq!(g.get_max_depth(), 5);
    assert_eq!(g.set_max_depth(3), Err(ContractError::NotInitialized));
    assert_eq!(g.initialize(Addr::new(b"A".to_vec()), 0), Err(ContractError::MaxDepthZero));
    let (e, report) = g.enter(Some(5)).unwrap_err();
    assert_eq!(e, ContractError::RecursiveLoopDetected);
    assert_eq!(report.depth, 5);
    assert_eq!(report.max_depth, 5);
}
