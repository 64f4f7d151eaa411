use horizon_contracts::addr::Addr;
use horizon_contracts::error::ContractError;
use horizon_contracts::governance_timelock::{get_operation, GovernanceTimelock, OperationStatus};

fn addr(s: &str) -> Addr {
    Addr::new(s.as_bytes().to_vec())
}

fn setup(delay: u64) -> GovernanceTimelock {
    let mut t = GovernanceTimelock::new();
    t.initialize(addr("ADMIN"), addr("GUARDIAN"), delay).unwrap();
    t
}

#[test]
fn test_queue_and_execute_flow() {
    let mut t = setup(100);
    let op = t.queue_operation(addr("PROPOSER"), "upgrade_v2".to_string(), 0).unwrap();
    assert_eq!(op.id, 1);
    let op = get_operation(Some(op)).unwrap();
    assert_eq!(op.status, OperationStatus::Pending);
    let op = t.execute_operation(Some(op), 200).unwrap();
    assert_eq!(op.status, OperationStatus::Executed);
    assert!(!op.is_emergency);
}

#[test]
fn test_pause_blocks_queue_and_execute() {
    let mut t = setup(0);
    t.pause().unwrap();
    assert!(t.paused);
    assert_eq!(t.queue_operation(addr("P"), "blocked".to_string(), 0).err(), Some(ContractError::ContractPaused));
    assert_eq!(t.emergency_resume(), Ok(true));
    assert!(!t.paused);
    let op = t.queue_operation(addr("PROPOSER"), "fix".to_string(), 0).unwrap();
    assert_eq!(op.id, 1);
}

#[test]
fn test_emergency_execute_bypasses_delay() {
    let mut t = setup(9999);
    let op = t.queue_operation(addr("PROPOSER"), "critical_fix".to_string(), 0).unwrap();
    let op = t.emergency_execute(Some(op)).unwrap();
    assert_eq!(op.status, OperationStatus::Executed);
    assert!(op.is_emergency);
}

#[test]
fn test_cancel_operation() {
    let mut t = setup(500);
    let op = t.queue_operation(addr("PROPOSER"), "to_cancel".to_string(), 0).unwrap();
    let op = t.cancel_operation(Some(op)).unwrap();
    assert_eq!(op.status, OperationStatus::Cancelled);
    assert_eq!(t.execute_operation(Some(op), 10_000).err(), Some(ContractError::OperationNotPending));
}

#[test]
fn test_execute_before_delay_panics() {
    let mut t = setup(1000);
    let op = t.queue_operation(addr("PROPOSER"), "change".to_string(), 0).unwrap();
    assert_eq!(op.eta, 1000);
    assert_eq!(t.execute_operation(Some(op), 0).err(), Some(ContractError::TimelockDelayNotElapsed));
}

#[test]
fn test_queue_while_paused_panics() {
    let mut t = setup(0);
    t.pause().unwrap();
    assert_eq!(t.queue_operation(addr("PROPOSER"), "blocked".to_string(), 0).err(), Some(ContractError::ContractPaused));
    assert_eq!(t.get_operation_count(), 0);
}

#[test]
fn timelock_boundaries() {
    let mut t = setup(1000);
    let op = t.queue_operation(addr("PROPOSER"), "change".to_string(), 0).unwrap();
    assert_eq!(t.execute_operation(Some(op), 999).err(), Some(ContractError::TimelockDelayNotElapsed));
    let op = t.queue_operation(addr("PROPOSER"), "change".to_string(), 0).unwrap();
    assert_eq!(t.execute_operation(Some(op), 1000).unwrap().status, OperationStatus::Executed);
    assert_eq!(t.initialize(addr("ADMIN"), addr("GUARDIAN"), 1), Err(ContractError::AlreadyInitialized));
}

#[test]
fn state_getters() {
    let mut t = setup(100);
    assert!(!t.is_paused());
    assert_eq!(t.get_delay(), 100);
    assert_eq!(t.get_operation_count(), 0);
    t.queue_operation(addr("PROPOSER"), "op".to_string(), 0).unwrap();
    assert_eq!(t.get_operation_count(), 1);
}
