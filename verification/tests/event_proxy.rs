use horizon_contracts::addr::Addr;
use horizon_contracts::error::ContractError;
use horizon_contracts::event_proxy::{execute, get_event, EventProposal, EventProxy, EventStatus};

fn addr(s: &str) -> Addr {
    Addr::new(s.as_bytes().to_vec())
}

fn signers(n: usize) -> Vec<Addr> {
    (0..n).map(|i| addr(&format!("SIGNER{}", i))).collect()
}

fn setup_2of3() -> EventProxy {
    let mut p = EventProxy::new();
    p.initialize(signers(3), 2, 3600).unwrap();
    p
}

fn schedule(p: &mut EventProxy, amount: i128) -> EventProposal {
    p.schedule_event(addr("SIGNER0"), addr("RECIPIENT"), vec![], amount, addr("TOKEN")).unwrap()
}

fn approve(p: &EventProxy, e: EventProposal, who: &str, now: u64) -> EventProposal {
    p.approve(&addr(who), Some(e), false, now).unwrap().event
}

#[test]
fn test_initialization_and_threshold() {
    let p = setup_2of3();
    assert_eq!(p.threshold, 2);
    assert_eq!(p.signers.len(), 3);
    assert_eq!(p.timelock_delay, 3600);
}

#[test]
fn test_event_lifecycle_full_flow() {
    let mut p = setup_2of3();
    let e = schedule(&mut p, 500);
    assert_eq!(e.id, 0);
    let e = get_event(Some(e)).unwrap();
    assert_eq!(e.status, EventStatus::Pending);
    assert_eq!(e.approvals, 0);
    assert_eq!(e.amount, 500);
    assert_eq!(e.target.bytes, b"RECIPIENT".to_vec());
    let e = approve(&p, e, "SIGNER0", 0);
    assert_eq!(e.approvals, 1);
    assert_eq!(e.status, EventStatus::Pending);
    let a = p.approve(&addr("SIGNER1"), Some(e), false, 0).unwrap();
    let e = a.event;
    assert_eq!(e.approvals, 2);
    assert_eq!(e.status, EventStatus::Queued);
    assert!(e.execution_time > e.queued_at);
    assert_eq!(e.execution_time, e.queued_at + 3600);
    assert!(a.queued.is_some());
    let at = e.execution_time + 1;
    let (e, transfer, ev) = execute(Some(e), at).unwrap();
    assert_eq!(e.status, EventStatus::Executed);
    let t = transfer.unwrap();
    assert_eq!(t.amount, 500);
    assert_eq!(t.to.bytes, b"RECIPIENT".to_vec());
    assert_eq!(ev.event_id, 0);
}

#[test]
fn test_timelock_requires_wait() {
    let mut p = setup_2of3();
    let e = schedule(&mut p, 100);
    let e = approve(&p, e, "SIGNER0", 0);
    let e = approve(&p, e, "SIGNER1", 0);
    assert_eq!(e.status, EventStatus::Queued);
    assert!(e.execution_time > e.queued_at);
    let at = e.execution_time + 1;
    let (e, _, _) = execute(Some(e), at).unwrap();
    assert_eq!(e.status, EventStatus::Executed);
}

#[test]
fn test_execute_before_timelock_panics() {
    let mut p = setup_2of3();
    let e = schedule(&mut p, 100);
    let e = approve(&p, e, "SIGNER0", 10);
    let e = approve(&p, e, "SIGNER1", 10);
    assert_eq!(e.status, EventStatus::Queued);
    assert_eq!(execute(Some(e), 10).err(), Some(ContractError::TimelockNotExpired));
}

#[test]
fn test_get_nonexistent_event_panics() {
    assert_eq!(get_event(None).err(), Some(ContractError::EventNotFound));
}

#[test]
fn test_threshold_exceeds_signers() {
    let mut p = EventProxy::new();
    assert_eq!(p.initialize(signers(2), 3, 3600), Err(ContractError::ThresholdExceedsSignerCount));
    assert_eq!(p.get_threshold(), Err(ContractError::NotInitialized));
}

#[test]
fn test_zero_timelock_panics() {
    let mut p = EventProxy::new();
    assert_eq!(p.initialize(signers(2), 1, 0), Err(ContractError::TimelockDelayZero));
}

#[test]
fn test_empty_signers_panics() {
    let mut p = EventProxy::new();
    assert_eq!(p.initialize(vec![], 1, 3600), Err(ContractError::NoSigners));
    assert_eq!(p.initialize(vec![], 0, 3600), Err(ContractError::ThresholdZero));
}

#[test]
fn signer_management_keeps_threshold_reachable() {
    let mut p = setup_2of3();
    assert_eq!(p.add_signer(addr("SIGNER0")), Err(ContractError::AlreadySigner));
    p.add_signer(addr("SIGNER3")).unwrap();
    assert_eq!(p.signers.len(), 4);
    p.remove_signer(&addr("SIGNER0")).unwrap();
    p.remove_signer(&addr("SIGNER1")).unwrap();
    assert_eq!(p.remove_signer(&addr("SIGNER2")), Err(ContractError::ThresholdExceedsSignerCount));
    assert_eq!(p.remove_signer(&addr("NOBODY")), Err(ContractError::NotSigner));
    assert!(!p.is_signer(&addr("SIGNER0")));
}

#[test]
fn double_approval_and_cancel() {
    let mut p = setup_2of3();
    let e = schedule(&mut p, 0);
    let e = approve(&p, e, "SIGNER0", 0);
    let copy = p.cancel(&addr("SIGNER2"), Some(e)).unwrap();
    assert_eq!(copy.status, EventStatus::Cancelled);
    assert_eq!(p.cancel(&addr("SIGNER2"), Some(copy)).err(), Some(ContractError::EventNotCancellable));
    let e = schedule(&mut p, 0);
    assert_eq!(p.approve(&addr("SIGNER0"), Some(e), true, 0).err(), Some(ContractError::AlreadyApproved));
}

#[test]
fn configuration_getters() {
    let p = setup_2of3();
    assert_eq!(p.get_signers().unwrap().len(), 3);
    assert_eq!(p.get_threshold(), Ok(2));
    assert_eq!(p.get_timelock_delay(), Ok(3600));
    let fresh = EventProxy::new();
    assert_eq!(fresh.get_threshold(), Err(ContractError::NotInitialized));
    assert_eq!(fresh.get_timelock_delay(), Err(ContractError::NotInitialized));
    assert!(fresh.get_signers().is_err());
}
