use horizon_contracts::addr::Addr;
use horizon_contracts::error::ContractError;
use horizon_contracts::gas_estimator::{GasEstimator, InvokeOutcome, SimResult, SimulatedCall, Target};

fn target() -> Addr {
    Addr::new(b"TARGET".to_vec())
}

/// How invoking the named function of `Target` ends.
fn invoke(func: &str) -> InvokeOutcome {
    match func {
        "ok" => {
            assert_eq!(Target::ok(), "ok");
            InvokeOutcome::Returned
        }
        "fail" => match Target::fail() {
            Ok(()) => InvokeOutcome::Returned,
            Err(_) => InvokeOutcome::ContractError,
        },
        _ => InvokeOutcome::HostError,
    }
}

#[test]
fn test_simulate_success() {
    let (res, ev) = GasEstimator::simulate(1, target(), invoke("ok"));
    assert!(res.success);
    assert_eq!(res.call_id, 1);
    assert!(ev.success);
    assert_eq!(ev.target.bytes, b"TARGET".to_vec());
}

#[test]
fn test_simulate_failure_does_not_revert() {
    let (res, ev) = GasEstimator::simulate(2, target(), invoke("fail"));
    assert!(!res.success);
    assert_eq!(res.call_id, 2);
    assert_eq!(ev.call_id, 2);
    assert!(!ev.success);
}

#[test]
fn test_simulate_batch() {
    let calls = vec![
        SimulatedCall { call_id: 1, target: target(), outcome: invoke("ok") },
        SimulatedCall { call_id: 2, target: target(), outcome: invoke("fail") },
        SimulatedCall { call_id: 3, target: target(), outcome: invoke("ok") },
    ];
    let (results, events) = GasEstimator::simulate_batch(calls);
    assert_eq!(results.len(), 3);
    assert!(results[0].success);
    assert!(!results[1].success);
    assert!(results[2].success);
    assert_eq!(events.len(), 3);
}

#[test]
fn host_errors_count_as_failures() {
    let (res, ev) = GasEstimator::simulate(9, target(), invoke("missing"));
    assert_eq!(res, SimResult { call_id: 9, success: false });
    assert_eq!(ev.resource_usage, 0);
    assert_eq!(Target::fail(), Err(ContractError::IntentionalFailure));
    assert_eq!(GasEstimator::version(), 100);
}
