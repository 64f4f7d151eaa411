//! Gas estimation by simulation: each simulated cross-contract call reports whether it
//! succeeded, and a failing call never aborts the batch.
use vstd::prelude::*;

use crate::addr::Addr;
use crate::error::ContractError;

verus! {

/// How a simulated invocation ended.
#[derive(Clone, Copy, Debug, PartialEq, Eq, Structural)]
pub enum InvokeOutcome {
    /// The target returned a value.
    Returned,
    /// The target failed with a contract error.
    ContractError,
    /// The invocation itself failed in the host.
    HostError,
}

/// Result of one simulated call.
#[derive(Clone, Copy, Debug, PartialEq, Eq, Structural)]
pub struct SimResult {
    pub call_id: u32,
    pub success: bool,
}

/// Event of one simulated call.
pub struct SimResultEvent {
    pub call_id: u32,
    pub target: Addr,
    pub success: bool,
    /// Filled in by off-chain simulation tools.
    pub resource_usage: u64,
}

/// One call of a batch and how its invocation ended.
pub struct SimulatedCall {
    pub call_id: u32,
    pub target: Addr,
    pub outcome: InvokeOutcome,
}

/// The estimator contract (stateless).
pub struct GasEstimator;

/// A minimal contract to simulate against: `ok` succeeds, `fail` always fails.
pub struct Target;

impl Target {
    /// Succeeds with the symbol `ok`.
    pub fn ok() -> (r: String)
        ensures
            r@ == seq!['o', 'k'],
    {
        let s = String::from_str("ok");
        proof { reveal_strlit("ok"); }
        s
    }

    /// Always fails.
    pub fn fail() -> (r: Result<(), ContractError>)
        ensures
            r == Err::<(), ContractError>(ContractError::IntentionalFailure),
    {
        Err(ContractError::IntentionalFailure)
    }
}

impl GasEstimator {
    /// The result and event of a simulated call: a success exactly when the target returned.
    pub fn simulate(call_id: u32, target: Addr, outcome: InvokeOutcome) -> (r: (SimResult, SimResultEvent))
        ensures
            r.0 == (SimResult { call_id, success: outcome == InvokeOutcome::Returned }),
            r.1.call_id == call_id,
            r.1.target@ == target@,
            r.1.success == (outcome == InvokeOutcome::Returned),
            r.1.resource_usage == 0,
    {
        let success = match outcome {
            InvokeOutcome::Returned => true,
            InvokeOutcome::ContractError => false,
            InvokeOutcome::HostError => false,
        };
        (SimResult { call_id, success }, SimResultEvent { call_id, target, success, resource_usage: 0 })
    }

    /// Results and events of a batch of simulated calls, one per call, in order.
    pub fn simulate_batch(calls: Vec<SimulatedCall>) -> (r: (Vec<SimResult>, Vec<SimResultEvent>))
        ensures
            r.0@.len() == calls@.len(),
            r.1@.len() == calls@.len(),
            forall|i: int| 0 <= i < calls@.len() ==> (#[trigger] r.0@[i]) == (SimResult { call_id: calls@[i].call_id,
                success: calls@[i].outcome == InvokeOutcome::Returned }),
            forall|i: int| 0 <= i < calls@.len() ==> (#[trigger] r.1@[i]).target@ == calls@[i].target@
                && r.1@[i].call_id == calls@[i].call_id && r.1@[i].success == (calls@[i].outcome == InvokeOutcome::Returned),
    {
        let mut results: Vec<SimResult> = Vec::new();
        let mut events: Vec<SimResultEvent> = Vec::new();
        let n = calls.len();
        let mut i: usize = 0;
        while i < n
            invariant
                i <= n,
                n == calls@.len(),
                results@.len() == i,
                events@.len() == i,
                forall|k: int| 0 <= k < i ==> (#[trigger] results@[k]) == (SimResult { call_id: calls@[k].call_id,
                    success: calls@[k].outcome == InvokeOutcome::Returned }),
                forall|k: int| 0 <= k < i ==> (#[trigger] events@[k]).target@ == calls@[k].target@
                    && events@[k].call_id == calls@[k].call_id && events@[k].success == (calls@[k].outcome == InvokeOutcome::Returned),
            decreases n - i,
        {
            let c = &calls[i];
            let (res, ev) = GasEstimator::simulate(c.call_id, c.target.duplicate(), c.outcome);
            results.push(res);
            events.push(ev);
            i += 1;
        }
        (results, events)
    }

    /// The contract version (1.0.0).
    pub fn version() -> (r: u32)
        ensures
            r == 100,
    {
        100
    }
}

} // verus!
