//! Timelock for protocol changes: operations are queued with an earliest execution time,
//! executed after the delay or cancelled by the admin; a guardian can resume a paused
//! timelock and execute operations immediately in an emergency.
use vstd::prelude::*;

use crate::addr::{opt_view, Addr};
use crate::error::{is_err, ContractError};
use crate::math::fits_u64;

verus! {

/// Lifecycle of a queued operation.
#[derive(Clone, Copy, Debug, PartialEq, Eq, Structural)]
pub enum OperationStatus {
    Pending,
    Executed,
    Cancelled,
}

/// A queued protocol change.
pub struct TimelockOperation {
    pub id: u64,
    pub proposer: Addr,
    pub description: String,
    /// Earliest execution timestamp.
    pub eta: u64,
    pub status: OperationStatus,
    /// Executed by the guardian, bypassing the delay.
    pub is_emergency: bool,
}

/// The timelock's instance state.
pub struct GovernanceTimelock {
    pub admin: Option<Addr>,
    pub guardian: Option<Addr>,
    /// Minimum delay, in seconds, between queuing and execution.
    pub delay: u64,
    pub paused: bool,
    pub operation_count: u64,
}

// ── Mathematical model ──────────────────────────────────────────────────────

/// `o2` is `o1` with possibly another status and emergency flag.
pub open spec fn same_operation(o1: TimelockOperation, o2: TimelockOperation) -> bool {
    &&& o2.id == o1.id
    &&& o2.proposer@ == o1.proposer@
    &&& o2.description@ == o1.description@
    &&& o2.eta == o1.eta
}

fn with_status(o: TimelockOperation, status: OperationStatus, is_emergency: bool) -> (r: TimelockOperation)
    ensures
        same_operation(o, r),
        r.status == status,
        r.is_emergency == is_emergency,
{
    TimelockOperation { id: o.id, proposer: o.proposer, description: o.description, eta: o.eta, status, is_emergency }
}

// ── Executable functions ────────────────────────────────────────────────────

impl GovernanceTimelock {
    /// A timelock that was never initialized.
    pub fn new() -> (r: GovernanceTimelock)
        ensures
            r.admin is None,
            r.guardian is None,
            !r.paused,
            r.operation_count == 0,
    {
        GovernanceTimelock { admin: None, guardian: None, delay: 0, paused: false, operation_count: 0 }
    }

    /// Whether queuing and execution are paused.
    pub fn is_paused(&self) -> (r: bool)
        ensures
            r == self.paused,
    {
        self.paused
    }

    /// The minimum delay in seconds.
    pub fn get_delay(&self) -> (r: u64)
        ensures
            r == self.delay,
    {
        self.delay
    }

    /// Number of operations queued so far.
    pub fn get_operation_count(&self) -> (r: u64)
        ensures
            r == self.operation_count,
    {
        self.operation_count
    }

    /// One-time setup: unpaused, no operations.
    pub fn initialize(&mut self, admin: Addr, guardian: Addr, delay: u64) -> (r: Result<(), ContractError>)
        ensures
            old(self).admin is Some <==> is_err(r, ContractError::AlreadyInitialized),
            r is Ok ==> opt_view(final(self).admin) == Some(admin@) && opt_view(final(self).guardian) == Some(guardian@)
                && final(self).delay == delay && !final(self).paused && final(self).operation_count == 0,
            r is Err ==> opt_view(final(self).admin) == opt_view(old(self).admin) && final(self).delay == old(self).delay
                && final(self).paused == old(self).paused && final(self).operation_count == old(self).operation_count,
    {
        if self.admin.is_some() {
            return Err(ContractError::AlreadyInitialized);
        }
        self.admin = Some(admin);
        self.guardian = Some(guardian);
        self.delay = delay;
        self.paused = false;
        self.operation_count = 0;
        Ok(())
    }

    /// The admin pauses the timelock: nothing can be queued or executed normally.
    pub fn pause(&mut self) -> (r: Result<(), ContractError>)
        ensures
            old(self).admin is None <==> is_err(r, ContractError::NotInitialized),
            r is Ok ==> final(self).paused,
            r is Err ==> final(self).paused == old(self).paused,
            final(self).delay == old(self).delay,
            final(self).operation_count == old(self).operation_count,
    {
        if self.admin.is_none() {
            return Err(ContractError::NotInitialized);
        }
        self.paused = true;
        Ok(())
    }

    /// The guardian resumes the timelock; returns whether it was paused.
    pub fn emergency_resume(&mut self) -> (r: Result<bool, ContractError>)
        ensures
            r is Err ==> is_err(r, ContractError::NotInitialized),
            old(self).guardian is None <==> is_err(r, ContractError::NotInitialized),
            r matches Ok(was) ==> was == old(self).paused && !final(self).paused,
            r is Err ==> final(self).paused == old(self).paused,
            final(self).delay == old(self).delay,
            final(self).operation_count == old(self).operation_count,
    {
        if self.guardian.is_none() {
            return Err(ContractError::NotInitialized);
        }
        let was_paused = self.paused;
        self.paused = false;
        Ok(was_paused)
    }

    /// Queues the next operation, executable from `now + delay`. Refused while paused.
    pub fn queue_operation(&mut self, proposer: Addr, description: String, now: u64) -> (r: Result<TimelockOperation, ContractError>)
        ensures
            old(self).paused ==> is_err(r, ContractError::ContractPaused),
            (!old(self).paused && old(self).admin is None) ==> is_err(r, ContractError::NotInitialized),
            (!old(self).paused && old(self).admin is Some && fits_u64(now + old(self).delay)
                && old(self).operation_count < u64::MAX) <==> r is Ok,
            r matches Ok(o) ==> {
                &&& o.id == old(self).operation_count + 1
                &&& final(self).operation_count == o.id
                &&& o.proposer@ == proposer@
                &&& o.description@ == description@
                &&& o.eta == now + old(self).delay
                &&& o.status == OperationStatus::Pending
                &&& !o.is_emergency
            },
            r is Err ==> final(self).operation_count == old(self).operation_count,
            final(self).paused == old(self).paused,
            final(self).delay == old(self).delay,
    {
        if self.paused {
            return Err(ContractError::ContractPaused);
        }
        if self.admin.is_none() {
            return Err(ContractError::NotInitialized);
        }
        let eta = match now.checked_add(self.delay) {
            Some(t) => t,
            None => return Err(ContractError::Overflow),
        };
        if self.operation_count == u64::MAX {
            return Err(ContractError::Overflow);
        }
        let op_id = self.operation_count + 1;
        self.operation_count = op_id;
        Ok(TimelockOperation { id: op_id, proposer, description, eta, status: OperationStatus::Pending, is_emergency: false })
    }

    /// Executes a pending operation once its delay has elapsed. Refused while paused.
    pub fn execute_operation(&self, op: Option<TimelockOperation>, now: u64) -> (r: Result<TimelockOperation, ContractError>)
        ensures
            self.paused ==> is_err(r, ContractError::ContractPaused),
            (!self.paused && op is None) ==> is_err(r, ContractError::OperationNotFound),
            op matches Some(o) ==> {
                &&& (!self.paused && o.status != OperationStatus::Pending) ==> is_err(r, ContractError::OperationNotPending)
                &&& (!self.paused && o.status == OperationStatus::Pending && now < o.eta)
                    ==> is_err(r, ContractError::TimelockDelayNotElapsed)
                &&& (!self.paused && o.status == OperationStatus::Pending && now >= o.eta) <==> r is Ok
                &&& r matches Ok(n) ==> same_operation(o, n) && n.status == OperationStatus::Executed
                    && n.is_emergency == o.is_emergency
            },
    {
        if self.paused {
            return Err(ContractError::ContractPaused);
        }
        let o = match op {
            None => return Err(ContractError::OperationNotFound),
            Some(o) => o,
        };
        if o.status != OperationStatus::Pending {
            return Err(ContractError::OperationNotPending);
        }
        if now < o.eta {
            return Err(ContractError::TimelockDelayNotElapsed);
        }
        let e = o.is_emergency;
        Ok(with_status(o, OperationStatus::Executed, e))
    }

    /// The admin cancels a pending operation.
    pub fn cancel_operation(&self, op: Option<TimelockOperation>) -> (r: Result<TimelockOperation, ContractError>)
        ensures
            self.admin is None ==> is_err(r, ContractError::NotInitialized),
            (self.admin is Some && op is None) ==> is_err(r, ContractError::OperationNotFound),
            op matches Some(o) ==> {
                &&& (self.admin is Some && o.status != OperationStatus::Pending) ==> is_err(r, ContractError::OperationNotPending)
                &&& (self.admin is Some && o.status == OperationStatus::Pending) <==> r is Ok
                &&& r matches Ok(n) ==> same_operation(o, n) && n.status == OperationStatus::Cancelled
                    && n.is_emergency == o.is_emergency
            },
    {
        if self.admin.is_none() {
            return Err(ContractError::NotInitialized);
        }
        let o = match op {
            None => return Err(ContractError::OperationNotFound),
            Some(o) => o,
        };
        if o.status != OperationStatus::Pending {
            return Err(ContractError::OperationNotPending);
        }
        let e = o.is_emergency;
        Ok(with_status(o, OperationStatus::Cancelled, e))
    }

    /// The guardian executes a pending operation at once, even while paused; it is marked
    /// as an emergency execution.
    pub fn emergency_execute(&self, op: Option<TimelockOperation>) -> (r: Result<TimelockOperation, ContractError>)
        ensures
            self.guardian is None ==> is_err(r, ContractError::NotInitialized),
            (self.guardian is Some && op is None) ==> is_err(r, ContractError::OperationNotFound),
            op matches Some(o) ==> {
                &&& (self.guardian is Some && o.status != OperationStatus::Pending) ==> is_err(r, ContractError::OperationNotPending)
                &&& (self.guardian is Some && o.status == OperationStatus::Pending) <==> r is Ok
                &&& r matches Ok(n) ==> same_operation(o, n) && n.status == OperationStatus::Executed && n.is_emergency
            },
    {
        if self.guardian.is_none() {
            return Err(ContractError::NotInitialized);
        }
        let o = match op {
            None => return Err(ContractError::OperationNotFound),
            Some(o) => o,
        };
        if o.status != OperationStatus::Pending {
            return Err(ContractError::OperationNotPending);
        }
        Ok(with_status(o, OperationStatus::Executed, true))
    }

    /// The admin changes the delay of operations queued from now on.
    pub fn set_delay(&mut self, new_delay: u64) -> (r: Result<(), ContractError>)
        ensures
            old(self).admin is None <==> is_err(r, ContractError::NotInitialized),
            r is Ok ==> final(self).delay == new_delay,
            r is Err ==> final(self).delay == old(self).delay,
            final(self).paused == old(self).paused,
            final(self).operation_count == old(self).operation_count,
    {
        if self.admin.is_none() {
            return Err(ContractError::NotInitialized);
        }
        self.delay = new_delay;
        Ok(())
    }
}

/// A stored operation.
pub fn get_operation(op: Option<TimelockOperation>) -> (r: Result<TimelockOperation, ContractError>)
    ensures
        op is None ==> is_err(r, ContractError::OperationNotFound),
        op matches Some(o) ==> (r matches Ok(x) && x == o),
{
    match op {
        Some(o) => Ok(o),
        None => Err(ContractError::OperationNotFound),
    }
}

} // verus!
