//! M-of-N proxy for scheduled actions: signers propose events, approvals queue them behind
//! a timelock once the threshold is met, and anyone executes them after the delay.
use vstd::prelude::*;

use crate::addr::{addr_in, addr_views, contains_view, Addr};
use crate::signer_set::{lemma_without_len, remove_all, without};
use crate::error::{is_err, ContractError};
use crate::math::fits_u64;

verus! {

/// Lifecycle of a proposed event.
#[derive(Clone, Copy, Debug, PartialEq, Eq, Structural)]
pub enum EventStatus {
    Pending,
    /// The threshold is met; waiting for the timelock.
    Queued,
    Executed,
    Cancelled,
}

/// A proposed action.
pub struct EventProposal {
    pub id: u64,
    pub proposer: Addr,
    /// Contract to call, or recipient of a token transfer.
    pub target: Addr,
    pub calldata: Vec<u8>,
    /// Token amount to transfer (0 for a pure invocation).
    pub amount: i128,
    pub token: Addr,
    pub approvals: u32,
    pub status: EventStatus,
    /// When the threshold was reached.
    pub queued_at: u64,
    /// Earliest execution time.
    pub execution_time: u64,
}

/// Event: an event reached its threshold and was queued.
#[derive(Clone, Copy, Debug, PartialEq, Eq, Structural)]
pub struct EventQueued {
    pub event_id: u64,
    pub queued_at: u64,
    pub execution_time: u64,
}

/// Event: an event was executed.
#[derive(Clone, Copy, Debug, PartialEq, Eq, Structural)]
pub struct EventExecuted {
    pub event_id: u64,
}

/// Event: the timelock delay changed.
#[derive(Clone, Copy, Debug, PartialEq, Eq, Structural)]
pub struct TimelockUpdated {
    pub new_delay: u64,
}

/// The outcome of an approval.
pub struct Approval {
    pub event: EventProposal,
    /// Set when this approval met the threshold.
    pub queued: Option<EventQueued>,
}

/// A token transfer an execution performs.
pub struct TokenTransfer {
    pub token: Addr,
    pub to: Addr,
    pub amount: i128,
}

/// The proxy's instance state.
pub struct EventProxy {
    pub initialized: bool,
    pub signers: Vec<Addr>,
    /// Approvals required (M).
    pub threshold: u32,
    /// Delay, in seconds, between queuing and execution.
    pub timelock_delay: u64,
    pub next_event_id: u64,
}

// ── Mathematical model ──────────────────────────────────────────────────────

/// A threshold that a signer list can meet: at least 1 and at most the number of signers.
pub open spec fn threshold_valid(n: int, threshold: int) -> bool {
    1 <= threshold <= n
}

/// `e2` is `e1` with possibly a new status, approval count and times.
pub open spec fn same_event(e1: EventProposal, e2: EventProposal) -> bool {
    &&& e2.id == e1.id
    &&& e2.proposer@ == e1.proposer@
    &&& e2.target@ == e1.target@
    &&& e2.calldata@ == e1.calldata@
    &&& e2.amount == e1.amount
    &&& e2.token@ == e1.token@
}

impl EventProxy {
    /// Initialized with a threshold that the signers can meet and a positive delay.
    pub open spec fn wf(&self) -> bool {
        self.initialized ==> threshold_valid(self.signers@.len() as int, self.threshold as int) && self.timelock_delay > 0
    }
}

// ── Executable functions ────────────────────────────────────────────────────

/// Checks that `threshold` is at least 1 and at most the number of signers, of which
/// there must be at least one.
pub fn _validate_threshold(signers: &Vec<Addr>, threshold: u32) -> (r: Result<(), ContractError>)
    ensures
        threshold == 0 ==> is_err(r, ContractError::ThresholdZero),
        (threshold > 0 && signers@.len() == 0) ==> is_err(r, ContractError::NoSigners),
        (threshold > 0 && signers@.len() > 0 && threshold > signers@.len()) ==> is_err(r, ContractError::ThresholdExceedsSignerCount),
        r is Ok <==> threshold_valid(signers@.len() as int, threshold as int),
{
    if threshold == 0 {
        return Err(ContractError::ThresholdZero);
    }
    if signers.len() == 0 {
        return Err(ContractError::NoSigners);
    }
    if threshold as usize > signers.len() {
        return Err(ContractError::ThresholdExceedsSignerCount);
    }
    Ok(())
}

impl EventProxy {
    /// A proxy that was never initialized.
    pub fn new() -> (r: EventProxy)
        ensures
            !r.initialized,
            r.signers@.len() == 0,
            r.next_event_id == 0,
            r.wf(),
    {
        EventProxy { initialized: false, signers: Vec::new(), threshold: 0, timelock_delay: 0, next_event_id: 0 }
    }

    /// Sets the signers, the M-of-N threshold and the timelock delay, once.
    pub fn initialize(&mut self, signers: Vec<Addr>, threshold: u32, timelock_delay: u64) -> (r: Result<(), ContractError>)
        requires
            old(self).wf(),
        ensures
            final(self).wf(),
            old(self).initialized ==> is_err(r, ContractError::AlreadyInitialized),
            (!old(self).initialized && threshold_valid(signers@.len() as int, threshold as int) && timelock_delay == 0)
                ==> is_err(r, ContractError::TimelockDelayZero),
            (!old(self).initialized && threshold_valid(signers@.len() as int, threshold as int) && timelock_delay > 0) <==> r is Ok,
            (!old(self).initialized && threshold == 0) ==> is_err(r, ContractError::ThresholdZero),
            (!old(self).initialized && threshold > 0 && signers@.len() == 0) ==> is_err(r, ContractError::NoSigners),
            (!old(self).initialized && threshold > 0 && signers@.len() > 0 && threshold > signers@.len())
                ==> is_err(r, ContractError::ThresholdExceedsSignerCount),
            r is Err ==> addr_views(final(self).signers@) == addr_views(old(self).signers@)
                && final(self).threshold == old(self).threshold && final(self).initialized == old(self).initialized
                && final(self).timelock_delay == old(self).timelock_delay && final(self).next_event_id == old(self).next_event_id,
            r is Ok ==> final(self).initialized && addr_views(final(self).signers@) == addr_views(signers@)
                && final(self).threshold == threshold && final(self).timelock_delay == timelock_delay
                && final(self).next_event_id == 0,
    {
        if self.initialized {
            return Err(ContractError::AlreadyInitialized);
        }
        _validate_threshold(&signers, threshold)?;
        if timelock_delay == 0 {
            return Err(ContractError::TimelockDelayZero);
        }
        self.signers = signers;
        self.threshold = threshold;
        self.timelock_delay = timelock_delay;
        self.next_event_id = 0;
        self.initialized = true;
        Ok(())
    }

    /// The signers; the proxy must be initialized.
    pub fn get_signers(&self) -> (r: Result<&Vec<Addr>, ContractError>)
        ensures
            r is Err ==> is_err(r, ContractError::NotInitialized),
            !self.initialized <==> is_err(r, ContractError::NotInitialized),
            r matches Ok(s) ==> s@ == self.signers@,
    {
        if !self.initialized {
            return Err(ContractError::NotInitialized);
        }
        Ok(&self.signers)
    }

    /// The M-of-N threshold; the proxy must be initialized.
    pub fn get_threshold(&self) -> (r: Result<u32, ContractError>)
        ensures
            r is Err ==> is_err(r, ContractError::NotInitialized),
            !self.initialized <==> is_err(r, ContractError::NotInitialized),
            r matches Ok(t) ==> t == self.threshold,
    {
        if !self.initialized {
            return Err(ContractError::NotInitialized);
        }
        Ok(self.threshold)
    }

    /// The timelock delay in seconds; the proxy must be initialized.
    pub fn get_timelock_delay(&self) -> (r: Result<u64, ContractError>)
        ensures
            r is Err ==> is_err(r, ContractError::NotInitialized),
            !self.initialized <==> is_err(r, ContractError::NotInitialized),
            r matches Ok(t) ==> t == self.timelock_delay,
    {
        if !self.initialized {
            return Err(ContractError::NotInitialized);
        }
        Ok(self.timelock_delay)
    }

    /// Whether `addr` is a signer.
    pub fn is_signer(&self, addr: &Addr) -> (r: bool)
        ensures
            r == contains_view(self.signers@, addr@),
    {
        addr_in(&self.signers, addr)
    }

    /// Refuses unless `addr` is a signer.
    pub fn _require_signer(&self, addr: &Addr) -> (r: Result<(), ContractError>)
        ensures
            r is Ok <==> contains_view(self.signers@, addr@),
            r is Err ==> is_err(r, ContractError::NotSigner),
    {
        if !addr_in(&self.signers, addr) {
            return Err(ContractError::NotSigner);
        }
        Ok(())
    }

    /// Adds a signer (authorised through the proxy's own execution). Refused for an
    /// existing signer.
    pub fn add_signer(&mut self, new_signer: Addr) -> (r: Result<(), ContractError>)
        requires
            old(self).wf(),
        ensures
            final(self).wf(),
            contains_view(old(self).signers@, new_signer@) <==> is_err(r, ContractError::AlreadySigner),
            r is Ok ==> addr_views(final(self).signers@) == addr_views(old(self).signers@).push(new_signer@),
            r is Err ==> addr_views(final(self).signers@) == addr_views(old(self).signers@),
            final(self).threshold == old(self).threshold,
            final(self).timelock_delay == old(self).timelock_delay,
            final(self).next_event_id == old(self).next_event_id,
            final(self).initialized == old(self).initialized,
    {
        if addr_in(&self.signers, &new_signer) {
            return Err(ContractError::AlreadySigner);
        }
        proof {
            assert(addr_views(self.signers@.push(new_signer)) =~= addr_views(self.signers@).push(new_signer@));
        }
        self.signers.push(new_signer);
        Ok(())
    }

    /// Removes every occurrence of a signer (authorised through the proxy's own
    /// execution). Refused for a non-signer and when the rest could not meet the threshold.
    pub fn remove_signer(&mut self, signer: &Addr) -> (r: Result<(), ContractError>)
        requires
            old(self).wf(),
        ensures
            final(self).wf(),
            !contains_view(old(self).signers@, signer@) ==> is_err(r, ContractError::NotSigner),
            (contains_view(old(self).signers@, signer@)
                && threshold_valid(without(addr_views(old(self).signers@), signer@).len() as int, old(self).threshold as int))
                <==> r is Ok,
            r is Ok ==> addr_views(final(self).signers@) == without(addr_views(old(self).signers@), signer@),
            r is Err ==> addr_views(final(self).signers@) == addr_views(old(self).signers@),
            final(self).threshold == old(self).threshold,
            final(self).timelock_delay == old(self).timelock_delay,
            final(self).next_event_id == old(self).next_event_id,
            final(self).initialized == old(self).initialized,
    {
        let (new_signers, found) = remove_all(&self.signers, signer);
        if !found {
            return Err(ContractError::NotSigner);
        }
        proof { lemma_without_len(addr_views(self.signers@), signer@); }
        _validate_threshold(&new_signers, self.threshold)?;
        self.signers = new_signers;
        Ok(())
    }

    /// Changes the timelock delay (authorised through the proxy's own execution); it must
    /// be positive.
    pub fn set_timelock_delay(&mut self, new_delay: u64) -> (r: Result<TimelockUpdated, ContractError>)
        requires
            old(self).wf(),
        ensures
            r is Err ==> is_err(r, ContractError::TimelockDelayZero),
            final(self).wf(),
            new_delay == 0 <==> is_err(r, ContractError::TimelockDelayZero),
            r matches Ok(ev) ==> ev.new_delay == new_delay && final(self).timelock_delay == new_delay,
            r is Err ==> final(self).timelock_delay == old(self).timelock_delay,
            addr_views(final(self).signers@) == addr_views(old(self).signers@),
            final(self).threshold == old(self).threshold,
            final(self).next_event_id == old(self).next_event_id,
            final(self).initialized == old(self).initialized,
    {
        if new_delay == 0 {
            return Err(ContractError::TimelockDelayZero);
        }
        self.timelock_delay = new_delay;
        Ok(TimelockUpdated { new_delay })
    }

    /// Proposes an event under the next identifier; only a signer may.
    pub fn schedule_event(&mut self, proposer: Addr, target: Addr, calldata: Vec<u8>, amount: i128, token: Addr) -> (r: Result<EventProposal, ContractError>)
        requires
            old(self).wf(),
        ensures
            final(self).wf(),
            !contains_view(old(self).signers@, proposer@) ==> is_err(r, ContractError::NotSigner),
            (contains_view(old(self).signers@, proposer@) && old(self).next_event_id < u64::MAX) <==> r is Ok,
            r matches Ok(e) ==> {
                &&& e.id == old(self).next_event_id
                &&& final(self).next_event_id == e.id + 1
                &&& e.proposer@ == proposer@
                &&& e.target@ == target@
                &&& e.calldata@ == calldata@
                &&& e.amount == amount
                &&& e.token@ == token@
                &&& e.approvals == 0
                &&& e.status == EventStatus::Pending
                &&& e.queued_at == 0
                &&& e.execution_time == 0
            },
            r is Err ==> final(self).next_event_id == old(self).next_event_id,
            addr_views(final(self).signers@) == addr_views(old(self).signers@),
            final(self).threshold == old(self).threshold,
            final(self).timelock_delay == old(self).timelock_delay,
            final(self).initialized == old(self).initialized,
    {
        self._require_signer(&proposer)?;
        if self.next_event_id == u64::MAX {
            return Err(ContractError::Overflow);
        }
        let event_id = self.next_event_id;
        self.next_event_id = event_id + 1;
        Ok(EventProposal {
            id: event_id,
            proposer,
            target,
            calldata,
            amount,
            token,
            approvals: 0,
            status: EventStatus::Pending,
            queued_at: 0,
            execution_time: 0,
        })
    }

    /// A signer approves a pending event, once. When the approvals reach the threshold the
    /// event is queued: execution becomes possible `timelock_delay` seconds from now.
    pub fn approve(&self, signer: &Addr, event: Option<EventProposal>, already_approved: bool, now: u64) -> (r: Result<Approval, ContractError>)
        ensures
            !contains_view(self.signers@, signer@) ==> is_err(r, ContractError::NotSigner),
            (contains_view(self.signers@, signer@) && event is None) ==> is_err(r, ContractError::EventNotFound),
            event matches Some(e) ==> {
                &&& (contains_view(self.signers@, signer@) && e.status != EventStatus::Pending)
                    ==> is_err(r, ContractError::EventNotPending)
                &&& (contains_view(self.signers@, signer@) && e.status == EventStatus::Pending && already_approved)
                    ==> is_err(r, ContractError::AlreadyApproved)
                &&& (contains_view(self.signers@, signer@) && e.status == EventStatus::Pending && !already_approved
                    && e.approvals < u32::MAX && (e.approvals + 1 >= self.threshold ==> fits_u64(now + self.timelock_delay)))
                    ==> r is Ok
                &&& r matches Ok(a) ==> {
                    &&& same_event(e, a.event)
                    &&& a.event.approvals == e.approvals + 1
                    &&& if a.event.approvals >= self.threshold {
                        &&& a.event.status == EventStatus::Queued
                        &&& a.event.queued_at == now
                        &&& a.event.execution_time == now + self.timelock_delay
                        &&& a.queued == Some(EventQueued { event_id: e.id, queued_at: now, execution_time: (now + self.timelock_delay) as u64 })
                    } else {
                        &&& a.event.status == EventStatus::Pending
                        &&& a.event.queued_at == e.queued_at
                        &&& a.event.execution_time == e.execution_time
                        &&& a.queued is None
                    }
                }
            },
            r is Ok ==> contains_view(self.signers@, signer@) && event is Some && !already_approved,
    {
        self._require_signer(signer)?;
        let e = match event {
            Some(e) => e,
            None => return Err(ContractError::EventNotFound),
        };
        if e.status != EventStatus::Pending {
            return Err(ContractError::EventNotPending);
        }
        if already_approved {
            return Err(ContractError::AlreadyApproved);
        }
        if e.approvals == u32::MAX {
            return Err(ContractError::Overflow);
        }
        let approvals = e.approvals + 1;
        if approvals >= self.threshold {
            let execution_time = match now.checked_add(self.timelock_delay) {
                Some(t) => t,
                None => return Err(ContractError::Overflow),
            };
            let id = e.id;
            Ok(Approval {
                event: EventProposal {
                    id: e.id,
                    proposer: e.proposer,
                    target: e.target,
                    calldata: e.calldata,
                    amount: e.amount,
                    token: e.token,
                    approvals,
                    status: EventStatus::Queued,
                    queued_at: now,
                    execution_time,
                },
                queued: Some(EventQueued { event_id: id, queued_at: now, execution_time }),
            })
        } else {
            Ok(Approval {
                event: EventProposal {
                    id: e.id,
                    proposer: e.proposer,
                    target: e.target,
                    calldata: e.calldata,
                    amount: e.amount,
                    token: e.token,
                    approvals,
                    status: e.status,
                    queued_at: e.queued_at,
                    execution_time: e.execution_time,
                },
                queued: None,
            })
        }
    }

    /// A signer cancels a pending or queued event.
    pub fn cancel(&self, canceller: &Addr, event: Option<EventProposal>) -> (r: Result<EventProposal, ContractError>)
        ensures
            !contains_view(self.signers@, canceller@) ==> is_err(r, ContractError::NotSigner),
            (contains_view(self.signers@, canceller@) && event is None) ==> is_err(r, ContractError::EventNotFound),
            event matches Some(e) ==> {
                &&& (contains_view(self.signers@, canceller@) && (e.status == EventStatus::Pending || e.status == EventStatus::Queued))
                    <==> r is Ok
                &&& (contains_view(self.signers@, canceller@) && !(e.status == EventStatus::Pending || e.status == EventStatus::Queued))
                    ==> is_err(r, ContractError::EventNotCancellable)
                &&& r matches Ok(n) ==> same_event(e, n) && n.status == EventStatus::Cancelled && n.approvals == e.approvals
                    && n.queued_at == e.queued_at && n.execution_time == e.execution_time
            },
    {
        self._require_signer(canceller)?;
        let e = match event {
            Some(e) => e,
            None => return Err(ContractError::EventNotFound),
        };
        match e.status {
            EventStatus::Pending | EventStatus::Queued => {
                Ok(EventProposal {
                    id: e.id,
                    proposer: e.proposer,
                    target: e.target,
                    calldata: e.calldata,
                    amount: e.amount,
                    token: e.token,
                    approvals: e.approvals,
                    status: EventStatus::Cancelled,
                    queued_at: e.queued_at,
                    execution_time: e.execution_time,
                })
            },
            _ => Err(ContractError::EventNotCancellable),
        }
    }
}

/// The token transfer an event performs when executed: `amount` of `token` to `target`
/// when the amount is positive; nothing otherwise (invocations are left to relayers).
pub fn _execute(event: &EventProposal) -> (r: Option<TokenTransfer>)
    ensures
        event.amount > 0 <==> r is Some,
        r matches Some(t) ==> t.token@ == event.token@ && t.to@ == event.target@ && t.amount == event.amount,
{
    if event.amount > 0 {
        Some(TokenTransfer { token: event.token.duplicate(), to: event.target.duplicate(), amount: event.amount })
    } else {
        None
    }
}

/// Executes a queued event once its timelock has expired; anyone may.
pub fn execute(event: Option<EventProposal>, now: u64) -> (r: Result<(EventProposal, Option<TokenTransfer>, EventExecuted), ContractError>)
    ensures
        event is None ==> is_err(r, ContractError::EventNotFound),
        event matches Some(e) ==> {
            &&& e.status != EventStatus::Queued ==> is_err(r, ContractError::EventNotQueued)
            &&& (e.status == EventStatus::Queued && now < e.execution_time) ==> is_err(r, ContractError::TimelockNotExpired)
            &&& (e.status == EventStatus::Queued && now >= e.execution_time) <==> r is Ok
            &&& r matches Ok((n, t, ev)) ==> same_event(e, n) && n.status == EventStatus::Executed
                && n.approvals == e.approvals && n.queued_at == e.queued_at && n.execution_time == e.execution_time
                && ev.event_id == e.id && (e.amount > 0 <==> t is Some)
                && (t matches Some(tt) ==> tt.token@ == e.token@ && tt.to@ == e.target@ && tt.amount == e.amount)
        },
{
    let e = match event {
        Some(e) => e,
        None => return Err(ContractError::EventNotFound),
    };
    if e.status != EventStatus::Queued {
        return Err(ContractError::EventNotQueued);
    }
    if now < e.execution_time {
        return Err(ContractError::TimelockNotExpired);
    }
    let transfer = _execute(&e);
    let id = e.id;
    Ok((EventProposal {
        id: e.id,
        proposer: e.proposer,
        target: e.target,
        calldata: e.calldata,
        amount: e.amount,
        token: e.token,
        approvals: e.approvals,
        status: EventStatus::Executed,
        queued_at: e.queued_at,
        execution_time: e.execution_time,
    }, transfer, EventExecuted { event_id: id }))
}

/// A stored event.
pub fn get_event(event: Option<EventProposal>) -> (r: Result<EventProposal, ContractError>)
    ensures
        event is None ==> is_err(r, ContractError::EventNotFound),
        event matches Some(e) ==> (r matches Ok(x) && x == e),
{
    match event {
        Some(e) => Ok(e),
        None => Err(ContractError::EventNotFound),
    }
}

// ── Laws ────────────────────────────────────────────────────────────────────

/// Approvals accumulate one at a time: an event is queued by the approval that reaches the
/// threshold, never earlier and never later.
pub proof fn lemma_queued_exactly_at_threshold(approvals_before: int, threshold: int)
    requires
        0 <= approvals_before,
        approvals_before < threshold,
    ensures
        (approvals_before + 1 >= threshold) <==> (approvals_before + 1 == threshold),
{
}

} // verus!
