//! Re-entrancy guard for trigger actions: a per-(caller, action) call depth that is raised
//! on entry, lowered on exit, and blocks entry at the maximum depth.
use vstd::prelude::*;

use crate::addr::Addr;
use crate::error::{is_err, ContractError};

verus! {

/// Maximum depth used when none is configured.
pub const MAX_DEPTH: u32 = 5;

/// The guard's instance state.
pub struct RecursiveActionGuard {
    pub admin: Option<Addr>,
    pub max_depth: Option<u32>,
}

/// Event: a recursive loop was detected and the entry blocked.
#[derive(Clone, Copy, Debug, PartialEq, Eq, Structural)]
pub struct LoopDetected {
    pub depth: u32,
    pub max_depth: u32,
}

// ── Mathematical model ──────────────────────────────────────────────────────

/// A stored depth, 0 when none is stored.
pub open spec fn depth_of(stored: Option<u32>) -> int {
    match stored { Some(d) => d as int, None => 0 }
}

/// The depth to store after an exit that leaves `d`: nothing when it is 0.
pub open spec fn stored_after_exit(d: int) -> Option<u32> {
    if d == 0 { None } else { Some(d as u32) }
}

impl RecursiveActionGuard {
    /// The maximum depth in force.
    pub open spec fn max_spec(&self) -> int {
        match self.max_depth { Some(m) => m as int, None => MAX_DEPTH as int }
    }
}

// ── Executable functions ────────────────────────────────────────────────────

impl RecursiveActionGuard {
    /// A guard that was never initialized.
    pub fn new() -> (r: RecursiveActionGuard)
        ensures
            r.admin is None,
            r.max_depth is None,
    {
        RecursiveActionGuard { admin: None, max_depth: None }
    }

    /// One-time setup with a positive maximum depth.
    pub fn initialize(&mut self, admin: Addr, max_depth: u32) -> (r: Result<(), ContractError>)
        ensures
            old(self).admin is Some ==> is_err(r, ContractError::AlreadyInitialized),
            (old(self).admin is None && max_depth == 0) ==> is_err(r, ContractError::MaxDepthZero),
            (old(self).admin is None && max_depth > 0) <==> r is Ok,
            r is Ok ==> (final(self).admin matches Some(a) && a@ == admin@) && final(self).max_depth == Some(max_depth),
            r is Err ==> final(self).max_depth == old(self).max_depth,
    {
        if self.admin.is_some() {
            return Err(ContractError::AlreadyInitialized);
        }
        if max_depth == 0 {
            return Err(ContractError::MaxDepthZero);
        }
        self.admin = Some(admin);
        self.max_depth = Some(max_depth);
        Ok(())
    }

    /// The maximum depth in force (5 when none is configured).
    pub fn get_max_depth(&self) -> (r: u32)
        ensures
            r == self.max_spec(),
    {
        match self.max_depth {
            Some(m) => m,
            None => MAX_DEPTH,
        }
    }

    /// Enters an action at the stored depth: the new depth, one more. Blocked, with the
    /// loop report, at the maximum depth.
    pub fn enter(&self, stored: Option<u32>) -> (r: Result<u32, (ContractError, LoopDetected)>)
        ensures
            depth_of(stored) >= self.max_spec() <==> r is Err,
            r matches Ok(d) ==> d == depth_of(stored) + 1 && d <= self.max_spec(),
            r matches Err((e, l)) ==> e == ContractError::RecursiveLoopDetected && l.depth == depth_of(stored)
                && l.max_depth == self.max_spec(),
    {
        let depth = match stored {
            Some(d) => d,
            None => 0,
        };
        let max = self.get_max_depth();
        if depth >= max {
            return Err((ContractError::RecursiveLoopDetected, LoopDetected { depth, max_depth: max }));
        }
        Ok(depth + 1)
    }

    /// Changes the maximum depth (the admin authorises); it must be positive.
    pub fn set_max_depth(&mut self, max_depth: u32) -> (r: Result<(), ContractError>)
        ensures
            old(self).admin is None ==> is_err(r, ContractError::NotInitialized),
            (old(self).admin is Some && max_depth == 0) ==> is_err(r, ContractError::MaxDepthZero),
            (old(self).admin is Some && max_depth > 0) <==> r is Ok,
            r is Ok ==> final(self).max_depth == Some(max_depth),
            r is Err ==> final(self).max_depth == old(self).max_depth,
    {
        if self.admin.is_none() {
            return Err(ContractError::NotInitialized);
        }
        if max_depth == 0 {
            return Err(ContractError::MaxDepthZero);
        }
        self.max_depth = Some(max_depth);
        Ok(())
    }
}

/// Exits an action at the stored depth: the new depth, one less, and what to store (nothing
/// at depth 0). Refused without an active entry.
pub fn exit(stored: Option<u32>) -> (r: Result<(u32, Option<u32>), ContractError>)
    ensures
        r is Err ==> is_err(r, ContractError::NoActiveEntry),
        depth_of(stored) == 0 <==> is_err(r, ContractError::NoActiveEntry),
        r matches Ok((d, s)) ==> d == depth_of(stored) - 1 && s == stored_after_exit(d as int),
{
    let depth = match stored {
        Some(d) => d,
        None => 0,
    };
    if depth == 0 {
        return Err(ContractError::NoActiveEntry);
    }
    let new_depth = depth - 1;
    let to_store = if new_depth == 0 { None } else { Some(new_depth) };
    Ok((new_depth, to_store))
}

/// The stored depth of a (caller, action) pair, 0 when none.
pub fn get_depth(stored: Option<u32>) -> (r: u32)
    ensures
        r == depth_of(stored),
{
    match stored {
        Some(d) => d,
        None => 0,
    }
}

// ── Laws ────────────────────────────────────────────────────────────────────

/// An exit undoes an entry: entering at depth `d` and exiting again leaves depth `d`, and
/// at depth 0 nothing stays stored.
pub proof fn lemma_enter_exit_roundtrip(d: int)
    requires
        0 <= d < u32::MAX,
    ensures
        depth_of(stored_after_exit(d)) == d,
        d == 0 ==> stored_after_exit(d) is None,
{
}

} // verus!
