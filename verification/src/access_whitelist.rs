//! Hierarchical access whitelist: SuperAdmin > Admin > Operator > User > NoAccess. A holder
//! can grant or revoke only levels strictly below its own.
use vstd::prelude::*;

use crate::addr::Addr;
use crate::error::{is_err, ContractError};

verus! {

/// Permission levels, lowest first.
#[derive(Clone, Copy, Debug, PartialEq, Eq, Structural, PartialOrd, Ord)]
pub enum PermissionLevel {
    NoAccess,
    User,
    Operator,
    Admin,
    SuperAdmin,
}

/// The whitelist's instance state: who the super admin is, once initialized.
pub struct AccessWhitelist {
    pub super_admin: Option<Addr>,
}

/// A change of one address's level, as the contract stores and announces it.
pub struct LevelChange {
    pub target: Addr,
    pub old_level: PermissionLevel,
    pub new_level: PermissionLevel,
}

/// The two level changes of a super-admin transfer, to be applied in this order.
pub struct SuperAdminTransfer {
    pub revoked: LevelChange,
    pub granted: LevelChange,
}

// ── Mathematical model ──────────────────────────────────────────────────────

/// Position of a level in the hierarchy (NoAccess = 0 … SuperAdmin = 4).
pub open spec fn rank(l: PermissionLevel) -> int {
    match l {
        PermissionLevel::NoAccess => 0,
        PermissionLevel::User => 1,
        PermissionLevel::Operator => 2,
        PermissionLevel::Admin => 3,
        PermissionLevel::SuperAdmin => 4,
    }
}

/// `a` is strictly above `b`.
pub open spec fn higher(a: PermissionLevel, b: PermissionLevel) -> bool {
    rank(a) > rank(b)
}

// ── Executable functions ────────────────────────────────────────────────────

/// Position of a level in the hierarchy.
pub fn level_rank(l: PermissionLevel) -> (r: u32)
    ensures
        r == rank(l),
{
    match l {
        PermissionLevel::NoAccess => 0,
        PermissionLevel::User => 1,
        PermissionLevel::Operator => 2,
        PermissionLevel::Admin => 3,
        PermissionLevel::SuperAdmin => 4,
    }
}

/// The stored level of an address; NoAccess when nothing is stored.
pub fn _get_level(stored: Option<PermissionLevel>) -> (r: PermissionLevel)
    ensures
        r == (match stored { Some(l) => l, None => PermissionLevel::NoAccess }),
{
    match stored {
        Some(l) => l,
        None => PermissionLevel::NoAccess,
    }
}

/// Refuses unless `caller_level` is strictly above `target_level`.
pub fn _require_higher(caller_level: &PermissionLevel, target_level: &PermissionLevel) -> (r: Result<(), ContractError>)
    ensures
        r is Ok <==> higher(*caller_level, *target_level),
        r is Err ==> is_err(r, ContractError::InsufficientPermissionLevel),
{
    if level_rank(*caller_level) <= level_rank(*target_level) {
        return Err(ContractError::InsufficientPermissionLevel);
    }
    Ok(())
}

/// Whether an address at `level` holds at least `required`.
pub fn has_access(level: PermissionLevel, required: PermissionLevel) -> (r: bool)
    ensures
        r == (rank(level) >= rank(required)),
{
    level_rank(level) >= level_rank(required)
}

/// The exact level of an address (NoAccess when nothing is stored).
pub fn get_permission(stored: Option<PermissionLevel>) -> (r: PermissionLevel)
    ensures
        r == (match stored { Some(l) => l, None => PermissionLevel::NoAccess }),
{
    _get_level(stored)
}

/// Grants `level` to `target` (whose current level is `target_level`). Refused for NoAccess
/// (use revoke) and unless the caller is strictly above the granted level.
pub fn grant(caller_level: PermissionLevel, target: Addr, target_level: PermissionLevel, level: PermissionLevel) -> (r: Result<LevelChange, ContractError>)
    ensures
        level == PermissionLevel::NoAccess ==> is_err(r, ContractError::UseRevokeToRemoveAccess),
        (level != PermissionLevel::NoAccess && !higher(caller_level, level)) ==> is_err(r, ContractError::InsufficientPermissionLevel),
        (level != PermissionLevel::NoAccess && higher(caller_level, level)) ==> r is Ok,
        r matches Ok(c) ==> c.target@ == target@ && c.old_level == target_level && c.new_level == level,
{
    if level == PermissionLevel::NoAccess {
        return Err(ContractError::UseRevokeToRemoveAccess);
    }
    _require_higher(&caller_level, &level)?;
    Ok(LevelChange { target, old_level: target_level, new_level: level })
}

/// Revokes all access of `target`. Refused when it has none and unless the caller is
/// strictly above the target's level.
pub fn revoke(caller_level: PermissionLevel, target: Addr, target_level: PermissionLevel) -> (r: Result<LevelChange, ContractError>)
    ensures
        target_level == PermissionLevel::NoAccess ==> is_err(r, ContractError::AddressHasNoAccess),
        (target_level != PermissionLevel::NoAccess && !higher(caller_level, target_level))
            ==> is_err(r, ContractError::InsufficientPermissionLevel),
        (target_level != PermissionLevel::NoAccess && higher(caller_level, target_level)) ==> r is Ok,
        r matches Ok(c) ==> c.target@ == target@ && c.old_level == target_level && c.new_level == PermissionLevel::NoAccess,
{
    if target_level == PermissionLevel::NoAccess {
        return Err(ContractError::AddressHasNoAccess);
    }
    _require_higher(&caller_level, &target_level)?;
    Ok(LevelChange { target, old_level: target_level, new_level: PermissionLevel::NoAccess })
}

/// Gives up one's own access, whatever its level. Refused when there is none.
pub fn renounce(caller: Addr, level: PermissionLevel) -> (r: Result<LevelChange, ContractError>)
    ensures
        r is Err ==> is_err(r, ContractError::NoAccessToRenounce),
        level == PermissionLevel::NoAccess <==> is_err(r, ContractError::NoAccessToRenounce),
        r matches Ok(c) ==> c.target@ == caller@ && c.old_level == level && c.new_level == PermissionLevel::NoAccess,
{
    if level == PermissionLevel::NoAccess {
        return Err(ContractError::NoAccessToRenounce);
    }
    Ok(LevelChange { target: caller, old_level: level, new_level: PermissionLevel::NoAccess })
}

impl AccessWhitelist {
    /// A whitelist that was never initialized.
    pub fn new() -> (r: AccessWhitelist)
        ensures
            r.super_admin is None,
    {
        AccessWhitelist { super_admin: None }
    }

    /// Makes `super_admin` the super admin, once; it receives the SuperAdmin level.
    pub fn initialize(&mut self, super_admin: Addr) -> (r: Result<LevelChange, ContractError>)
        ensures
            r is Err ==> is_err(r, ContractError::AlreadyInitialized),
            old(self).super_admin is Some <==> is_err(r, ContractError::AlreadyInitialized),
            r is Err ==> final(self).super_admin == old(self).super_admin,
            r matches Ok(c) ==> c.target@ == super_admin@ && c.new_level == PermissionLevel::SuperAdmin
                && c.old_level == PermissionLevel::NoAccess
                && (final(self).super_admin matches Some(a) && a@ == super_admin@),
    {
        if self.super_admin.is_some() {
            return Err(ContractError::AlreadyInitialized);
        }
        let target = super_admin.duplicate();
        self.super_admin = Some(super_admin);
        Ok(LevelChange { target, old_level: PermissionLevel::NoAccess, new_level: PermissionLevel::SuperAdmin })
    }

    /// Hands the SuperAdmin role from `current` (at `current_level`) to `new_admin`:
    /// `current` drops to NoAccess, then `new_admin` becomes SuperAdmin. Only the SuperAdmin may.
    pub fn transfer_super_admin(&mut self, current: Addr, current_level: PermissionLevel, new_admin: Addr, new_admin_level: PermissionLevel) -> (r: Result<SuperAdminTransfer, ContractError>)
        ensures
            r is Err ==> is_err(r, ContractError::OnlySuperAdminCanTransfer),
            current_level != PermissionLevel::SuperAdmin <==> is_err(r, ContractError::OnlySuperAdminCanTransfer),
            r is Err ==> final(self).super_admin == old(self).super_admin,
            r matches Ok(t) ==> {
                &&& t.revoked.target@ == current@
                &&& t.revoked.old_level == PermissionLevel::SuperAdmin
                &&& t.revoked.new_level == PermissionLevel::NoAccess
                &&& t.granted.target@ == new_admin@
                &&& t.granted.old_level == new_admin_level
                &&& t.granted.new_level == PermissionLevel::SuperAdmin
                &&& final(self).super_admin matches Some(a) && a@ == new_admin@
            },
    {
        if current_level != PermissionLevel::SuperAdmin {
            return Err(ContractError::OnlySuperAdminCanTransfer);
        }
        let granted_target = new_admin.duplicate();
        self.super_admin = Some(new_admin);
        Ok(SuperAdminTransfer {
            revoked: LevelChange { target: current, old_level: PermissionLevel::SuperAdmin, new_level: PermissionLevel::NoAccess },
            granted: LevelChange { target: granted_target, old_level: new_admin_level, new_level: PermissionLevel::SuperAdmin },
        })
    }
}

// ── Laws ────────────────────────────────────────────────────────────────────

/// No level is above SuperAdmin, so `grant` can never create a second SuperAdmin: only a
/// transfer hands the role on.
pub proof fn lemma_super_admin_never_granted(caller_level: PermissionLevel)
    ensures
        !higher(caller_level, PermissionLevel::SuperAdmin),
{
}

/// Access is monotone in the required level: holding a level grants every lower one.
pub proof fn lemma_access_monotone(level: PermissionLevel, required: PermissionLevel, lower: PermissionLevel)
    requires
        rank(level) >= rank(required),
        rank(lower) <= rank(required),
    ensures
        rank(level) >= rank(lower),
{
}

/// The hierarchy is a strict order: no level is above itself, so no one can grant or revoke
/// their own level, and it is transitive.
pub proof fn lemma_higher_strict_order(a: PermissionLevel, b: PermissionLevel, c: PermissionLevel)
    ensures
        !higher(a, a),
        higher(a, b) ==> !higher(b, a),
        higher(a, b) && higher(b, c) ==> higher(a, c),
{
}

} // verus!
