//! Delegation of stake to validators with reward-per-token accounting.
use vstd::prelude::*;

use crate::addr::Addr;
use crate::error::ContractError;
use crate::math::{c_add, c_div, c_mul, c_sub, div_trunc, fits_i128, fits_u32};

verus! {

/// Scale of the accumulated reward per delegated token (1e12).
pub const REWARD_SCALE: i128 = 1_000_000_000_000;

/// Per-validator totals.
pub struct ValidatorInfo {
    pub validator: Addr,
    pub total_delegated: i128,
    pub delegator_count: u32,
    pub active: bool,
}

/// A delegator's position with one validator.
pub struct DelegationPosition {
    pub delegator: Addr,
    pub validator: Addr,
    pub amount: i128,
    /// Rewards already accounted for, in the reward-per-token model.
    pub reward_debt: i128,
    pub since_ts: u64,
}

/// The registry's instance state.
pub struct DelegatorRegistry {
    pub admin: Addr,
    pub staking_token: Addr,
    pub validator_count: u32,
}

/// Result of `delegate`: the records to store and the reward paid out first.
pub struct Delegated {
    pub validator: ValidatorInfo,
    pub position: DelegationPosition,
    /// Pending reward paid to the delegator before the stake grew (0 when none).
    pub reward_paid: i128,
}

/// Result of `undelegate`.
pub struct Undelegated {
    pub validator: ValidatorInfo,
    /// The remaining position, or `None` when it was closed and is to be removed.
    pub position: Option<DelegationPosition>,
    pub reward_paid: i128,
}

/// Result of `distribute_rewards`.
pub struct RewardsDistributed {
    pub reward_per_token: i128,
    pub total_rewards: i128,
    /// Increase of the reward per token.
    pub increase: i128,
}

/// Result of `claim_rewards`.
pub struct Claimed {
    pub pending: i128,
    /// The updated position when something was paid, `None` when nothing changed.
    pub position: Option<DelegationPosition>,
}

// ── Mathematical model ──────────────────────────────────────────────────────

/// amount * reward_per_token / 1e12.
pub open spec fn accrued_spec(amount: int, rpt: int) -> int {
    div_trunc(amount * rpt, REWARD_SCALE as int)
}

/// Rewards accrued beyond the reward debt (0 for an empty position or when nothing is owed).
pub open spec fn pending_spec(amount: int, debt: int, rpt: int) -> int {
    if amount == 0 {
        0
    } else if accrued_spec(amount, rpt) > debt {
        accrued_spec(amount, rpt) - debt
    } else {
        0
    }
}

pub open spec fn pending_computable(amount: int, debt: int, rpt: int) -> bool {
    amount != 0 ==> fits_i128(amount * rpt) && (accrued_spec(amount, rpt) > debt ==> fits_i128(accrued_spec(amount, rpt) - debt))
}

/// The figures of a delegation of `amount` to validator `v` fit their types: the pending
/// reward of a non-empty position, the new amount and its reward debt, the validator total
/// and, for a new delegator, the delegator count.
pub open spec fn delegate_computable(v: ValidatorInfo, position: Option<DelegationPosition>, rpt: int, amount: int) -> bool {
    let old_amount: int = match position { Some(p) => p.amount as int, None => 0 };
    let old_debt: int = match position { Some(p) => p.reward_debt as int, None => 0 };
    &&& (old_amount > 0 ==> pending_computable(old_amount, old_debt, rpt))
    &&& fits_i128(old_amount + amount)
    &&& fits_i128((old_amount + amount) * rpt)
    &&& fits_i128(v.total_delegated + amount)
    &&& (old_amount == 0 ==> fits_u32(v.delegator_count + 1))
}

/// The figures of a withdrawal of `amount` from position `p` fit their types: its pending
/// reward, the remaining amount and its reward debt.
pub open spec fn withdrawal_computable(p: DelegationPosition, rpt: int, amount: int) -> bool {
    &&& pending_computable(p.amount as int, p.reward_debt as int, rpt)
    &&& fits_i128(p.amount - amount)
    &&& fits_i128((p.amount - amount) * rpt)
}

/// The validator's figures after a withdrawal of `amount` that leaves `remaining` fit their
/// types: the total, and the delegator count when the position closes.
pub open spec fn validator_release_computable(v: ValidatorInfo, remaining: int, amount: int) -> bool {
    &&& fits_i128(v.total_delegated - amount)
    &&& (remaining == 0 ==> v.delegator_count > 0)
}

// ── Executable functions ────────────────────────────────────────────────────

/// The pending reward of a position under the given reward per token.
pub fn pending_rewards(pos: &DelegationPosition, reward_per_token: i128) -> (r: Result<i128, ContractError>)
    ensures
        pending_computable(pos.amount as int, pos.reward_debt as int, reward_per_token as int) <==> r is Ok,
        r matches Ok(v) ==> v == pending_spec(pos.amount as int, pos.reward_debt as int, reward_per_token as int),
        r matches Err(e) ==> e == ContractError::Overflow,
{
    if pos.amount == 0 {
        return Ok(0);
    }
    let accrued = c_div(c_mul(pos.amount, reward_per_token)?, REWARD_SCALE)?;
    if accrued > pos.reward_debt {
        c_sub(accrued, pos.reward_debt)
    } else {
        Ok(0)
    }
}

impl DelegatorRegistry {
    /// A fresh registry with no validators.
    pub fn initialize(admin: Addr, staking_token: Addr) -> (r: DelegatorRegistry)
        ensures
            r.admin@ == admin@,
            r.staking_token@ == staking_token@,
            r.validator_count == 0,
    {
        DelegatorRegistry { admin, staking_token, validator_count: 0 }
    }

    /// Registers a validator (admin only): refused when one is registered under that
    /// address; the new validator is active and empty, and the count grows by one.
    pub fn register_validator(&mut self, validator: Addr, already_registered: bool) -> (r: Result<ValidatorInfo, ContractError>)
        ensures
            already_registered ==> r == Err::<ValidatorInfo, ContractError>(ContractError::ValidatorAlreadyRegistered),
            (!already_registered && fits_u32(old(self).validator_count + 1)) <==> r is Ok,
            r is Err ==> *final(self) == *old(self),
            r matches Err(e) ==> e == ContractError::ValidatorAlreadyRegistered || e == ContractError::Overflow,
            r matches Ok(v) ==> {
                &&& v.validator@ == validator@
                &&& v.total_delegated == 0
                &&& v.delegator_count == 0
                &&& v.active
                &&& final(self).validator_count == old(self).validator_count + 1
                &&& final(self).admin == old(self).admin
                &&& final(self).staking_token == old(self).staking_token
            },
    {
        if already_registered {
            return Err(ContractError::ValidatorAlreadyRegistered);
        }
        if self.validator_count == u32::MAX {
            return Err(ContractError::Overflow);
        }
        self.validator_count = self.validator_count + 1;
        Ok(ValidatorInfo { validator, total_delegated: 0, delegator_count: 0, active: true })
    }
}

/// Delegates `amount` to a validator. Refuses a non-positive amount, an unknown or inactive
/// validator; pays out the pending reward of an existing position first, then grows the
/// position, resets its reward debt and start time, and adds to the validator's totals
/// (counting a new delegator when the position was empty).
pub fn delegate(
    validator: Option<ValidatorInfo>,
    position: Option<DelegationPosition>,
    delegator: &Addr,
    validator_addr: &Addr,
    reward_per_token: i128,
    amount: i128,
    now: u64,
) -> (r: Result<Delegated, ContractError>)
    ensures
        amount <= 0 ==> r == Err::<Delegated, ContractError>(ContractError::AmountNotPositive),
        (amount > 0 && validator is None) ==> r == Err::<Delegated, ContractError>(ContractError::ValidatorNotFound),
        validator matches Some(v) ==> (amount > 0 && !v.active ==> r == Err::<Delegated, ContractError>(ContractError::ValidatorNotActive)),
        r matches Err(e) ==> e == ContractError::AmountNotPositive || e == ContractError::ValidatorNotFound
            || e == ContractError::ValidatorNotActive || e == ContractError::Overflow,
        (amount > 0 && validator is Some && validator.unwrap().active
            && delegate_computable(validator.unwrap(), position, reward_per_token as int, amount as int)) <==> r is Ok,
        r matches Ok(d) ==> {
            let v = validator.unwrap();
            let old_amount: int = match position { Some(p) => p.amount as int, None => 0 };
            let old_debt: int = match position { Some(p) => p.reward_debt as int, None => 0 };
            &&& amount > 0
            &&& validator is Some
            &&& v.active
            &&& d.reward_paid == (if old_amount > 0 { pending_spec(old_amount, old_debt, reward_per_token as int) } else { 0 })
            &&& d.position.amount == old_amount + amount
            &&& d.position.reward_debt == accrued_spec(d.position.amount as int, reward_per_token as int)
            &&& d.position.since_ts == now
            &&& (position matches Some(p) ==> d.position.delegator@ == p.delegator@ && d.position.validator@ == p.validator@)
            &&& (position is None ==> d.position.delegator@ == delegator@ && d.position.validator@ == validator_addr@)
            &&& d.validator.total_delegated == v.total_delegated + amount
            &&& d.validator.delegator_count == v.delegator_count + (if old_amount == 0 { 1int } else { 0 })
            &&& d.validator.active == v.active
            &&& d.validator.validator@ == v.validator@
        },
{
    if amount <= 0 {
        return Err(ContractError::AmountNotPositive);
    }
    let vinfo = match validator {
        Some(v) => v,
        None => return Err(ContractError::ValidatorNotFound),
    };
    if !vinfo.active {
        return Err(ContractError::ValidatorNotActive);
    }
    let pos = match position {
        Some(p) => p,
        None => DelegationPosition {
            delegator: delegator.duplicate(),
            validator: validator_addr.duplicate(),
            amount: 0,
            reward_debt: 0,
            since_ts: now,
        },
    };
    let mut reward_paid: i128 = 0;
    if pos.amount > 0 {
        reward_paid = pending_rewards(&pos, reward_per_token)?;
    }
    let is_new = pos.amount == 0;
    let new_amount = c_add(pos.amount, amount)?;
    let new_debt = c_div(c_mul(new_amount, reward_per_token)?, REWARD_SCALE)?;
    let new_total = c_add(vinfo.total_delegated, amount)?;
    let new_count = if is_new {
        if vinfo.delegator_count == u32::MAX {
            return Err(ContractError::Overflow);
        }
        vinfo.delegator_count + 1
    } else {
        vinfo.delegator_count
    };
    Ok(Delegated {
        validator: ValidatorInfo {
            validator: vinfo.validator,
            total_delegated: new_total,
            delegator_count: new_count,
            active: vinfo.active,
        },
        position: DelegationPosition {
            delegator: pos.delegator,
            validator: pos.validator,
            amount: new_amount,
            reward_debt: new_debt,
            since_ts: now,
        },
        reward_paid,
    })
}

/// Withdraws `amount` of a position. Refuses a non-positive amount, a missing position and
/// an amount above the position; pays out the pending reward, shrinks the position and the
/// validator total, and closes the position (one delegator fewer) when it reaches zero.
pub fn undelegate(
    validator: Option<ValidatorInfo>,
    position: Option<DelegationPosition>,
    reward_per_token: i128,
    amount: i128,
) -> (r: Result<Undelegated, ContractError>)
    ensures
        amount <= 0 ==> r == Err::<Undelegated, ContractError>(ContractError::AmountNotPositive),
        (amount > 0 && position is None) ==> r == Err::<Undelegated, ContractError>(ContractError::DelegationNotFound),
        position matches Some(p) ==> (amount > 0 && p.amount < amount ==> r == Err::<Undelegated, ContractError>(
            ContractError::InsufficientDelegation)),
        r matches Err(e) ==> e == ContractError::AmountNotPositive || e == ContractError::DelegationNotFound
            || e == ContractError::InsufficientDelegation || e == ContractError::ValidatorNotFound
            || e == ContractError::Overflow,
        position matches Some(p) ==> ((amount > 0 && p.amount >= amount
            && withdrawal_computable(p, reward_per_token as int, amount as int) && validator is None)
            ==> r == Err::<Undelegated, ContractError>(ContractError::ValidatorNotFound)),
        (amount > 0 && position is Some && position.unwrap().amount >= amount
            && withdrawal_computable(position.unwrap(), reward_per_token as int, amount as int)
            && validator is Some
            && validator_release_computable(validator.unwrap(), position.unwrap().amount - amount, amount as int))
            <==> r is Ok,
        r matches Ok(u) ==> {
            let p = position.unwrap();
            let v = validator.unwrap();
            let new_amount = p.amount - amount;
            &&& amount > 0
            &&& position is Some
            &&& validator is Some
            &&& p.amount >= amount
            &&& u.reward_paid == pending_spec(p.amount as int, p.reward_debt as int, reward_per_token as int)
            &&& u.validator.total_delegated == v.total_delegated - amount
            &&& u.validator.delegator_count == v.delegator_count - (if new_amount == 0 { 1int } else { 0 })
            &&& u.validator.active == v.active
            &&& u.validator.validator@ == v.validator@
            &&& (new_amount == 0 <==> u.position is None)
            &&& (u.position matches Some(q) ==> {
                &&& q.amount == new_amount
                &&& q.reward_debt == accrued_spec(new_amount, reward_per_token as int)
                &&& q.since_ts == p.since_ts
                &&& q.delegator@ == p.delegator@
                &&& q.validator@ == p.validator@
            })
        },
{
    if amount <= 0 {
        return Err(ContractError::AmountNotPositive);
    }
    let pos = match position {
        Some(p) => p,
        None => return Err(ContractError::DelegationNotFound),
    };
    if pos.amount < amount {
        return Err(ContractError::InsufficientDelegation);
    }
    let reward_paid = pending_rewards(&pos, reward_per_token)?;
    let new_amount = c_sub(pos.amount, amount)?;
    let new_debt = c_div(c_mul(new_amount, reward_per_token)?, REWARD_SCALE)?;
    let vinfo = match validator {
        Some(v) => v,
        None => return Err(ContractError::ValidatorNotFound),
    };
    let new_total = c_sub(vinfo.total_delegated, amount)?;
    let closed = new_amount == 0;
    let new_count = if closed {
        if vinfo.delegator_count == 0 {
            return Err(ContractError::Overflow);
        }
        vinfo.delegator_count - 1
    } else {
        vinfo.delegator_count
    };
    let new_position = if closed {
        None
    } else {
        Some(DelegationPosition {
            delegator: pos.delegator,
            validator: pos.validator,
            amount: new_amount,
            reward_debt: new_debt,
            since_ts: pos.since_ts,
        })
    };
    Ok(Undelegated {
        validator: ValidatorInfo {
            validator: vinfo.validator,
            total_delegated: new_total,
            delegator_count: new_count,
            active: vinfo.active,
        },
        position: new_position,
        reward_paid,
    })
}

/// Distributes `reward_amount` over a validator's delegated stake (admin only) by raising
/// the reward per token by reward_amount * 1e12 / total_delegated.
pub fn distribute_rewards(
    validator: Option<ValidatorInfo>,
    reward_per_token: i128,
    total_rewards: i128,
    reward_amount: i128,
) -> (r: Result<RewardsDistributed, ContractError>)
    ensures
        reward_amount <= 0 ==> r == Err::<RewardsDistributed, ContractError>(ContractError::RewardNotPositive),
        (reward_amount > 0 && validator is None) ==> r == Err::<RewardsDistributed, ContractError>(
            ContractError::ValidatorNotFound),
        validator matches Some(v) ==> (reward_amount > 0 && v.total_delegated == 0 ==> r == Err::<
            RewardsDistributed,
            ContractError,
        >(ContractError::NoDelegators)),
        r matches Err(e) ==> e == ContractError::RewardNotPositive || e == ContractError::ValidatorNotFound
            || e == ContractError::NoDelegators || e == ContractError::Overflow,
        r matches Ok(d) ==> {
            let v = validator.unwrap();
            &&& reward_amount > 0
            &&& validator is Some
            &&& v.total_delegated != 0
            &&& d.increase == div_trunc(reward_amount * REWARD_SCALE, v.total_delegated as int)
            &&& d.reward_per_token == reward_per_token + d.increase
            &&& d.total_rewards == total_rewards + reward_amount
        },
        validator matches Some(v) ==> ((reward_amount > 0 && v.total_delegated > 0
            && fits_i128(reward_amount * REWARD_SCALE)
            && fits_i128(reward_per_token + div_trunc(reward_amount * REWARD_SCALE, v.total_delegated as int))
            && fits_i128(total_rewards + reward_amount)) ==> r is Ok),
{
    if reward_amount <= 0 {
        return Err(ContractError::RewardNotPositive);
    }
    let vinfo = match validator {
        Some(v) => v,
        None => return Err(ContractError::ValidatorNotFound),
    };
    if vinfo.total_delegated == 0 {
        return Err(ContractError::NoDelegators);
    }
    let increase = c_div(c_mul(reward_amount, REWARD_SCALE)?, vinfo.total_delegated)?;
    let new_rpt = c_add(reward_per_token, increase)?;
    let new_total = c_add(total_rewards, reward_amount)?;
    Ok(RewardsDistributed { reward_per_token: new_rpt, total_rewards: new_total, increase })
}

/// Slashes a validator (admin only): refused for an unknown validator or an amount above
/// its total; lowers the total delegated by the amount.
pub fn slash_validator(validator: Option<ValidatorInfo>, slash_amount: i128) -> (r: Result<ValidatorInfo, ContractError>)
    ensures
        validator is None ==> r == Err::<ValidatorInfo, ContractError>(ContractError::ValidatorNotFound),
        validator matches Some(v) ==> (slash_amount > v.total_delegated ==> r == Err::<ValidatorInfo, ContractError>(
            ContractError::SlashExceedsTotal)),
        r matches Err(e) ==> e == ContractError::ValidatorNotFound || e == ContractError::SlashExceedsTotal
            || e == ContractError::Overflow,
        validator matches Some(v) ==> (slash_amount <= v.total_delegated && fits_i128(v.total_delegated - slash_amount) ==> r is Ok),
        r matches Ok(w) ==> {
            let v = validator.unwrap();
            &&& w.total_delegated == v.total_delegated - slash_amount
            &&& w.delegator_count == v.delegator_count
            &&& w.active == v.active
            &&& w.validator@ == v.validator@
        },
{
    let vinfo = match validator {
        Some(v) => v,
        None => return Err(ContractError::ValidatorNotFound),
    };
    if slash_amount > vinfo.total_delegated {
        return Err(ContractError::SlashExceedsTotal);
    }
    let total = c_sub(vinfo.total_delegated, slash_amount)?;
    Ok(ValidatorInfo { validator: vinfo.validator, total_delegated: total, delegator_count: vinfo.delegator_count, active: vinfo.active })
}

/// Claims the pending reward of a position: refused for a missing position; when something
/// is pending the reward debt catches up with the accrued reward.
pub fn claim_rewards(position: Option<DelegationPosition>, reward_per_token: i128) -> (r: Result<Claimed, ContractError>)
    ensures
        position is None ==> r == Err::<Claimed, ContractError>(ContractError::DelegationNotFound),
        r matches Err(e) ==> e == ContractError::DelegationNotFound || e == ContractError::Overflow,
        r matches Ok(c) ==> {
            let p = position.unwrap();
            &&& position is Some
            &&& c.pending == pending_spec(p.amount as int, p.reward_debt as int, reward_per_token as int)
            &&& (c.pending > 0 <==> c.position is Some)
            &&& (c.position matches Some(q) ==> {
                &&& q.amount == p.amount
                &&& q.reward_debt == accrued_spec(p.amount as int, reward_per_token as int)
                &&& q.since_ts == p.since_ts
                &&& q.delegator@ == p.delegator@
                &&& q.validator@ == p.validator@
            })
        },
        position matches Some(p) ==> (pending_computable(p.amount as int, p.reward_debt as int, reward_per_token as int)
            && fits_i128(p.amount * reward_per_token) ==> r is Ok),
{
    let pos = match position {
        Some(p) => p,
        None => return Err(ContractError::DelegationNotFound),
    };
    let pending = pending_rewards(&pos, reward_per_token)?;
    if pending > 0 {
        let debt = c_div(c_mul(pos.amount, reward_per_token)?, REWARD_SCALE)?;
        let updated = DelegationPosition {
            delegator: pos.delegator,
            validator: pos.validator,
            amount: pos.amount,
            reward_debt: debt,
            since_ts: pos.since_ts,
        };
        Ok(Claimed { pending, position: Some(updated) })
    } else {
        Ok(Claimed { pending, position: None })
    }
}

/// The pending reward of a delegator with a validator: 0 without a position.
pub fn get_pending_rewards(position: Option<DelegationPosition>, reward_per_token: i128) -> (r: Result<i128, ContractError>)
    ensures
        position is None ==> r == Ok::<i128, ContractError>(0),
        position matches Some(p) ==> (r is Ok <==> pending_computable(p.amount as int, p.reward_debt as int, reward_per_token as int)),
        r matches Ok(v) ==> (position matches Some(p) ==> v == pending_spec(p.amount as int, p.reward_debt as int, reward_per_token as int)),
{
    match position {
        None => Ok(0),
        Some(p) => pending_rewards(&p, reward_per_token),
    }
}

/// A registered validator's record.
pub fn get_validator(stored: Option<ValidatorInfo>) -> (r: Result<ValidatorInfo, ContractError>)
    ensures
        stored is None ==> r == Err::<ValidatorInfo, ContractError>(ContractError::ValidatorNotFound),
        stored matches Some(v) ==> r == Ok::<ValidatorInfo, ContractError>(v),
{
    match stored {
        Some(v) => Ok(v),
        None => Err(ContractError::ValidatorNotFound),
    }
}

/// A delegator's position with a validator.
pub fn get_delegation(stored: Option<DelegationPosition>) -> (r: Result<DelegationPosition, ContractError>)
    ensures
        stored is None ==> r == Err::<DelegationPosition, ContractError>(ContractError::DelegationNotFound),
        stored matches Some(p) ==> r == Ok::<DelegationPosition, ContractError>(p),
{
    match stored {
        Some(p) => Ok(p),
        None => Err(ContractError::DelegationNotFound),
    }
}

// ── Laws ────────────────────────────────────────────────────────────────────

/// Right after a delegation or a claim the position's reward debt equals its accrued
/// reward, so nothing more can be claimed until the reward per token grows.
pub proof fn lemma_nothing_pending_after_settlement(amount: int, rpt: int)
    ensures
        pending_spec(amount, accrued_spec(amount, rpt), rpt) == 0,
{
}

} // verus!
