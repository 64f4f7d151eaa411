//! Token escrow with an arbitrator: deposit, dispute, resolution, release, refund and
//! time-out, with platform and arbitrator fees taken in basis points at settlement.
use vstd::prelude::*;

use crate::addr::{addr_eq, duplicate_opt, opt_view, Addr};
use crate::error::{is_err, ContractError};
use crate::math::{c_div, c_mul, c_sub, div_trunc, fits_i128};

verus! {

/// Basis points in 100%.
pub const BPS_DENOMINATOR: i128 = 10_000;

/// Lifecycle of an escrow.
#[derive(Clone, Copy, Debug, PartialEq, Eq, Structural)]
pub enum EscrowStatus {
    Active,
    Disputed,
    Released,
    Cancelled,
}

/// A stored escrow.
pub struct EscrowInfo {
    pub sender: Addr,
    pub recipient: Addr,
    pub arbitrator: Addr,
    pub token: Addr,
    pub amount: i128,
    pub unlock_time: u64,
    pub status: EscrowStatus,
    pub evidence_hash: Vec<u8>,
}

/// The escrow contract's instance state. Before `initialize` there is no admin, fees are
/// zero and fees would go to the contract itself (`platform_fee_account` is `None`).
pub struct EscrowContract {
    pub admin: Option<Addr>,
    pub platform_fee_account: Option<Addr>,
    pub platform_fee_bps: u32,
    pub arbitrator_fee_bps: u32,
    /// Identifier of the next escrow.
    pub next_id: u64,
}

/// What a settlement pays out and the escrow record to store.
pub struct Settlement {
    pub escrow: EscrowInfo,
    /// Who receives the net amount.
    pub receiver: Addr,
    /// Where the platform fee goes (`None`: the contract's own address).
    pub platform_account: Option<Addr>,
    pub platform_fee: i128,
    pub arbitrator_fee: i128,
    pub net_amount: i128,
    /// The funds went back to the sender.
    pub is_refund: bool,
}

// ── Mathematical model ──────────────────────────────────────────────────────

/// Both fees are at most 100% and together at most 100%.
pub open spec fn fee_config_valid(platform_fee_bps: int, arbitrator_fee_bps: int) -> bool {
    platform_fee_bps <= 10_000 && arbitrator_fee_bps <= 10_000 && platform_fee_bps + arbitrator_fee_bps <= 10_000
}

/// A fee of `bps` basis points on `amount`, rounded toward zero.
pub open spec fn fee_spec(amount: int, bps: int) -> int {
    div_trunc(amount * bps, 10_000)
}

/// The addresses of the three parties are pairwise distinct.
pub open spec fn distinct_parties(sender: Seq<u8>, recipient: Seq<u8>, arbitrator: Seq<u8>) -> bool {
    recipient != sender && arbitrator != sender && arbitrator != recipient
}

/// The escrow can still be settled (released, refunded, resolved or timed out).
pub open spec fn open_status(s: EscrowStatus) -> bool {
    s == EscrowStatus::Active || s == EscrowStatus::Disputed
}

/// `e2` is `e1` with a new status and evidence hash, every other field kept.
pub open spec fn same_escrow_except(e1: EscrowInfo, e2: EscrowInfo) -> bool {
    &&& e2.sender@ == e1.sender@
    &&& e2.recipient@ == e1.recipient@
    &&& e2.arbitrator@ == e1.arbitrator@
    &&& e2.token@ == e1.token@
    &&& e2.amount == e1.amount
    &&& e2.unlock_time == e1.unlock_time
}

/// The settlement `s` of escrow `e` to `receiver`, with the given arbitrator fee rate.
pub open spec fn settlement_spec(s: Settlement, e: EscrowInfo, receiver: Seq<u8>, is_refund: bool,
    platform_fee_bps: int, arbitrator_fee_bps: int, evidence: Seq<u8>) -> bool {
    &&& s.platform_fee == fee_spec(e.amount as int, platform_fee_bps)
    &&& s.arbitrator_fee == fee_spec(e.amount as int, arbitrator_fee_bps)
    &&& s.net_amount == e.amount - s.platform_fee - s.arbitrator_fee
    &&& s.net_amount >= 0
    &&& s.receiver@ == receiver
    &&& s.is_refund == is_refund
    &&& same_escrow_except(e, s.escrow)
    &&& s.escrow.status == (if is_refund { EscrowStatus::Cancelled } else { EscrowStatus::Released })
    &&& s.escrow.evidence_hash@ == evidence
}

/// The three fee figures can be computed without overflow and leave a non-negative net.
pub open spec fn fees_ok(amount: int, platform_fee_bps: int, arbitrator_fee_bps: int) -> bool {
    &&& fits_i128(amount * platform_fee_bps)
    &&& fits_i128(amount * arbitrator_fee_bps)
    &&& fits_i128(amount - fee_spec(amount, platform_fee_bps))
    &&& fits_i128(amount - fee_spec(amount, platform_fee_bps) - fee_spec(amount, arbitrator_fee_bps))
    &&& amount - fee_spec(amount, platform_fee_bps) - fee_spec(amount, arbitrator_fee_bps) >= 0
}

// ── Executable functions ────────────────────────────────────────────────────

/// Checks a fee configuration: each rate at most 10_000 bps and both together too.
pub fn assert_fee_config(platform_fee_bps: u32, arbitrator_fee_bps: u32) -> (r: Result<(), ContractError>)
    ensures
        (platform_fee_bps > 10_000 || arbitrator_fee_bps > 10_000) <==> is_err(r, ContractError::InvalidFeeBps),
        (platform_fee_bps <= 10_000 && arbitrator_fee_bps <= 10_000 && platform_fee_bps + arbitrator_fee_bps > 10_000)
            <==> is_err(r, ContractError::FeesExceedAmount),
        r is Ok <==> fee_config_valid(platform_fee_bps as int, arbitrator_fee_bps as int),
{
    if platform_fee_bps > 10_000 || arbitrator_fee_bps > 10_000 {
        return Err(ContractError::InvalidFeeBps);
    }
    if platform_fee_bps + arbitrator_fee_bps > 10_000 {
        return Err(ContractError::FeesExceedAmount);
    }
    Ok(())
}

/// Splits `amount` into (platform fee, arbitrator fee, net amount). Refused when the net
/// would be negative, and on overflow.
pub fn compute_fees(amount: i128, platform_fee_bps: u32, arbitrator_fee_bps: u32) -> (r: Result<(i128, i128, i128), ContractError>)
    ensures
        fees_ok(amount as int, platform_fee_bps as int, arbitrator_fee_bps as int) <==> r is Ok,
        r matches Ok((pf, af, net)) ==> {
            &&& pf == fee_spec(amount as int, platform_fee_bps as int)
            &&& af == fee_spec(amount as int, arbitrator_fee_bps as int)
            &&& net == amount - pf - af
            &&& net >= 0
        },
        r matches Err(e) ==> e == ContractError::Overflow || e == ContractError::FeeConfigInvalid,
        (fits_i128(amount * platform_fee_bps) && fits_i128(amount * arbitrator_fee_bps)
            && amount - fee_spec(amount as int, platform_fee_bps as int) - fee_spec(amount as int, arbitrator_fee_bps as int) < 0
            && fits_i128(amount - fee_spec(amount as int, platform_fee_bps as int))
            && fits_i128(amount - fee_spec(amount as int, platform_fee_bps as int) - fee_spec(amount as int, arbitrator_fee_bps as int)))
            ==> is_err(r, ContractError::FeeConfigInvalid),
{
    let platform_fee = c_div(c_mul(amount, platform_fee_bps as i128)?, BPS_DENOMINATOR)?;
    let arbitrator_fee = c_div(c_mul(amount, arbitrator_fee_bps as i128)?, BPS_DENOMINATOR)?;
    let net_amount = c_sub(c_sub(amount, platform_fee)?, arbitrator_fee)?;
    if net_amount < 0 {
        return Err(ContractError::FeeConfigInvalid);
    }
    Ok((platform_fee, arbitrator_fee, net_amount))
}

impl EscrowContract {
    /// A contract that was never initialized: no admin, no fees, identifiers from 1.
    pub fn new() -> (r: EscrowContract)
        ensures
            r.admin is None,
            r.platform_fee_account is None,
            r.platform_fee_bps == 0,
            r.arbitrator_fee_bps == 0,
            r.next_id == 1,
    {
        EscrowContract { admin: None, platform_fee_account: None, platform_fee_bps: 0, arbitrator_fee_bps: 0, next_id: 1 }
    }

    /// Sets the admin and the fee configuration, once.
    pub fn initialize(&mut self, admin: Addr, platform_fee_account: Addr, platform_fee_bps: u32, arbitrator_fee_bps: u32) -> (r: Result<(), ContractError>)
        ensures
            old(self).admin is Some ==> is_err(r, ContractError::AlreadyInitialized),
            (old(self).admin is None && (platform_fee_bps > 10_000 || arbitrator_fee_bps > 10_000))
                ==> is_err(r, ContractError::InvalidFeeBps),
            (old(self).admin is None && platform_fee_bps <= 10_000 && arbitrator_fee_bps <= 10_000
                && platform_fee_bps + arbitrator_fee_bps > 10_000) ==> is_err(r, ContractError::FeesExceedAmount),
            (old(self).admin is None && fee_config_valid(platform_fee_bps as int, arbitrator_fee_bps as int)) <==> r is Ok,
            r is Err ==> final(self).admin == old(self).admin && final(self).platform_fee_bps == old(self).platform_fee_bps
                && final(self).arbitrator_fee_bps == old(self).arbitrator_fee_bps
                && final(self).platform_fee_account == old(self).platform_fee_account,
            r is Ok ==> {
                &&& final(self).admin matches Some(a) && a@ == admin@
                &&& final(self).platform_fee_account matches Some(a) && a@ == platform_fee_account@
                &&& final(self).platform_fee_bps == platform_fee_bps
                &&& final(self).arbitrator_fee_bps == arbitrator_fee_bps
            },
            final(self).next_id == old(self).next_id,
    {
        if self.admin.is_some() {
            return Err(ContractError::AlreadyInitialized);
        }
        assert_fee_config(platform_fee_bps, arbitrator_fee_bps)?;
        self.admin = Some(admin);
        self.platform_fee_account = Some(platform_fee_account);
        self.platform_fee_bps = platform_fee_bps;
        self.arbitrator_fee_bps = arbitrator_fee_bps;
        Ok(())
    }

    /// Replaces the fee configuration; only the admin may.
    pub fn set_fee_config(&mut self, admin: &Addr, platform_fee_account: Addr, platform_fee_bps: u32, arbitrator_fee_bps: u32) -> (r: Result<(), ContractError>)
        ensures
            old(self).admin is None ==> is_err(r, ContractError::NotInitialized),
            old(self).admin matches Some(a) ==> (a@ != admin@ <==> is_err(r, ContractError::Unauthorized)),
            (old(self).admin matches Some(a) && a@ == admin@) ==> (
                (fee_config_valid(platform_fee_bps as int, arbitrator_fee_bps as int) <==> r is Ok)
                && ((platform_fee_bps > 10_000 || arbitrator_fee_bps > 10_000) ==> is_err(r, ContractError::InvalidFeeBps))),
            r is Err ==> final(self).platform_fee_bps == old(self).platform_fee_bps
                && final(self).arbitrator_fee_bps == old(self).arbitrator_fee_bps
                && final(self).platform_fee_account == old(self).platform_fee_account,
            r is Ok ==> {
                &&& final(self).platform_fee_account matches Some(a) && a@ == platform_fee_account@
                &&& final(self).platform_fee_bps == platform_fee_bps
                &&& final(self).arbitrator_fee_bps == arbitrator_fee_bps
            },
            final(self).admin == old(self).admin,
            final(self).next_id == old(self).next_id,
    {
        let ok = match &self.admin {
            None => return Err(ContractError::NotInitialized),
            Some(a) => addr_eq(a, admin),
        };
        if !ok {
            return Err(ContractError::Unauthorized);
        }
        assert_fee_config(platform_fee_bps, arbitrator_fee_bps)?;
        self.platform_fee_account = Some(platform_fee_account);
        self.platform_fee_bps = platform_fee_bps;
        self.arbitrator_fee_bps = arbitrator_fee_bps;
        Ok(())
    }

    /// Opens a new escrow of `amount` unlocking at `unlock_time`, under the next identifier.
    /// Refused for a non-positive amount, an unlock time not in the future, and parties that
    /// are not pairwise distinct.
    pub fn initiate_escrow(
        &mut self,
        sender: Addr,
        recipient: Addr,
        arbitrator: Addr,
        token: Addr,
        amount: i128,
        unlock_time: u64,
        now: u64,
    ) -> (r: Result<(u64, EscrowInfo), ContractError>)
        ensures
            amount <= 0 ==> is_err(r, ContractError::AmountNotPositive),
            (amount > 0 && unlock_time <= now) ==> is_err(r, ContractError::UnlockTimeNotInFuture),
            (amount > 0 && unlock_time > now && !distinct_parties(sender@, recipient@, arbitrator@))
                ==> is_err(r, ContractError::InvalidParticipants),
            (amount > 0 && unlock_time > now && distinct_parties(sender@, recipient@, arbitrator@)
                && old(self).next_id < u64::MAX) ==> r is Ok,
            r is Err ==> final(self).next_id == old(self).next_id,
            r matches Ok((id, e)) ==> {
                &&& id == old(self).next_id
                &&& final(self).next_id == id + 1
                &&& e.sender@ == sender@
                &&& e.recipient@ == recipient@
                &&& e.arbitrator@ == arbitrator@
                &&& e.token@ == token@
                &&& e.amount == amount
                &&& e.unlock_time == unlock_time
                &&& e.status == EscrowStatus::Active
                &&& e.evidence_hash@.len() == 0
            },
            final(self).admin == old(self).admin,
            final(self).platform_fee_bps == old(self).platform_fee_bps,
            final(self).arbitrator_fee_bps == old(self).arbitrator_fee_bps,
            final(self).platform_fee_account == old(self).platform_fee_account,
    {
        if amount <= 0 {
            return Err(ContractError::AmountNotPositive);
        }
        if unlock_time <= now {
            return Err(ContractError::UnlockTimeNotInFuture);
        }
        if addr_eq(&recipient, &sender) || addr_eq(&arbitrator, &sender) || addr_eq(&arbitrator, &recipient) {
            return Err(ContractError::InvalidParticipants);
        }
        if self.next_id == u64::MAX {
            return Err(ContractError::Overflow);
        }
        let escrow_id = self.next_id;
        self.next_id = escrow_id + 1;
        let escrow = EscrowInfo {
            sender,
            recipient,
            arbitrator,
            token,
            amount,
            unlock_time,
            status: EscrowStatus::Active,
            evidence_hash: Vec::new(),
        };
        Ok((escrow_id, escrow))
    }

    /// Pays out an escrow: fees at the configured rates (the arbitrator's only when
    /// `apply_arbitrator_fee`), the rest to `receiver`; the escrow becomes Cancelled for a
    /// refund and Released otherwise.
    pub fn finalize_settlement(
        &self,
        escrow: EscrowInfo,
        receiver: Addr,
        is_refund: bool,
        apply_arbitrator_fee: bool,
        evidence_hash: Vec<u8>,
    ) -> (r: Result<Settlement, ContractError>)
        ensures
            ({
                let afb = if apply_arbitrator_fee { self.arbitrator_fee_bps as int } else { 0 };
                fees_ok(escrow.amount as int, self.platform_fee_bps as int, afb) <==> r is Ok
            }),
            r matches Ok(s) ==> {
                let afb = if apply_arbitrator_fee { self.arbitrator_fee_bps as int } else { 0 };
                &&& settlement_spec(s, escrow, receiver@, is_refund, self.platform_fee_bps as int, afb, evidence_hash@)
                &&& opt_view(s.platform_account) == opt_view(self.platform_fee_account)
            },
            r matches Err(e) ==> e == ContractError::Overflow || e == ContractError::FeeConfigInvalid,
    {
        let arbitrator_fee_bps = if apply_arbitrator_fee { self.arbitrator_fee_bps } else { 0 };
        let (platform_fee, arbitrator_fee, net_amount) = compute_fees(escrow.amount, self.platform_fee_bps, arbitrator_fee_bps)?;
        let platform_account = duplicate_opt(&self.platform_fee_account);
        let status = if is_refund { EscrowStatus::Cancelled } else { EscrowStatus::Released };
        let new_escrow = EscrowInfo {
            sender: escrow.sender,
            recipient: escrow.recipient,
            arbitrator: escrow.arbitrator,
            token: escrow.token,
            amount: escrow.amount,
            unlock_time: escrow.unlock_time,
            status,
            evidence_hash,
        };
        Ok(Settlement {
            escrow: new_escrow,
            receiver,
            platform_account,
            platform_fee,
            arbitrator_fee,
            net_amount,
            is_refund,
        })
    }

    /// Resolves a disputed escrow; only its arbitrator may. The funds go to the recipient
    /// or back to the sender (a refund), the arbitrator's fee applies.
    pub fn resolve_dispute(
        &self,
        escrow: Option<EscrowInfo>,
        arbitrator: &Addr,
        release_to_recipient: bool,
        evidence_hash: Vec<u8>,
    ) -> (r: Result<Settlement, ContractError>)
        ensures
            escrow is None ==> is_err(r, ContractError::EscrowNotFound),
            escrow matches Some(e) ==> {
                &&& e.status != EscrowStatus::Disputed ==> is_err(r, ContractError::EscrowNotInDispute)
                &&& (e.status == EscrowStatus::Disputed && arbitrator@ != e.arbitrator@)
                    ==> is_err(r, ContractError::NotAuthorizedToResolve)
                &&& (e.status == EscrowStatus::Disputed && arbitrator@ == e.arbitrator@
                    && fees_ok(e.amount as int, self.platform_fee_bps as int, self.arbitrator_fee_bps as int)) ==> r is Ok
            },
            r matches Ok(s) ==> escrow matches Some(e) && opt_view(s.platform_account) == opt_view(self.platform_fee_account)
                && settlement_spec(s, e, if release_to_recipient { e.recipient@ } else { e.sender@ },
                    !release_to_recipient, self.platform_fee_bps as int, self.arbitrator_fee_bps as int, evidence_hash@),
    {
        let e = match escrow {
            Some(e) => e,
            None => return Err(ContractError::EscrowNotFound),
        };
        if e.status != EscrowStatus::Disputed {
            return Err(ContractError::EscrowNotInDispute);
        }
        if !addr_eq(arbitrator, &e.arbitrator) {
            return Err(ContractError::NotAuthorizedToResolve);
        }
        let receiver = if release_to_recipient { e.recipient.duplicate() } else { e.sender.duplicate() };
        self.finalize_settlement(e, receiver, !release_to_recipient, true, evidence_hash)
    }

    /// Releases an active or disputed escrow to its recipient; only its arbitrator may.
    /// The arbitrator's fee applies and the evidence is cleared.
    pub fn release_funds(&self, escrow: Option<EscrowInfo>, caller: &Addr) -> (r: Result<Settlement, ContractError>)
        ensures
            escrow is None ==> is_err(r, ContractError::EscrowNotFound),
            escrow matches Some(e) ==> {
                &&& !open_status(e.status) ==> is_err(r, ContractError::EscrowNotActiveOrDisputed)
                &&& (open_status(e.status) && caller@ != e.arbitrator@) ==> is_err(r, ContractError::NotAuthorizedToRelease)
                &&& (open_status(e.status) && caller@ == e.arbitrator@
                    && fees_ok(e.amount as int, self.platform_fee_bps as int, self.arbitrator_fee_bps as int)) ==> r is Ok
            },
            r matches Ok(s) ==> escrow matches Some(e) && opt_view(s.platform_account) == opt_view(self.platform_fee_account)
                && settlement_spec(s, e, e.recipient@, false, self.platform_fee_bps as int,
                    self.arbitrator_fee_bps as int, Seq::<u8>::empty()),
    {
        let e = match escrow {
            Some(e) => e,
            None => return Err(ContractError::EscrowNotFound),
        };
        if e.status != EscrowStatus::Active && e.status != EscrowStatus::Disputed {
            return Err(ContractError::EscrowNotActiveOrDisputed);
        }
        if !addr_eq(caller, &e.arbitrator) {
            return Err(ContractError::NotAuthorizedToRelease);
        }
        let receiver = e.recipient.duplicate();
        self.finalize_settlement(e, receiver, false, true, Vec::new())
    }

    /// Refunds an active or disputed escrow to its sender: the arbitrator may at any time
    /// (and takes the arbitrator fee), the sender once the unlock time has come (no
    /// arbitrator fee). The evidence is kept.
    pub fn cancel_escrow(&self, escrow: Option<EscrowInfo>, caller: &Addr, now: u64) -> (r: Result<Settlement, ContractError>)
        ensures
            escrow is None ==> is_err(r, ContractError::EscrowNotFound),
            escrow matches Some(e) ==> {
                let is_arb = caller@ == e.arbitrator@;
                let expired_refund = caller@ == e.sender@ && now >= e.unlock_time;
                let afb = if is_arb { self.arbitrator_fee_bps as int } else { 0 };
                &&& !open_status(e.status) ==> is_err(r, ContractError::EscrowNotActiveOrDisputed)
                &&& (open_status(e.status) && !is_arb && !expired_refund) ==> is_err(r, ContractError::NotAuthorizedToCancel)
                &&& (open_status(e.status) && (is_arb || expired_refund)
                    && fees_ok(e.amount as int, self.platform_fee_bps as int, afb)) ==> r is Ok
                &&& r matches Ok(s) ==> opt_view(s.platform_account) == opt_view(self.platform_fee_account)
                    && settlement_spec(s, e, e.sender@, true, self.platform_fee_bps as int, afb, e.evidence_hash@)
            },
    {
        let e = match escrow {
            Some(e) => e,
            None => return Err(ContractError::EscrowNotFound),
        };
        if e.status != EscrowStatus::Active && e.status != EscrowStatus::Disputed {
            return Err(ContractError::EscrowNotActiveOrDisputed);
        }
        let is_arbitrator = addr_eq(caller, &e.arbitrator);
        let is_expired_refund = addr_eq(caller, &e.sender) && now >= e.unlock_time;
        if !is_arbitrator && !is_expired_refund {
            return Err(ContractError::NotAuthorizedToCancel);
        }
        let receiver = e.sender.duplicate();
        let evidence = e.evidence_hash.clone();
        self.finalize_settlement(e, receiver, true, is_arbitrator, evidence)
    }

    /// Refunds an active or disputed escrow to its sender once the unlock time has come;
    /// anyone may trigger it, and no arbitrator fee applies.
    pub fn auto_resolve(&self, escrow: Option<EscrowInfo>, now: u64) -> (r: Result<Settlement, ContractError>)
        ensures
            escrow is None ==> is_err(r, ContractError::EscrowNotFound),
            escrow matches Some(e) ==> {
                &&& !open_status(e.status) ==> is_err(r, ContractError::EscrowNotAutoResolvable)
                &&& (open_status(e.status) && now < e.unlock_time) ==> is_err(r, ContractError::UnlockTimeNotPassed)
                &&& (open_status(e.status) && now >= e.unlock_time
                    && fees_ok(e.amount as int, self.platform_fee_bps as int, 0)) ==> r is Ok
                &&& r matches Ok(s) ==> opt_view(s.platform_account) == opt_view(self.platform_fee_account)
                    && settlement_spec(s, e, e.sender@, true, self.platform_fee_bps as int, 0, e.evidence_hash@)
            },
    {
        let e = match escrow {
            Some(e) => e,
            None => return Err(ContractError::EscrowNotFound),
        };
        if e.status != EscrowStatus::Active && e.status != EscrowStatus::Disputed {
            return Err(ContractError::EscrowNotAutoResolvable);
        }
        if now < e.unlock_time {
            return Err(ContractError::UnlockTimeNotPassed);
        }
        let receiver = e.sender.duplicate();
        let evidence = e.evidence_hash.clone();
        self.finalize_settlement(e, receiver, true, false, evidence)
    }
}

/// Disputes an active escrow; only its sender or recipient may. The escrow becomes
/// Disputed with the given evidence.
pub fn dispute_escrow(escrow: Option<EscrowInfo>, caller: &Addr, evidence_hash: Vec<u8>) -> (r: Result<EscrowInfo, ContractError>)
    ensures
        escrow is None ==> is_err(r, ContractError::EscrowNotFound),
        escrow matches Some(e) ==> {
            &&& e.status != EscrowStatus::Active ==> is_err(r, ContractError::EscrowNotDisputable)
            &&& (e.status == EscrowStatus::Active && caller@ != e.sender@ && caller@ != e.recipient@)
                ==> is_err(r, ContractError::NotEscrowParty)
            &&& (e.status == EscrowStatus::Active && (caller@ == e.sender@ || caller@ == e.recipient@)) ==> r is Ok
            &&& r matches Ok(n) ==> same_escrow_except(e, n) && n.status == EscrowStatus::Disputed
                && n.evidence_hash@ == evidence_hash@
        },
{
    let e = match escrow {
        Some(e) => e,
        None => return Err(ContractError::EscrowNotFound),
    };
    if e.status != EscrowStatus::Active {
        return Err(ContractError::EscrowNotDisputable);
    }
    if !addr_eq(caller, &e.sender) && !addr_eq(caller, &e.recipient) {
        return Err(ContractError::NotEscrowParty);
    }
    Ok(EscrowInfo {
        sender: e.sender,
        recipient: e.recipient,
        arbitrator: e.arbitrator,
        token: e.token,
        amount: e.amount,
        unlock_time: e.unlock_time,
        status: EscrowStatus::Disputed,
        evidence_hash,
    })
}

/// The stored escrow with the given identifier.
pub fn get_escrow(escrow: Option<EscrowInfo>) -> (r: Result<EscrowInfo, ContractError>)
    ensures
        escrow is None ==> is_err(r, ContractError::EscrowNotFound),
        escrow matches Some(e) ==> r matches Ok(x) && x == e,
{
    match escrow {
        Some(e) => Ok(e),
        None => Err(ContractError::EscrowNotFound),
    }
}

// ── Laws ────────────────────────────────────────────────────────────────────

/// A settlement conserves the escrowed amount: with a valid fee configuration and a
/// non-negative amount, both fees are non-negative and fees plus net payout equal the amount.
pub proof fn lemma_settlement_conserves_amount(amount: int, platform_fee_bps: int, arbitrator_fee_bps: int)
    requires
        0 <= amount,
        0 <= platform_fee_bps,
        0 <= arbitrator_fee_bps,
        fee_config_valid(platform_fee_bps, arbitrator_fee_bps),
    ensures
        fee_spec(amount, platform_fee_bps) >= 0,
        fee_spec(amount, arbitrator_fee_bps) >= 0,
        fee_spec(amount, platform_fee_bps) + fee_spec(amount, arbitrator_fee_bps) + (amount
            - fee_spec(amount, platform_fee_bps) - fee_spec(amount, arbitrator_fee_bps)) == amount,
        amount - fee_spec(amount, platform_fee_bps) - fee_spec(amount, arbitrator_fee_bps) >= 0,
{
    let p = platform_fee_bps;
    let a = arbitrator_fee_bps;
    assert(amount * p >= 0 && amount * a >= 0) by (nonlinear_arith) requires amount >= 0, p >= 0, a >= 0;
    assert((amount * p) / 10_000 + (amount * a) / 10_000 <= amount) by (nonlinear_arith)
        requires amount >= 0, p >= 0, a >= 0, p + a <= 10_000;
}

/// A released or cancelled escrow is final: it can be neither disputed nor settled again.
pub proof fn lemma_settled_escrow_is_final(s: EscrowStatus)
    requires
        s == EscrowStatus::Released || s == EscrowStatus::Cancelled,
    ensures
        !open_status(s),
        s != EscrowStatus::Active,
        s != EscrowStatus::Disputed,
{
}

} // verus!
