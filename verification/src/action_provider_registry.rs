//! Marketplace registry of action providers: paid registration (one provider per owner),
//! call statistics, 1–5 ratings, and admin suspension, reinstatement and removal.
use vstd::prelude::*;

use crate::addr::{addr_eq, opt_view, Addr};
use crate::error::{is_err, ContractError};
use crate::math::fits_u64;

verus! {

/// Status of a registered provider.
#[derive(Clone, Copy, Debug, PartialEq, Eq, Structural)]
pub enum ProviderStatus {
    Active,
    Suspended,
    Deregistered,
}

/// A registered provider.
pub struct Provider {
    pub owner: Addr,
    pub name: String,
    pub endpoint: String,
    pub fee_per_call: i128,
    pub status: ProviderStatus,
    pub registered_at: u64,
    pub total_calls: u64,
    /// Sum of all ratings received.
    pub rating_score: u64,
    /// Number of ratings received.
    pub rating_count: u64,
}

/// A registration-fee payment from the new provider's owner to the admin.
pub struct FeePayment {
    pub token: Addr,
    pub from: Addr,
    pub to: Addr,
    pub amount: i128,
}

/// The registry's instance state.
pub struct ActionProviderRegistry {
    pub admin: Option<Addr>,
    pub fee_token: Option<Addr>,
    pub registration_fee: i128,
    pub next_provider_id: u64,
}

// ── Mathematical model ──────────────────────────────────────────────────────

/// Every rating was between 1 and 5: the sum lies between the count and five times it.
pub open spec fn ratings_consistent(p: Provider) -> bool {
    p.rating_count <= p.rating_score <= 5 * p.rating_count
}

/// `q` is `p` with possibly other status, statistics, endpoint and fee.
pub open spec fn same_provider(p: Provider, q: Provider) -> bool {
    &&& q.owner@ == p.owner@
    &&& q.name@ == p.name@
    &&& q.registered_at == p.registered_at
}

/// `q` is `p` with only the status changed to `s`.
pub open spec fn with_status(p: Provider, q: Provider, s: ProviderStatus) -> bool {
    &&& same_provider(p, q)
    &&& q.endpoint@ == p.endpoint@
    &&& q.fee_per_call == p.fee_per_call
    &&& q.total_calls == p.total_calls
    &&& q.rating_score == p.rating_score
    &&& q.rating_count == p.rating_count
    &&& q.status == s
}

/// Average rating scaled by 100 (450 = 4.50); 0 without ratings.
pub open spec fn avg_rating_spec(score: int, count: int) -> int {
    if count == 0 { 0 } else { (score * 100) / count }
}

// ── Executable functions ────────────────────────────────────────────────────

fn restatus(p: Provider, status: ProviderStatus) -> (r: Provider)
    ensures
        with_status(p, r, status),
{
    Provider {
        owner: p.owner,
        name: p.name,
        endpoint: p.endpoint,
        fee_per_call: p.fee_per_call,
        status,
        registered_at: p.registered_at,
        total_calls: p.total_calls,
        rating_score: p.rating_score,
        rating_count: p.rating_count,
    }
}

impl ActionProviderRegistry {
    /// A registry that was never initialized.
    pub fn new() -> (r: ActionProviderRegistry)
        ensures
            r.admin is None,
            r.fee_token is None,
            r.registration_fee == 0,
            r.next_provider_id == 0,
    {
        ActionProviderRegistry { admin: None, fee_token: None, registration_fee: 0, next_provider_id: 0 }
    }

    /// One-time setup with a non-negative registration fee; identifiers start at 1.
    pub fn initialize(&mut self, admin: Addr, fee_token: Addr, registration_fee: i128) -> (r: Result<(), ContractError>)
        ensures
            old(self).admin is Some ==> is_err(r, ContractError::AlreadyInitialized),
            (old(self).admin is None && registration_fee < 0) ==> is_err(r, ContractError::RegistrationFeeNegative),
            (old(self).admin is None && registration_fee >= 0) <==> r is Ok,
            r is Ok ==> opt_view(final(self).admin) == Some(admin@) && opt_view(final(self).fee_token) == Some(fee_token@)
                && final(self).registration_fee == registration_fee && final(self).next_provider_id == 1,
            r is Err ==> opt_view(final(self).admin) == opt_view(old(self).admin)
                && final(self).registration_fee == old(self).registration_fee
                && final(self).next_provider_id == old(self).next_provider_id,
    {
        if self.admin.is_some() {
            return Err(ContractError::AlreadyInitialized);
        }
        if registration_fee < 0 {
            return Err(ContractError::RegistrationFeeNegative);
        }
        self.admin = Some(admin);
        self.fee_token = Some(fee_token);
        self.registration_fee = registration_fee;
        self.next_provider_id = 1;
        Ok(())
    }

    /// Registers a provider for `owner` (who must not have one yet) under the next
    /// identifier; a positive registration fee is paid from the owner to the admin.
    pub fn register(&mut self, owner: Addr, name: String, endpoint: String, fee_per_call: i128, owner_has_provider: bool, now: u64)
        -> (r: Result<(u64, Provider, Option<FeePayment>), ContractError>)
        ensures
            fee_per_call < 0 ==> is_err(r, ContractError::FeePerCallNegative),
            (fee_per_call >= 0 && owner_has_provider) ==> is_err(r, ContractError::OwnerAlreadyRegistered),
            (fee_per_call >= 0 && !owner_has_provider && old(self).admin is None) ==> is_err(r, ContractError::NotInitialized),
            (fee_per_call >= 0 && !owner_has_provider && old(self).admin is Some && old(self).fee_token is Some
                && old(self).next_provider_id < u64::MAX) ==> r is Ok,
            r is Err ==> final(self).next_provider_id == old(self).next_provider_id,
            r matches Ok((id, p, pay)) ==> {
                &&& id == old(self).next_provider_id
                &&& final(self).next_provider_id == id + 1
                &&& p.owner@ == owner@
                &&& p.name@ == name@
                &&& p.endpoint@ == endpoint@
                &&& p.fee_per_call == fee_per_call
                &&& p.status == ProviderStatus::Active
                &&& p.registered_at == now
                &&& p.total_calls == 0
                &&& p.rating_score == 0
                &&& p.rating_count == 0
                &&& (old(self).registration_fee > 0 <==> pay is Some)
                &&& pay matches Some(f) ==> f.from@ == owner@ && Some(f.to@) == opt_view(old(self).admin)
                    && Some(f.token@) == opt_view(old(self).fee_token) && f.amount == old(self).registration_fee
            },
            opt_view(final(self).admin) == opt_view(old(self).admin),
            final(self).registration_fee == old(self).registration_fee,
    {
        if fee_per_call < 0 {
            return Err(ContractError::FeePerCallNegative);
        }
        if owner_has_provider {
            return Err(ContractError::OwnerAlreadyRegistered);
        }
        let (admin, fee_token) = match (&self.admin, &self.fee_token) {
            (Some(a), Some(t)) => (a, t),
            _ => return Err(ContractError::NotInitialized),
        };
        let payment = if self.registration_fee > 0 {
            Some(FeePayment { token: fee_token.duplicate(), from: owner.duplicate(), to: admin.duplicate(), amount: self.registration_fee })
        } else {
            None
        };
        if self.next_provider_id == u64::MAX {
            return Err(ContractError::Overflow);
        }
        let id = self.next_provider_id;
        self.next_provider_id = id + 1;
        let provider = Provider {
            owner,
            name,
            endpoint,
            fee_per_call,
            status: ProviderStatus::Active,
            registered_at: now,
            total_calls: 0,
            rating_score: 0,
            rating_count: 0,
        };
        Ok((id, provider, payment))
    }

    /// Refuses unless `caller` is the admin.
    pub fn require_admin(&self, caller: &Addr) -> (r: Result<(), ContractError>)
        ensures
            self.admin is None ==> is_err(r, ContractError::NotInitialized),
            self.admin matches Some(a) ==> (a@ == caller@ <==> r is Ok),
            self.admin matches Some(a) ==> (a@ != caller@ <==> is_err(r, ContractError::AdminOnly)),
    {
        match &self.admin {
            None => Err(ContractError::NotInitialized),
            Some(a) => if addr_eq(a, caller) { Ok(()) } else { Err(ContractError::AdminOnly) },
        }
    }

    /// Suspends a provider, whatever its status; only the admin may.
    pub fn suspend(&self, admin: &Addr, provider: Option<Provider>) -> (r: Result<Provider, ContractError>)
        ensures
            (self.admin matches Some(a) && a@ == admin@) ==> (provider is None <==> is_err(r, ContractError::ProviderNotFound)),
            r is Ok <==> (self.admin matches Some(a) && a@ == admin@) && provider is Some,
            r matches Ok(q) ==> with_status(provider.unwrap(), q, ProviderStatus::Suspended),
            self.admin matches Some(a) ==> (a@ != admin@ ==> is_err(r, ContractError::AdminOnly)),
            self.admin is None ==> is_err(r, ContractError::NotInitialized),
    {
        self.require_admin(admin)?;
        match provider {
            None => Err(ContractError::ProviderNotFound),
            Some(p) => Ok(restatus(p, ProviderStatus::Suspended)),
        }
    }

    /// Reinstates a suspended provider; only the admin may.
    pub fn reinstate(&self, admin: &Addr, provider: Option<Provider>) -> (r: Result<Provider, ContractError>)
        ensures
            self.admin is None ==> is_err(r, ContractError::NotInitialized),
            self.admin matches Some(a) ==> (a@ != admin@ ==> is_err(r, ContractError::AdminOnly)),
            (self.admin matches Some(a) && a@ == admin@) ==> (provider is None <==> is_err(r, ContractError::ProviderNotFound)),
            (self.admin matches Some(a) && a@ == admin@ && (provider matches Some(p) && p.status != ProviderStatus::Suspended))
                ==> is_err(r, ContractError::ProviderNotSuspended),
            r is Ok <==> (self.admin matches Some(a) && a@ == admin@) && (provider matches Some(p) && p.status == ProviderStatus::Suspended),
            r matches Ok(q) ==> with_status(provider.unwrap(), q, ProviderStatus::Active),
    {
        self.require_admin(admin)?;
        match provider {
            None => Err(ContractError::ProviderNotFound),
            Some(p) => {
                if p.status != ProviderStatus::Suspended {
                    return Err(ContractError::ProviderNotSuspended);
                }
                Ok(restatus(p, ProviderStatus::Active))
            },
        }
    }

    /// Deregisters a provider; its owner or the admin may. The owner can then register again.
    pub fn deregister(&self, caller: &Addr, provider: Option<Provider>) -> (r: Result<Provider, ContractError>)
        ensures
            provider is None ==> is_err(r, ContractError::ProviderNotFound),
            (provider is Some && self.admin is None) ==> is_err(r, ContractError::NotInitialized),
            provider matches Some(p) ==> (self.admin matches Some(a) ==> (
                (caller@ == p.owner@ || caller@ == a@) <==> r is Ok)),
            provider matches Some(p) ==> (self.admin matches Some(a) ==> (
                (caller@ != p.owner@ && caller@ != a@) ==> is_err(r, ContractError::Unauthorized))),
            r matches Ok(q) ==> with_status(provider.unwrap(), q, ProviderStatus::Deregistered),
    {
        let p = match provider {
            None => return Err(ContractError::ProviderNotFound),
            Some(p) => p,
        };
        let admin = match &self.admin {
            None => return Err(ContractError::NotInitialized),
            Some(a) => a,
        };
        if !addr_eq(caller, &p.owner) && !addr_eq(caller, admin) {
            return Err(ContractError::Unauthorized);
        }
        Ok(restatus(p, ProviderStatus::Deregistered))
    }

    /// Changes the registration fee; only the admin may, and it must not be negative.
    pub fn set_registration_fee(&mut self, admin: &Addr, new_fee: i128) -> (r: Result<(), ContractError>)
        ensures
            old(self).admin is None ==> is_err(r, ContractError::NotInitialized),
            old(self).admin matches Some(a) ==> (a@ != admin@ ==> is_err(r, ContractError::AdminOnly)),
            (old(self).admin matches Some(a) && a@ == admin@) ==> (new_fee < 0 <==> is_err(r, ContractError::RegistrationFeeNegative)),
            ((old(self).admin matches Some(a) && a@ == admin@) && new_fee >= 0) <==> r is Ok,
            r is Ok ==> final(self).registration_fee == new_fee,
            r is Err ==> final(self).registration_fee == old(self).registration_fee,
            opt_view(final(self).admin) == opt_view(old(self).admin),
            final(self).next_provider_id == old(self).next_provider_id,
    {
        self.require_admin(admin)?;
        if new_fee < 0 {
            return Err(ContractError::RegistrationFeeNegative);
        }
        self.registration_fee = new_fee;
        Ok(())
    }
}

/// Changes a provider's endpoint and fee (its owner authorises). The fee must not be
/// negative.
pub fn update(provider: Option<Provider>, endpoint: String, fee_per_call: i128) -> (r: Result<Provider, ContractError>)
    ensures
        provider is None ==> is_err(r, ContractError::ProviderNotFound),
        (provider is Some && fee_per_call < 0) ==> is_err(r, ContractError::FeePerCallNegative),
        (provider is Some && fee_per_call >= 0) <==> r is Ok,
        r matches Ok(q) ==> {
            let p = provider.unwrap();
            &&& same_provider(p, q)
            &&& q.endpoint@ == endpoint@
            &&& q.fee_per_call == fee_per_call
            &&& q.status == p.status
            &&& q.total_calls == p.total_calls
            &&& q.rating_score == p.rating_score
            &&& q.rating_count == p.rating_count
        },
{
    let p = match provider {
        None => return Err(ContractError::ProviderNotFound),
        Some(p) => p,
    };
    if fee_per_call < 0 {
        return Err(ContractError::FeePerCallNegative);
    }
    Ok(Provider {
        owner: p.owner,
        name: p.name,
        endpoint,
        fee_per_call,
        status: p.status,
        registered_at: p.registered_at,
        total_calls: p.total_calls,
        rating_score: p.rating_score,
        rating_count: p.rating_count,
    })
}

/// Counts one call of an active provider.
pub fn record_call(provider: Option<Provider>) -> (r: Result<Provider, ContractError>)
    ensures
        provider is None ==> is_err(r, ContractError::ProviderNotFound),
        provider matches Some(p) ==> {
            &&& p.status != ProviderStatus::Active ==> is_err(r, ContractError::ProviderNotActive)
            &&& (p.status == ProviderStatus::Active && p.total_calls < u64::MAX) <==> r is Ok
            &&& r matches Ok(q) ==> same_provider(p, q) && q.total_calls == p.total_calls + 1
                && q.endpoint@ == p.endpoint@ && q.fee_per_call == p.fee_per_call && q.status == p.status
                && q.rating_score == p.rating_score && q.rating_count == p.rating_count
        },
{
    let p = match provider {
        None => return Err(ContractError::ProviderNotFound),
        Some(p) => p,
    };
    if p.status != ProviderStatus::Active {
        return Err(ContractError::ProviderNotActive);
    }
    if p.total_calls == u64::MAX {
        return Err(ContractError::Overflow);
    }
    Ok(Provider {
        owner: p.owner,
        name: p.name,
        endpoint: p.endpoint,
        fee_per_call: p.fee_per_call,
        status: p.status,
        registered_at: p.registered_at,
        total_calls: p.total_calls + 1,
        rating_score: p.rating_score,
        rating_count: p.rating_count,
    })
}

/// Adds a rating of 1 to 5 to an active provider.
pub fn rate(provider: Option<Provider>, score: u32) -> (r: Result<Provider, ContractError>)
    ensures
        (score < 1 || score > 5) ==> is_err(r, ContractError::ScoreOutOfRange),
        (1 <= score <= 5 && provider is None) ==> is_err(r, ContractError::ProviderNotFound),
        provider matches Some(p) ==> {
            &&& (1 <= score <= 5 && p.status != ProviderStatus::Active) ==> is_err(r, ContractError::ProviderNotActive)
            &&& (1 <= score <= 5 && p.status == ProviderStatus::Active && fits_u64(p.rating_score + score)
                && p.rating_count < u64::MAX) <==> r is Ok
            &&& r matches Ok(q) ==> same_provider(p, q) && q.rating_score == p.rating_score + score
                && q.rating_count == p.rating_count + 1 && q.total_calls == p.total_calls && q.status == p.status
                && q.endpoint@ == p.endpoint@ && q.fee_per_call == p.fee_per_call
                && (ratings_consistent(p) ==> ratings_consistent(q))
        },
{
    if score < 1 || score > 5 {
        return Err(ContractError::ScoreOutOfRange);
    }
    let p = match provider {
        None => return Err(ContractError::ProviderNotFound),
        Some(p) => p,
    };
    if p.status != ProviderStatus::Active {
        return Err(ContractError::ProviderNotActive);
    }
    let rating_score = match p.rating_score.checked_add(score as u64) {
        Some(v) => v,
        None => return Err(ContractError::Overflow),
    };
    if p.rating_count == u64::MAX {
        return Err(ContractError::Overflow);
    }
    Ok(Provider {
        owner: p.owner,
        name: p.name,
        endpoint: p.endpoint,
        fee_per_call: p.fee_per_call,
        status: p.status,
        registered_at: p.registered_at,
        total_calls: p.total_calls,
        rating_score,
        rating_count: p.rating_count + 1,
    })
}

/// A stored provider.
pub fn get_provider(provider: Option<Provider>) -> (r: Result<Provider, ContractError>)
    ensures
        provider is None ==> is_err(r, ContractError::ProviderNotFound),
        provider matches Some(p) ==> (r matches Ok(x) && x == p),
{
    match provider {
        Some(p) => Ok(p),
        None => Err(ContractError::ProviderNotFound),
    }
}

/// Average rating of a provider scaled by 100 (450 = 4.50); 0 without ratings.
pub fn get_avg_rating(provider: Option<Provider>) -> (r: Result<u64, ContractError>)
    ensures
        provider is None ==> is_err(r, ContractError::ProviderNotFound),
        provider matches Some(p) ==> ((fits_u64(p.rating_score * 100) || p.rating_count == 0) <==> r is Ok),
        r matches Ok(v) ==> v == avg_rating_spec(provider.unwrap().rating_score as int, provider.unwrap().rating_count as int),
{
    let p = match provider {
        None => return Err(ContractError::ProviderNotFound),
        Some(p) => p,
    };
    if p.rating_count == 0 {
        return Ok(0);
    }
    match p.rating_score.checked_mul(100) {
        Some(v) => Ok(v / p.rating_count),
        None => Err(ContractError::Overflow),
    }
}

// ── Laws ────────────────────────────────────────────────────────────────────

/// With every rating between 1 and 5, the average rating (scaled by 100) lies between 100
/// and 500.
pub proof fn lemma_avg_rating_bounded(score: int, count: int)
    requires
        count > 0,
        count <= score <= 5 * count,
    ensures
        100 <= avg_rating_spec(score, count) <= 500,
{
    assert(100 * count <= score * 100 <= 500 * count) by (nonlinear_arith) requires count <= score <= 5 * count;
    assert(100 <= (score * 100) / count <= 500) by (nonlinear_arith)
        requires 100 * count <= score * 100 <= 500 * count, count > 0;
}

} // verus!
