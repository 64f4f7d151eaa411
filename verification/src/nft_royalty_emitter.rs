//! Royalty splits per NFT collection: the admin configures recipients in basis points (at
//! most 100% in total) and a sale settles each recipient's share.
use vstd::prelude::*;

use crate::addr::{addr_eq, opt_view, Addr};
use crate::error::{is_err, ContractError};
use crate::math::{c_div, c_mul, div_trunc, fits_i128};

verus! {

/// A royalty recipient and its share in basis points.
pub struct RoyaltyRecipient {
    pub address: Addr,
    pub bps: u32,
}

/// A royalty payment of a settlement.
pub struct RoyaltyPayout {
    pub to: Addr,
    pub amount: i128,
}

/// The emitter's instance state.
pub struct NFTRoyaltyEmitter {
    pub admin: Option<Addr>,
}

// ── Mathematical model ──────────────────────────────────────────────────────

/// Sum of the shares of the first `n` recipients.
pub open spec fn total_bps(r: Seq<RoyaltyRecipient>, n: int) -> int
    decreases n,
{
    if n <= 0 { 0 } else { total_bps(r, n - 1) + r[n - 1].bps }
}

/// A recipient's share of `amount`.
pub open spec fn share_spec(amount: int, bps: int) -> int {
    div_trunc(amount * bps, 10000)
}

/// The payouts of settling `amount` over the first `n` recipients: each positive share, in
/// order.
pub open spec fn payouts_spec(amount: int, r: Seq<RoyaltyRecipient>, n: int) -> Seq<(Seq<u8>, int)>
    decreases n,
{
    if n <= 0 {
        Seq::empty()
    } else {
        let prev = payouts_spec(amount, r, n - 1);
        let s = share_spec(amount, r[n - 1].bps as int);
        if s > 0 { prev.push((r[n - 1].address@, s)) } else { prev }
    }
}

/// Sum of the amounts of a list of payouts.
pub open spec fn payout_sum(p: Seq<(Seq<u8>, int)>) -> int
    decreases p.len(),
{
    if p.len() == 0 { 0 } else { payout_sum(p.drop_last()) + p.last().1 }
}

/// The views of a list of payouts.
pub open spec fn payout_views(p: Seq<RoyaltyPayout>) -> Seq<(Seq<u8>, int)> {
    p.map_values(|x: RoyaltyPayout| (x.to@, x.amount as int))
}

// ── Executable functions ────────────────────────────────────────────────────

impl NFTRoyaltyEmitter {
    /// An emitter that was never initialized.
    pub fn new() -> (r: NFTRoyaltyEmitter)
        ensures
            r.admin is None,
    {
        NFTRoyaltyEmitter { admin: None }
    }

    /// Sets the admin, once.
    pub fn initialize(&mut self, admin: Addr) -> (r: Result<(), ContractError>)
        ensures
            old(self).admin is Some <==> is_err(r, ContractError::AlreadyInitialized),
            r is Ok ==> opt_view(final(self).admin) == Some(admin@),
            r is Err ==> opt_view(final(self).admin) == opt_view(old(self).admin),
    {
        if self.admin.is_some() {
            return Err(ContractError::AlreadyInitialized);
        }
        self.admin = Some(admin);
        Ok(())
    }

    /// Checks a collection's royalty configuration; only the admin may set one, and the
    /// shares may add up to at most 10_000 bps.
    pub fn set_config(&self, admin: &Addr, recipients: &Vec<RoyaltyRecipient>) -> (r: Result<(), ContractError>)
        ensures
            self.admin is None ==> is_err(r, ContractError::NotInitialized),
            self.admin matches Some(a) ==> (a@ != admin@ ==> is_err(r, ContractError::Unauthorized)),
            (self.admin matches Some(a) && a@ == admin@) ==> (
                total_bps(recipients@, recipients@.len() as int) <= 10000 <==> r is Ok),
            (self.admin matches Some(a) && a@ == admin@ && 10000 < total_bps(recipients@, recipients@.len() as int) <= u32::MAX)
                ==> is_err(r, ContractError::TotalBpsExceeds10000),
    {
        match &self.admin {
            None => return Err(ContractError::NotInitialized),
            Some(a) => if !addr_eq(a, admin) { return Err(ContractError::Unauthorized); },
        }
        let total = sum_bps(recipients)?;
        if total > 10000 {
            return Err(ContractError::TotalBpsExceeds10000);
        }
        Ok(())
    }
}

/// Sum of the recipients' shares; refused when it leaves the range of `u32`.
fn sum_bps(recipients: &Vec<RoyaltyRecipient>) -> (r: Result<u32, ContractError>)
    ensures
        r matches Ok(t) ==> t == total_bps(recipients@, recipients@.len() as int),
        r is Err ==> total_bps(recipients@, recipients@.len() as int) > u32::MAX && is_err(r, ContractError::Overflow),
{
    let mut total: u32 = 0;
    let n = recipients.len();
    let mut i: usize = 0;
    while i < n
        invariant
            i <= n,
            n == recipients@.len(),
            total == total_bps(recipients@, i as int),
        decreases n - i,
    {
        total = match total.checked_add(recipients[i].bps) {
            Some(v) => v,
            None => {
                proof { lemma_total_bps_monotone(recipients@, i + 1, n as int); }
                return Err(ContractError::Overflow);
            },
        };
        i += 1;
    }
    Ok(total)
}

proof fn lemma_total_bps_monotone(r: Seq<RoyaltyRecipient>, a: int, b: int)
    requires
        0 <= a <= b <= r.len(),
    ensures
        total_bps(r, a) <= total_bps(r, b),
    decreases b - a,
{
    if b > a {
        lemma_total_bps_monotone(r, a, b - 1);
    }
}

/// Settles a sale of `amount` for a collection configured with `recipients`: each
/// recipient's positive share amount · bps / 10_000, in order.
pub fn settle(recipients: Option<Vec<RoyaltyRecipient>>, amount: i128) -> (r: Result<Vec<RoyaltyPayout>, ContractError>)
    ensures
        amount <= 0 ==> is_err(r, ContractError::AmountNotPositive),
        (amount > 0 && recipients is None) ==> is_err(r, ContractError::NoRoyaltyConfig),
        recipients matches Some(rs) ==> (amount > 0 && (forall|i: int| 0 <= i < rs@.len() ==> #[trigger] fits_i128(amount * rs@[i].bps))
            ==> r is Ok),
        r matches Ok(p) ==> payout_views(p@) == payouts_spec(amount as int, recipients.unwrap()@, recipients.unwrap()@.len() as int),
{
    if amount <= 0 {
        return Err(ContractError::AmountNotPositive);
    }
    let rs = match recipients {
        None => return Err(ContractError::NoRoyaltyConfig),
        Some(rs) => rs,
    };
    pay_shares(&rs, amount)
}

fn pay_shares(rs: &Vec<RoyaltyRecipient>, amount: i128) -> (r: Result<Vec<RoyaltyPayout>, ContractError>)
    ensures
        (forall|i: int| 0 <= i < rs@.len() ==> #[trigger] fits_i128(amount * rs@[i].bps)) ==> r is Ok,
        r matches Ok(p) ==> payout_views(p@) == payouts_spec(amount as int, rs@, rs@.len() as int),
{
    let mut out: Vec<RoyaltyPayout> = Vec::new();
    let n = rs.len();
    let mut i: usize = 0;
    while i < n
        invariant
            i <= n,
            n == rs@.len(),
            payout_views(out@) == payouts_spec(amount as int, rs@, i as int),
        decreases n - i,
    {
        let payout = match c_mul(amount, rs[i].bps as i128) {
            Ok(v) => c_div(v, 10000),
            Err(e) => Err(e),
        };
        let payout = match payout {
            Ok(v) => v,
            Err(e) => {
                assert(!fits_i128(amount * rs@[i as int].bps));
                return Err(e);
            },
        };
        if payout > 0 {
            let ghost before = out@;
            out.push(RoyaltyPayout { to: rs[i].address.duplicate(), amount: payout });
            proof {
                assert(payout_views(out@) =~= payout_views(before).push((rs@[i as int].address@, payout as int)));
            }
        }
        i += 1;
    }
    Ok(out)
}

/// A collection's configuration (empty when none is stored).
pub fn get_config(stored: Option<Vec<RoyaltyRecipient>>) -> (r: Vec<RoyaltyRecipient>)
    ensures
        r@ == (match stored { Some(v) => v@, None => Seq::<RoyaltyRecipient>::empty() }),
{
    match stored {
        Some(v) => v,
        None => Vec::new(),
    }
}

/// The contract version (1.0.0).
pub fn version() -> (r: u32)
    ensures
        r == 100,
{
    100
}

// ── Laws ────────────────────────────────────────────────────────────────────

proof fn lemma_payouts_bound(amount: int, r: Seq<RoyaltyRecipient>, n: int)
    requires
        amount > 0,
        0 <= n <= r.len(),
    ensures
        0 <= payout_sum(payouts_spec(amount, r, n)) <= (amount * total_bps(r, n)) / 10000,
        total_bps(r, n) >= 0,
    decreases n,
{
    if n > 0 {
        lemma_payouts_bound(amount, r, n - 1);
        let b = total_bps(r, n - 1);
        let x = r[n - 1].bps as int;
        assert(amount * b >= 0 && amount * x >= 0) by (nonlinear_arith) requires amount > 0, b >= 0, x >= 0;
        assert((amount * b) / 10000 + (amount * x) / 10000 <= (amount * b + amount * x) / 10000) by (nonlinear_arith)
            requires amount * b >= 0, amount * x >= 0;
        assert(amount * b + amount * x == amount * (b + x)) by (nonlinear_arith);
        let prev = payouts_spec(amount, r, n - 1);
        let s = share_spec(amount, x);
        if s > 0 {
            assert(prev.push((r[n - 1].address@, s)).drop_last() =~= prev);
        }
    }
}

/// A settlement never pays out more than the sale: with shares adding up to at most
/// 10_000 bps, the payouts of a positive amount add up to between 0 and the amount.
pub proof fn lemma_settlement_within_sale(amount: int, r: Seq<RoyaltyRecipient>)
    requires
        amount > 0,
        total_bps(r, r.len() as int) <= 10000,
    ensures
        0 <= payout_sum(payouts_spec(amount, r, r.len() as int)) <= amount,
{
    lemma_payouts_bound(amount, r, r.len() as int);
    let b = total_bps(r, r.len() as int);
    assert((amount * b) / 10000 <= amount) by (nonlinear_arith) requires 0 <= b <= 10000, amount > 0;
}

} // verus!
