//! Developer royalty registry: services with fees split in basis points between addresses
//! and other services; settlement pays the splits recursively, down to a bounded depth.
use vstd::prelude::*;

use crate::addr::{opt_view, Addr};
use crate::error::{is_err, ContractError};
use crate::math::{c_mul, checked_i128, div_trunc, fits_i128};

verus! {

/// Deepest nesting of services a settlement follows.
pub const MAX_RECURSION_DEPTH: u32 = 5;

/// Who receives a split: an address, or another service whose own splits apply.
pub enum Recipient {
    Address(Addr),
    Service(u64),
}

/// A share of a payment, in basis points.
pub struct RoyaltySplit {
    pub recipient: Recipient,
    pub bps: u32,
}

/// A registered service.
pub struct Service {
    pub id: u64,
    pub owner: Addr,
    /// Fee per execution.
    pub fee: i128,
    pub splits: Vec<RoyaltySplit>,
}

/// A payment a settlement makes: `amount` to `to`, as a split of service `service_id`.
pub struct Payout {
    pub to: Addr,
    pub amount: i128,
    pub service_id: u64,
}

/// The registry's instance state.
pub struct DeveloperRoyaltyRegistry {
    pub admin: Option<Addr>,
    pub settler: Option<Addr>,
    pub token: Option<Addr>,
    pub next_service_id: u64,
}

// ── Mathematical model ──────────────────────────────────────────────────────

/// Sum of the rates of the first `n` splits.
pub open spec fn bps_sum(splits: Seq<RoyaltySplit>, n: int) -> int
    decreases n,
{
    if n <= 0 { 0 } else { bps_sum(splits, n - 1) + splits[n - 1].bps }
}

/// The first service with the given identifier among the first `n` of the table.
pub open spec fn find_service(table: Seq<Service>, id: u64, n: int) -> Option<Service>
    decreases n,
{
    if n <= 0 {
        None
    } else {
        match find_service(table, id, n - 1) {
            Some(s) => Some(s),
            None => if table[n - 1].id == id { Some(table[n - 1]) } else { None },
        }
    }
}

/// A payout as a value: recipient, amount, paying service.
pub open spec fn payout_view(p: Payout) -> (Seq<u8>, i128, u64) {
    (p.to@, p.amount, p.service_id)
}

/// The payouts of distributing `amount` through service `id` at nesting `depth`.
pub open spec fn distribute_spec(table: Seq<Service>, amount: int, id: u64, depth: int) -> Result<Seq<(Seq<u8>, i128, u64)>, ContractError>
    decreases 6 - depth, 1int, 0int,
{
    if depth > MAX_RECURSION_DEPTH || depth < 0 {
        Err(ContractError::MaxRecursionDepth)
    } else {
        match find_service(table, id, table.len() as int) {
            None => Err(ContractError::SubServiceNotFound),
            Some(s) => splits_spec(table, amount, id, depth, s.splits@, s.splits@.len() as int),
        }
    }
}

/// The payouts of the first `k` splits of service `id`, each on its share of `amount`.
pub open spec fn splits_spec(table: Seq<Service>, amount: int, id: u64, depth: int, splits: Seq<RoyaltySplit>, k: int)
    -> Result<Seq<(Seq<u8>, i128, u64)>, ContractError>
    decreases 6 - depth, 0int, k,
{
    if k <= 0 || depth > MAX_RECURSION_DEPTH || depth < 0 {
        Ok(Seq::empty())
    } else {
        match splits_spec(table, amount, id, depth, splits, k - 1) {
            Err(e) => Err(e),
            Ok(prev) => {
                let split = splits[k - 1];
                match checked_i128(amount * split.bps) {
                    Err(e) => Err(e),
                    Ok(scaled) => {
                        let share = div_trunc(scaled as int, 10000);
                        if share == 0 {
                            Ok(prev)
                        } else {
                            match split.recipient {
                                Recipient::Address(a) => Ok(prev.push((a@, share as i128, id))),
                                Recipient::Service(sub) => match distribute_spec(table, share, sub, depth + 1) {
                                    Err(e) => Err(e),
                                    Ok(more) => Ok(prev + more),
                                },
                            }
                        }
                    },
                }
            },
        }
    }
}

// ── Executable functions ────────────────────────────────────────────────────

/// Checks the splits: not empty and summing to exactly 10_000 bps.
pub fn validate_splits(splits: &Vec<RoyaltySplit>) -> (r: Result<(), ContractError>)
    ensures
        splits@.len() == 0 ==> is_err(r, ContractError::SplitsEmpty),
        r is Ok <==> (splits@.len() > 0 && bps_sum(splits@, splits@.len() as int) == 10000),
        (splits@.len() > 0 && bps_sum(splits@, splits@.len() as int) != 10000 && bps_sum(splits@, splits@.len() as int) <= u32::MAX)
            ==> is_err(r, ContractError::SplitsMustSumTo10000),
{
    if splits.len() == 0 {
        return Err(ContractError::SplitsEmpty);
    }
    let mut total_bps: u32 = 0;
    let n = splits.len();
    let mut i: usize = 0;
    while i < n
        invariant
            i <= n,
            n == splits@.len(),
            total_bps == bps_sum(splits@, i as int),
        decreases n - i,
    {
        total_bps = match total_bps.checked_add(splits[i].bps) {
            Some(v) => v,
            None => {
                proof { lemma_bps_sum_monotone(splits@, i + 1, n as int); }
                return Err(ContractError::Overflow);
            },
        };
        i += 1;
    }
    if total_bps != 10000 {
        return Err(ContractError::SplitsMustSumTo10000);
    }
    Ok(())
}

proof fn lemma_bps_sum_monotone(splits: Seq<RoyaltySplit>, a: int, b: int)
    requires
        0 <= a <= b <= splits.len(),
    ensures
        bps_sum(splits, a) <= bps_sum(splits, b),
    decreases b - a,
{
    if b > a {
        lemma_bps_sum_monotone(splits, a, b - 1);
    }
}

/// The first service of the table with the given identifier.
fn lookup(table: &Vec<Service>, id: u64) -> (r: Option<&Service>)
    ensures
        match r { Some(s) => find_service(table@, id, table@.len() as int) == Some(*s), None => find_service(table@, id, table@.len() as int) is None },
{
    let n = table.len();
    let mut i: usize = 0;
    while i < n
        invariant
            i <= n,
            n == table@.len(),
            find_service(table@, id, i as int) is None,
        decreases n - i,
    {
        if table[i].id == id {
            proof { lemma_find_stays(table@, id, i + 1, n as int); }
            return Some(&table[i]);
        }
        i += 1;
    }
    None
}

proof fn lemma_find_stays(table: Seq<Service>, id: u64, a: int, b: int)
    requires
        0 <= a <= b <= table.len(),
        find_service(table, id, a) is Some,
    ensures
        find_service(table, id, b) == find_service(table, id, a),
    decreases b - a,
{
    if b > a {
        lemma_find_stays(table, id, a, b - 1);
    }
}

/// Pays `amount` out through service `service_id` at nesting `depth`, following its splits
/// in order: each split gets amount · bps / 10_000 (nothing when that is 0), directly for an
/// address and recursively for a service. `table` holds the services it may reach.
pub fn distribute(table: &Vec<Service>, amount: i128, service_id: u64, depth: u32) -> (r: Result<Vec<Payout>, ContractError>)
    ensures
        match r {
            Ok(v) => distribute_spec(table@, amount as int, service_id, depth as int) == Ok::<Seq<(Seq<u8>, i128, u64)>, ContractError>(v@.map_values(|p: Payout| payout_view(p))),
            Err(e) => distribute_spec(table@, amount as int, service_id, depth as int) == Err::<Seq<(Seq<u8>, i128, u64)>, ContractError>(e),
        },
    decreases 6 - depth, 1int, 0int,
{
    if depth > MAX_RECURSION_DEPTH {
        return Err(ContractError::MaxRecursionDepth);
    }
    let service = match lookup(table, service_id) {
        None => return Err(ContractError::SubServiceNotFound),
        Some(s) => s,
    };
    distribute_splits(table, amount, service_id, depth, &service.splits)
}

fn distribute_splits(table: &Vec<Service>, amount: i128, service_id: u64, depth: u32, splits: &Vec<RoyaltySplit>) -> (r: Result<Vec<Payout>, ContractError>)
    requires
        depth <= MAX_RECURSION_DEPTH,
    ensures
        match r {
            Ok(v) => splits_spec(table@, amount as int, service_id, depth as int, splits@, splits@.len() as int)
                == Ok::<Seq<(Seq<u8>, i128, u64)>, ContractError>(v@.map_values(|p: Payout| payout_view(p))),
            Err(e) => splits_spec(table@, amount as int, service_id, depth as int, splits@, splits@.len() as int)
                == Err::<Seq<(Seq<u8>, i128, u64)>, ContractError>(e),
        },
    decreases 6 - depth, 0int, splits@.len(),
{
    let mut out: Vec<Payout> = Vec::new();
    let n = splits.len();
    let mut k: usize = 0;
    assert(out@.map_values(|p: Payout| payout_view(p)) =~= Seq::<(Seq<u8>, i128, u64)>::empty());
    while k < n
        invariant
            k <= n,
            n == splits@.len(),
            depth <= MAX_RECURSION_DEPTH,
            splits_spec(table@, amount as int, service_id, depth as int, splits@, k as int)
                == Ok::<Seq<(Seq<u8>, i128, u64)>, ContractError>(out@.map_values(|p: Payout| payout_view(p))),
        decreases n - k,
    {
        let split = &splits[k];
        let scaled = match c_mul(amount, split.bps as i128) {
            Ok(v) => v,
            Err(e) => {
                proof { lemma_splits_err_stays(table@, amount as int, service_id, depth as int, splits@, k + 1, n as int); }
                return Err(e);
            },
        };
        let share = scaled / 10000;
        assert(share == div_trunc(scaled as int, 10000)) by {
            if scaled >= 0 {
                assert(share == (scaled as int) / 10000);
            } else {
                assert(share == -((-(scaled as int)) / 10000));
            }
        }
        if share != 0 {
            match &split.recipient {
                Recipient::Address(a) => {
                    let ghost before = out@;
                    out.push(Payout { to: a.duplicate(), amount: share, service_id });
                    proof {
                        assert(out@.map_values(|p: Payout| payout_view(p))
                            =~= before.map_values(|p: Payout| payout_view(p)).push((a@, share, service_id)));
                    }
                },
                Recipient::Service(sub) => {
                    let more = match distribute(table, share, *sub, depth + 1) {
                        Ok(v) => v,
                        Err(e) => {
                            proof { lemma_splits_err_stays(table@, amount as int, service_id, depth as int, splits@, k + 1, n as int); }
                            return Err(e);
                        },
                    };
                    let ghost before = out@;
                    let mut j: usize = 0;
                    while j < more.len()
                        invariant
                            j <= more@.len(),
                            out@.len() == before.len() + j,
                            out@.map_values(|p: Payout| payout_view(p))
                                =~= before.map_values(|p: Payout| payout_view(p)) + more@.subrange(0, j as int).map_values(|p: Payout| payout_view(p)),
                        decreases more@.len() - j,
                    {
                        let x = &more[j];
                        let ghost prev_out = out@;
                        out.push(Payout { to: x.to.duplicate(), amount: x.amount, service_id: x.service_id });
                        proof {
                            assert(out@.map_values(|p: Payout| payout_view(p))
                                =~= prev_out.map_values(|p: Payout| payout_view(p)).push(payout_view(more@[j as int])));
                            assert(more@.subrange(0, j + 1).map_values(|p: Payout| payout_view(p))
                                =~= more@.subrange(0, j as int).map_values(|p: Payout| payout_view(p)).push(payout_view(more@[j as int])));
                        }
                        j += 1;
                    }
                    proof {
                        assert(more@.subrange(0, more@.len() as int) =~= more@);
                    }
                },
            }
        }
        k += 1;
    }
    out_ok(out)
}

fn out_ok(out: Vec<Payout>) -> (r: Result<Vec<Payout>, ContractError>)
    ensures
        r == Ok::<Vec<Payout>, ContractError>(out),
{
    Ok(out)
}

proof fn lemma_splits_err_stays(table: Seq<Service>, amount: int, id: u64, depth: int, splits: Seq<RoyaltySplit>, a: int, b: int)
    requires
        1 <= a <= b,
        0 <= depth <= MAX_RECURSION_DEPTH,
        splits_spec(table, amount, id, depth, splits, a) is Err,
    ensures
        splits_spec(table, amount, id, depth, splits, b) == splits_spec(table, amount, id, depth, splits, a),
    decreases b - a,
{
    if b > a {
        lemma_splits_err_stays(table, amount, id, depth, splits, a, b - 1);
    }
}

impl DeveloperRoyaltyRegistry {
    /// A registry that was never initialized.
    pub fn new() -> (r: DeveloperRoyaltyRegistry)
        ensures
            r.admin is None,
            r.settler is None,
            r.token is None,
            r.next_service_id == 0,
    {
        DeveloperRoyaltyRegistry { admin: None, settler: None, token: None, next_service_id: 0 }
    }

    /// One-time setup; service identifiers start at 1.
    pub fn initialize(&mut self, admin: Addr, settler: Addr, token: Addr) -> (r: Result<(), ContractError>)
        ensures
            old(self).admin is Some <==> is_err(r, ContractError::AlreadyInitialized),
            r is Ok ==> opt_view(final(self).admin) == Some(admin@) && opt_view(final(self).settler) == Some(settler@)
                && opt_view(final(self).token) == Some(token@) && final(self).next_service_id == 1,
            r is Err ==> final(self).next_service_id == old(self).next_service_id
                && opt_view(final(self).admin) == opt_view(old(self).admin),
    {
        if self.admin.is_some() {
            return Err(ContractError::AlreadyInitialized);
        }
        self.admin = Some(admin);
        self.settler = Some(settler);
        self.token = Some(token);
        self.next_service_id = 1;
        Ok(())
    }

    /// Registers a service with a non-negative fee and valid splits under the next identifier.
    pub fn register_service(&mut self, owner: Addr, fee: i128, splits: Vec<RoyaltySplit>) -> (r: Result<Service, ContractError>)
        ensures
            fee < 0 ==> is_err(r, ContractError::FeeNegative),
            (fee >= 0 && splits@.len() == 0) ==> is_err(r, ContractError::SplitsEmpty),
            (fee >= 0 && splits@.len() > 0 && bps_sum(splits@, splits@.len() as int) == 10000 && old(self).admin is None)
                ==> is_err(r, ContractError::NotInitialized),
            (fee >= 0 && splits@.len() > 0 && bps_sum(splits@, splits@.len() as int) == 10000 && old(self).admin is Some
                && old(self).next_service_id < u64::MAX) <==> r is Ok,
            r matches Ok(s) ==> s.id == old(self).next_service_id && final(self).next_service_id == s.id + 1
                && s.owner@ == owner@ && s.fee == fee && s.splits@ == splits@,
            r is Err ==> final(self).next_service_id == old(self).next_service_id,
            opt_view(final(self).admin) == opt_view(old(self).admin),
            opt_view(final(self).settler) == opt_view(old(self).settler),
    {
        if fee < 0 {
            return Err(ContractError::FeeNegative);
        }
        validate_splits(&splits)?;
        if self.admin.is_none() {
            return Err(ContractError::NotInitialized);
        }
        if self.next_service_id == u64::MAX {
            return Err(ContractError::Overflow);
        }
        let id = self.next_service_id;
        self.next_service_id = id + 1;
        Ok(Service { id, owner, fee, splits })
    }

    /// Settles `executions` runs of a service (the settler authorises): fee × executions is
    /// distributed through its splits. Nothing happens for zero executions.
    pub fn settle_royalty(&self, service: Option<Service>, executions: u32, table: &Vec<Service>) -> (r: Result<Option<(i128, Vec<Payout>)>, ContractError>)
        ensures
            self.settler is None ==> is_err(r, ContractError::NotInitialized),
            (self.settler is Some && service is None) ==> is_err(r, ContractError::ServiceNotFound),
            service matches Some(s) ==> {
                &&& (self.settler is Some && executions == 0) ==> (r matches Ok(None))
                &&& r matches Ok(Some((total, payouts))) ==> {
                    &&& executions > 0
                    &&& total == s.fee * executions
                    &&& distribute_spec(table@, total as int, s.id, 0) == Ok::<Seq<(Seq<u8>, i128, u64)>, ContractError>(
                        payouts@.map_values(|p: Payout| payout_view(p)))
                }
                &&& (self.settler is Some && executions > 0 && fits_i128(s.fee * executions) && self.token is Some)
                    ==> (r is Ok <==> distribute_spec(table@, (s.fee * executions) as int, s.id, 0) is Ok)
                &&& (self.settler is Some && executions > 0 && fits_i128(s.fee * executions) && self.token is Some)
                    ==> (distribute_spec(table@, (s.fee * executions) as int, s.id, 0) matches Err(e) ==> is_err(r, e))
                &&& (self.settler is Some && executions > 0 && !fits_i128(s.fee * executions))
                    ==> is_err(r, ContractError::Overflow)
                &&& (self.settler is Some && executions > 0 && fits_i128(s.fee * executions) && self.token is None)
                    ==> is_err(r, ContractError::NotInitialized)
            },
    {
        if self.settler.is_none() {
            return Err(ContractError::NotInitialized);
        }
        let s = match service {
            None => return Err(ContractError::ServiceNotFound),
            Some(s) => s,
        };
        if executions == 0 {
            return Ok(None);
        }
        let total_amount = c_mul(s.fee, executions as i128)?;
        if self.token.is_none() {
            return Err(ContractError::NotInitialized);
        }
        let payouts = distribute(table, total_amount, s.id, 0)?;
        Ok(Some((total_amount, payouts)))
    }
}

/// Replaces a service's fee and splits (its owner authorises).
pub fn update_service(service: Option<Service>, fee: i128, splits: Vec<RoyaltySplit>) -> (r: Result<Service, ContractError>)
    ensures
        service is None ==> is_err(r, ContractError::ServiceNotFound),
        (service is Some && fee < 0) ==> is_err(r, ContractError::FeeNegative),
        (service is Some && fee >= 0 && splits@.len() == 0) ==> is_err(r, ContractError::SplitsEmpty),
        (service is Some && fee >= 0 && splits@.len() > 0 && bps_sum(splits@, splits@.len() as int) == 10000) <==> r is Ok,
        r matches Ok(n) ==> (service matches Some(s) && n.id == s.id && n.owner@ == s.owner@) && n.fee == fee && n.splits@ == splits@,
{
    let s = match service {
        None => return Err(ContractError::ServiceNotFound),
        Some(s) => s,
    };
    if fee < 0 {
        return Err(ContractError::FeeNegative);
    }
    validate_splits(&splits)?;
    Ok(Service { id: s.id, owner: s.owner, fee, splits })
}

/// A stored service.
pub fn get_service(service: Option<Service>) -> (r: Result<Service, ContractError>)
    ensures
        service is None ==> is_err(r, ContractError::ServiceNotFound),
        service matches Some(s) ==> (r matches Ok(x) && x == s),
{
    match service {
        Some(s) => Ok(s),
        None => Err(ContractError::ServiceNotFound),
    }
}

// ── Laws ────────────────────────────────────────────────────────────────────

/// Every service of the table splits at most 100%.
pub open spec fn table_valid(table: Seq<Service>) -> bool {
    forall|i: int| 0 <= i < table.len() ==> bps_sum(#[trigger] table[i].splits@, table[i].splits@.len() as int) <= 10000
}

/// Total amount of a list of payouts.
pub open spec fn payout_total(s: Seq<(Seq<u8>, i128, u64)>) -> int
    decreases s.len(),
{
    if s.len() == 0 { 0 } else { payout_total(s.drop_last()) + s.last().1 }
}

/// Sum of the shares of `amount` for the first `k` splits.
pub open spec fn shares_sum(amount: int, splits: Seq<RoyaltySplit>, k: int) -> int
    decreases k,
{
    if k <= 0 { 0 } else { shares_sum(amount, splits, k - 1) + (amount * splits[k - 1].bps) / 10000 }
}

proof fn lemma_total_concat(a: Seq<(Seq<u8>, i128, u64)>, b: Seq<(Seq<u8>, i128, u64)>)
    ensures
        payout_total(a + b) == payout_total(a) + payout_total(b),
    decreases b.len(),
{
    if b.len() > 0 {
        assert((a + b).drop_last() =~= a + b.drop_last());
        lemma_total_concat(a, b.drop_last());
    } else {
        assert(a + b =~= a);
    }
}

proof fn lemma_find_in_table(table: Seq<Service>, id: u64, n: int)
    requires
        0 <= n <= table.len(),
    ensures
        find_service(table, id, n) matches Some(s) ==> exists|i: int| 0 <= i < table.len() && table[i] == s,
    decreases n,
{
    if n > 0 {
        lemma_find_in_table(table, id, n - 1);
    }
}

proof fn lemma_shares_sum_bound(amount: int, splits: Seq<RoyaltySplit>, k: int)
    requires
        amount >= 0,
        0 <= k <= splits.len(),
    ensures
        0 <= shares_sum(amount, splits, k) <= (amount * bps_sum(splits, k)) / 10000,
        bps_sum(splits, k) >= 0,
    decreases k,
{
    if k > 0 {
        lemma_shares_sum_bound(amount, splits, k - 1);
        let b = bps_sum(splits, k - 1);
        let x = splits[k - 1].bps as int;
        assert(amount * b >= 0 && amount * x >= 0) by (nonlinear_arith) requires amount >= 0, b >= 0, x >= 0;
        assert((amount * b) / 10000 + (amount * x) / 10000 <= (amount * b + amount * x) / 10000) by (nonlinear_arith)
            requires amount * b >= 0, amount * x >= 0;
        assert(amount * b + amount * x == amount * (b + x)) by (nonlinear_arith);
        assert((amount * x) / 10000 >= 0) by (nonlinear_arith) requires amount * x >= 0;
    }
}

proof fn lemma_distribute_bounded(table: Seq<Service>, amount: int, id: u64, depth: int)
    requires
        amount >= 0,
        table_valid(table),
    ensures
        distribute_spec(table, amount, id, depth) matches Ok(p) ==> 0 <= payout_total(p) <= amount,
    decreases 6 - depth, 1int, 0int,
{
    if 0 <= depth <= MAX_RECURSION_DEPTH {
        lemma_find_in_table(table, id, table.len() as int);
        if let Some(s) = find_service(table, id, table.len() as int) {
            let i = choose|i: int| 0 <= i < table.len() && table[i] == s;
            assert(bps_sum(table[i].splits@, table[i].splits@.len() as int) <= 10000);
            let n = s.splits@.len() as int;
            lemma_splits_bounded(table, amount, id, depth, s.splits@, n);
            lemma_shares_sum_bound(amount, s.splits@, n);
            let b = bps_sum(s.splits@, n);
            assert((amount * b) / 10000 <= amount) by (nonlinear_arith) requires 0 <= b <= 10000, amount >= 0;
        }
    }
}

proof fn lemma_splits_bounded(table: Seq<Service>, amount: int, id: u64, depth: int, splits: Seq<RoyaltySplit>, k: int)
    requires
        amount >= 0,
        table_valid(table),
        0 <= k <= splits.len(),
    ensures
        splits_spec(table, amount, id, depth, splits, k) matches Ok(p) ==> 0 <= payout_total(p) <= shares_sum(amount, splits, k),
    decreases 6 - depth, 0int, k,
{
    lemma_shares_sum_bound(amount, splits, k);
    if k > 0 && 0 <= depth <= MAX_RECURSION_DEPTH {
        lemma_splits_bounded(table, amount, id, depth, splits, k - 1);
        lemma_shares_sum_bound(amount, splits, k - 1);
        let split = splits[k - 1];
        let x = split.bps as int;
        assert(amount * x >= 0) by (nonlinear_arith) requires amount >= 0, x >= 0;
        if let Ok(prev) = splits_spec(table, amount, id, depth, splits, k - 1) {
            if fits_i128(amount * x) {
                let share = div_trunc(amount * x, 10000);
                assert(share == (amount * x) / 10000);
                assert(share >= 0) by (nonlinear_arith) requires share == (amount * x) / 10000, amount * x >= 0;
                if share != 0 {
                    match split.recipient {
                        Recipient::Address(a) => {
                            assert(prev.push((a@, share as i128, id)).drop_last() =~= prev);
                        },
                        Recipient::Service(sub) => {
                            lemma_distribute_bounded(table, share, sub, depth + 1);
                            if let Ok(more) = distribute_spec(table, share, sub, depth + 1) {
                                lemma_total_concat(prev, more);
                            }
                        },
                    }
                }
            }
        }
    }
}

/// A settlement never pays out more than it distributes: when every service splits at most
/// 100%, the payouts of distributing a non-negative amount add up to between 0 and the amount.
pub proof fn lemma_settlement_within_amount(table: Seq<Service>, amount: int, id: u64)
    requires
        amount >= 0,
        table_valid(table),
    ensures
        distribute_spec(table, amount, id, 0) matches Ok(p) ==> 0 <= payout_total(p) <= amount,
{
    lemma_distribute_bounded(table, amount, id, 0);
}

} // verus!
