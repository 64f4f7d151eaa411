//! Oracle price aggregation: authorised oracles report prices, and once enough fresh
//! reports exist their median is the consensus price.
use vstd::prelude::*;

use crate::addr::{addr_eq, addr_in, addr_views, contains_view, Addr};
use crate::error::{is_err, ContractError};

verus! {

broadcast use vstd::seq_lib::group_to_multiset_ensures;

/// An oracle's latest report.
#[derive(Clone, Copy, Debug, PartialEq, Eq, Structural)]
pub struct PriceReport {
    pub price: u128,
    pub timestamp: u64,
}

/// The aggregator's instance state.
pub struct OracleAggregator {
    pub admin: Option<Addr>,
    pub oracles: Vec<Addr>,
    /// Fresh reports needed for consensus.
    pub threshold: u32,
    /// Age, in seconds, after which a report is stale.
    pub max_age: u64,
}

// ── Mathematical model ──────────────────────────────────────────────────────

/// The usual order on prices.
pub open spec fn price_leq() -> spec_fn(u128, u128) -> bool {
    |a: u128, b: u128| a <= b
}

/// The prices in ascending order.
pub open spec fn sorted_prices(prices: Seq<u128>) -> Seq<u128> {
    prices.sort_by(price_leq())
}

/// Median of the prices: the middle one of the sorted prices, or the mean (rounded down)
/// of the two middle ones for an even count.
pub open spec fn median_spec(prices: Seq<u128>) -> int {
    let s = sorted_prices(prices);
    let n = prices.len() as int;
    if n % 2 == 1 { s[n / 2] as int } else { (s[n / 2 - 1] + s[n / 2]) / 2 }
}

/// The prices of the reports still fresh at `now`, in order; `None` when an expiry
/// overflows.
pub open spec fn fresh_prices(reports: Seq<Option<PriceReport>>, max_age: int, now: int, n: int) -> Option<Seq<u128>>
    decreases n,
{
    if n <= 0 {
        Some(Seq::empty())
    } else {
        match fresh_prices(reports, max_age, now, n - 1) {
            None => None,
            Some(prev) => match reports[n - 1] {
                None => Some(prev),
                Some(r) => if r.timestamp + max_age > u64::MAX {
                    None
                } else if now <= r.timestamp + max_age {
                    Some(prev.push(r.price))
                } else {
                    Some(prev)
                },
            },
        }
    }
}

// ── Executable functions ────────────────────────────────────────────────────

proof fn lemma_price_leq_total()
    ensures
        vstd::relations::total_ordering(price_leq()),
{
    let leq = price_leq();
    assert(vstd::relations::reflexive(leq));
    assert(vstd::relations::antisymmetric(leq));
    assert(vstd::relations::transitive(leq));
    assert(vstd::relations::strongly_connected(leq));
}

/// Sorts the prices in ascending order (bubble sort).
fn bubble_sort(prices: &Vec<u128>) -> (r: Vec<u128>)
    ensures
        r@ == sorted_prices(prices@),
        r@.len() == prices@.len(),
        r@.to_multiset() == prices@.to_multiset(),
        vstd::relations::sorted_by(r@, price_leq()),
{
    let mut v = prices.clone();
    assert(v@ == prices@);
    let n = v.len();
    let mut i: usize = 0;
    while i < n
        invariant
            i <= n,
            n == v@.len(),
            v@.to_multiset() == prices@.to_multiset(),
            forall|a: int, b: int| n - i <= a < b < n ==> v@[a] <= v@[b],
            forall|a: int, b: int| 0 <= a < n - i <= b < n ==> v@[a] <= v@[b],
        decreases n - i,
    {
        let mut j: usize = 0;
        while j < n - 1 - i
            invariant
                i < n,
                j <= n - 1 - i,
                n == v@.len(),
                v@.to_multiset() == prices@.to_multiset(),
                forall|a: int, b: int| n - i <= a < b < n ==> v@[a] <= v@[b],
                forall|a: int, b: int| 0 <= a < n - i <= b < n ==> v@[a] <= v@[b],
                forall|k: int| 0 <= k <= j ==> v@[k] <= v@[j as int],
            decreases n - 1 - i - j,
        {
            let p1 = v[j];
            let p2 = v[j + 1];
            if p1 > p2 {
                let ghost before = v@;
                v.set(j, p2);
                v.set(j + 1, p1);
                proof {
                    assert(v@ == before.update(j as int, p2).update(j + 1, p1));
                    assert(before.update(j as int, p2).to_multiset() == before.to_multiset().insert(p2).remove(p1));
                    assert(v@.to_multiset() == before.update(j as int, p2).to_multiset().insert(p1).remove(p2));
                    assert(v@.to_multiset() =~= before.to_multiset());
                }
            }
            j += 1;
        }
        i += 1;
    }
    proof {
        lemma_price_leq_total();
        prices@.lemma_sort_by_ensures(price_leq());
        assert(vstd::relations::sorted_by(v@, price_leq()));
        vstd::seq_lib::lemma_sorted_unique(v@, sorted_prices(prices@), price_leq());
    }
    v
}

/// Median of the prices. Refused (arithmetic overflow, as the contract's own arithmetic
/// does) for no prices and when the two middle prices add up past `u128::MAX`.
pub fn calculate_median(prices: &Vec<u128>) -> (r: Result<u128, ContractError>)
    ensures
        prices@.len() == 0 ==> is_err(r, ContractError::Overflow),
        (prices@.len() % 2 == 1 || (prices@.len() > 0 && sorted_prices(prices@)[prices@.len() / 2 - 1]
            + sorted_prices(prices@)[(prices@.len() / 2) as int] <= u128::MAX)) <==> r is Ok,
        r matches Ok(m) ==> m == median_spec(prices@),
        r matches Ok(m) ==> exists|a: int, b: int| 0 <= a < prices@.len() && 0 <= b < prices@.len()
            && #[trigger] prices@[a] <= m <= #[trigger] prices@[b],
{
    let v = bubble_sort(prices);
    let n = v.len();
    proof {
        lemma_price_leq_total();
        prices@.lemma_sort_by_ensures(price_leq());
    }
    if n % 2 == 1 {
        let m = v[n / 2];
        proof { lemma_sorted_element_in(prices@, v@, (n / 2) as int, (n / 2) as int); }
        Ok(m)
    } else {
        if n == 0 {
            return Err(ContractError::Overflow);
        }
        let m1 = v[n / 2 - 1];
        let m2 = v[n / 2];
        match m1.checked_add(m2) {
            Some(s) => {
                proof { lemma_sorted_element_in(prices@, v@, (n / 2 - 1) as int, (n / 2) as int); }
                Ok(s / 2)
            },
            None => Err(ContractError::Overflow),
        }
    }
}

proof fn lemma_sorted_element_in(prices: Seq<u128>, v: Seq<u128>, a: int, b: int)
    requires
        v == sorted_prices(prices),
        v.to_multiset() == prices.to_multiset(),
        0 <= a <= b < v.len(),
        vstd::relations::sorted_by(v, price_leq()),
    ensures
        exists|x: int, y: int| 0 <= x < prices.len() && 0 <= y < prices.len() && prices[x] == v[a] && prices[y] == v[b],
        v[a] <= v[b],
{
    assert(v.to_multiset().count(v[a]) > 0);
    assert(v.to_multiset().count(v[b]) > 0);
    assert(prices.contains(v[a]));
    assert(prices.contains(v[b]));
    assert(price_leq()(v[a], v[b]) || a == b);
}

/// Consensus over the oracles' latest reports (one per oracle, `None` for none): the
/// median of the reports fresh at `now` (no older than `max_age`), once there are at least
/// `threshold` of them; `None` before that.
pub fn try_consensus(reports: &Vec<Option<PriceReport>>, threshold: u32, max_age: u64, now: u64) -> (r: Result<Option<u128>, ContractError>)
    ensures
        fresh_prices(reports@, max_age as int, now as int, reports@.len() as int) is None ==> is_err(r, ContractError::TimestampOverflow),
        fresh_prices(reports@, max_age as int, now as int, reports@.len() as int) matches Some(p) ==> {
            &&& p.len() < threshold ==> r == Ok::<Option<u128>, ContractError>(None)
            &&& r matches Ok(Some(m)) ==> p.len() >= threshold && m == median_spec(p)
            &&& (p.len() >= threshold && r is Ok) ==> r == Ok::<Option<u128>, ContractError>(Some(median_spec(p) as u128))
            &&& p.len() >= threshold ==> (r is Ok <==> (p.len() % 2 == 1
                || (p.len() > 0 && sorted_prices(p)[p.len() / 2 - 1] + sorted_prices(p)[(p.len() / 2) as int] <= u128::MAX)))
        },
{
    let mut valid: Vec<u128> = Vec::new();
    let n = reports.len();
    let mut k: usize = 0;
    while k < n
        invariant
            k <= n,
            n == reports@.len(),
            fresh_prices(reports@, max_age as int, now as int, k as int) == Some(valid@),
        decreases n - k,
    {
        if let Some(rep) = reports[k] {
            let expiry = match rep.timestamp.checked_add(max_age) {
                Some(e) => e,
                None => {
                    proof { lemma_fresh_none_stays(reports@, max_age as int, now as int, k + 1, n as int); }
                    return Err(ContractError::TimestampOverflow);
                },
            };
            if now <= expiry {
                valid.push(rep.price);
            }
        }
        k += 1;
    }
    if valid.len() >= threshold as usize {
        let m = calculate_median(&valid)?;
        Ok(Some(m))
    } else {
        Ok(None)
    }
}

/// The median does not depend on the order in which the prices came: any rearrangement of
/// the same prices has the same median.
pub proof fn lemma_median_ignores_order(p: Seq<u128>, q: Seq<u128>)
    requires
        p.to_multiset() == q.to_multiset(),
    ensures
        median_spec(p) == median_spec(q),
{
    broadcast use vstd::seq_lib::group_to_multiset_ensures;
    lemma_price_leq_total();
    p.lemma_sort_by_ensures(price_leq());
    q.lemma_sort_by_ensures(price_leq());
    vstd::seq_lib::lemma_sorted_unique(sorted_prices(p), sorted_prices(q), price_leq());
    assert(p.len() == p.to_multiset().len());
    assert(q.len() == q.to_multiset().len());
}

/// The median lies between the smallest and the largest price, and with an odd number of
/// prices it is one of them.
pub proof fn lemma_median_within_prices(p: Seq<u128>)
    requires
        p.len() > 0,
    ensures
        exists|a: int, b: int| 0 <= a < p.len() && 0 <= b < p.len()
            && #[trigger] p[a] <= median_spec(p) <= #[trigger] p[b],
        p.len() % 2 == 1 ==> p.contains(median_spec(p) as u128),
{
    broadcast use vstd::seq_lib::group_to_multiset_ensures;
    lemma_price_leq_total();
    p.lemma_sort_by_ensures(price_leq());
    let s = sorted_prices(p);
    let n = p.len() as int;
    assert(s.len() == n) by {
        assert(s.len() == s.to_multiset().len());
        assert(p.len() == p.to_multiset().len());
    }
    if n % 2 == 1 {
        lemma_sorted_element_in(p, s, n / 2, n / 2);
        let x = choose|x: int| 0 <= x < p.len() && p[x] == s[n / 2];
        assert(p[x] <= median_spec(p) <= p[x]);
        assert(p.contains(median_spec(p) as u128));
    } else {
        lemma_sorted_element_in(p, s, n / 2 - 1, n / 2);
        let (x, y) = choose|x: int, y: int| 0 <= x < p.len() && 0 <= y < p.len()
            && p[x] == s[n / 2 - 1] && p[y] == s[n / 2];
        assert(p[x] <= median_spec(p) <= p[y]);
    }
}

/// Adding one price at or below every price and one at or above every price leaves the
/// median as it was: the median sits in the middle, not at either end.
pub proof fn lemma_median_outer_pair(p: Seq<u128>, lo: u128, hi: u128)
    requires
        p.len() > 0,
        forall|i: int| 0 <= i < p.len() ==> lo <= #[trigger] p[i] <= hi,
    ensures
        median_spec(p.push(lo).push(hi)) == median_spec(p),
{
    broadcast use vstd::seq_lib::group_to_multiset_ensures;
    broadcast use vstd::multiset::group_multiset_axioms;
    lemma_price_leq_total();
    let q = p.push(lo).push(hi);
    p.lemma_sort_by_ensures(price_leq());
    q.lemma_sort_by_ensures(price_leq());
    let s = sorted_prices(p);
    let n = p.len() as int;
    assert(s.len() == n) by {
        assert(s.len() == s.to_multiset().len());
        assert(p.len() == p.to_multiset().len());
    }
    assert forall|k: int| 0 <= k < s.len() implies lo <= #[trigger] s[k] <= hi by {
        assert(s.contains(s[k]));
        assert(p.contains(s[k]));
    }
    assert(lo <= p[0] <= hi);
    let t = seq![lo] + s + seq![hi];
    assert(vstd::relations::sorted_by(t, price_leq())) by {
        assert forall|i: int, j: int| 0 <= i < j < t.len() implies #[trigger] price_leq()(t[i], t[j]) by {
            if i > 0 && j < t.len() - 1 {
                assert(t[i] == s[i - 1] && t[j] == s[j - 1]);
                assert(price_leq()(s[i - 1], s[j - 1]));
            } else if i > 0 {
                assert(t[i] == s[i - 1]);
            } else if j < t.len() - 1 {
                assert(t[j] == s[j - 1]);
            }
        }
    }
    vstd::seq_lib::lemma_multiset_commutative(seq![lo], s);
    vstd::seq_lib::lemma_multiset_commutative(seq![lo] + s, seq![hi]);
    assert(seq![lo].to_multiset() =~= Seq::<u128>::empty().push(lo).to_multiset());
    assert(seq![hi].to_multiset() =~= Seq::<u128>::empty().push(hi).to_multiset());
    assert(t.to_multiset() =~= q.to_multiset());
    vstd::seq_lib::lemma_sorted_unique(t, sorted_prices(q), price_leq());
    assert(q.len() == n + 2);
    assert(sorted_prices(q)[n / 2 + 1] == s[n / 2]);
    if n % 2 == 0 {
        assert(sorted_prices(q)[n / 2] == s[n / 2 - 1]);
    }
}

proof fn lemma_fresh_none_stays(reports: Seq<Option<PriceReport>>, max_age: int, now: int, a: int, b: int)
    requires
        1 <= a <= b,
        fresh_prices(reports, max_age, now, a) is None,
    ensures
        fresh_prices(reports, max_age, now, b) is None,
    decreases b - a,
{
    if b > a {
        lemma_fresh_none_stays(reports, max_age, now, a, b - 1);
    }
}

impl OracleAggregator {
    /// An aggregator that was never initialized.
    pub fn new() -> (r: OracleAggregator)
        ensures
            r.admin is None,
            r.oracles@.len() == 0,
    {
        OracleAggregator { admin: None, oracles: Vec::new(), threshold: 0, max_age: 0 }
    }

    /// One-time setup with the authorised oracles and the consensus parameters.
    pub fn initialize(&mut self, admin: Addr, oracles: Vec<Addr>, threshold: u32, max_age: u64) -> (r: Result<(), ContractError>)
        ensures
            old(self).admin is Some <==> is_err(r, ContractError::AlreadyInitialized),
            r is Ok ==> (final(self).admin matches Some(a) && a@ == admin@) && addr_views(final(self).oracles@) == addr_views(oracles@)
                && final(self).threshold == threshold && final(self).max_age == max_age,
            r is Err ==> addr_views(final(self).oracles@) == addr_views(old(self).oracles@)
                && final(self).threshold == old(self).threshold && final(self).max_age == old(self).max_age,
    {
        if self.admin.is_some() {
            return Err(ContractError::AlreadyInitialized);
        }
        self.admin = Some(admin);
        self.oracles = oracles;
        self.threshold = threshold;
        self.max_age = max_age;
        Ok(())
    }

    /// The report an authorised oracle submits at `now`.
    pub fn report(&self, oracle: &Addr, price: u128, now: u64) -> (r: Result<PriceReport, ContractError>)
        ensures
            contains_view(self.oracles@, oracle@) <==> r is Ok,
            r is Err ==> is_err(r, ContractError::UnauthorizedOracle),
            r matches Ok(p) ==> p == (PriceReport { price, timestamp: now }),
    {
        if !addr_in(&self.oracles, oracle) {
            return Err(ContractError::UnauthorizedOracle);
        }
        Ok(PriceReport { price, timestamp: now })
    }

    /// Replaces the authorised oracles; only the admin may.
    pub fn update_oracles(&mut self, admin: &Addr, oracles: Vec<Addr>) -> (r: Result<(), ContractError>)
        ensures
            old(self).admin is None ==> is_err(r, ContractError::NotInitialized),
            old(self).admin matches Some(a) ==> (a@ != admin@ <==> is_err(r, ContractError::Unauthorized)),
            r is Ok ==> addr_views(final(self).oracles@) == addr_views(oracles@),
            r is Err ==> addr_views(final(self).oracles@) == addr_views(old(self).oracles@),
            final(self).threshold == old(self).threshold,
            final(self).max_age == old(self).max_age,
    {
        match &self.admin {
            None => return Err(ContractError::NotInitialized),
            Some(a) => if !addr_eq(a, admin) { return Err(ContractError::Unauthorized); },
        }
        self.oracles = oracles;
        Ok(())
    }
}

/// The contract version (1.0.0).
pub fn version() -> (r: u32)
    ensures
        r == 100,
{
    100
}

} // verus!
