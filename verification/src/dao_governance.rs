//! Token-weighted DAO governance: proposals, votes, delegation, timelock, snapshots.
use vstd::prelude::*;

use crate::addr::{addr_eq, addr_in, addr_views, contains_view, Addr};
use crate::error::{is_err, ContractError};
use crate::math::{c_add, fits_i128, fits_u32, fits_u64};

verus! {

/// Lifecycle stage of a proposal as seen from the current ledger.
#[derive(Clone, Copy, Debug, PartialEq, Eq, Structural)]
pub enum ProposalStatus {
    Proposed,
    Open,
    Closed,
    Executed,
    Expired,
}

/// Recorded outcome of the vote.
#[derive(Clone, Copy, Debug, PartialEq, Eq, Structural)]
pub enum ProposalOutcome {
    Pending,
    Succeeded,
    Failed,
}

pub struct Proposal {
    pub id: u64,
    pub proposer: Addr,
    pub description: String,
    pub votes_for: i128,
    pub votes_against: i128,
    pub start_block: u32,
    pub end_block: u32,
    /// Timelock execution timestamp; 0 while not queued.
    pub execution_time: u64,
    pub executed: bool,
    pub outcome: ProposalOutcome,
}

/// Cumulative participation of a voter.
#[derive(Clone, Copy, Debug, PartialEq, Eq, Structural)]
pub struct VoterMetrics {
    pub total_weight: i128,
    pub vote_count: u32,
    pub first_vote_ledger: u32,
    pub last_vote_ledger: u32,
}

/// Who delegated their voting power to whom.
pub struct DelegationInfo {
    pub delegator: Addr,
    pub delegatee: Addr,
    pub delegation_ledger: u32,
}

pub struct PowerSnapshotEntry {
    pub voter: Addr,
    pub power: i128,
}

pub struct PowerSnapshot {
    pub id: u64,
    pub ledger_sequence: u32,
    pub timestamp: u64,
    pub entries: Vec<PowerSnapshotEntry>,
}

/// Per-voter engagement record emitted when a proposal is queued.
pub struct VoterEngagement {
    pub proposal_id: u64,
    pub voter: Addr,
    pub weight: i128,
    pub vote_count: u32,
    pub total_weight: i128,
}

/// Event: voting on a proposal opened.
#[derive(Clone, Copy, Debug, PartialEq, Eq, Structural)]
pub struct ProposalOpened {
    pub proposal_id: u64,
    pub ledger_sequence: u32,
}

/// Event: voting on a proposal ended with the given tallies.
#[derive(Clone, Copy, Debug, PartialEq, Eq, Structural)]
pub struct ProposalClosed {
    pub proposal_id: u64,
    pub votes_for: i128,
    pub votes_against: i128,
    pub passed: bool,
    pub ledger_sequence: u32,
}

/// Event: a proposal was executed at the given time.
#[derive(Clone, Copy, Debug, PartialEq, Eq, Structural)]
pub struct ProposalExecuted {
    pub proposal_id: u64,
    pub executed_at: u64,
}

/// Event: a voting-power snapshot was recorded.
#[derive(Clone, Copy, Debug, PartialEq, Eq, Structural)]
pub struct SnapshotCreated {
    pub snapshot_id: u64,
    pub ledger_sequence: u32,
    pub entry_count: u32,
}

/// A participant of a proposal as read back when it is queued.
pub struct Participant {
    pub voter: Addr,
    /// The weight recorded for the vote (0 when none was recorded).
    pub weight: i128,
    /// The voter's metrics (all zero when none were recorded).
    pub metrics: VoterMetrics,
}

/// The governance contract's instance state.
pub struct DaoGovernance {
    pub admin: Addr,
    pub governance_token: Addr,
    /// Minimum voting period, in ledgers.
    pub min_voting_period: u32,
    /// Timelock delay, in seconds.
    pub timelock_delay: u64,
    /// Minimum FOR votes for a proposal to pass.
    pub quorum: i128,
    pub proposal_count: u64,
    pub snapshot_count: u64,
}

/// Result of a vote: the records to store.
pub struct VoteRecorded {
    pub proposal: Proposal,
    pub metrics: VoterMetrics,
    pub voters: Vec<Addr>,
}

/// Result of queuing a proposal.
pub struct ProposalQueued {
    pub proposal: Proposal,
    pub engagements: Vec<VoterEngagement>,
    pub closed: ProposalClosed,
}

/// Result of a delegation.
pub struct DelegationMade {
    pub delegation: DelegationInfo,
    /// The previous delegatee, when the delegator re-delegates.
    pub old_delegatee: Option<Addr>,
    /// The previous delegatee's incoming delegations without the delegator's, to store back.
    pub old_delegatee_incoming: Option<Vec<DelegationInfo>>,
    /// The new delegatee's incoming delegations with the new delegation appended.
    pub new_delegatee_incoming: Vec<DelegationInfo>,
}

// ── Mathematical model ──────────────────────────────────────────────────────

/// The proposal passed: more FOR than AGAINST votes, and FOR votes reach the quorum.
pub open spec fn passed_spec(votes_for: int, votes_against: int, quorum: int) -> bool {
    votes_for > votes_against && votes_for >= quorum
}

/// Status of a proposal at a ledger and time. A proposal reads Proposed up to and including
/// the ledger it was created in, and Open from the next ledger until voting ends.
pub open spec fn status_spec(p: Proposal, current_block: int, now: int, quorum: int) -> ProposalStatus {
    if p.executed {
        ProposalStatus::Executed
    } else if current_block <= p.start_block {
        ProposalStatus::Proposed
    } else if current_block <= p.end_block {
        ProposalStatus::Open
    } else if passed_spec(p.votes_for as int, p.votes_against as int, quorum) {
        ProposalStatus::Closed
    } else {
        ProposalStatus::Expired
    }
}

/// Sum of a sequence of balances.
pub open spec fn sum_spec(s: Seq<i128>) -> int
    decreases s.len(),
{
    if s.len() == 0 { 0 } else { sum_spec(s.drop_last()) + s.last() }
}

/// Every partial sum of own + the balances fits an `i128`.
pub open spec fn partial_sums_fit(own: int, s: Seq<i128>) -> bool {
    forall|k: int| 0 <= k <= s.len() ==> #[trigger] fits_i128(own + sum_spec(s.take(k)))
}

/// `x` occurs in one of the lists before position (i, j).
pub open spec fn seen_before(lists: Seq<Vec<Addr>>, i: int, j: int, x: Seq<u8>) -> bool {
    exists|a: int, b: int|
        0 <= a && 0 <= b && ((a < i && b < lists[a]@.len()) || (a == i && b < j)) && #[trigger] lists[a]@[b]@ == x
}

/// `x` occurs in one of the lists.
pub open spec fn occurs_in(lists: Seq<Vec<Addr>>, x: Seq<u8>) -> bool {
    exists|a: int, b: int| 0 <= a < lists.len() && 0 <= b < lists[a]@.len() && #[trigger] lists[a]@[b]@ == x
}

/// The address views of the first `n` lists, one list after another.
pub open spec fn flat_views(lists: Seq<Vec<Addr>>, n: int) -> Seq<Seq<u8>>
    decreases n,
{
    if n <= 0 { Seq::empty() } else { flat_views(lists, n - 1) + addr_views(lists[n - 1]@) }
}

/// The elements of `s` in order of first appearance, each once.
pub open spec fn first_appearances(s: Seq<Seq<u8>>) -> Seq<Seq<u8>>
    decreases s.len(),
{
    if s.len() == 0 {
        s
    } else {
        let d = first_appearances(s.drop_last());
        if d.contains(s.last()) { d } else { d.push(s.last()) }
    }
}

/// No address occurs twice.
pub open spec fn distinct_addrs(s: Seq<Addr>) -> bool {
    forall|k1: int, k2: int| 0 <= k1 < s.len() && 0 <= k2 < s.len() && k1 != k2 ==> #[trigger] s[k1]@ != #[trigger] s[k2]@
}

/// The delegations kept when `delegator`'s are removed, in their order.
pub open spec fn without_delegator(s: Seq<DelegationInfo>, delegator: Seq<u8>) -> Seq<DelegationInfo>
    decreases s.len(),
{
    if s.len() == 0 {
        s
    } else {
        let rest = without_delegator(s.drop_last(), delegator);
        if s.last().delegator@ != delegator { rest.push(s.last()) } else { rest }
    }
}

// ── Executable functions ────────────────────────────────────────────────────

impl DaoGovernance {
    /// Fresh governance state with no proposals and no snapshots.
    pub fn initialize(admin: Addr, token: Addr, min_voting_period: u32, timelock_delay: u64, quorum: i128) -> (r: DaoGovernance)
        ensures
            r.admin@ == admin@,
            r.governance_token@ == token@,
            r.min_voting_period == min_voting_period,
            r.timelock_delay == timelock_delay,
            r.quorum == quorum,
            r.proposal_count == 0,
            r.snapshot_count == 0,
    {
        DaoGovernance { admin, governance_token: token, min_voting_period, timelock_delay, quorum, proposal_count: 0, snapshot_count: 0 }
    }

    /// Creates the next proposal, open for voting from the current ledger for the minimum
    /// voting period.
    pub fn create_proposal(&mut self, proposer: Addr, description: String, current_ledger: u32) -> (r: Result<Proposal, ContractError>)
        ensures
            (fits_u64(old(self).proposal_count + 1) && fits_u32(current_ledger + old(self).min_voting_period)) <==> r is Ok,
            r is Err ==> *final(self) == *old(self),
            r matches Err(e) ==> e == ContractError::Overflow,
            r matches Ok(p) ==> {
                &&& p.id == old(self).proposal_count + 1
                &&& p.proposer@ == proposer@
                &&& p.description@ == description@
                &&& p.votes_for == 0
                &&& p.votes_against == 0
                &&& p.start_block == current_ledger
                &&& p.end_block == current_ledger + old(self).min_voting_period
                &&& p.execution_time == 0
                &&& !p.executed
                &&& p.outcome == ProposalOutcome::Pending
                &&& forall|now: int, quorum: int| #[trigger] status_spec(p, current_ledger as int, now, quorum)
                    == ProposalStatus::Proposed
                &&& final(self).proposal_count == p.id
                &&& final(self).snapshot_count == old(self).snapshot_count
                &&& final(self).quorum == old(self).quorum
                &&& final(self).timelock_delay == old(self).timelock_delay
                &&& final(self).min_voting_period == old(self).min_voting_period
                &&& final(self).admin == old(self).admin
                &&& final(self).governance_token == old(self).governance_token
            },
    {
        if self.proposal_count == u64::MAX {
            return Err(ContractError::Overflow);
        }
        let proposal_id = self.proposal_count + 1;
        let end_block = match current_ledger.checked_add(self.min_voting_period) {
            Some(e) => e,
            None => return Err(ContractError::Overflow),
        };
        self.proposal_count = proposal_id;
        Ok(Proposal {
            id: proposal_id,
            proposer,
            description,
            votes_for: 0,
            votes_against: 0,
            start_block: current_ledger,
            end_block,
            execution_time: 0,
            executed: false,
            outcome: ProposalOutcome::Pending,
        })
    }

    /// Records a new voting-power snapshot under the next id: one entry for each distinct
    /// voter of the proposals, in order of first appearance, with its effective voting power.
    /// `holdings[k]` holds the own balance of the k-th such voter and the balances of those who
    /// delegated to it.
    pub fn snapshot_voting_power(&mut self, voter_lists: &Vec<Vec<Addr>>, holdings: &Vec<(i128, Vec<i128>)>,
        ledger_sequence: u32, timestamp: u64) -> (r: Result<(PowerSnapshot, SnapshotCreated), ContractError>)
        requires
            holdings@.len() == first_appearances(flat_views(voter_lists@, voter_lists@.len() as int)).len(),
        ensures
            (fits_u64(old(self).snapshot_count + 1) && forall|k: int| 0 <= k < holdings@.len()
                ==> partial_sums_fit((#[trigger] holdings@[k]).0 as int, holdings@[k].1@)) ==> r is Ok,
            r is Err ==> *final(self) == *old(self),
            r matches Err(e) ==> e == ContractError::Overflow,
            r matches Ok((s, ev)) ==> {
                let voters = first_appearances(flat_views(voter_lists@, voter_lists@.len() as int));
                &&& ev.snapshot_id == s.id
                &&& ev.ledger_sequence == ledger_sequence
                &&& ev.entry_count == s.entries@.len() as u32
                &&& s.id == old(self).snapshot_count + 1
                &&& s.ledger_sequence == ledger_sequence
                &&& s.timestamp == timestamp
                &&& s.entries@.len() == voters.len()
                &&& forall|k: int| 0 <= k < voters.len() ==> (#[trigger] s.entries@[k]).voter@ == voters[k]
                    && s.entries@[k].power == holdings@[k].0 + sum_spec(holdings@[k].1@)
                &&& final(self).snapshot_count == s.id
                &&& final(self).proposal_count == old(self).proposal_count
                &&& final(self).quorum == old(self).quorum
                &&& final(self).timelock_delay == old(self).timelock_delay
                &&& final(self).min_voting_period == old(self).min_voting_period
                &&& final(self).admin == old(self).admin
                &&& final(self).governance_token == old(self).governance_token
            },
    {
        if self.snapshot_count == u64::MAX {
            return Err(ContractError::Overflow);
        }
        let voters = collect_unique_voters(voter_lists);
        let ghost va = addr_views(voters@);
        let n = voters.len();
        let mut entries: Vec<PowerSnapshotEntry> = Vec::new();
        let mut k: usize = 0;
        while k < n
            invariant
                k <= n,
                n == voters@.len(),
                n == holdings@.len(),
                va == addr_views(voters@),
                entries@.len() == k,
                forall|j: int| 0 <= j < k ==> (#[trigger] entries@[j]).voter@ == va[j]
                    && entries@[j].power == holdings@[j].0 + sum_spec(holdings@[j].1@),
            decreases n - k,
        {
            let (own, delegated) = (holdings[k].0, &holdings[k].1);
            let power = effective_voting_power(own, delegated)?;
            let voter = voters[k].duplicate();
            assert(va[k as int] == voters@[k as int]@);
            entries.push(PowerSnapshotEntry { voter, power });
            k += 1;
        }
        let id = self.snapshot_count + 1;
        self.snapshot_count = id;
        #[verifier::truncate]
        let entry_count = entries.len() as u32;
        Ok((PowerSnapshot { id, ledger_sequence, timestamp, entries }, SnapshotCreated { snapshot_id: id, ledger_sequence, entry_count }))
    }
}

/// Effective voting power: the voter's own balance plus the balances of everyone who
/// delegated to them.
pub fn effective_voting_power(own_balance: i128, delegator_balances: &Vec<i128>) -> (r: Result<i128, ContractError>)
    ensures
        partial_sums_fit(own_balance as int, delegator_balances@) ==> r is Ok,
        r matches Ok(v) ==> v == own_balance + sum_spec(delegator_balances@),
        r matches Err(e) ==> e == ContractError::Overflow,
{
    let mut power = own_balance;
    let n = delegator_balances.len();
    for i in 0..n
        invariant
            n == delegator_balances@.len(),
            power == own_balance + sum_spec(delegator_balances@.take(i as int)),
    {
        proof {
            assert(delegator_balances@.take(i + 1).drop_last() =~= delegator_balances@.take(i as int));
        }
        power = match c_add(power, delegator_balances[i]) {
            Ok(v) => v,
            Err(e) => {
                proof {
                    if partial_sums_fit(own_balance as int, delegator_balances@) {
                        assert(fits_i128(own_balance + sum_spec(delegator_balances@.take(i + 1))));
                    }
                }
                return Err(e);
            },
        };
    }
    proof {
        assert(delegator_balances@.take(n as int) =~= delegator_balances@);
    }
    Ok(power)
}

/// A voter's metrics; all zero for a voter who never voted.
pub fn get_voter_metrics(metrics: Option<VoterMetrics>) -> (r: VoterMetrics)
    ensures
        r == (match metrics {
            Some(m) => m,
            None => VoterMetrics { total_weight: 0, vote_count: 0, first_vote_ledger: 0, last_vote_ledger: 0 },
        }),
{
    match metrics {
        Some(m) => m,
        None => VoterMetrics { total_weight: 0, vote_count: 0, first_vote_ledger: 0, last_vote_ledger: 0 },
    }
}

/// A voter's metrics can take one more vote of `weight`: the total weight and the vote
/// count stay within their types.
pub open spec fn metrics_computable(metrics: Option<VoterMetrics>, weight: int) -> bool {
    let (total, count): (int, int) = match metrics { Some(m) => (m.total_weight as int, m.vote_count as int), None => (0, 0) };
    fits_i128(total + weight) && fits_u32(count + 1)
}

/// Updates a voter's metrics after a vote of the given weight at the given ledger: the
/// weight and count accumulate, the first-vote ledger is set by the first vote, and the
/// last-vote ledger follows every vote.
pub fn update_voter_metrics(metrics: Option<VoterMetrics>, weight: i128, ledger: u32) -> (r: Result<VoterMetrics, ContractError>)
    ensures
        metrics_computable(metrics, weight as int) <==> r is Ok,
        r matches Err(e) ==> e == ContractError::Overflow,
        r matches Ok(n) ==> {
            let m = match metrics { Some(m) => m, None => VoterMetrics { total_weight: 0, vote_count: 0, first_vote_ledger: ledger, last_vote_ledger: 0 } };
            &&& n.total_weight == m.total_weight + weight
            &&& n.vote_count == m.vote_count + 1
            &&& n.first_vote_ledger == (if m.vote_count == 0 { ledger } else { m.first_vote_ledger })
            &&& n.last_vote_ledger == ledger
        },
{
    let mut m = match metrics {
        Some(m) => m,
        None => VoterMetrics { total_weight: 0, vote_count: 0, first_vote_ledger: ledger, last_vote_ledger: 0 },
    };
    if m.vote_count == 0 {
        m.first_vote_ledger = ledger;
    }
    m.total_weight = c_add(m.total_weight, weight)?;
    if m.vote_count == u32::MAX {
        return Err(ContractError::Overflow);
    }
    m.vote_count = m.vote_count + 1;
    m.last_vote_ledger = ledger;
    Ok(m)
}

/// Casts a vote with the voter's effective voting power. Refused for a missing proposal,
/// before the start or after the end of voting, for a voter already on the proposal's voter
/// list `voters` (so that each voter votes once), for one who has delegated, and without
/// voting power. The power goes to the FOR or AGAINST tally, the
/// voter's metrics are updated and the voter joins the proposal's voter list.
pub fn vote(
    proposal: Option<Proposal>,
    voter: &Addr,
    support: bool,
    current_block: u32,
    has_delegated: bool,
    voting_power: i128,
    metrics: Option<VoterMetrics>,
    voters: Vec<Addr>,
) -> (r: Result<VoteRecorded, ContractError>)
    ensures
        proposal is None ==> r == Err::<VoteRecorded, ContractError>(ContractError::ProposalNotFound),
        proposal matches Some(p) ==> {
            &&& current_block < p.start_block ==> r == Err::<VoteRecorded, ContractError>(ContractError::VotingNotStarted)
            &&& (p.start_block <= current_block && current_block > p.end_block) ==> r == Err::<VoteRecorded, ContractError>(
                ContractError::VotingEnded)
            &&& (p.start_block <= current_block <= p.end_block && contains_view(voters@, voter@)) ==> r == Err::<VoteRecorded, ContractError>(
                ContractError::AlreadyVoted)
            &&& (p.start_block <= current_block <= p.end_block && !contains_view(voters@, voter@) && has_delegated) ==> r == Err::<
                VoteRecorded,
                ContractError,
            >(ContractError::DelegatedVoterCannotVote)
            &&& (p.start_block <= current_block <= p.end_block && !contains_view(voters@, voter@) && !has_delegated && voting_power <= 0)
                ==> r == Err::<VoteRecorded, ContractError>(ContractError::NoVotingPower)
            &&& (p.start_block <= current_block <= p.end_block && !contains_view(voters@, voter@) && !has_delegated && voting_power > 0
                && fits_i128((if support { p.votes_for } else { p.votes_against }) + voting_power)
                && metrics_computable(metrics, voting_power as int)) ==> r is Ok
        },
        r matches Err(e) ==> e == ContractError::ProposalNotFound || e == ContractError::VotingNotStarted
            || e == ContractError::VotingEnded || e == ContractError::AlreadyVoted
            || e == ContractError::DelegatedVoterCannotVote || e == ContractError::NoVotingPower
            || e == ContractError::Overflow,
        r matches Ok(v) ==> {
            let p = proposal.unwrap();
            &&& proposal is Some
            &&& p.start_block <= current_block <= p.end_block
            &&& !contains_view(voters@, voter@)
            &&& !has_delegated
            &&& voting_power > 0
            &&& v.proposal.votes_for == p.votes_for + (if support { voting_power } else { 0 })
            &&& v.proposal.votes_against == p.votes_against + (if support { 0 } else { voting_power })
            &&& v.proposal.id == p.id
            &&& v.proposal.proposer@ == p.proposer@
            &&& v.proposal.description@ == p.description@
            &&& v.proposal.start_block == p.start_block
            &&& v.proposal.end_block == p.end_block
            &&& v.proposal.execution_time == p.execution_time
            &&& v.proposal.executed == p.executed
            &&& v.proposal.outcome == p.outcome
            &&& v.metrics.vote_count == (match metrics { Some(m) => m.vote_count as int, None => 0 }) + 1
            &&& v.metrics.total_weight == (match metrics { Some(m) => m.total_weight as int, None => 0 }) + voting_power
            &&& v.metrics.last_vote_ledger == current_block
            &&& v.metrics.first_vote_ledger == (match metrics {
                Some(m) => if m.vote_count == 0 { current_block } else { m.first_vote_ledger },
                None => current_block,
            })
            &&& v.voters@ == voters@.push(v.voters@.last())
            &&& v.voters@.last()@ == voter@
            &&& contains_view(v.voters@, voter@)
        },
{
    let p = match proposal {
        Some(p) => p,
        None => return Err(ContractError::ProposalNotFound),
    };
    if current_block < p.start_block {
        return Err(ContractError::VotingNotStarted);
    }
    if current_block > p.end_block {
        return Err(ContractError::VotingEnded);
    }
    if addr_in(&voters, voter) {
        return Err(ContractError::AlreadyVoted);
    }
    if has_delegated {
        return Err(ContractError::DelegatedVoterCannotVote);
    }
    if voting_power <= 0 {
        return Err(ContractError::NoVotingPower);
    }
    let (votes_for, votes_against) = if support {
        (c_add(p.votes_for, voting_power)?, p.votes_against)
    } else {
        (p.votes_for, c_add(p.votes_against, voting_power)?)
    };
    let new_metrics = update_voter_metrics(metrics, voting_power, current_block)?;
    let mut new_voters = voters;
    new_voters.push(voter.duplicate());
    assert(new_voters@[new_voters@.len() - 1]@ == voter@);
    Ok(VoteRecorded {
        proposal: Proposal {
            id: p.id,
            proposer: p.proposer,
            description: p.description,
            votes_for,
            votes_against,
            start_block: p.start_block,
            end_block: p.end_block,
            execution_time: p.execution_time,
            executed: p.executed,
            outcome: p.outcome,
        },
        metrics: new_metrics,
        voters: new_voters,
    })
}

/// Queues a passed proposal for execution after the timelock. Refused for a missing
/// proposal, while voting is ongoing, when the proposal did not pass, and when it is already
/// queued. The outcome becomes Succeeded, the execution time now + delay, and every
/// participant gets an engagement record with their weight and cumulative metrics.
pub fn queue_proposal(
    proposal: Option<Proposal>,
    current_block: u32,
    quorum: i128,
    timelock_delay: u64,
    now: u64,
    participants: &Vec<Participant>,
) -> (r: Result<ProposalQueued, ContractError>)
    ensures
        proposal is None ==> r == Err::<ProposalQueued, ContractError>(ContractError::ProposalNotFound),
        proposal matches Some(p) ==> {
            &&& current_block <= p.end_block ==> r == Err::<ProposalQueued, ContractError>(ContractError::VotingOngoing)
            &&& (current_block > p.end_block && !passed_spec(p.votes_for as int, p.votes_against as int, quorum as int))
                ==> r == Err::<ProposalQueued, ContractError>(ContractError::ProposalFailed)
            &&& (current_block > p.end_block && passed_spec(p.votes_for as int, p.votes_against as int, quorum as int)
                && p.execution_time > 0) ==> r == Err::<ProposalQueued, ContractError>(ContractError::ProposalAlreadyQueued)
            &&& (current_block > p.end_block && passed_spec(p.votes_for as int, p.votes_against as int, quorum as int)
                && p.execution_time == 0 && fits_u64(now + timelock_delay)) ==> r is Ok
        },
        r matches Err(e) ==> e == ContractError::ProposalNotFound || e == ContractError::VotingOngoing
            || e == ContractError::ProposalFailed || e == ContractError::ProposalAlreadyQueued
            || e == ContractError::Overflow,
        r matches Ok(q) ==> {
            let p = proposal.unwrap();
            &&& proposal is Some
            &&& current_block > p.end_block
            &&& passed_spec(p.votes_for as int, p.votes_against as int, quorum as int)
            &&& p.execution_time == 0
            &&& q.proposal.outcome == ProposalOutcome::Succeeded
            &&& q.proposal.execution_time == now + timelock_delay
            &&& q.proposal.id == p.id
            &&& q.proposal.votes_for == p.votes_for
            &&& q.proposal.votes_against == p.votes_against
            &&& q.proposal.start_block == p.start_block
            &&& q.proposal.end_block == p.end_block
            &&& q.proposal.executed == p.executed
            &&& q.proposal.proposer@ == p.proposer@
            &&& q.proposal.description@ == p.description@
            &&& q.closed == (ProposalClosed { proposal_id: p.id, votes_for: p.votes_for, votes_against: p.votes_against,
                passed: true, ledger_sequence: current_block })
            &&& q.engagements@.len() == participants@.len()
            &&& forall|i: int| 0 <= i < participants@.len() ==> {
                let e = #[trigger] q.engagements@[i];
                let pt = participants@[i];
                &&& e.proposal_id == p.id
                &&& e.voter@ == pt.voter@
                &&& e.weight == pt.weight
                &&& e.vote_count == pt.metrics.vote_count
                &&& e.total_weight == pt.metrics.total_weight
            }
        },
{
    let p = match proposal {
        Some(p) => p,
        None => return Err(ContractError::ProposalNotFound),
    };
    if current_block <= p.end_block {
        return Err(ContractError::VotingOngoing);
    }
    let passed = p.votes_for > p.votes_against && p.votes_for >= quorum;
    if !passed {
        return Err(ContractError::ProposalFailed);
    }
    if p.execution_time > 0 {
        return Err(ContractError::ProposalAlreadyQueued);
    }
    let execution_time = match now.checked_add(timelock_delay) {
        Some(t) => t,
        None => return Err(ContractError::Overflow),
    };
    let mut engagements: Vec<VoterEngagement> = Vec::new();
    let n = participants.len();
    for i in 0..n
        invariant
            n == participants@.len(),
            engagements@.len() == i,
            forall|k: int| 0 <= k < i ==> {
                let e = #[trigger] engagements@[k];
                let pt = participants@[k];
                &&& e.proposal_id == p.id
                &&& e.voter@ == pt.voter@
                &&& e.weight == pt.weight
                &&& e.vote_count == pt.metrics.vote_count
                &&& e.total_weight == pt.metrics.total_weight
            },
    {
        let pt = &participants[i];
        engagements.push(VoterEngagement {
            proposal_id: p.id,
            voter: pt.voter.duplicate(),
            weight: pt.weight,
            vote_count: pt.metrics.vote_count,
            total_weight: pt.metrics.total_weight,
        });
    }
    let closed = ProposalClosed { proposal_id: p.id, votes_for: p.votes_for, votes_against: p.votes_against, passed: true, ledger_sequence: current_block };
    Ok(ProposalQueued {
        closed,
        proposal: Proposal {
            id: p.id,
            proposer: p.proposer,
            description: p.description,
            votes_for: p.votes_for,
            votes_against: p.votes_against,
            start_block: p.start_block,
            end_block: p.end_block,
            execution_time,
            executed: p.executed,
            outcome: ProposalOutcome::Succeeded,
        },
        engagements,
    })
}

/// Executes a queued proposal once its timelock has expired. Refused for a missing,
/// executed or unqueued proposal and before the execution time.
pub fn execute_proposal(proposal: Option<Proposal>, now: u64) -> (r: Result<(Proposal, ProposalExecuted), ContractError>)
    ensures
        proposal is None ==> is_err(r, ContractError::ProposalNotFound),
        proposal matches Some(p) ==> {
            &&& p.executed ==> is_err(r, ContractError::AlreadyExecuted)
            &&& (!p.executed && p.execution_time == 0) ==> is_err(r, ContractError::ProposalNotQueued)
            &&& (!p.executed && p.execution_time > 0 && now < p.execution_time) ==> is_err(r, ContractError::TimelockNotExpired)
            &&& (!p.executed && p.execution_time > 0 && now >= p.execution_time) ==> r is Ok
        },
        r matches Ok((q, ev)) ==> {
            let p = proposal.unwrap();
            &&& ev == (ProposalExecuted { proposal_id: p.id, executed_at: now })
            &&& q.executed
            &&& q.id == p.id
            &&& q.votes_for == p.votes_for
            &&& q.votes_against == p.votes_against
            &&& q.start_block == p.start_block
            &&& q.end_block == p.end_block
            &&& q.execution_time == p.execution_time
            &&& q.outcome == p.outcome
            &&& q.proposer@ == p.proposer@
            &&& q.description@ == p.description@
        },
{
    let p = match proposal {
        Some(p) => p,
        None => return Err(ContractError::ProposalNotFound),
    };
    if p.executed {
        return Err(ContractError::AlreadyExecuted);
    }
    if p.execution_time == 0 {
        return Err(ContractError::ProposalNotQueued);
    }
    if now < p.execution_time {
        return Err(ContractError::TimelockNotExpired);
    }
    let ev = ProposalExecuted { proposal_id: p.id, executed_at: now };
    Ok((Proposal {
        id: p.id,
        proposer: p.proposer,
        description: p.description,
        votes_for: p.votes_for,
        votes_against: p.votes_against,
        start_block: p.start_block,
        end_block: p.end_block,
        execution_time: p.execution_time,
        executed: true,
        outcome: p.outcome,
    }, ev))
}

/// Status of a proposal at the current ledger and time.
pub fn get_status(proposal: Option<Proposal>, current_block: u32, now: u64, quorum: i128) -> (r: Result<ProposalStatus, ContractError>)
    ensures
        proposal is None ==> r == Err::<ProposalStatus, ContractError>(ContractError::ProposalNotFound),
        proposal matches Some(p) ==> r == Ok::<ProposalStatus, ContractError>(status_spec(p, current_block as int, now as int, quorum as int)),
{
    let p = match proposal {
        Some(p) => p,
        None => return Err(ContractError::ProposalNotFound),
    };
    if p.executed {
        return Ok(ProposalStatus::Executed);
    }
    if current_block <= p.start_block {
        return Ok(ProposalStatus::Proposed);
    }
    if current_block <= p.end_block {
        return Ok(ProposalStatus::Open);
    }
    let passed = p.votes_for > p.votes_against && p.votes_for >= quorum;
    if passed {
        if p.execution_time > 0 && now < p.execution_time {
            return Ok(ProposalStatus::Closed);
        }
    } else {
        return Ok(ProposalStatus::Expired);
    }
    Ok(ProposalStatus::Closed)
}

/// Delegates the delegator's voting power to `delegatee`. Refused for a self-delegation and
/// for a repeat of the current delegation; a re-delegation reports the previous delegatee and
/// removes the delegator from its incoming delegations (`old_incoming`); the new delegation is
/// appended to the new delegatee's incoming delegations (`new_incoming`).
pub fn delegate(
    delegator: &Addr,
    delegatee: &Addr,
    existing: Option<DelegationInfo>,
    old_incoming: Vec<DelegationInfo>,
    new_incoming: Vec<DelegationInfo>,
    current_ledger: u32,
) -> (r: Result<DelegationMade, ContractError>)
    ensures
        delegator@ == delegatee@ ==> r == Err::<DelegationMade, ContractError>(ContractError::CannotDelegateToSelf),
        (delegator@ != delegatee@ && existing is None) ==> r is Ok,
        (delegator@ != delegatee@ && existing is Some && existing.unwrap().delegatee@ != delegatee@) ==> r is Ok,
        existing matches Some(d) ==> (delegator@ != delegatee@ ==> (
            d.delegatee@ == delegatee@ <==> r == Err::<DelegationMade, ContractError>(ContractError::AlreadyDelegatedToAddress))),
        r matches Err(e) ==> e == ContractError::CannotDelegateToSelf || e == ContractError::AlreadyDelegatedToAddress,
        r matches Ok(m) ==> {
            &&& m.delegation.delegator@ == delegator@
            &&& m.delegation.delegatee@ == delegatee@
            &&& m.delegation.delegation_ledger == current_ledger
            &&& (existing is None <==> m.old_delegatee is None)
            &&& (existing matches Some(d) ==> m.old_delegatee matches Some(o) && o@ == d.delegatee@ && o@ != delegatee@)
            &&& (existing is None <==> m.old_delegatee_incoming is None)
            &&& (m.old_delegatee_incoming matches Some(l) ==> l@ == without_delegator(old_incoming@, delegator@))
            &&& m.new_delegatee_incoming@.len() == new_incoming@.len() + 1
            &&& m.new_delegatee_incoming@.drop_last() == new_incoming@
            &&& m.new_delegatee_incoming@.last().delegator@ == delegator@
            &&& m.new_delegatee_incoming@.last().delegatee@ == delegatee@
            &&& m.new_delegatee_incoming@.last().delegation_ledger == current_ledger
        },
{
    if addr_eq(delegator, delegatee) {
        return Err(ContractError::CannotDelegateToSelf);
    }
    let (old_delegatee, old_delegatee_incoming) = match existing {
        Some(d) => {
            if addr_eq(&d.delegatee, delegatee) {
                return Err(ContractError::AlreadyDelegatedToAddress);
            }
            (Some(d.delegatee), Some(remove_incoming_delegation(old_incoming, delegator)))
        },
        None => (None, None),
    };
    let mut new_delegatee_incoming = new_incoming;
    let ghost before = new_delegatee_incoming@;
    new_delegatee_incoming.push(DelegationInfo {
        delegator: delegator.duplicate(),
        delegatee: delegatee.duplicate(),
        delegation_ledger: current_ledger,
    });
    proof {
        assert(new_delegatee_incoming@.drop_last() =~= before);
    }
    Ok(DelegationMade {
        delegation: DelegationInfo { delegator: delegator.duplicate(), delegatee: delegatee.duplicate(), delegation_ledger: current_ledger },
        old_delegatee,
        old_delegatee_incoming,
        new_delegatee_incoming,
    })
}

/// Removes a delegation: refused when there is none; returns the former delegatee.
pub fn undelegate(existing: Option<DelegationInfo>) -> (r: Result<Addr, ContractError>)
    ensures
        existing is None <==> r == Err::<Addr, ContractError>(ContractError::NoActiveDelegation),
        existing is Some <==> r is Ok,
        r matches Ok(a) ==> existing matches Some(d) && a@ == d.delegatee@,
{
    match existing {
        Some(d) => Ok(d.delegatee),
        None => Err(ContractError::NoActiveDelegation),
    }
}

/// The incoming delegations of a delegatee with `delegator`'s entries removed, in order.
pub fn remove_incoming_delegation(incoming: Vec<DelegationInfo>, delegator: &Addr) -> (r: Vec<DelegationInfo>)
    ensures
        r@ == without_delegator(incoming@, delegator@),
        forall|i: int| 0 <= i < r@.len() ==> (#[trigger] r@[i]).delegator@ != delegator@,
{
    let mut out: Vec<DelegationInfo> = Vec::new();
    let mut rest = incoming;
    let ghost all = rest@;
    let n = rest.len();
    let mut items: Vec<DelegationInfo> = Vec::new();
    // Move the entries into `items` in reverse so that they can be popped in order.
    while rest.len() > 0
        invariant
            all.len() == n,
            rest@ == all.subrange(0, rest@.len() as int),
            items@.len() + rest@.len() == n,
            forall|k: int| 0 <= k < items@.len() ==> #[trigger] items@[k] == all[n - 1 - k],
        decreases rest@.len(),
    {
        let d = rest.pop().unwrap();
        items.push(d);
    }
    let mut i: usize = 0;
    while items.len() > 0
        invariant
            items@.len() + i == n,
            all.len() == n,
            forall|k: int| 0 <= k < items@.len() ==> #[trigger] items@[k] == all[n - 1 - k],
            out@ == without_delegator(all.subrange(0, i as int), delegator@),
            forall|k: int| 0 <= k < out@.len() ==> (#[trigger] out@[k]).delegator@ != delegator@,
        decreases items@.len(),
    {
        let d = items.pop().unwrap();
        proof {
            assert(d == all[i as int]);
            assert(all.subrange(0, i + 1).drop_last() =~= all.subrange(0, i as int));
        }
        if !addr_eq(&d.delegator, delegator) {
            out.push(d);
        }
        i = i + 1;
    }
    proof {
        assert(all.subrange(0, n as int) =~= all);
    }
    out
}

/// The distinct voters of all proposals, in order of first appearance.
pub fn collect_unique_voters(voter_lists: &Vec<Vec<Addr>>) -> (r: Vec<Addr>)
    ensures
        distinct_addrs(r@),
        forall|x: Seq<u8>| #![trigger occurs_in(voter_lists@, x)] #![trigger contains_view(r@, x)]
            occurs_in(voter_lists@, x) == contains_view(r@, x),
        addr_views(r@) == first_appearances(flat_views(voter_lists@, voter_lists@.len() as int)),
{
    let mut seen: Vec<Addr> = Vec::new();
    let n = voter_lists.len();
    for i in 0..n
        invariant
            n == voter_lists@.len(),
            distinct_addrs(seen@),
            forall|x: Seq<u8>| #![trigger seen_before(voter_lists@, i as int, 0, x)] #![trigger contains_view(seen@, x)]
                seen_before(voter_lists@, i as int, 0, x) == contains_view(seen@, x),
            addr_views(seen@) == first_appearances(flat_views(voter_lists@, i as int)),
    {
        let list = &voter_lists[i];
        let m = list.len();
        proof {
            assert(flat_views(voter_lists@, i as int) + addr_views(list@.take(0)) =~= flat_views(voter_lists@, i as int));
        }
        proof {
            assert forall|x: Seq<u8>| #![trigger seen_before(voter_lists@, i as int, 0, x)]
                seen_before(voter_lists@, i as int, 0, x) == contains_view(seen@, x) by {}
        }
        for j in 0..m
            invariant
                n == voter_lists@.len(),
                0 <= i < n,
                list == voter_lists@[i as int],
                m == list@.len(),
                distinct_addrs(seen@),
                forall|x: Seq<u8>| #![trigger seen_before(voter_lists@, i as int, j as int, x)] #![trigger contains_view(seen@, x)]
                    seen_before(voter_lists@, i as int, j as int, x) == contains_view(seen@, x),
                addr_views(seen@) == first_appearances(flat_views(voter_lists@, i as int) + addr_views(list@.take(j as int))),
        {
            let v = &list[j];
            let ghost old_seen = seen@;
            let present = addr_in(&seen, v);
            if !present {
                seen.push(v.duplicate());
            }
            proof {
                let prefix = flat_views(voter_lists@, i as int) + addr_views(list@.take(j as int));
                let next = flat_views(voter_lists@, i as int) + addr_views(list@.take(j + 1));
                assert(next =~= prefix.push(v@));
                assert(next.drop_last() =~= prefix);
                let d = addr_views(old_seen);
                if present {
                    let k = choose|k: int| 0 <= k < old_seen.len() && old_seen[k]@ == v@;
                    assert(d[k] == v@);
                } else if d.contains(v@) {
                    let k = choose|k: int| 0 <= k < d.len() && d[k] == v@;
                    assert(old_seen[k]@ == v@);
                }
                if !present {
                    assert(addr_views(seen@) =~= d.push(v@));
                }
            }
            proof {
                assert(voter_lists@[i as int]@[j as int]@ == v@);
                assert forall|x: Seq<u8>| #![trigger seen_before(voter_lists@, i as int, j + 1, x)] #![trigger contains_view(seen@, x)]
                    seen_before(voter_lists@, i as int, j + 1, x) == contains_view(seen@, x) by {
                    if seen_before(voter_lists@, i as int, j + 1, x) {
                        let (a, b) = choose|a: int, b: int| 0 <= a && 0 <= b && ((a < i && b < voter_lists@[a]@.len()) || (a == i && b < j + 1)) && #[trigger] voter_lists@[a]@[b]@ == x;
                        if a == i && b == j {
                            if present {
                                let k = choose|k: int| 0 <= k < old_seen.len() && #[trigger] old_seen[k]@ == v@;
                                assert(seen@[k]@ == x);
                            } else {
                                assert(seen@[old_seen.len() as int]@ == x);
                            }
                        } else {
                            assert(seen_before(voter_lists@, i as int, j as int, x));
                            assert(contains_view(old_seen, x));
                            let k = choose|k: int| 0 <= k < old_seen.len() && #[trigger] old_seen[k]@ == x;
                            assert(seen@[k]@ == x);
                        }
                    }
                    if contains_view(seen@, x) {
                        let k = choose|k: int| 0 <= k < seen@.len() && #[trigger] seen@[k]@ == x;
                        if k < old_seen.len() {
                            assert(old_seen[k]@ == x);
                            assert(contains_view(old_seen, x));
                            assert(seen_before(voter_lists@, i as int, j as int, x));
                            let (a, b) = choose|a: int, b: int| 0 <= a && 0 <= b && ((a < i && b < voter_lists@[a]@.len()) || (a == i && b < j)) && #[trigger] voter_lists@[a]@[b]@ == x;
                            assert(voter_lists@[a]@[b]@ == x);
                        } else {
                            assert(voter_lists@[i as int]@[j as int]@ == x);
                        }
                    }
                }
                if !present {
                    assert forall|k1: int, k2: int| 0 <= k1 < seen@.len() && 0 <= k2 < seen@.len() && k1 != k2 implies #[trigger] seen@[k1]@ != #[trigger] seen@[k2]@ by {
                        if k1 == old_seen.len() {
                            assert(seen@[k2] == old_seen[k2]);
                        } else if k2 == old_seen.len() {
                            assert(seen@[k1] == old_seen[k1]);
                        } else {
                            assert(seen@[k1] == old_seen[k1]);
                            assert(seen@[k2] == old_seen[k2]);
                        }
                    }
                }
            }
        }
        proof {
            assert(list@.take(m as int) =~= list@);
            assert(flat_views(voter_lists@, i + 1) == flat_views(voter_lists@, i as int) + addr_views(voter_lists@[i as int]@));
            assert forall|x: Seq<u8>| #![trigger seen_before(voter_lists@, i + 1, 0, x)]
                seen_before(voter_lists@, i + 1, 0, x) == contains_view(seen@, x) by {
                if seen_before(voter_lists@, i + 1, 0, x) {
                    let (a, b) = choose|a: int, b: int| 0 <= a && 0 <= b && ((a < i + 1 && b < voter_lists@[a]@.len()) || (a == i + 1 && b < 0)) && #[trigger] voter_lists@[a]@[b]@ == x;
                    assert(voter_lists@[a]@[b]@ == x);
                    assert(seen_before(voter_lists@, i as int, m as int, x));
                }
                if seen_before(voter_lists@, i as int, m as int, x) {
                    let (a, b) = choose|a: int, b: int| 0 <= a && 0 <= b && ((a < i && b < voter_lists@[a]@.len()) || (a == i && b < m)) && #[trigger] voter_lists@[a]@[b]@ == x;
                    assert(voter_lists@[a]@[b]@ == x);
                    assert(seen_before(voter_lists@, i + 1, 0, x));
                }
            }
        }
    }
    proof {
        assert forall|x: Seq<u8>| #![trigger occurs_in(voter_lists@, x)]
            occurs_in(voter_lists@, x) == contains_view(seen@, x) by {
            if occurs_in(voter_lists@, x) {
                let (a, b) = choose|a: int, b: int| 0 <= a < voter_lists@.len() && 0 <= b < voter_lists@[a]@.len() && #[trigger] voter_lists@[a]@[b]@ == x;
                assert(voter_lists@[a]@[b]@ == x);
                assert(seen_before(voter_lists@, n as int, 0, x));
            }
            if seen_before(voter_lists@, n as int, 0, x) {
                let (a, b) = choose|a: int, b: int| 0 <= a && 0 <= b && ((a < n && b < voter_lists@[a]@.len()) || (a == n && b < 0)) && #[trigger] voter_lists@[a]@[b]@ == x;
                assert(voter_lists@[a]@[b]@ == x);
            }
        }
    }
    seen
}

// ── Laws ────────────────────────────────────────────────────────────────────

/// A proposal that can be queued (voting over, passed, not yet queued, not executed) is
/// reported Closed; one that failed after voting is reported Expired.
pub proof fn lemma_queueable_is_closed(p: Proposal, current_block: int, now: int, quorum: int)
    requires
        !p.executed,
        current_block > p.end_block,
        p.start_block <= p.end_block,
    ensures
        passed_spec(p.votes_for as int, p.votes_against as int, quorum) ==> status_spec(p, current_block, now, quorum) == ProposalStatus::Closed,
        !passed_spec(p.votes_for as int, p.votes_against as int, quorum) ==> status_spec(p, current_block, now, quorum) == ProposalStatus::Expired,
{
}

/// Removing a delegator's entries twice changes nothing more than removing them once.
pub proof fn lemma_remove_delegation_idempotent(s: Seq<DelegationInfo>, delegator: Seq<u8>)
    ensures
        without_delegator(without_delegator(s, delegator), delegator) == without_delegator(s, delegator),
    decreases s.len(),
{
    if s.len() > 0 {
        lemma_remove_delegation_idempotent(s.drop_last(), delegator);
        let rest = without_delegator(s.drop_last(), delegator);
        if s.last().delegator@ != delegator {
            assert(rest.push(s.last()).drop_last() =~= rest);
        }
    }
}

} // verus!
