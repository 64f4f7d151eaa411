//! Token-weighted governance of a contract whitelist: proposals to add or remove a
//! contract, balance-weighted votes, execution after the voting period, and admin overrides.
use vstd::prelude::*;

use crate::addr::{addr_eq, opt_view, Addr};
use crate::error::{is_err, ContractError};
use crate::math::{fits_i128, fits_u64};

verus! {

/// What a proposal does to the whitelist.
pub enum ProposalAction {
    /// Add the target with this label.
    Add(String),
    /// Remove the target.
    Remove,
}

/// A proposal to add or remove a contract.
pub struct WhitelistProposal {
    pub id: u64,
    pub proposer: Addr,
    pub target: Addr,
    pub action: ProposalAction,
    pub votes_for: i128,
    pub votes_against: i128,
    /// Voting is closed after this timestamp.
    pub end_time: u64,
    pub executed: bool,
}

/// A whitelisted contract.
pub struct WhitelistEntry {
    pub label: String,
    pub added_by: Addr,
    pub added_at: u64,
    /// Priority tier (higher = polled more often).
    pub priority: u32,
}

/// The change an executed proposal makes to the whitelist.
pub enum WhitelistChange {
    Add(Addr, WhitelistEntry),
    Remove(Addr),
}

/// The whitelist governor's instance state.
pub struct DaoWhitelist {
    pub admin: Option<Addr>,
    pub voting_token: Option<Addr>,
    /// Minimum FOR weight for a proposal to pass.
    pub quorum: i128,
    /// Voting period of new proposals, in seconds.
    pub voting_period: u64,
    pub proposal_count: u64,
}

// ── Mathematical model ──────────────────────────────────────────────────────

/// The proposal passed: more FOR than AGAINST and FOR reaching the quorum.
pub open spec fn passed_spec(votes_for: int, votes_against: int, quorum: int) -> bool {
    votes_for > votes_against && votes_for >= quorum
}

/// `p2` is `p1` with possibly other tallies and execution flag.
pub open spec fn same_proposal(p1: WhitelistProposal, p2: WhitelistProposal) -> bool {
    &&& p2.id == p1.id
    &&& p2.proposer@ == p1.proposer@
    &&& p2.target@ == p1.target@
    &&& p2.end_time == p1.end_time
    &&& match (p1.action, p2.action) {
        (ProposalAction::Add(a), ProposalAction::Add(b)) => a@ == b@,
        (ProposalAction::Remove, ProposalAction::Remove) => true,
        _ => false,
    }
}

// ── Executable functions ────────────────────────────────────────────────────

impl DaoWhitelist {
    /// A governor that was never initialized.
    pub fn new() -> (r: DaoWhitelist)
        ensures
            r.admin is None,
            r.voting_token is None,
            r.proposal_count == 0,
    {
        DaoWhitelist { admin: None, voting_token: None, quorum: 0, voting_period: 0, proposal_count: 0 }
    }

    /// One-time setup with a positive quorum and voting period.
    pub fn initialize(&mut self, admin: Addr, voting_token: Addr, quorum: i128, voting_period: u64) -> (r: Result<(), ContractError>)
        ensures
            old(self).admin is Some ==> is_err(r, ContractError::AlreadyInitialized),
            (old(self).admin is None && quorum <= 0) ==> is_err(r, ContractError::QuorumNotPositive),
            (old(self).admin is None && quorum > 0 && voting_period == 0) ==> is_err(r, ContractError::VotingPeriodNotPositive),
            (old(self).admin is None && quorum > 0 && voting_period > 0) <==> r is Ok,
            r is Ok ==> opt_view(final(self).admin) == Some(admin@) && opt_view(final(self).voting_token) == Some(voting_token@)
                && final(self).quorum == quorum && final(self).voting_period == voting_period && final(self).proposal_count == 0,
            r is Err ==> opt_view(final(self).admin) == opt_view(old(self).admin) && final(self).quorum == old(self).quorum
                && final(self).voting_period == old(self).voting_period && final(self).proposal_count == old(self).proposal_count
                && opt_view(final(self).voting_token) == opt_view(old(self).voting_token),
    {
        if self.admin.is_some() {
            return Err(ContractError::AlreadyInitialized);
        }
        if quorum <= 0 {
            return Err(ContractError::QuorumNotPositive);
        }
        if voting_period == 0 {
            return Err(ContractError::VotingPeriodNotPositive);
        }
        self.admin = Some(admin);
        self.voting_token = Some(voting_token);
        self.quorum = quorum;
        self.voting_period = voting_period;
        self.proposal_count = 0;
        Ok(())
    }

    /// Opens the next proposal; the proposer must hold voting tokens (`balance`). Voting
    /// ends `voting_period` seconds after `now`.
    pub fn propose(&mut self, proposer: Addr, target: Addr, action: ProposalAction, balance: i128, now: u64) -> (r: Result<WhitelistProposal, ContractError>)
        ensures
            old(self).voting_token is None ==> is_err(r, ContractError::NotInitialized),
            (old(self).voting_token is Some && balance <= 0) ==> is_err(r, ContractError::NoVotingPower),
            (old(self).voting_token is Some && balance > 0 && fits_u64(now + old(self).voting_period)
                && old(self).proposal_count < u64::MAX) <==> r is Ok,
            r matches Ok(p) ==> {
                &&& p.id == old(self).proposal_count + 1
                &&& final(self).proposal_count == p.id
                &&& p.proposer@ == proposer@
                &&& p.target@ == target@
                &&& p.votes_for == 0
                &&& p.votes_against == 0
                &&& p.end_time == now + old(self).voting_period
                &&& !p.executed
                &&& match (action, p.action) {
                    (ProposalAction::Add(a), ProposalAction::Add(b)) => a@ == b@,
                    (ProposalAction::Remove, ProposalAction::Remove) => true,
                    _ => false,
                }
            },
            r is Err ==> final(self).proposal_count == old(self).proposal_count,
            opt_view(final(self).admin) == opt_view(old(self).admin),
            final(self).quorum == old(self).quorum,
            final(self).voting_period == old(self).voting_period,
    {
        if self.voting_token.is_none() {
            return Err(ContractError::NotInitialized);
        }
        if balance <= 0 {
            return Err(ContractError::NoVotingPower);
        }
        let end_time = match now.checked_add(self.voting_period) {
            Some(t) => t,
            None => return Err(ContractError::Overflow),
        };
        if self.proposal_count == u64::MAX {
            return Err(ContractError::Overflow);
        }
        let proposal_id = self.proposal_count + 1;
        self.proposal_count = proposal_id;
        Ok(WhitelistProposal {
            id: proposal_id,
            proposer,
            target,
            action,
            votes_for: 0,
            votes_against: 0,
            end_time,
            executed: false,
        })
    }

    /// Executes a proposal after its voting period when it passed: the proposal is marked
    /// executed and the target is added (with the label, the proposer, `now` and priority 1)
    /// or removed.
    pub fn execute(&self, proposal: Option<WhitelistProposal>, now: u64) -> (r: Result<(WhitelistProposal, WhitelistChange), ContractError>)
        ensures
            proposal is None ==> is_err(r, ContractError::ProposalNotFound),
            proposal matches Some(p) ==> {
                &&& p.executed ==> is_err(r, ContractError::AlreadyExecuted)
                &&& (!p.executed && now <= p.end_time) ==> is_err(r, ContractError::VotingNotEnded)
                &&& (!p.executed && now > p.end_time && !passed_spec(p.votes_for as int, p.votes_against as int, self.quorum as int))
                    ==> is_err(r, ContractError::ProposalFailed)
                &&& (!p.executed && now > p.end_time && passed_spec(p.votes_for as int, p.votes_against as int, self.quorum as int))
                    <==> r is Ok
                &&& r matches Ok((n, c)) ==> {
                    &&& same_proposal(p, n)
                    &&& n.executed
                    &&& n.votes_for == p.votes_for
                    &&& n.votes_against == p.votes_against
                    &&& match p.action {
                        ProposalAction::Remove => c matches WhitelistChange::Remove(t) && t@ == p.target@,
                        ProposalAction::Add(label) => c matches WhitelistChange::Add(t, e) && t@ == p.target@
                            && e.label@ == label@ && e.added_by@ == p.proposer@ && e.added_at == now && e.priority == 1,
                    }
                }
            },
    {
        let p = match proposal {
            Some(p) => p,
            None => return Err(ContractError::ProposalNotFound),
        };
        if p.executed {
            return Err(ContractError::AlreadyExecuted);
        }
        if now <= p.end_time {
            return Err(ContractError::VotingNotEnded);
        }
        if p.votes_for <= p.votes_against || p.votes_for < self.quorum {
            return Err(ContractError::ProposalFailed);
        }
        let target = p.target.duplicate();
        let (action, change) = match p.action {
            ProposalAction::Remove => (ProposalAction::Remove, WhitelistChange::Remove(target)),
            ProposalAction::Add(label) => {
                let entry = WhitelistEntry { label: label.clone(), added_by: p.proposer.duplicate(), added_at: now, priority: 1 };
                (ProposalAction::Add(label), WhitelistChange::Add(target, entry))
            },
        };
        Ok((WhitelistProposal {
            id: p.id,
            proposer: p.proposer,
            target: p.target,
            action,
            votes_for: p.votes_for,
            votes_against: p.votes_against,
            end_time: p.end_time,
            executed: true,
        }, change))
    }

    /// Refuses unless `admin` is the admin.
    fn require_admin(&self, admin: &Addr) -> (r: Result<(), ContractError>)
        ensures
            self.admin is None ==> is_err(r, ContractError::NotInitialized),
            self.admin matches Some(a) ==> (a@ == admin@ <==> r is Ok),
            self.admin matches Some(a) ==> (a@ != admin@ <==> is_err(r, ContractError::Unauthorized)),
    {
        match &self.admin {
            None => Err(ContractError::NotInitialized),
            Some(a) => if addr_eq(a, admin) { Ok(()) } else { Err(ContractError::Unauthorized) },
        }
    }

    /// Sets the priority tier of a whitelisted contract; only the admin may.
    pub fn set_priority(&self, admin: &Addr, entry: Option<WhitelistEntry>, priority: u32) -> (r: Result<WhitelistEntry, ContractError>)
        ensures
            self.admin is None ==> is_err(r, ContractError::NotInitialized),
            self.admin matches Some(a) ==> (a@ != admin@ ==> is_err(r, ContractError::Unauthorized)),
            (self.admin matches Some(a) && a@ == admin@) ==> (entry is None <==> is_err(r, ContractError::NotWhitelisted)),
            (self.admin matches Some(a) && a@ == admin@ && entry is Some) <==> r is Ok,
            r matches Ok(n) ==> (entry matches Some(e) && n.label@ == e.label@ && n.added_by@ == e.added_by@
                && n.added_at == e.added_at && n.priority == priority),
    {
        self.require_admin(admin)?;
        match entry {
            None => Err(ContractError::NotWhitelisted),
            Some(e) => Ok(WhitelistEntry { label: e.label, added_by: e.added_by, added_at: e.added_at, priority }),
        }
    }

    /// Authorises an emergency removal, which bypasses governance; only the admin may.
    pub fn emergency_remove(&self, admin: &Addr) -> (r: Result<(), ContractError>)
        ensures
            self.admin is None ==> is_err(r, ContractError::NotInitialized),
            self.admin matches Some(a) ==> (a@ == admin@ <==> r is Ok),
            self.admin matches Some(a) ==> (a@ != admin@ <==> is_err(r, ContractError::Unauthorized)),
    {
        self.require_admin(admin)
    }

    /// Number of proposals made so far.
    pub fn get_proposal_count(&self) -> (r: u64)
        ensures
            r == self.proposal_count,
    {
        self.proposal_count
    }
}

/// Casts a vote weighted by the voter's token balance (`voting_power`) on an open proposal,
/// once per voter.
pub fn vote(proposal: Option<WhitelistProposal>, already_voted: bool, voting_power: i128, support: bool, now: u64) -> (r: Result<WhitelistProposal, ContractError>)
    ensures
        proposal is None ==> is_err(r, ContractError::ProposalNotFound),
        proposal matches Some(p) ==> {
            &&& now > p.end_time ==> is_err(r, ContractError::VotingEnded)
            &&& (now <= p.end_time && p.executed) ==> is_err(r, ContractError::ProposalAlreadyExecuted)
            &&& (now <= p.end_time && !p.executed && already_voted) ==> is_err(r, ContractError::AlreadyVoted)
            &&& (now <= p.end_time && !p.executed && !already_voted && voting_power <= 0) ==> is_err(r, ContractError::NoVotingPower)
            &&& (now <= p.end_time && !p.executed && !already_voted && voting_power > 0
                && fits_i128((if support { p.votes_for } else { p.votes_against }) + voting_power)) <==> r is Ok
            &&& r matches Ok(n) ==> {
                &&& same_proposal(p, n)
                &&& !n.executed
                &&& n.votes_for == (if support { p.votes_for + voting_power } else { p.votes_for as int })
                &&& n.votes_against == (if support { p.votes_against as int } else { p.votes_against + voting_power })
            }
        },
{
    let p = match proposal {
        Some(p) => p,
        None => return Err(ContractError::ProposalNotFound),
    };
    if now > p.end_time {
        return Err(ContractError::VotingEnded);
    }
    if p.executed {
        return Err(ContractError::ProposalAlreadyExecuted);
    }
    if already_voted {
        return Err(ContractError::AlreadyVoted);
    }
    if voting_power <= 0 {
        return Err(ContractError::NoVotingPower);
    }
    let mut votes_for = p.votes_for;
    let mut votes_against = p.votes_against;
    if support {
        votes_for = match votes_for.checked_add(voting_power) {
            Some(v) => v,
            None => return Err(ContractError::Overflow),
        };
    } else {
        votes_against = match votes_against.checked_add(voting_power) {
            Some(v) => v,
            None => return Err(ContractError::Overflow),
        };
    }
    Ok(WhitelistProposal {
        id: p.id,
        proposer: p.proposer,
        target: p.target,
        action: p.action,
        votes_for,
        votes_against,
        end_time: p.end_time,
        executed: false,
    })
}

/// Whether a contract is whitelisted.
pub fn is_whitelisted(entry: &Option<WhitelistEntry>) -> (r: bool)
    ensures
        r == entry is Some,
{
    entry.is_some()
}

/// The entry of a whitelisted contract.
pub fn get_entry(entry: Option<WhitelistEntry>) -> (r: Result<WhitelistEntry, ContractError>)
    ensures
        entry is None ==> is_err(r, ContractError::NotWhitelisted),
        entry matches Some(e) ==> (r matches Ok(x) && x == e),
{
    match entry {
        Some(e) => Ok(e),
        None => Err(ContractError::NotWhitelisted),
    }
}

/// A stored proposal.
pub fn get_proposal(proposal: Option<WhitelistProposal>) -> (r: Result<WhitelistProposal, ContractError>)
    ensures
        proposal is None ==> is_err(r, ContractError::ProposalNotFound),
        proposal matches Some(p) ==> (r matches Ok(x) && x == p),
{
    match proposal {
        Some(p) => Ok(p),
        None => Err(ContractError::ProposalNotFound),
    }
}

} // verus!
