use horizon_contracts::addr::Addr;
use horizon_contracts::dao_governance::{
    collect_unique_voters, delegate, effective_voting_power, execute_proposal, get_status, get_voter_metrics,
    queue_proposal, remove_incoming_delegation, undelegate, update_voter_metrics, vote, DaoGovernance, DelegationInfo,
    Participant, Proposal, ProposalOutcome, ProposalStatus, VoterMetrics,
};
use horizon_contracts::error::ContractError;

fn addr(s: &str) -> Addr {
    Addr::new(s.as_bytes().to_vec())
}

fn gov() -> DaoGovernance {
    DaoGovernance::initialize(addr("ADMIN"), addr("GOV"), 100, 3600, 500)
}

fn cast(p: Proposal, voter: &str, support: bool, block: u32, power: i128) -> Proposal {
    vote(Some(p), &addr(voter), support, block, false, power, None, vec![]).unwrap().proposal
}

#[test]
fn proposal_passes_queues_and_executes() {
    let mut g = gov();
    let p = g.create_proposal(addr("ALICE"), "raise quorum".to_string(), 10).unwrap();
    assert_eq!(p.id, 1);
    assert_eq!(p.end_block, 110);
    assert_eq!(g.proposal_count, 1);

    let p = cast(p, "ALICE", true, 20, 600);
    let p = cast(p, "BOB", false, 30, 200);
    assert_eq!((p.votes_for, p.votes_against), (600, 200));
    assert_eq!(get_status(Some(p), 50, 0, g.quorum), Ok(ProposalStatus::Open));

    let p = g.create_proposal(addr("ALICE"), "again".to_string(), 10).unwrap();
    let p = cast(cast(p, "ALICE", true, 20, 600), "BOB", false, 30, 200);
    assert_eq!(queue_proposal(Some(p), 100, g.quorum, g.timelock_delay, 1000, &vec![]).map(|q| q.proposal.id), Err(ContractError::VotingOngoing));

    let p = g.create_proposal(addr("ALICE"), "third".to_string(), 10).unwrap();
    let p = cast(cast(p, "ALICE", true, 20, 600), "BOB", false, 30, 200);
    let participants = vec![
        Participant { voter: addr("ALICE"), weight: 600, metrics: VoterMetrics { total_weight: 600, vote_count: 1, first_vote_ledger: 20, last_vote_ledger: 20 } },
        Participant { voter: addr("BOB"), weight: 200, metrics: get_voter_metrics(None) },
    ];
    let q = queue_proposal(Some(p), 111, g.quorum, g.timelock_delay, 1000, &participants).unwrap();
    assert_eq!(q.proposal.outcome, ProposalOutcome::Succeeded);
    assert_eq!(q.proposal.execution_time, 4600);
    assert!(q.closed.passed);
    assert_eq!(q.engagements.len(), 2);
    assert_eq!(q.engagements[0].vote_count, 1);
    assert_eq!(q.engagements[1].weight, 200);

    let early = execute_proposal(Some(q.proposal), 4599);
    assert!(matches!(early, Err(ContractError::TimelockNotExpired)));
}

#[test]
fn execution_after_timelock() {
    let mut g = gov();
    let p = g.create_proposal(addr("ALICE"), "x".to_string(), 0).unwrap();
    let p = cast(p, "ALICE", true, 5, 500);
    let q = queue_proposal(Some(p), 101, g.quorum, g.timelock_delay, 10, &vec![]).unwrap();
    let (done, ev) = execute_proposal(Some(q.proposal), 3610).unwrap();
    assert!(done.executed);
    assert_eq!(ev.executed_at, 3610);
    assert_eq!(get_status(Some(done), 200, 5000, 500), Ok(ProposalStatus::Executed));
}

#[test]
fn failed_proposals_are_refused_and_expire() {
    let mut g = gov();
    // Below quorum.
    let p = g.create_proposal(addr("ALICE"), "x".to_string(), 0).unwrap();
    let p = cast(p, "ALICE", true, 5, 400);
    assert!(matches!(queue_proposal(Some(p), 101, 500, 3600, 0, &vec![]), Err(ContractError::ProposalFailed)));
    let p = g.create_proposal(addr("ALICE"), "y".to_string(), 0).unwrap();
    let p = cast(cast(p, "ALICE", true, 5, 600), "BOB", false, 6, 600);
    assert_eq!(get_status(Some(p), 101, 0, 500), Ok(ProposalStatus::Expired));
}

#[test]
fn vote_refusals() {
    let mut g = gov();
    let mk = |g: &mut DaoGovernance| g.create_proposal(addr("A"), "d".to_string(), 10).unwrap();
    let p = mk(&mut g);
    assert!(matches!(vote(Some(p), &addr("V"), true, 5, false, 1, None, vec![]), Err(ContractError::VotingNotStarted)));
    let p = mk(&mut g);
    assert!(matches!(vote(Some(p), &addr("V"), true, 111, false, 1, None, vec![]), Err(ContractError::VotingEnded)));
    let p = mk(&mut g);
    assert!(matches!(vote(Some(p), &addr("V"), true, 20, false, 1, None, vec![addr("V")]), Err(ContractError::AlreadyVoted)));
    let p = mk(&mut g);
    assert!(matches!(vote(Some(p), &addr("V"), true, 20, true, 1, None, vec![]), Err(ContractError::DelegatedVoterCannotVote)));
    let p = mk(&mut g);
    assert!(matches!(vote(Some(p), &addr("V"), true, 20, false, 0, None, vec![]), Err(ContractError::NoVotingPower)));
    assert!(matches!(vote(None, &addr("V"), true, 20, false, 1, None, vec![]), Err(ContractError::ProposalNotFound)));
}

#[test]
fn voter_metrics_accumulate() {
    let m = update_voter_metrics(None, 100, 7).unwrap();
    assert_eq!(m, VoterMetrics { total_weight: 100, vote_count: 1, first_vote_ledger: 7, last_vote_ledger: 7 });
    let m = update_voter_metrics(Some(m), 50, 9).unwrap();
    assert_eq!(m, VoterMetrics { total_weight: 150, vote_count: 2, first_vote_ledger: 7, last_vote_ledger: 9 });
    assert_eq!(get_voter_metrics(Some(m)).vote_count, 2);
}

#[test]
fn delegation_flow() {
    assert!(matches!(delegate(&addr("A"), &addr("A"), None, vec![], vec![], 1), Err(ContractError::CannotDelegateToSelf)));
    let made = delegate(&addr("A"), &addr("B"), None, vec![], vec![], 1).unwrap();
    assert!(made.old_delegatee.is_none());
    assert!(made.old_delegatee_incoming.is_none());
    assert_eq!(made.new_delegatee_incoming.len(), 1);
    let b_incoming = made.new_delegatee_incoming;
    let again = delegate(&addr("A"), &addr("B"), Some(made.delegation), vec![], vec![], 2);
    assert!(matches!(again, Err(ContractError::AlreadyDelegatedToAddress)));
    let d = DelegationInfo { delegator: addr("A"), delegatee: addr("B"), delegation_ledger: 1 };
    let moved = delegate(&addr("A"), &addr("C"), Some(d), b_incoming, vec![], 3).unwrap();
    assert_eq!(moved.old_delegatee.unwrap().bytes, b"B".to_vec());
    // The re-delegation leaves B's list empty and appends to C's.
    assert_eq!(moved.old_delegatee_incoming.unwrap().len(), 0);
    assert_eq!(moved.new_delegatee_incoming.len(), 1);
    assert_eq!(moved.new_delegatee_incoming[0].delegatee.bytes, b"C".to_vec());
    let back = undelegate(Some(moved.delegation)).unwrap();
    assert_eq!(back.bytes, b"C".to_vec());
    assert!(matches!(undelegate(None), Err(ContractError::NoActiveDelegation)));

    let incoming = vec![
        DelegationInfo { delegator: addr("A"), delegatee: addr("Z"), delegation_ledger: 1 },
        DelegationInfo { delegator: addr("B"), delegatee: addr("Z"), delegation_ledger: 2 },
        DelegationInfo { delegator: addr("A"), delegatee: addr("Z"), delegation_ledger: 3 },
    ];
    let left = remove_incoming_delegation(incoming, &addr("A"));
    assert_eq!(left.len(), 1);
    assert_eq!(left[0].delegator.bytes, b"B".to_vec());
}

#[test]
fn voting_power_and_unique_voters() {
    assert_eq!(effective_voting_power(100, &vec![20, 30]), Ok(150));
    assert_eq!(effective_voting_power(i128::MAX, &vec![1]), Err(ContractError::Overflow));
    let lists = vec![vec![addr("A"), addr("B")], vec![addr("B"), addr("C")], vec![addr("A")]];
    let unique = collect_unique_voters(&lists);
    let names: Vec<Vec<u8>> = unique.into_iter().map(|a| a.bytes).collect();
    assert_eq!(names, vec![b"A".to_vec(), b"B".to_vec(), b"C".to_vec()]);
}

#[test]
fn snapshots_are_numbered() {
    let mut g = gov();
    let lists = vec![vec![addr("A"), addr("B")], vec![addr("B"), addr("C")]];
    let holdings = vec![(5, vec![]), (7, vec![1, 2]), (0, vec![4])];
    let (s, ev) = g.snapshot_voting_power(&lists, &holdings, 42, 1000).unwrap();
    assert_eq!(s.id, 1);
    assert_eq!(ev.entry_count, 3);
    assert_eq!(ev.ledger_sequence, 42);
    let got: Vec<(Vec<u8>, i128)> = s.entries.iter().map(|e| (e.voter.bytes.clone(), e.power)).collect();
    assert_eq!(got, vec![(b"A".to_vec(), 5), (b"B".to_vec(), 10), (b"C".to_vec(), 4)]);
    let (s2, _) = g.snapshot_voting_power(&vec![], &vec![], 43, 1001).unwrap();
    assert_eq!(s2.id, 2);
    assert_eq!(g.snapshot_count, 2);
    assert_eq!(g.snapshot_voting_power(&vec![vec![addr("A")]], &vec![(i128::MAX, vec![1])], 44, 1002).err(), Some(ContractError::Overflow));
    assert_eq!(g.snapshot_count, 2);
}

#[test]
fn test_proposal_state_proposed() {
    let mut g = gov();
    let p = g.create_proposal(addr("PROPOSER"), "prop".to_string(), 10).unwrap();
    let copy = get_status(Some(p), 10, 0, g.quorum);
    assert_eq!(copy, Ok(ProposalStatus::Proposed));
    let p = g.create_proposal(addr("PROPOSER"), "open".to_string(), 10).unwrap();
    assert_eq!(get_status(Some(p), 11, 0, g.quorum), Ok(ProposalStatus::Open));
}

#[test]
fn each_voter_votes_once() {
    let mut g = gov();
    let p = g.create_proposal(addr("A"), "d".to_string(), 10).unwrap();
    let first = vote(Some(p), &addr("V"), true, 20, false, 5, None, vec![]).unwrap();
    assert_eq!(first.proposal.votes_for, 5);
    let again = vote(Some(first.proposal), &addr("V"), false, 21, false, 5, Some(first.metrics), first.voters);
    assert!(matches!(again, Err(ContractError::AlreadyVoted)));
}
