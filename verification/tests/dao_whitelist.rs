use std::collections::HashMap;

use horizon_contracts::addr::Addr;
use horizon_contracts::dao_whitelist::{get_entry, is_whitelisted, vote, DaoWhitelist, ProposalAction, WhitelistChange, WhitelistEntry, WhitelistProposal};
use horizon_contracts::error::ContractError;

const QUORUM: i128 = 100;
const VOTING_PERIOD: u64 = 3600;

fn addr(s: &str) -> Addr {
    Addr::new(s.as_bytes().to_vec())
}

/// The governor with its balances and whitelist.
struct Dao {
    state: DaoWhitelist,
    balances: HashMap<&'static str, i128>,
    whitelist: HashMap<Vec<u8>, WhitelistEntry>,
    now: u64,
}

impl Dao {
    fn setup() -> Dao {
        let mut state = DaoWhitelist::new();
        state.initialize(addr("ADMIN"), addr("TOKEN"), QUORUM, VOTING_PERIOD).unwrap();
        let mut balances = HashMap::new();
        balances.insert("VOTER1", 500);
        balances.insert("VOTER2", 300);
        Dao { state, balances, whitelist: HashMap::new(), now: 0 }
    }
    fn propose(&mut self, who: &'static str, action: ProposalAction) -> WhitelistProposal {
        let bal = *self.balances.get(who).unwrap_or(&0);
        self.state.propose(addr(who), addr("TARGET"), action, bal, self.now).unwrap()
    }
    fn vote(&self, p: WhitelistProposal, who: &'static str, support: bool) -> WhitelistProposal {
        vote(Some(p), false, *self.balances.get(who).unwrap_or(&0), support, self.now).unwrap()
    }
    fn execute(&mut self, p: WhitelistProposal) -> Result<WhitelistProposal, ContractError> {
        let (p, change) = self.state.execute(Some(p), self.now)?;
        match change {
            WhitelistChange::Add(t, e) => {
                self.whitelist.insert(t.bytes, e);
            },
            WhitelistChange::Remove(t) => {
                self.whitelist.remove(&t.bytes);
            },
        }
        Ok(p)
    }
    fn whitelisted(&self) -> bool {
        is_whitelisted(&self.whitelist.get(b"TARGET".as_slice()).map(copy_entry))
    }
    fn add_target(&mut self, label: &str) {
        let p = self.propose("VOTER1", ProposalAction::Add(label.to_string()));
        let p = self.vote(p, "VOTER1", true);
        let p = self.vote(p, "VOTER2", true);
        self.now += VOTING_PERIOD + 1;
        self.execute(p).unwrap();
    }
}

fn copy_entry(e: &WhitelistEntry) -> WhitelistEntry {
    WhitelistEntry { label: e.label.clone(), added_by: e.added_by.duplicate(), added_at: e.added_at, priority: e.priority }
}

#[test]
fn test_test_initialize() {
    let dao = Dao::setup();
    assert_eq!(dao.state.quorum, QUORUM);
    assert_eq!(dao.state.voting_period, VOTING_PERIOD);
    assert_eq!(dao.state.get_proposal_count(), 0);
}

#[test]
fn test_propose_and_vote_and_execute_add() {
    let mut dao = Dao::setup();
    let p = dao.propose("VOTER1", ProposalAction::Add("high-priority DEX".to_string()));
    assert_eq!(p.id, 1);
    assert_eq!(dao.state.get_proposal_count(), 1);
    let p = dao.vote(p, "VOTER1", true);
    let p = dao.vote(p, "VOTER2", true);
    dao.now += VOTING_PERIOD + 1;
    assert!(!dao.whitelisted());
    dao.execute(p).unwrap();
    assert!(dao.whitelisted());
    let entry = get_entry(dao.whitelist.get(b"TARGET".as_slice()).map(copy_entry)).unwrap();
    assert_eq!(entry.label, "high-priority DEX");
    assert_eq!(entry.priority, 1);
}

#[test]
fn test_propose_and_execute_remove() {
    let mut dao = Dao::setup();
    dao.add_target("contract to remove");
    assert!(dao.whitelisted());
    dao.now += 1;
    let p = dao.propose("VOTER1", ProposalAction::Remove);
    let p = dao.vote(p, "VOTER1", true);
    let p = dao.vote(p, "VOTER2", true);
    dao.now += VOTING_PERIOD + 1;
    dao.execute(p).unwrap();
    assert!(!dao.whitelisted());
}

#[test]
fn test_set_priority() {
    let mut dao = Dao::setup();
    dao.add_target("priority contract");
    let entry = dao.whitelist.get(b"TARGET".as_slice()).map(copy_entry);
    assert_eq!(entry.as_ref().unwrap().priority, 1);
    let updated = dao.state.set_priority(&addr("ADMIN"), entry, 5).unwrap();
    assert_eq!(updated.priority, 5);
}

#[test]
fn test_emergency_remove() {
    let mut dao = Dao::setup();
    dao.add_target("doc");
    assert!(dao.whitelisted());
    dao.state.emergency_remove(&addr("ADMIN")).unwrap();
    dao.whitelist.remove(b"TARGET".as_slice());
    assert!(!dao.whitelisted());
}

#[test]
fn test_double_initialize_panics() {
    let mut dao = Dao::setup();
    assert_eq!(dao.state.initialize(addr("ADMIN"), addr("TOKEN2"), QUORUM, VOTING_PERIOD), Err(ContractError::AlreadyInitialized));
}

#[test]
fn test_proposal_fails_below_quorum() {
    let mut dao = Dao::setup();
    let p = dao.propose("VOTER1", ProposalAction::Add("low-vote contract".to_string()));
    dao.now += VOTING_PERIOD + 1;
    assert_eq!(dao.execute(p).err(), Some(ContractError::ProposalFailed));
    assert!(!dao.whitelisted());
}

#[test]
fn test_proposal_fails_more_against_than_for() {
    let mut dao = Dao::setup();
    let p = dao.propose("VOTER1", ProposalAction::Add("contested contract".to_string()));
    let p = dao.vote(p, "VOTER1", false);
    let p = dao.vote(p, "VOTER2", true);
    dao.now += VOTING_PERIOD + 1;
    assert_eq!(dao.execute(p).err(), Some(ContractError::ProposalFailed));
    assert!(!dao.whitelisted());
}

#[test]
fn test_double_vote_panics() {
    let mut dao = Dao::setup();
    let p = dao.propose("VOTER1", ProposalAction::Add("doc".to_string()));
    let p = dao.vote(p, "VOTER1", true);
    assert_eq!(vote(Some(p), true, 500, true, dao.now).err(), Some(ContractError::AlreadyVoted));
}

#[test]
fn test_vote_after_period_panics() {
    let mut dao = Dao::setup();
    let p = dao.propose("VOTER1", ProposalAction::Add("doc".to_string()));
    dao.now += VOTING_PERIOD + 1;
    assert_eq!(vote(Some(p), false, 500, true, dao.now).err(), Some(ContractError::VotingEnded));
}

#[test]
fn test_execute_before_period_ends_panics() {
    let mut dao = Dao::setup();
    let p = dao.propose("VOTER1", ProposalAction::Add("doc".to_string()));
    let p = dao.vote(p, "VOTER1", true);
    let p = dao.vote(p, "VOTER2", true);
    assert_eq!(dao.execute(p).err(), Some(ContractError::VotingNotEnded));
    assert!(!dao.whitelisted());
}

#[test]
fn test_double_execute_panics() {
    let mut dao = Dao::setup();
    let p = dao.propose("VOTER1", ProposalAction::Add("doc".to_string()));
    let p = dao.vote(p, "VOTER1", true);
    let p = dao.vote(p, "VOTER2", true);
    dao.now += VOTING_PERIOD + 1;
    let p = dao.execute(p).unwrap();
    assert_eq!(dao.execute(p).err(), Some(ContractError::AlreadyExecuted));
}

#[test]
fn test_non_admin_set_priority_panics() {
    let mut dao = Dao::setup();
    dao.add_target("doc");
    let entry = dao.whitelist.get(b"TARGET".as_slice()).map(copy_entry);
    assert_eq!(dao.state.set_priority(&addr("VOTER1"), entry, 10).err(), Some(ContractError::Unauthorized));
}

#[test]
fn test_non_admin_emergency_remove_panics() {
    let mut dao = Dao::setup();
    dao.add_target("doc");
    assert_eq!(dao.state.emergency_remove(&addr("VOTER1")), Err(ContractError::Unauthorized));
    assert!(dao.whitelisted());
}

#[test]
fn proposer_without_tokens_is_refused() {
    let mut dao = Dao::setup();
    assert_eq!(dao.state.propose(addr("NOBODY"), addr("T"), ProposalAction::Remove, 0, 0).err(), Some(ContractError::NoVotingPower));
}
