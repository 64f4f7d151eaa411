use std::collections::{HashMap, HashSet};

use horizon_contracts::addr::Addr;
use horizon_contracts::error::ContractError;
use horizon_contracts::multisig_wallet::{get_tx, MultisigWallet, TxProposal, TxStatus};

fn addr(s: &str) -> Addr {
    Addr::new(s.as_bytes().to_vec())
}

fn signer(i: usize) -> Addr {
    addr(&format!("SIGNER{}", i))
}

fn make_signers(n: usize) -> Vec<Addr> {
    (0..n).map(signer).collect()
}

/// The wallet with its stored transactions, approvals and token balances.
struct Wallet {
    w: MultisigWallet,
    txs: HashMap<u64, TxProposal>,
    approved: HashSet<(u64, Vec<u8>)>,
    balances: HashMap<Vec<u8>, i128>,
}

impl Wallet {
    fn new(n: usize, threshold: u32) -> Wallet {
        let mut w = MultisigWallet::new();
        w.initialize(make_signers(n), threshold).unwrap();
        Wallet { w, txs: HashMap::new(), approved: HashSet::new(), balances: HashMap::new() }
    }

    fn propose(&mut self, proposer: &Addr, target: &str, amount: i128, token: &str) -> Result<u64, ContractError> {
        let (id, tx) = self.w.propose(proposer.clone(), addr(target), vec![], amount, addr(token))?;
        self.txs.insert(id, tx);
        Ok(id)
    }

    fn approve(&mut self, who: &Addr, id: u64) -> Result<(), ContractError> {
        let key = (id, who.bytes.clone());
        let already = self.approved.contains(&key);
        let tx = self.txs.remove(&id);
        let stored = tx.as_ref().map(|t| TxProposal {
            proposer: t.proposer.clone(),
            target: t.target.clone(),
            calldata: t.calldata.clone(),
            amount: t.amount,
            token: t.token.clone(),
            approvals: t.approvals,
            status: t.status,
        });
        match self.w.approve(who, id, tx, already) {
            Ok(a) => {
                self.approved.insert(key);
                if let Some((_, Some(transfer))) = &a.executed {
                    *self.balances.entry(transfer.to.bytes.clone()).or_insert(0) += transfer.amount;
                }
                self.txs.insert(id, a.tx);
                Ok(())
            }
            Err(e) => {
                if let Some(t) = stored {
                    self.txs.insert(id, t);
                }
                Err(e)
            }
        }
    }

    fn cancel(&mut self, who: &Addr, id: u64) -> Result<(), ContractError> {
        let tx = self.txs.remove(&id);
        let (t, ev) = self.w.cancel(who, id, tx)?;
        assert_eq!(ev.tx_id, id);
        self.txs.insert(id, t);
        Ok(())
    }

    fn status(&mut self, id: u64) -> TxStatus {
        let t = get_tx(self.txs.remove(&id)).unwrap();
        let s = t.status;
        self.txs.insert(id, t);
        s
    }

    fn balance(&self, who: &str) -> i128 {
        *self.balances.get(who.as_bytes()).unwrap_or(&0)
    }
}

#[test]
fn test_token_transfer_2of3() {
    let mut w = Wallet::new(3, 2);
    let tx_id = w.propose(&signer(0), "RECIPIENT", 500, "TOKEN").unwrap();
    assert_eq!(w.status(tx_id), TxStatus::Pending);
    w.approve(&signer(0), tx_id).unwrap();
    assert_eq!(w.status(tx_id), TxStatus::Pending);
    w.approve(&signer(1), tx_id).unwrap();
    assert_eq!(w.status(tx_id), TxStatus::Executed);
    assert_eq!(w.balance("RECIPIENT"), 500);
}

#[test]
fn test_cancel_tx() {
    let mut w = Wallet::new(3, 2);
    let tx_id = w.propose(&signer(0), "DUMMY", 0, "DUMMY").unwrap();
    w.cancel(&signer(2), tx_id).unwrap();
    assert_eq!(w.status(tx_id), TxStatus::Cancelled);
}

#[test]
fn test_approve_cancelled_tx_panics() {
    let mut w = Wallet::new(3, 2);
    let tx_id = w.propose(&signer(0), "DUMMY", 0, "DUMMY").unwrap();
    w.cancel(&signer(0), tx_id).unwrap();
    assert_eq!(w.approve(&signer(1), tx_id), Err(ContractError::TxNotPending));
}

#[test]
fn test_double_approve_panics() {
    let mut w = Wallet::new(3, 2);
    let tx_id = w.propose(&signer(0), "DUMMY", 0, "DUMMY").unwrap();
    w.approve(&signer(1), tx_id).unwrap();
    assert_eq!(w.approve(&signer(1), tx_id), Err(ContractError::AlreadyApproved));
}

#[test]
fn test_non_signer_cannot_propose() {
    let mut w = Wallet::new(3, 2);
    assert_eq!(w.propose(&addr("OUTSIDER"), "DUMMY", 0, "DUMMY"), Err(ContractError::NotSigner));
}

#[test]
fn test_add_remove_signer_via_multisig() {
    let mut w = Wallet::new(3, 2);
    let tx_id = w.propose(&signer(0), "CONTRACT", 0, "CONTRACT").unwrap();
    w.approve(&signer(0), tx_id).unwrap();
    w.approve(&signer(1), tx_id).unwrap();
    assert_eq!(w.status(tx_id), TxStatus::Executed);

    let new_signer = addr("NEW_SIGNER");
    w.w.add_signer(new_signer.clone()).unwrap();
    assert!(w.w.is_signer(&new_signer));
    assert_eq!(w.w.signers.len(), 4);

    w.w.remove_signer(&new_signer).unwrap();
    assert!(!w.w.is_signer(&new_signer));
    assert_eq!(w.w.signers.len(), 3);
}

#[test]
fn wallet_double_init_is_refused() {
    let mut w = MultisigWallet::new();
    w.initialize(make_signers(2), 1).unwrap();
    assert_eq!(w.initialize(make_signers(2), 1), Err(ContractError::AlreadyInitialized));
}

#[test]
fn test_threshold_exceeds_signers_panics() {
    let mut w = MultisigWallet::new();
    assert_eq!(w.initialize(make_signers(2), 3), Err(ContractError::ThresholdExceedsSignerCount));
}

#[test]
fn test_1of1_executes_immediately() {
    let mut w = Wallet::new(1, 1);
    let tx_id = w.propose(&signer(0), "RECIPIENT", 200, "TOKEN").unwrap();
    w.approve(&signer(0), tx_id).unwrap();
    assert_eq!(w.status(tx_id), TxStatus::Executed);
    assert_eq!(w.balance("RECIPIENT"), 200);
}

#[test]
fn contract_call_executes_without_transfer() {
    let mut w = MultisigWallet::new();
    w.initialize(make_signers(1), 1).unwrap();
    let (id, tx) = w.propose(signer(0), addr("TARGET"), vec![1, 2], 0, addr("TOKEN")).unwrap();
    let a = w.approve(&signer(0), id, Some(tx), false).unwrap();
    let (ev, transfer) = a.executed.unwrap();
    assert_eq!(ev.tx_id, id);
    assert!(transfer.is_none());
}

#[test]
fn zero_threshold_and_unmeetable_removal_are_refused() {
    let mut w = MultisigWallet::new();
    assert_eq!(w.initialize(make_signers(2), 0), Err(ContractError::ThresholdZero));
    w.initialize(make_signers(2), 2).unwrap();
    assert_eq!(w.remove_signer(&signer(0)), Err(ContractError::ThresholdExceedsSignerCount));
    assert_eq!(w.signers.len(), 2);
    assert_eq!(w.remove_signer(&addr("NOBODY")), Err(ContractError::NotSigner));
    assert_eq!(w.add_signer(signer(1)), Err(ContractError::AlreadySigner));
    assert_eq!(w.set_threshold(3), Err(ContractError::ThresholdExceedsSignerCount));
    w.set_threshold(1).unwrap();
    assert_eq!(w.threshold, 1);
}

#[test]
fn unknown_tx_is_not_found() {
    let w = Wallet::new(2, 1);
    assert!(matches!(get_tx(None), Err(ContractError::TxNotFound)));
    assert!(matches!(w.w.approve(&signer(0), 7, None, false), Err(ContractError::TxNotFound)));
    assert!(matches!(w.w.cancel(&signer(0), 7, None), Err(ContractError::TxNotFound)));
}

#[test]
fn signer_and_threshold_getters() {
    let w = MultisigWallet::new();
    assert!(matches!(w.get_signers(), Err(ContractError::NotInitialized)));
    assert_eq!(w.get_threshold(), Err(ContractError::NotInitialized));
    let w = Wallet::new(3, 2);
    assert_eq!(w.w.get_signers().unwrap().len(), 3);
    assert_eq!(w.w.get_threshold(), Ok(2));
}
