//! M-of-N multisig wallet: signers propose transactions, which execute as soon as the
//! threshold of approvals is reached; signer and threshold changes go through the wallet.
use vstd::prelude::*;

use crate::addr::{addr_in, addr_views, contains_view, Addr};
use crate::error::{is_err, ContractError};
use crate::signer_set::{lemma_without_len, remove_all, without};

verus! {

/// Lifecycle of a proposed transaction.
#[derive(Clone, Copy, Debug, PartialEq, Eq, Structural)]
pub enum TxStatus {
    Pending,
    Executed,
    Cancelled,
}

/// A proposed transaction: a token transfer (`amount > 0`) or a contract call.
pub struct TxProposal {
    pub proposer: Addr,
    pub target: Addr,
    pub calldata: Vec<u8>,
    pub amount: i128,
    pub token: Addr,
    pub approvals: u32,
    pub status: TxStatus,
}

/// Event: a transaction was executed.
#[derive(Clone, Copy, Debug, PartialEq, Eq, Structural)]
pub struct TxExecuted {
    pub tx_id: u64,
}

/// Event: a transaction was cancelled.
#[derive(Clone, Copy, Debug, PartialEq, Eq, Structural)]
pub struct TxCancelled {
    pub tx_id: u64,
}

/// A token transfer an executed transaction performs.
pub struct TxTransfer {
    pub token: Addr,
    pub to: Addr,
    pub amount: i128,
}

/// The outcome of an approval: the transaction and, when it reached the threshold, its
/// execution.
pub struct TxApproval {
    pub tx: TxProposal,
    pub executed: Option<(TxExecuted, Option<TxTransfer>)>,
}

/// The wallet's instance state.
pub struct MultisigWallet {
    pub initialized: bool,
    pub signers: Vec<Addr>,
    /// Approvals required (M).
    pub threshold: u32,
    pub next_tx_id: u64,
}

// ── Mathematical model ──────────────────────────────────────────────────────

/// A threshold that the signers can meet: at least 1 and at most their number.
pub open spec fn threshold_valid(n: int, threshold: int) -> bool {
    1 <= threshold <= n
}

/// `t2` is `t1` with possibly other approvals and status.
pub open spec fn same_tx(t1: TxProposal, t2: TxProposal) -> bool {
    &&& t2.proposer@ == t1.proposer@
    &&& t2.target@ == t1.target@
    &&& t2.calldata@ == t1.calldata@
    &&& t2.amount == t1.amount
    &&& t2.token@ == t1.token@
}

impl MultisigWallet {
    /// Once initialized, the threshold can be met by the signers.
    pub open spec fn wf(&self) -> bool {
        self.initialized ==> threshold_valid(self.signers@.len() as int, self.threshold as int)
    }
}

// ── Executable functions ────────────────────────────────────────────────────

/// Checks that `threshold` is at least 1 and at most the number of signers.
pub fn _validate_threshold(signers: &Vec<Addr>, threshold: u32) -> (r: Result<(), ContractError>)
    ensures
        threshold == 0 ==> is_err(r, ContractError::ThresholdZero),
        (threshold > 0 && threshold > signers@.len()) ==> is_err(r, ContractError::ThresholdExceedsSignerCount),
        r is Ok <==> threshold_valid(signers@.len() as int, threshold as int),
{
    if threshold == 0 {
        return Err(ContractError::ThresholdZero);
    }
    if threshold as usize > signers.len() {
        return Err(ContractError::ThresholdExceedsSignerCount);
    }
    Ok(())
}

/// The token transfer a transaction performs: `amount` of `token` to `target` when the
/// amount is positive; nothing otherwise (calls are relayed off-chain).
pub fn _execute(tx: &TxProposal) -> (r: Option<TxTransfer>)
    ensures
        tx.amount > 0 <==> r is Some,
        r matches Some(t) ==> t.token@ == tx.token@ && t.to@ == tx.target@ && t.amount == tx.amount,
{
    if tx.amount > 0 {
        Some(TxTransfer { token: tx.token.duplicate(), to: tx.target.duplicate(), amount: tx.amount })
    } else {
        None
    }
}

impl MultisigWallet {
    /// A wallet that was never initialized.
    pub fn new() -> (r: MultisigWallet)
        ensures
            !r.initialized,
            r.signers@.len() == 0,
            r.next_tx_id == 0,
            r.wf(),
    {
        MultisigWallet { initialized: false, signers: Vec::new(), threshold: 0, next_tx_id: 0 }
    }

    /// Sets the signers and the M-of-N threshold, once.
    pub fn initialize(&mut self, signers: Vec<Addr>, threshold: u32) -> (r: Result<(), ContractError>)
        requires
            old(self).wf(),
        ensures
            final(self).wf(),
            old(self).initialized ==> is_err(r, ContractError::AlreadyInitialized),
            (!old(self).initialized && threshold == 0) ==> is_err(r, ContractError::ThresholdZero),
            (!old(self).initialized && threshold > 0 && threshold > signers@.len())
                ==> is_err(r, ContractError::ThresholdExceedsSignerCount),
            (!old(self).initialized && threshold_valid(signers@.len() as int, threshold as int)) <==> r is Ok,
            r is Ok ==> final(self).initialized && addr_views(final(self).signers@) == addr_views(signers@)
                && final(self).threshold == threshold && final(self).next_tx_id == 0,
            r is Err ==> addr_views(final(self).signers@) == addr_views(old(self).signers@)
                && final(self).threshold == old(self).threshold && final(self).initialized == old(self).initialized
                && final(self).next_tx_id == old(self).next_tx_id,
    {
        if self.initialized {
            return Err(ContractError::AlreadyInitialized);
        }
        _validate_threshold(&signers, threshold)?;
        self.signers = signers;
        self.threshold = threshold;
        self.next_tx_id = 0;
        self.initialized = true;
        Ok(())
    }

    /// The signers; the wallet must be initialized.
    pub fn get_signers(&self) -> (r: Result<&Vec<Addr>, ContractError>)
        ensures
            r is Err ==> is_err(r, ContractError::NotInitialized),
            !self.initialized <==> is_err(r, ContractError::NotInitialized),
            r matches Ok(s) ==> s@ == self.signers@,
    {
        if !self.initialized {
            return Err(ContractError::NotInitialized);
        }
        Ok(&self.signers)
    }

    /// The M-of-N threshold; the wallet must be initialized.
    pub fn get_threshold(&self) -> (r: Result<u32, ContractError>)
        ensures
            r is Err ==> is_err(r, ContractError::NotInitialized),
            !self.initialized <==> is_err(r, ContractError::NotInitialized),
            r matches Ok(t) ==> t == self.threshold,
    {
        if !self.initialized {
            return Err(ContractError::NotInitialized);
        }
        Ok(self.threshold)
    }

    /// Whether `addr` is a signer.
    pub fn is_signer(&self, addr: &Addr) -> (r: bool)
        ensures
            r == contains_view(self.signers@, addr@),
    {
        addr_in(&self.signers, addr)
    }

    /// Refuses unless `addr` is a signer.
    pub fn _require_signer(&self, addr: &Addr) -> (r: Result<(), ContractError>)
        ensures
            r is Ok <==> contains_view(self.signers@, addr@),
            r is Err ==> is_err(r, ContractError::NotSigner),
    {
        if !addr_in(&self.signers, addr) {
            return Err(ContractError::NotSigner);
        }
        Ok(())
    }

    /// Adds a signer (authorised by the wallet itself). Refused for an existing signer.
    pub fn add_signer(&mut self, new_signer: Addr) -> (r: Result<(), ContractError>)
        requires
            old(self).wf(),
        ensures
            final(self).wf(),
            contains_view(old(self).signers@, new_signer@) <==> is_err(r, ContractError::AlreadySigner),
            r is Ok ==> addr_views(final(self).signers@) == addr_views(old(self).signers@).push(new_signer@),
            r is Err ==> addr_views(final(self).signers@) == addr_views(old(self).signers@),
            final(self).threshold == old(self).threshold,
            final(self).next_tx_id == old(self).next_tx_id,
            final(self).initialized == old(self).initialized,
    {
        if addr_in(&self.signers, &new_signer) {
            return Err(ContractError::AlreadySigner);
        }
        proof {
            assert(addr_views(self.signers@.push(new_signer)) =~= addr_views(self.signers@).push(new_signer@));
        }
        self.signers.push(new_signer);
        Ok(())
    }

    /// Removes every occurrence of a signer (authorised by the wallet itself). Refused for
    /// a non-signer and when the rest could not meet the threshold.
    pub fn remove_signer(&mut self, signer: &Addr) -> (r: Result<(), ContractError>)
        requires
            old(self).wf(),
        ensures
            final(self).wf(),
            !contains_view(old(self).signers@, signer@) ==> is_err(r, ContractError::NotSigner),
            (contains_view(old(self).signers@, signer@)
                && threshold_valid(without(addr_views(old(self).signers@), signer@).len() as int, old(self).threshold as int))
                <==> r is Ok,
            r is Ok ==> addr_views(final(self).signers@) == without(addr_views(old(self).signers@), signer@),
            r is Err ==> addr_views(final(self).signers@) == addr_views(old(self).signers@),
            final(self).threshold == old(self).threshold,
            final(self).next_tx_id == old(self).next_tx_id,
            final(self).initialized == old(self).initialized,
    {
        let (new_signers, found) = remove_all(&self.signers, signer);
        if !found {
            return Err(ContractError::NotSigner);
        }
        proof { lemma_without_len(addr_views(self.signers@), signer@); }
        _validate_threshold(&new_signers, self.threshold)?;
        self.signers = new_signers;
        Ok(())
    }

    /// Changes the threshold (authorised by the wallet itself); the signers must be able to
    /// meet it.
    pub fn set_threshold(&mut self, threshold: u32) -> (r: Result<(), ContractError>)
        requires
            old(self).wf(),
        ensures
            final(self).wf(),
            threshold_valid(old(self).signers@.len() as int, threshold as int) <==> r is Ok,
            threshold == 0 ==> is_err(r, ContractError::ThresholdZero),
            r is Ok ==> final(self).threshold == threshold,
            r is Err ==> final(self).threshold == old(self).threshold,
            addr_views(final(self).signers@) == addr_views(old(self).signers@),
            final(self).next_tx_id == old(self).next_tx_id,
            final(self).initialized == old(self).initialized,
    {
        _validate_threshold(&self.signers, threshold)?;
        self.threshold = threshold;
        Ok(())
    }

    /// A signer proposes a transaction under the next identifier.
    pub fn propose(&mut self, proposer: Addr, target: Addr, calldata: Vec<u8>, amount: i128, token: Addr) -> (r: Result<(u64, TxProposal), ContractError>)
        requires
            old(self).wf(),
        ensures
            final(self).wf(),
            !contains_view(old(self).signers@, proposer@) ==> is_err(r, ContractError::NotSigner),
            (contains_view(old(self).signers@, proposer@) && old(self).next_tx_id < u64::MAX) <==> r is Ok,
            r matches Ok((id, t)) ==> {
                &&& id == old(self).next_tx_id
                &&& final(self).next_tx_id == id + 1
                &&& t.proposer@ == proposer@
                &&& t.target@ == target@
                &&& t.calldata@ == calldata@
                &&& t.amount == amount
                &&& t.token@ == token@
                &&& t.approvals == 0
                &&& t.status == TxStatus::Pending
            },
            r is Err ==> final(self).next_tx_id == old(self).next_tx_id,
            addr_views(final(self).signers@) == addr_views(old(self).signers@),
            final(self).threshold == old(self).threshold,
            final(self).initialized == old(self).initialized,
    {
        self._require_signer(&proposer)?;
        if self.next_tx_id == u64::MAX {
            return Err(ContractError::Overflow);
        }
        let tx_id = self.next_tx_id;
        self.next_tx_id = tx_id + 1;
        Ok((tx_id, TxProposal { proposer, target, calldata, amount, token, approvals: 0, status: TxStatus::Pending }))
    }

    /// A signer approves a pending transaction, once; the approval that reaches the
    /// threshold executes it.
    pub fn approve(&self, signer: &Addr, tx_id: u64, tx: Option<TxProposal>, already_approved: bool) -> (r: Result<TxApproval, ContractError>)
        ensures
            !contains_view(self.signers@, signer@) ==> is_err(r, ContractError::NotSigner),
            (contains_view(self.signers@, signer@) && tx is None) ==> is_err(r, ContractError::TxNotFound),
            tx matches Some(t) ==> {
                &&& (contains_view(self.signers@, signer@) && t.status != TxStatus::Pending) ==> is_err(r, ContractError::TxNotPending)
                &&& (contains_view(self.signers@, signer@) && t.status == TxStatus::Pending && already_approved)
                    ==> is_err(r, ContractError::AlreadyApproved)
                &&& (contains_view(self.signers@, signer@) && t.status == TxStatus::Pending && !already_approved
                    && t.approvals < u32::MAX) <==> r is Ok
                &&& r matches Ok(a) ==> {
                    &&& same_tx(t, a.tx)
                    &&& a.tx.approvals == t.approvals + 1
                    &&& if a.tx.approvals >= self.threshold {
                        &&& a.tx.status == TxStatus::Executed
                        &&& a.executed matches Some((ev, transfer)) && ev.tx_id == tx_id
                            && (t.amount > 0 <==> transfer is Some)
                            && (transfer matches Some(x) ==> x.token@ == t.token@ && x.to@ == t.target@ && x.amount == t.amount)
                    } else {
                        a.tx.status == TxStatus::Pending && a.executed is None
                    }
                }
            },
    {
        self._require_signer(signer)?;
        let t = match tx {
            Some(t) => t,
            None => return Err(ContractError::TxNotFound),
        };
        if t.status != TxStatus::Pending {
            return Err(ContractError::TxNotPending);
        }
        if already_approved {
            return Err(ContractError::AlreadyApproved);
        }
        if t.approvals == u32::MAX {
            return Err(ContractError::Overflow);
        }
        let approvals = t.approvals + 1;
        let reached = approvals >= self.threshold;
        let new_tx = TxProposal {
            proposer: t.proposer,
            target: t.target,
            calldata: t.calldata,
            amount: t.amount,
            token: t.token,
            approvals,
            status: if reached { TxStatus::Executed } else { TxStatus::Pending },
        };
        let executed = if reached { Some((TxExecuted { tx_id }, _execute(&new_tx))) } else { None };
        Ok(TxApproval { tx: new_tx, executed })
    }

    /// A signer cancels a pending transaction.
    pub fn cancel(&self, signer: &Addr, tx_id: u64, tx: Option<TxProposal>) -> (r: Result<(TxProposal, TxCancelled), ContractError>)
        ensures
            !contains_view(self.signers@, signer@) ==> is_err(r, ContractError::NotSigner),
            (contains_view(self.signers@, signer@) && tx is None) ==> is_err(r, ContractError::TxNotFound),
            tx matches Some(t) ==> {
                &&& (contains_view(self.signers@, signer@) && t.status != TxStatus::Pending) ==> is_err(r, ContractError::TxNotPending)
                &&& (contains_view(self.signers@, signer@) && t.status == TxStatus::Pending) <==> r is Ok
                &&& r matches Ok((n, ev)) ==> same_tx(t, n) && n.status == TxStatus::Cancelled && n.approvals == t.approvals
                    && ev.tx_id == tx_id
            },
    {
        self._require_signer(signer)?;
        let t = match tx {
            Some(t) => t,
            None => return Err(ContractError::TxNotFound),
        };
        if t.status != TxStatus::Pending {
            return Err(ContractError::TxNotPending);
        }
        Ok((TxProposal {
            proposer: t.proposer,
            target: t.target,
            calldata: t.calldata,
            amount: t.amount,
            token: t.token,
            approvals: t.approvals,
            status: TxStatus::Cancelled,
        }, TxCancelled { tx_id }))
    }
}

/// A stored transaction.
pub fn get_tx(tx: Option<TxProposal>) -> (r: Result<TxProposal, ContractError>)
    ensures
        tx is None ==> is_err(r, ContractError::TxNotFound),
        tx matches Some(t) ==> (r matches Ok(x) && x == t),
{
    match tx {
        Some(t) => Ok(t),
        None => Err(ContractError::TxNotFound),
    }
}

} // verus!
