//! Batch verification of Merkle proofs: a batch is recorded only when every proof in it
//! leads to the root.
use vstd::prelude::*;

use crate::error::ContractError;
use crate::merkle::{directed_root, step_views, verify_directed_proof, MAX_NODE_BYTES};

verus! {

/// A leaf and its proof: each step a sibling and whether it goes on the left.
pub struct MerkleProof {
    pub leaf: Vec<u8>,
    pub proof: Vec<(Vec<u8>, bool)>,
}

/// The verifier's state: how many batches were recorded.
pub struct BatchMerkleVerifier {
    pub batch_count: u64,
}

/// A recorded batch: its identifier, the root and the leaves.
pub struct VerifiedBatch {
    pub batch_id: u64,
    pub root: Vec<u8>,
    pub leaves: Vec<Vec<u8>>,
}

/// Every proof of the batch leads from its leaf to the root.
pub open spec fn all_valid(root: Seq<u8>, proofs: Seq<MerkleProof>) -> bool {
    forall|i: int| 0 <= i < proofs.len() ==>
        directed_root((#[trigger] proofs[i]).leaf@, step_views(proofs[i].proof@), proofs[i].proof@.len() as int) == root
}

/// The leaf and every sibling of a proof are at most `MAX_NODE_BYTES` long.
pub open spec fn node_sizes_ok(leaf: Seq<u8>, proof: Seq<(Vec<u8>, bool)>) -> bool {
    leaf.len() <= MAX_NODE_BYTES && forall|i: int| 0 <= i < proof.len() ==> (#[trigger] proof[i]).0@.len() <= MAX_NODE_BYTES
}

/// Checks one proof against the root.
pub fn verify_single_proof(root: &Vec<u8>, leaf: &Vec<u8>, proof: &Vec<(Vec<u8>, bool)>) -> (r: bool)
    requires
        node_sizes_ok(leaf@, proof@),
    ensures
        r == (directed_root(leaf@, step_views(proof@), proof@.len() as int) == root@),
{
    verify_directed_proof(root, leaf, proof)
}

impl BatchMerkleVerifier {
    /// A verifier with no batches.
    pub fn new() -> (r: BatchMerkleVerifier)
        ensures
            r.batch_count == 0,
    {
        BatchMerkleVerifier { batch_count: 0 }
    }

    /// Verifies a batch of proofs against `root`. When all are valid the batch is recorded
    /// under the next identifier (`Some`); otherwise nothing is recorded (`None`).
    pub fn verify_batch(&mut self, root: Vec<u8>, proofs: &Vec<MerkleProof>) -> (r: Result<Option<VerifiedBatch>, ContractError>)
        requires
            forall|i: int| 0 <= i < proofs@.len() ==> node_sizes_ok((#[trigger] proofs@[i]).leaf@, proofs@[i].proof@),
        ensures
            !all_valid(root@, proofs@) ==> r == Ok::<Option<VerifiedBatch>, ContractError>(None),
            (all_valid(root@, proofs@) && old(self).batch_count < u64::MAX) <==> (r matches Ok(Some(_))),
            r matches Ok(Some(b)) ==> {
                &&& b.batch_id == old(self).batch_count + 1
                &&& final(self).batch_count == b.batch_id
                &&& b.root@ == root@
                &&& b.leaves@.len() == proofs@.len()
                &&& forall|i: int| 0 <= i < proofs@.len() ==> (#[trigger] b.leaves@[i])@ == proofs@[i].leaf@
            },
            !(r matches Ok(Some(_))) ==> final(self).batch_count == old(self).batch_count,
            r matches Err(e) ==> e == ContractError::Overflow,
    {
        let n = proofs.len();
        let mut i: usize = 0;
        while i < n
            invariant
                i <= n,
                n == proofs@.len(),
                forall|k: int| 0 <= k < i ==> directed_root((#[trigger] proofs@[k]).leaf@, step_views(proofs@[k].proof@),
                    proofs@[k].proof@.len() as int) == root@,
                forall|k: int| 0 <= k < proofs@.len() ==> node_sizes_ok((#[trigger] proofs@[k]).leaf@, proofs@[k].proof@),
            decreases n - i,
        {
            assert(node_sizes_ok(proofs@[i as int].leaf@, proofs@[i as int].proof@));
            if !verify_single_proof(&root, &proofs[i].leaf, &proofs[i].proof) {
                return Ok(None);
            }
            i += 1;
        }
        if self.batch_count == u64::MAX {
            return Err(ContractError::Overflow);
        }
        let batch_id = self.batch_count + 1;
        self.batch_count = batch_id;
        let mut leaves: Vec<Vec<u8>> = Vec::new();
        let mut k: usize = 0;
        while k < n
            invariant
                k <= n,
                n == proofs@.len(),
                leaves@.len() == k,
                forall|j: int| 0 <= j < k ==> (#[trigger] leaves@[j])@ == proofs@[j].leaf@,
            decreases n - k,
        {
            let leaf = proofs[k].leaf.clone();
            assert(leaf@ == proofs@[k as int].leaf@);
            leaves.push(leaf);
            k += 1;
        }
        Ok(Some(VerifiedBatch { batch_id, root, leaves }))
    }
}

} // verus!
