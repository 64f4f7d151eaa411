//! Merkle airdrop: users claim their allocation once with a proof against the root until
//! the expiration; afterwards the admin withdraws the rest.
use vstd::prelude::*;

use crate::addr::{is_address_strkey, opt_view, Addr};
use crate::error::{is_err, ContractError};
use crate::merkle::{
    address_xdr, address_xdr_spec, i128_xdr, i128_xdr_spec, sha256, sha256_spec, sorted_root, verify_sorted_proof, views,
    MAX_NODE_BYTES,
};

verus! {

/// The airdrop's instance state.
pub struct AirdropContract {
    pub admin: Option<Addr>,
    pub token: Option<Addr>,
    pub merkle_root: Vec<u8>,
    /// Claims are accepted up to this timestamp.
    pub expiration: u64,
}

/// Leaf of a claim: SHA-256 of the user's address XDR followed by the amount's XDR.
pub open spec fn leaf_spec(user_xdr: Seq<u8>, amount: i128) -> Seq<u8> {
    sha256_spec(user_xdr + i128_xdr_spec(amount))
}

impl AirdropContract {
    /// An airdrop that was never initialized.
    pub fn new() -> (r: AirdropContract)
        ensures
            r.admin is None,
            r.token is None,
    {
        AirdropContract { admin: None, token: None, merkle_root: Vec::new(), expiration: 0 }
    }

    /// One-time setup with the token, the Merkle root of the allocations and the expiration.
    pub fn initialize(&mut self, admin: Addr, token: Addr, merkle_root: Vec<u8>, expiration: u64) -> (r: Result<(), ContractError>)
        ensures
            old(self).admin is Some <==> is_err(r, ContractError::AlreadyInitialized),
            r is Ok ==> opt_view(final(self).admin) == Some(admin@) && opt_view(final(self).token) == Some(token@)
                && final(self).merkle_root@ == merkle_root@ && final(self).expiration == expiration,
            r is Err ==> opt_view(final(self).admin) == opt_view(old(self).admin)
                && final(self).merkle_root@ == old(self).merkle_root@ && final(self).expiration == old(self).expiration,
    {
        if self.admin.is_some() {
            return Err(ContractError::AlreadyInitialized);
        }
        self.admin = Some(admin);
        self.token = Some(token);
        self.merkle_root = merkle_root;
        self.expiration = expiration;
        Ok(())
    }

    /// Checks a claim of `amount` by `user`: before the expiration, once per user, and with a
    /// proof that leads to the root from the user's leaf, the hash of the XDR of the user's
    /// address followed by the XDR of the amount. An address that has no XDR form is refused.
    pub fn claim(&self, user: &Addr, amount: i128, proof: &Vec<Vec<u8>>, already_claimed: bool, now: u64) -> (r: Result<(), ContractError>)
        requires
            forall|i: int| 0 <= i < proof@.len() ==> (#[trigger] proof@[i])@.len() <= MAX_NODE_BYTES,
        ensures
            self.admin is None ==> is_err(r, ContractError::NotInitialized),
            (self.admin is Some && now > self.expiration) ==> is_err(r, ContractError::AirdropExpired),
            (self.admin is Some && now <= self.expiration && already_claimed) ==> is_err(r, ContractError::AlreadyClaimed),
            r is Ok ==> self.admin is Some && now <= self.expiration && !already_claimed
                && sorted_root(leaf_spec(address_xdr_spec(user@), amount), views(proof@), proof@.len() as int) == self.merkle_root@,
            is_err(r, ContractError::InvalidProof) ==>
                sorted_root(leaf_spec(address_xdr_spec(user@), amount), views(proof@), proof@.len() as int) != self.merkle_root@,
            r matches Err(e) ==> e == ContractError::NotInitialized || e == ContractError::AirdropExpired
                || e == ContractError::AlreadyClaimed || e == ContractError::InvalidProof || e == ContractError::InvalidAddress,
            (self.admin is Some && now <= self.expiration && !already_claimed && is_address_strkey(user@)) ==> (r is Ok
                <==> sorted_root(leaf_spec(address_xdr_spec(user@), amount), views(proof@), proof@.len() as int) == self.merkle_root@),
            is_err(r, ContractError::InvalidAddress) <==> (self.admin is Some && now <= self.expiration && !already_claimed
                && !is_address_strkey(user@)),
    {
        if self.admin.is_none() {
            return Err(ContractError::NotInitialized);
        }
        if now > self.expiration {
            return Err(ContractError::AirdropExpired);
        }
        if already_claimed {
            return Err(ContractError::AlreadyClaimed);
        }
        match address_xdr(user) {
            None => Err(ContractError::InvalidAddress),
            Some(user_xdr) => self.check_claim(&user_xdr, amount, proof, already_claimed, now),
        }
    }

    /// Checks a claim of `amount` by the user whose address XDR is `user_xdr`: before the
    /// expiration, once per user, and with a proof that leads from the user's leaf to the root.
    pub fn check_claim(&self, user_xdr: &Vec<u8>, amount: i128, proof: &Vec<Vec<u8>>, already_claimed: bool, now: u64) -> (r: Result<(), ContractError>)
        requires
            user_xdr@.len() <= 48,
            forall|i: int| 0 <= i < proof@.len() ==> (#[trigger] proof@[i])@.len() <= MAX_NODE_BYTES,
        ensures
            self.admin is None ==> is_err(r, ContractError::NotInitialized),
            (self.admin is Some && now > self.expiration) ==> is_err(r, ContractError::AirdropExpired),
            (self.admin is Some && now <= self.expiration && already_claimed) ==> is_err(r, ContractError::AlreadyClaimed),
            (self.admin is Some && now <= self.expiration && !already_claimed) ==> (
                (sorted_root(leaf_spec(user_xdr@, amount), views(proof@), proof@.len() as int) == self.merkle_root@) <==> r is Ok),
            (self.admin is Some && now <= self.expiration && !already_claimed
                && sorted_root(leaf_spec(user_xdr@, amount), views(proof@), proof@.len() as int) != self.merkle_root@)
                ==> is_err(r, ContractError::InvalidProof),
    {
        if self.admin.is_none() {
            return Err(ContractError::NotInitialized);
        }
        if now > self.expiration {
            return Err(ContractError::AirdropExpired);
        }
        if already_claimed {
            return Err(ContractError::AlreadyClaimed);
        }
        let mut leaf_data = user_xdr.clone();
        let amount_xdr = i128_xdr(amount);
        let mut i: usize = 0;
        let ghost start = leaf_data@;
        assert(start == user_xdr@);
        while i < amount_xdr.len()
            invariant
                i <= amount_xdr@.len(),
                leaf_data@ == start + amount_xdr@.subrange(0, i as int),
            decreases amount_xdr@.len() - i,
        {
            leaf_data.push(amount_xdr[i]);
            assert(amount_xdr@.subrange(0, i + 1) == amount_xdr@.subrange(0, i as int).push(amount_xdr@[i as int]));
            i += 1;
        }
        assert(amount_xdr@.subrange(0, amount_xdr@.len() as int) == amount_xdr@);
        let leaf = sha256(&leaf_data);
        if !verify_sorted_proof(proof, &self.merkle_root, leaf) {
            return Err(ContractError::InvalidProof);
        }
        Ok(())
    }

    /// The admin withdraws what is left once the airdrop expired: the contract's balance,
    /// when positive, is to be transferred.
    pub fn withdraw(&self, balance: i128, now: u64) -> (r: Result<Option<i128>, ContractError>)
        ensures
            self.admin is None ==> is_err(r, ContractError::NotInitialized),
            (self.admin is Some && now <= self.expiration) ==> is_err(r, ContractError::AirdropNotYetExpired),
            (self.admin is Some && now > self.expiration) ==> r == Ok::<Option<i128>, ContractError>(
                if balance > 0 { Some(balance) } else { None }),
    {
        if self.admin.is_none() {
            return Err(ContractError::NotInitialized);
        }
        if now <= self.expiration {
            return Err(ContractError::AirdropNotYetExpired);
        }
        Ok(if balance > 0 { Some(balance) } else { None })
    }
}

} // verus!
