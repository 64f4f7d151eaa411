//! Cross-chain messaging: intents and relays checked against authorised relayers, and
//! messages numbered by a nonce for replay protection.
use vstd::prelude::*;

use crate::addr::{addr_eq, opt_view, Addr};
use crate::error::{is_err, ContractError};

verus! {

/// A cross-chain intent as aggregators index it.
pub struct CrossChainIntent {
    pub target_network: String,
    pub target_address: String,
    pub hash: Vec<u8>,
}

/// A cross-chain message as emitted.
pub struct CrossChainMsgEvent {
    pub nonce: u64,
    pub sender: Addr,
    pub destination_chain: String,
    pub destination_address: String,
    pub payload: Vec<u8>,
}

/// The bridge's instance state: its admin, once one has set a relayer.
pub struct CrossChainBridge {
    pub admin: Option<Addr>,
}

/// The handler's instance state: the last nonce used.
pub struct CrossChainHandler {
    pub nonce: u64,
}

/// A user's intent (the user authorises).
pub fn init_intent(target_network: String, target_address: String, hash: Vec<u8>) -> (r: CrossChainIntent)
    ensures
        r.target_network@ == target_network@,
        r.target_address@ == target_address@,
        r.hash@ == hash@,
{
    CrossChainIntent { target_network, target_address, hash }
}

/// A relay of an intent; only an authorised relayer (`is_relayer`) may relay.
pub fn relay(is_relayer: bool, target_network: String, target_address: String, hash: Vec<u8>) -> (r: Result<CrossChainIntent, ContractError>)
    ensures
        r is Err ==> is_err(r, ContractError::UnauthorizedRelayer),
        !is_relayer <==> is_err(r, ContractError::UnauthorizedRelayer),
        r matches Ok(i) ==> i.target_network@ == target_network@ && i.target_address@ == target_address@ && i.hash@ == hash@,
{
    if !is_relayer {
        return Err(ContractError::UnauthorizedRelayer);
    }
    Ok(CrossChainIntent { target_network, target_address, hash })
}

/// A relayer's stored status, false when none is stored.
pub fn is_relayer(stored: Option<bool>) -> (r: bool)
    ensures
        r == (stored == Some(true)),
{
    match stored {
        Some(b) => b,
        None => false,
    }
}

impl CrossChainBridge {
    /// A bridge with no admin yet.
    pub fn new() -> (r: CrossChainBridge)
        ensures
            r.admin is None,
    {
        CrossChainBridge { admin: None }
    }

    /// Sets a relayer's status; only the admin may, and the first caller becomes the admin.
    /// Returns the status to store.
    pub fn set_relayer(&mut self, admin: Addr, status: bool) -> (r: Result<bool, ContractError>)
        ensures
            r is Err ==> is_err(r, ContractError::NotAuthorizedAdmin),
            old(self).admin matches Some(a) ==> (a@ != admin@ <==> is_err(r, ContractError::NotAuthorizedAdmin)),
            old(self).admin is None ==> r == Ok::<bool, ContractError>(status) && opt_view(final(self).admin) == Some(admin@),
            old(self).admin is Some ==> opt_view(final(self).admin) == opt_view(old(self).admin),
            r matches Ok(s) ==> s == status,
    {
        match &self.admin {
            Some(a) => {
                if !addr_eq(a, &admin) {
                    return Err(ContractError::NotAuthorizedAdmin);
                }
            },
            None => {
                self.admin = Some(admin);
            },
        }
        Ok(status)
    }
}

impl CrossChainHandler {
    /// A handler that has sent nothing.
    pub fn new() -> (r: CrossChainHandler)
        ensures
            r.nonce == 0,
    {
        CrossChainHandler { nonce: 0 }
    }

    /// Sends a message (the sender authorises) under the next nonce.
    pub fn send_message(&mut self, sender: Addr, destination_chain: String, destination_address: String, payload: Vec<u8>)
        -> (r: Result<CrossChainMsgEvent, ContractError>)
        ensures
            r is Err ==> is_err(r, ContractError::Overflow),
            old(self).nonce == u64::MAX <==> is_err(r, ContractError::Overflow),
            r matches Ok(m) ==> m.nonce == old(self).nonce + 1 && final(self).nonce == m.nonce && m.sender@ == sender@
                && m.destination_chain@ == destination_chain@ && m.destination_address@ == destination_address@
                && m.payload@ == payload@,
            r is Err ==> final(self).nonce == old(self).nonce,
    {
        if self.nonce == u64::MAX {
            return Err(ContractError::Overflow);
        }
        let nonce = self.nonce + 1;
        self.nonce = nonce;
        Ok(CrossChainMsgEvent { nonce, sender, destination_chain, destination_address, payload })
    }

    /// The last nonce used.
    pub fn get_nonce(&self) -> (r: u64)
        ensures
            r == self.nonce,
    {
        self.nonce
    }
}

} // verus!
