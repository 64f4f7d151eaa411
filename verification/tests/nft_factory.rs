use std::collections::HashMap;

use horizon_contracts::addr::Addr;
use horizon_contracts::nft_factory::{
    batch_transfer, owner_of, token_metadata, transfer, update_metadata, Error, NftFactory, RoyaltyInfo,
    TokenMetadata, TransferItem,
};

fn addr(s: &str) -> Addr {
    Addr::new(s.as_bytes().to_vec())
}

/// The collection with its per-token records.
struct Collection {
    c: NftFactory,
    owners: HashMap<u32, Addr>,
    uris: HashMap<u32, String>,
    royalties: HashMap<u32, RoyaltyInfo>,
}

impl Collection {
    fn new(bps: u32) -> Collection {
        let mut c = NftFactory::new();
        c.initialize(addr("ADMIN"), addr("MINTER"), "EventHorizon NFTs".to_string(), "EH".to_string(), bps).unwrap();
        Collection { c, owners: HashMap::new(), uris: HashMap::new(), royalties: HashMap::new() }
    }

    fn mint(&mut self, to: &str, uri: &str, bps: Option<u32>) -> u32 {
        let t = self.c.mint(addr(to), uri.to_string(), bps).unwrap();
        self.owners.insert(t.token_id, t.owner);
        self.uris.insert(t.token_id, t.metadata.uri);
        if let Some(r) = t.royalty {
            self.royalties.insert(t.token_id, r);
        }
        t.token_id
    }

    fn owner(&self, id: u32) -> Vec<u8> {
        owner_of(self.owners.get(&id).cloned()).unwrap().bytes
    }

    fn transfer(&mut self, from: &str, to: &str, id: u32) -> Result<(), Error> {
        let new_owner = transfer(&addr(from), addr(to), self.owners.get(&id).cloned())?;
        self.owners.insert(id, new_owner);
        Ok(())
    }
}

#[test]
fn test_lifecycle_and_events() {
    let mut col = Collection::new(500);

    let token_id = col.mint("USER", "ipfs://QmExample", Some(750));
    assert_eq!(token_id, 0);
    assert_eq!(col.owner(token_id), b"USER".to_vec());
    assert_eq!(col.uris[&0], "ipfs://QmExample");

    let minted = col.c.batch_mint(&addr("USER"), vec!["ipfs://a".to_string(), "ipfs://b".to_string()], None).unwrap();
    assert_eq!(minted.len(), 2);
    for t in minted {
        col.owners.insert(t.token_id, t.owner);
    }
    assert_eq!(col.c.total_supply(), 3);

    col.transfer("USER", "RECIPIENT", 0).unwrap();
    assert_eq!(col.owner(0), b"RECIPIENT".to_vec());

    let items = vec![
        TransferItem { to: addr("RECIPIENT"), token_id: 1, stored_owner: col.owners.get(&1).cloned() },
        TransferItem { to: addr("RECIPIENT"), token_id: 2, stored_owner: col.owners.get(&2).cloned() },
    ];
    batch_transfer(&addr("USER"), &items).unwrap();
    for it in items {
        col.owners.insert(it.token_id, it.to);
    }
    assert_eq!(col.owner(1), b"RECIPIENT".to_vec());
    assert_eq!(col.owner(2), b"RECIPIENT".to_vec());

    let own = col.royalties.remove(&0);
    let paid = col.c.pay_royalty(own, addr("RECIPIENT"), 0, 1000, addr("ASSET")).unwrap();
    assert_eq!(paid.token_id, 0);
    assert_eq!(paid.amount, 1000);
    assert_eq!(paid.recipient.bytes, b"USER".to_vec());
    assert_eq!(paid.sender.bytes, b"RECIPIENT".to_vec());
}

#[test]
fn test_unauthorized_transfer() {
    let mut col = Collection::new(0);
    col.mint("USER", "uri", None);
    assert_eq!(col.transfer("HACKER", "HACKER", 0), Err(Error::NotTokenOwner));
    assert_eq!(Error::NotTokenOwner.code(), 6);
}

#[test]
fn test_admin_functions() {
    let mut col = Collection::new(0);
    col.c.set_admin(&addr("ADMIN"), addr("NEW_ADMIN")).unwrap();
    assert_eq!(col.c.admin.as_ref().unwrap().bytes, b"NEW_ADMIN".to_vec());
    assert_eq!(col.c.set_admin(&addr("ADMIN"), addr("X")), Err(Error::Unauthorized));
}

#[test]
fn default_royalty_applies_without_token_royalty() {
    let col = Collection::new(250);
    let info = col.c.royalty_info(None).unwrap();
    assert_eq!(info.bps, 250);
    assert_eq!(info.recipient.bytes, b"ADMIN".to_vec());
}

#[test]
fn mint_checks_state_and_rate() {
    let mut c = NftFactory::new();
    assert!(matches!(c.mint(addr("U"), "u".to_string(), None), Err(Error::NotInitialized)));
    c.initialize(addr("ADMIN"), addr("MINTER"), "N".to_string(), "S".to_string(), 0).unwrap();
    assert!(matches!(c.mint(addr("U"), "u".to_string(), Some(10_001)), Err(Error::InvalidRoyaltyBps)));
    assert_eq!(c.total_supply(), 0);
    assert_eq!(
        c.initialize(addr("ADMIN"), addr("MINTER"), "N".to_string(), "S".to_string(), 0),
        Err(Error::AlreadyInitialized)
    );
    assert_eq!(Error::NotInitialized.code(), 1);
    assert_eq!(Error::Overflow.code(), 7);
}

#[test]
fn batch_transfer_counts_earlier_items() {
    // The first item hands token 5 to OTHER, so the second cannot move it again.
    let items = vec![
        TransferItem { to: addr("OTHER"), token_id: 5, stored_owner: Some(addr("USER")) },
        TransferItem { to: addr("THIRD"), token_id: 5, stored_owner: Some(addr("USER")) },
    ];
    assert_eq!(batch_transfer(&addr("USER"), &items), Err(Error::NotTokenOwner));
    let missing = vec![TransferItem { to: addr("OTHER"), token_id: 9, stored_owner: None }];
    assert_eq!(batch_transfer(&addr("USER"), &missing), Err(Error::TokenNotFound));
}

#[test]
fn metadata_updates_by_owner_only() {
    let m = update_metadata(&addr("USER"), Some(addr("USER")), "ipfs://new".to_string()).unwrap();
    assert_eq!(m.uri, "ipfs://new");
    assert!(matches!(update_metadata(&addr("X"), Some(addr("USER")), "z".to_string()), Err(Error::NotTokenOwner)));
    let got = token_metadata(Some(TokenMetadata { uri: "a".to_string() })).unwrap();
    assert_eq!(got.uri, "a");
    assert!(matches!(token_metadata(None), Err(Error::TokenNotFound)));
}
