use std::collections::HashMap;

use horizon_contracts::abi_registry::{
    calculate_hash, get_abi, get_metadata, register, remove, rollback, update, verify, AbiRegistry, AbiVersion, ContractAbiMetadata,
    MAX_VERSION_HISTORY,
};
use horizon_contracts::addr::Addr;
use horizon_contracts::error::ContractError;

fn addr(s: &str) -> Addr {
    Addr::new(s.as_bytes().to_vec())
}

fn copy_version(v: &AbiVersion) -> AbiVersion {
    AbiVersion { version: v.version, abi_hash: v.abi_hash, created_at: v.created_at, note: v.note.clone() }
}

/// The registry with its stored records.
struct Store {
    registry: AbiRegistry,
    metas: HashMap<Vec<u8>, ContractAbiMetadata>,
    names: HashMap<String, Vec<u8>>,
    histories: HashMap<Vec<u8>, Vec<AbiVersion>>,
    now: u64,
}

impl Store {
    fn new() -> Store {
        Store { registry: AbiRegistry::initialize(addr("ADMIN")), metas: HashMap::new(), names: HashMap::new(), histories: HashMap::new(), now: 0 }
    }

    fn register(&mut self, id: &str, name: &str, description: &str, abi: Vec<u8>, note: &str) -> Result<u32, ContractError> {
        let key = id.as_bytes().to_vec();
        let m = register(self.metas.contains_key(&key), addr(id), name.to_string(), description.to_string(), abi, note.to_string(), self.now)?;
        self.histories.insert(key.clone(), m.version_history.iter().map(copy_version).collect());
        self.names.insert(name.to_string(), key.clone());
        let v = m.version;
        self.metas.insert(key, m);
        Ok(v)
    }

    fn update(&mut self, id: &str, abi: Vec<u8>, note: &str) -> Result<u32, ContractError> {
        let key = id.as_bytes().to_vec();
        let hist: Vec<AbiVersion> = self.histories.get(&key).map(|h| h.iter().map(copy_version).collect()).unwrap_or_default();
        let u = update(self.metas.remove(&key), hist, abi, note.to_string(), self.now)?;
        if u.changed {
            self.histories.insert(key.clone(), u.metadata.version_history.iter().map(copy_version).collect());
        }
        self.metas.insert(key, u.metadata);
        Ok(u.version)
    }

    fn verify(&mut self, id: &str) -> Result<bool, ContractError> {
        let key = id.as_bytes().to_vec();
        let list = std::mem::take(&mut self.registry.verified_contracts);
        match verify(self.metas.remove(&key), list.clone()) {
            Ok((m, list, _)) => {
                self.registry.verified_contracts = list;
                self.metas.insert(key, m);
                Ok(true)
            }
            Err(e) => {
                self.registry.verified_contracts = list;
                Err(e)
            }
        }
    }

    fn remove(&mut self, id: &str) -> Result<bool, ContractError> {
        let key = id.as_bytes().to_vec();
        let (name, list) = remove(self.metas.remove(&key), &self.registry.verified_contracts)?;
        self.names.remove(&name);
        self.histories.remove(&key);
        if let Some(l) = list {
            self.registry.verified_contracts = l;
        }
        Ok(true)
    }

    fn meta(&self, id: &str) -> &ContractAbiMetadata {
        &self.metas[id.as_bytes()]
    }

    fn is_registered(&self, id: &str) -> bool {
        self.metas.contains_key(id.as_bytes())
    }

    fn get_by_name(&self, name: &str) -> Option<Vec<u8>> {
        self.names.get(name).cloned()
    }
}

#[test]
fn lib_test_initialize() {
    let r = AbiRegistry::initialize(addr("ADMIN"));
    assert_eq!(r.admin.bytes, b"ADMIN".to_vec());
    assert_eq!(r.next_contract_id, 1);
}

#[test]
fn lib_test_register_and_get() {
    let mut s = Store::new();
    let version = s.register("C1", "TestContract", "A test contract", vec![1, 2, 3, 4], "Initial version").unwrap();
    assert_eq!(version, 1);
    let m = s.meta("C1");
    assert_eq!(m.name, "TestContract");
    assert_eq!(m.version, 1);
    assert!(!m.verified);
}

#[test]
fn test_update() {
    let mut s = Store::new();
    s.register("C1", "TestContract", "A test contract", vec![1, 2, 3, 4], "Initial version").unwrap();
    assert_eq!(s.update("C1", vec![1, 2, 3, 4, 5], "Updated version"), Ok(2));
    assert_eq!(s.meta("C1").version, 2);
}

#[test]
fn test_verify() {
    let mut s = Store::new();
    s.register("C1", "TestContract", "A test contract", vec![1, 2, 3, 4], "Initial version").unwrap();
    assert_eq!(s.verify("C1"), Ok(true));
    assert!(s.meta("C1").verified);
}

#[test]
fn lib_test_get_by_name() {
    let mut s = Store::new();
    s.register("C1", "TestContract", "A test contract", vec![1, 2, 3, 4], "Initial version").unwrap();
    assert_eq!(s.get_by_name("TestContract"), Some(b"C1".to_vec()));
}

#[test]
fn registry_starts_empty() {
    let s = Store::new();
    assert_eq!(s.registry.admin.bytes, b"ADMIN".to_vec());
    assert!(s.registry.verified_contracts.is_empty());
}

#[test]
fn test_register_contract() {
    let mut s = Store::new();
    let abi = vec![1u8, 2, 3, 4];
    let version = s.register("C1", "TestContract", "A test contract for ABI registry", abi.clone(), "Initial version").unwrap();
    assert_eq!(version, 1);
    let m = s.meta("C1");
    assert_eq!(m.contract_id.bytes, b"C1".to_vec());
    assert_eq!(m.name, "TestContract");
    assert_eq!(m.description, "A test contract for ABI registry");
    assert_eq!(m.version, 1);
    assert!(!m.verified);
    assert!(m.added_at > 0);
    assert_eq!(m.abi_data.len(), abi.len());
    assert_eq!(m.abi_hash, calculate_hash(&abi));
}

#[test]
fn test_update_abi() {
    let mut s = Store::new();
    s.register("C1", "TestContract", "A test contract", vec![1, 2, 3, 4], "Version 1").unwrap();
    assert_eq!(s.update("C1", vec![1, 2, 3, 4, 5, 6], "Version 2 - added new function"), Ok(2));
    let m = s.meta("C1");
    assert_eq!(m.version, 2);
    assert!(m.updated_at >= m.added_at);
    assert_eq!(s.histories[&b"C1".to_vec()].len(), 2);
}

#[test]
fn test_verify_contract() {
    let mut s = Store::new();
    s.register("C1", "VerifiedContract", "A verified contract", vec![1, 2, 3], "Initial").unwrap();
    assert!(!s.meta("C1").verified);
    assert_eq!(s.verify("C1"), Ok(true));
    assert!(s.meta("C1").verified);
    assert!(s.registry.verified_contracts.iter().any(|a| a.bytes == b"C1".to_vec()));
}

#[test]
fn test_test_get_by_name() {
    let mut s = Store::new();
    s.register("C1", "MyContract", "Description", vec![1], "Note").unwrap();
    assert_eq!(s.get_by_name("MyContract"), Some(b"C1".to_vec()));
    assert!(s.get_by_name("NonExistent").is_none());
}

#[test]
fn test_is_registered() {
    let mut s = Store::new();
    s.register("C1", "TestContract", "Description", vec![1], "Note").unwrap();
    assert!(s.is_registered("C1"));
    assert!(!s.is_registered("UNREGISTERED"));
}

#[test]
fn test_remove_contract() {
    let mut s = Store::new();
    s.register("C1", "TestContract", "Description", vec![1], "Note").unwrap();
    assert!(s.is_registered("C1"));
    assert_eq!(s.remove("C1"), Ok(true));
    assert!(!s.is_registered("C1"));
    assert!(s.get_by_name("TestContract").is_none());
}

#[test]
fn test_duplicate_registration_panics() {
    let mut s = Store::new();
    s.register("C1", "TestContract", "Description", vec![1], "Note").unwrap();
    assert_eq!(s.register("C1", "TestContract", "Description", vec![1], "Note"), Err(ContractError::ContractAlreadyRegistered));
}

#[test]
fn test_update_unregistered_panics() {
    let mut s = Store::new();
    assert_eq!(s.update("C1", vec![1], "Note"), Err(ContractError::ContractNotRegistered));
}

#[test]
fn test_version_history_trimming() {
    let mut s = Store::new();
    s.register("C1", "TestContract", "Description", vec![1], "Note").unwrap();
    for i in 0..105u32 {
        s.update("C1", vec![i as u8], "Update").unwrap();
    }
    let history = &s.histories[&b"C1".to_vec()];
    assert!((history.len() as u32) <= MAX_VERSION_HISTORY);
    assert_eq!(history.len(), 100);
}

#[test]
fn unchanged_abi_keeps_version() {
    let mut s = Store::new();
    s.register("C1", "T", "D", vec![7, 8], "n").unwrap();
    assert_eq!(s.update("C1", vec![7, 8], "same"), Ok(1));
    assert_eq!(s.histories[&b"C1".to_vec()].len(), 1);
}

#[test]
fn hash_of_known_bytes() {
    let h = calculate_hash(&vec![]);
    assert_eq!(h, [0u8; 32]);
    // State after one zero byte: 2166136261 * 1099511628211 mod 2^64 = 0x1c9dc5db63a015bf.
    let h = calculate_hash(&vec![0]);
    assert_eq!(h[0], 0xbf);
    assert!(h[1..].iter().all(|b| *b == 0));
    // Byte 1 is the state after two bytes shifted right by 8 bits.
    let h = calculate_hash(&vec![1, 2]);
    assert_eq!(h[0], 0x0c);
    assert_eq!(h[1], 0x13);
    let big = vec![0u8; 65537];
    assert!(matches!(register(false, addr("C"), "n".into(), "d".into(), big, "x".into(), 0), Err(ContractError::AbiTooLarge)));
}

#[test]
fn rollback_to_recorded_version() {
    let mut s = Store::new();
    s.register("C1", "T", "D", vec![1], "v1").unwrap();
    s.update("C1", vec![2], "v2").unwrap();
    let hist = &s.histories[&b"C1".to_vec()];
    let m = s.metas.remove(b"C1".as_slice());
    let back = rollback(m, hist, 1, 5000).unwrap();
    assert_eq!(back.version, 1);
    assert_eq!(back.abi_hash, calculate_hash(&vec![1]));
    assert_eq!(back.abi_data, vec![2]);
    assert_eq!(back.updated_at, 5000);
    assert!(matches!(rollback(Some(back), hist, 1, 6000), Err(ContractError::InvalidTargetVersion)));
}

#[test]
fn metadata_and_abi_lookups() {
    assert!(matches!(get_metadata(None), Err(ContractError::ContractNotRegistered)));
    assert_eq!(get_abi(None), Err(ContractError::ContractNotRegistered));
    assert_eq!(get_abi(Some(vec![1, 2])), Ok(vec![1, 2]));
    let mut s = Store::new();
    s.register("C1", "T", "D", vec![3], "n").unwrap();
    let m = get_metadata(s.metas.remove(b"C1".as_slice())).unwrap();
    assert_eq!(m.version, 1);
}
