use std::collections::HashMap;

use horizon_contracts::access_whitelist::{_require_higher, get_permission, grant, has_access, renounce, revoke, AccessWhitelist, PermissionLevel};
use horizon_contracts::addr::Addr;
use horizon_contracts::error::ContractError;

fn addr(s: &str) -> Addr {
    Addr::new(s.as_bytes().to_vec())
}

/// The whitelist with its stored levels.
struct Wl {
    state: AccessWhitelist,
    levels: HashMap<Vec<u8>, PermissionLevel>,
}

impl Wl {
    fn setup() -> Wl {
        let mut state = AccessWhitelist::new();
        let c = state.initialize(addr("SUPER")).unwrap();
        let mut levels = HashMap::new();
        levels.insert(c.target.bytes.clone(), c.new_level);
        Wl { state, levels }
    }
    fn level(&self, a: &str) -> PermissionLevel {
        get_permission(self.levels.get(a.as_bytes()).copied())
    }
    fn grant(&mut self, caller: &str, target: &str, level: PermissionLevel) -> Result<(), ContractError> {
        let c = grant(self.level(caller), addr(target), self.level(target), level)?;
        self.levels.insert(c.target.bytes.clone(), c.new_level);
        Ok(())
    }
}

#[test]
fn test_grant_and_check_access() {
    let mut wl = Wl::setup();
    wl.grant("SUPER", "USER", PermissionLevel::User).unwrap();
    assert!(has_access(wl.level("USER"), PermissionLevel::User));
    assert!(!has_access(wl.level("USER"), PermissionLevel::Operator));
    assert_eq!(wl.level("USER"), PermissionLevel::User);
}

#[test]
fn test_hierarchical_grant() {
    let mut wl = Wl::setup();
    wl.grant("SUPER", "ADMIN", PermissionLevel::Admin).unwrap();
    wl.grant("ADMIN", "OPERATOR", PermissionLevel::Operator).unwrap();
    wl.grant("OPERATOR", "USER", PermissionLevel::User).unwrap();
    assert_eq!(wl.level("ADMIN"), PermissionLevel::Admin);
    assert_eq!(wl.level("OPERATOR"), PermissionLevel::Operator);
    assert_eq!(wl.level("USER"), PermissionLevel::User);
}

#[test]
fn test_revoke_access() {
    let mut wl = Wl::setup();
    wl.grant("SUPER", "USER", PermissionLevel::User).unwrap();
    assert!(has_access(wl.level("USER"), PermissionLevel::User));
    let c = revoke(wl.level("SUPER"), addr("USER"), wl.level("USER")).unwrap();
    wl.levels.insert(c.target.bytes.clone(), c.new_level);
    assert!(!has_access(wl.level("USER"), PermissionLevel::User));
    assert_eq!(wl.level("USER"), PermissionLevel::NoAccess);
}

#[test]
fn test_renounce() {
    let mut wl = Wl::setup();
    wl.grant("SUPER", "OPERATOR", PermissionLevel::Operator).unwrap();
    let c = renounce(addr("OPERATOR"), wl.level("OPERATOR")).unwrap();
    wl.levels.insert(c.target.bytes.clone(), c.new_level);
    assert_eq!(wl.level("OPERATOR"), PermissionLevel::NoAccess);
}

#[test]
fn test_transfer_super_admin() {
    let mut wl = Wl::setup();
    let t = wl.state.transfer_super_admin(addr("SUPER"), wl.level("SUPER"), addr("NEW"), wl.level("NEW")).unwrap();
    wl.levels.insert(t.revoked.target.bytes.clone(), t.revoked.new_level);
    wl.levels.insert(t.granted.target.bytes.clone(), t.granted.new_level);
    assert_eq!(wl.level("NEW"), PermissionLevel::SuperAdmin);
    assert_eq!(wl.level("SUPER"), PermissionLevel::NoAccess);
}

#[test]
fn equal_or_higher_grants_are_refused() {
    let mut wl = Wl::setup();
    wl.grant("SUPER", "ADMIN", PermissionLevel::Admin).unwrap();
    assert_eq!(wl.grant("ADMIN", "OTHER", PermissionLevel::Admin), Err(ContractError::InsufficientPermissionLevel));
    assert_eq!(wl.grant("SUPER", "OTHER", PermissionLevel::SuperAdmin), Err(ContractError::InsufficientPermissionLevel));
    assert_eq!(wl.grant("SUPER", "OTHER", PermissionLevel::NoAccess), Err(ContractError::UseRevokeToRemoveAccess));
}

#[test]
fn double_initialize_is_refused() {
    let mut wl = Wl::setup();
    assert_eq!(wl.state.initialize(addr("SUPER")).err(), Some(ContractError::AlreadyInitialized));
}

#[test]
fn require_higher_is_strict() {
    assert_eq!(_require_higher(&PermissionLevel::Admin, &PermissionLevel::Operator), Ok(()));
    assert_eq!(_require_higher(&PermissionLevel::Admin, &PermissionLevel::Admin), Err(ContractError::InsufficientPermissionLevel));
    assert_eq!(renounce(addr("X"), PermissionLevel::NoAccess).err(), Some(ContractError::NoAccessToRenounce));
}

#[test]
fn test_cannot_grant_equal_or_higher_level() {
    let mut wl = Wl::setup();
    wl.grant("SUPER", "ADMIN", PermissionLevel::Admin).unwrap();
    assert_eq!(wl.grant("ADMIN", "OTHER", PermissionLevel::Admin), Err(ContractError::InsufficientPermissionLevel));
    assert_eq!(wl.level("OTHER"), PermissionLevel::NoAccess);
}

#[test]
fn test_user_cannot_grant() {
    let mut wl = Wl::setup();
    wl.grant("SUPER", "USER", PermissionLevel::User).unwrap();
    assert_eq!(wl.grant("USER", "OTHER", PermissionLevel::User), Err(ContractError::InsufficientPermissionLevel));
    assert_eq!(wl.level("OTHER"), PermissionLevel::NoAccess);
}
