use horizon_contracts::action_provider_registry::{get_avg_rating, get_provider, rate, record_call, update, ActionProviderRegistry, Provider, ProviderStatus};
use horizon_contracts::addr::Addr;
use horizon_contracts::error::ContractError;

fn addr(s: &str) -> Addr {
    Addr::new(s.as_bytes().to_vec())
}

fn setup() -> ActionProviderRegistry {
    let mut reg = ActionProviderRegistry::new();
    reg.initialize(addr("ADMIN"), addr("TOKEN"), 100).unwrap();
    reg
}

fn make_provider(reg: &mut ActionProviderRegistry, owner: &str) -> (u64, Provider) {
    let (id, p, fee) = reg
        .register(addr(owner), "MyProvider".to_string(), "https://provider.example.com".to_string(), 10, false, 0)
        .unwrap();
    let fee = fee.unwrap();
    assert_eq!(fee.amount, 100);
    assert_eq!(fee.to.bytes, b"ADMIN".to_vec());
    (id, p)
}

#[test]
fn test_test_register_and_get() {
    let mut reg = setup();
    let (id, p) = make_provider(&mut reg, "OWNER");
    assert_eq!(id, 1);
    let p = get_provider(Some(p)).unwrap();
    assert_eq!(p.owner.bytes, b"OWNER".to_vec());
    assert_eq!(p.fee_per_call, 10);
    assert_eq!(p.status, ProviderStatus::Active);
    assert_eq!(p.total_calls, 0);
}

#[test]
fn test_update_provider() {
    let mut reg = setup();
    let (_id, p) = make_provider(&mut reg, "OWNER");
    let p = update(Some(p), "https://new.example.com".to_string(), 25).unwrap();
    assert_eq!(p.fee_per_call, 25);
    assert_eq!(p.endpoint, "https://new.example.com");
}

#[test]
fn test_record_call_and_rate() {
    let mut reg = setup();
    let (_id, p) = make_provider(&mut reg, "OWNER");
    let p = record_call(Some(p)).unwrap();
    let p = record_call(Some(p)).unwrap();
    assert_eq!(p.total_calls, 2);
    let p = rate(Some(p), 5).unwrap();
    let p = rate(Some(p), 3).unwrap();
    assert_eq!(get_avg_rating(Some(p)), Ok(400));
}

#[test]
fn test_suspend_and_reinstate() {
    let mut reg = setup();
    let (_id, p) = make_provider(&mut reg, "OWNER");
    let p = reg.suspend(&addr("ADMIN"), Some(p)).unwrap();
    assert_eq!(p.status, ProviderStatus::Suspended);
    let p = reg.reinstate(&addr("ADMIN"), Some(p)).unwrap();
    assert_eq!(p.status, ProviderStatus::Active);
}

#[test]
fn test_deregister_by_owner() {
    let mut reg = setup();
    let (_id, p) = make_provider(&mut reg, "OWNER");
    let p = reg.deregister(&addr("OWNER"), Some(p)).unwrap();
    assert_eq!(p.status, ProviderStatus::Deregistered);
}

#[test]
fn test_set_registration_fee() {
    let mut reg = setup();
    reg.set_registration_fee(&addr("ADMIN"), 250).unwrap();
    assert_eq!(reg.registration_fee, 250);
    let (_id, _p, fee) = reg.register(addr("O2"), "P".to_string(), "e".to_string(), 1, false, 0).unwrap();
    assert_eq!(fee.unwrap().amount, 250);
}

#[test]
fn provider_registry_refusals() {
    let mut reg = setup();
    assert_eq!(reg.register(addr("O"), "P".to_string(), "e".to_string(), -1, false, 0).err(), Some(ContractError::FeePerCallNegative));
    assert_eq!(reg.set_registration_fee(&addr("NOT_ADMIN"), 1).err(), Some(ContractError::AdminOnly));
    assert_eq!(reg.set_registration_fee(&addr("ADMIN"), -1).err(), Some(ContractError::RegistrationFeeNegative));
    let (_id, p) = make_provider(&mut reg, "OWNER");
    assert_eq!(rate(Some(p), 0).err(), Some(ContractError::ScoreOutOfRange));
}

#[test]
fn deregistered_provider_takes_no_calls() {
    let mut reg = setup();
    let (_id, p) = make_provider(&mut reg, "OWNER");
    let p = reg.deregister(&addr("ADMIN"), Some(p)).unwrap();
    assert_eq!(record_call(Some(p)).err(), Some(ContractError::ProviderNotActive));
}

#[test]
fn test_double_initialize() {
    let mut reg = setup();
    assert_eq!(reg.initialize(addr("ADMIN"), addr("TOKEN"), 100), Err(ContractError::AlreadyInitialized));
    assert_eq!(reg.registration_fee, 100);
}

#[test]
fn test_duplicate_registration() {
    let mut reg = setup();
    let (_id, _p) = make_provider(&mut reg, "OWNER");
    let r = reg.register(addr("OWNER"), "Dup".to_string(), "https://dup.example.com".to_string(), 5, true, 0);
    assert_eq!(r.err(), Some(ContractError::OwnerAlreadyRegistered));
}

#[test]
fn test_invalid_rating() {
    let mut reg = setup();
    let (_id, p) = make_provider(&mut reg, "OWNER");
    assert_eq!(rate(Some(p), 6).err(), Some(ContractError::ScoreOutOfRange));
}

#[test]
fn test_record_call_on_suspended() {
    let mut reg = setup();
    let (_id, p) = make_provider(&mut reg, "OWNER");
    let p = reg.suspend(&addr("ADMIN"), Some(p)).unwrap();
    assert_eq!(record_call(Some(p)).err(), Some(ContractError::ProviderNotActive));
}

#[test]
fn test_non_admin_suspend() {
    let mut reg = setup();
    let (_id, p) = make_provider(&mut reg, "OWNER");
    assert_eq!(reg.suspend(&addr("OWNER"), Some(p)).err(), Some(ContractError::AdminOnly));
}
