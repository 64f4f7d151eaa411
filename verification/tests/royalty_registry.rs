use horizon_contracts::addr::Addr;
use horizon_contracts::error::ContractError;
use horizon_contracts::royalty_registry::{
    get_service, update_service, validate_splits, DeveloperRoyaltyRegistry, Payout, Recipient, RoyaltySplit, Service,
};

fn addr(s: &str) -> Addr {
    Addr::new(s.as_bytes().to_vec())
}

fn to_addr(s: &str, bps: u32) -> RoyaltySplit {
    RoyaltySplit { recipient: Recipient::Address(addr(s)), bps }
}

fn to_service(id: u64, bps: u32) -> RoyaltySplit {
    RoyaltySplit { recipient: Recipient::Service(id), bps }
}

fn copy_split(s: &RoyaltySplit) -> RoyaltySplit {
    match &s.recipient {
        Recipient::Address(a) => to_addr(std::str::from_utf8(&a.bytes).unwrap(), s.bps),
        Recipient::Service(id) => to_service(*id, s.bps),
    }
}

fn copy_service(s: &Service) -> Service {
    Service { id: s.id, owner: s.owner.clone(), fee: s.fee, splits: s.splits.iter().map(copy_split).collect() }
}

fn registry() -> DeveloperRoyaltyRegistry {
    let mut r = DeveloperRoyaltyRegistry::new();
    r.initialize(addr("ADMIN"), addr("SETTLER"), addr("TOKEN")).unwrap();
    r
}

fn paid_to(payouts: &[Payout], who: &str) -> i128 {
    payouts.iter().filter(|p| p.to.bytes == who.as_bytes()).map(|p| p.amount).sum()
}

#[test]
fn test_registration_and_update() {
    let mut reg = registry();
    let service = reg.register_service(addr("OWNER"), 100, vec![to_addr("R1", 6000), to_addr("R2", 4000)]).unwrap();
    assert_eq!(service.id, 1);
    let service = get_service(Some(service)).unwrap();
    assert_eq!(service.owner.bytes, b"OWNER".to_vec());
    assert_eq!(service.fee, 100);
    assert_eq!(service.splits.len(), 2);

    let updated = update_service(Some(service), 200, vec![to_addr("R1", 10000)]).unwrap();
    let updated = get_service(Some(updated)).unwrap();
    assert_eq!(updated.id, 1);
    assert_eq!(updated.fee, 200);
    assert_eq!(updated.splits.len(), 1);
}

#[test]
fn test_simple_settlement() {
    let mut reg = registry();
    let service = reg.register_service(addr("OWNER"), 1000, vec![to_addr("R1", 7000), to_addr("R2", 3000)]).unwrap();
    let table = vec![copy_service(&service)];
    let (total, payouts) = reg.settle_royalty(Some(service), 2, &table).unwrap().unwrap();
    assert_eq!(total, 2000);
    assert_eq!(paid_to(&payouts, "R1"), 1400);
    assert_eq!(paid_to(&payouts, "R2"), 600);
    // The settler held 5000 and paid out the total.
    assert_eq!(5000 - total, 3000);
}

#[test]
fn test_hierarchical_settlement() {
    let mut reg = registry();
    let sub = reg.register_service(addr("OWNER"), 0, vec![to_addr("SUB1", 5000), to_addr("SUB2", 5000)]).unwrap();
    let main = reg.register_service(addr("OWNER"), 1000, vec![to_addr("MAIN", 2000), to_service(sub.id, 8000)]).unwrap();
    let table = vec![copy_service(&sub), copy_service(&main)];
    let (total, payouts) = reg.settle_royalty(Some(main), 1, &table).unwrap().unwrap();
    assert_eq!(total, 1000);
    assert_eq!(paid_to(&payouts, "MAIN"), 200);
    assert_eq!(paid_to(&payouts, "SUB1"), 400);
    assert_eq!(paid_to(&payouts, "SUB2"), 400);
    assert_eq!(payouts[1].service_id, sub.id);
}

#[test]
fn test_infinite_loop_detection() {
    let mut reg = registry();
    let s1 = reg.register_service(addr("OWNER"), 100, vec![to_service(2, 10000)]).unwrap();
    let s2 = reg.register_service(addr("OWNER"), 100, vec![to_service(1, 10000)]).unwrap();
    let table = vec![copy_service(&s1), copy_service(&s2)];
    assert!(matches!(reg.settle_royalty(Some(s1), 1, &table), Err(ContractError::MaxRecursionDepth)));
}

#[test]
fn split_and_registration_refusals() {
    assert_eq!(validate_splits(&vec![]), Err(ContractError::SplitsEmpty));
    assert_eq!(validate_splits(&vec![to_addr("R", 9999)]), Err(ContractError::SplitsMustSumTo10000));
    assert_eq!(validate_splits(&vec![to_addr("R", 10000)]), Ok(()));
    let mut reg = registry();
    assert!(matches!(reg.register_service(addr("O"), -1, vec![to_addr("R", 10000)]), Err(ContractError::FeeNegative)));
    let mut fresh = DeveloperRoyaltyRegistry::new();
    assert!(matches!(fresh.register_service(addr("O"), 1, vec![to_addr("R", 10000)]), Err(ContractError::NotInitialized)));
    assert!(matches!(get_service(None), Err(ContractError::ServiceNotFound)));
    assert!(matches!(reg.settle_royalty(None, 1, &vec![]), Err(ContractError::ServiceNotFound)));
    let s = reg.register_service(addr("O"), 5, vec![to_service(99, 10000)]).unwrap();
    let table = vec![copy_service(&s)];
    assert!(matches!(reg.settle_royalty(Some(copy_service(&s)), 0, &table), Ok(None)));
    assert!(matches!(reg.settle_royalty(Some(s), 1, &table), Err(ContractError::SubServiceNotFound)));
}
