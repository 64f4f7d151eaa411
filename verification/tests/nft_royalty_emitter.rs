use horizon_contracts::addr::Addr;
use horizon_contracts::error::ContractError;
use horizon_contracts::nft_royalty_emitter::{get_config, settle, version, NFTRoyaltyEmitter, RoyaltyRecipient};

fn addr(s: &str) -> Addr {
    Addr::new(s.as_bytes().to_vec())
}

fn recipient(s: &str, bps: u32) -> RoyaltyRecipient {
    RoyaltyRecipient { address: addr(s), bps }
}

fn emitter() -> NFTRoyaltyEmitter {
    let mut e = NFTRoyaltyEmitter::new();
    e.initialize(addr("ADMIN")).unwrap();
    e
}

#[test]
fn test_royalty_settlement_rounding() {
    let e = emitter();
    let config = vec![recipient("R1", 1)];
    e.set_config(&addr("ADMIN"), &config).unwrap();
    // 1 bps of 100 is 0.01, which rounds down to nothing to pay.
    let payouts = settle(Some(config), 100).unwrap();
    assert!(payouts.is_empty());
}

#[test]
fn test_invalid_bps_total() {
    let e = emitter();
    assert_eq!(e.set_config(&addr("ADMIN"), &vec![recipient("ADMIN", 10001)]), Err(ContractError::TotalBpsExceeds10000));
}

#[test]
fn test_zero_amount_settle() {
    assert!(matches!(settle(None, 0), Err(ContractError::AmountNotPositive)));
}

#[test]
fn settlement_pays_each_share_in_order() {
    let config = vec![recipient("R1", 500), recipient("R2", 250), recipient("R3", 1)];
    let payouts = settle(Some(config), 10_000).unwrap();
    assert_eq!(payouts.len(), 3);
    assert_eq!(payouts[0].to.bytes, b"R1".to_vec());
    assert_eq!(payouts[0].amount, 500);
    assert_eq!(payouts[1].amount, 250);
    assert_eq!(payouts[2].amount, 1);
}

#[test]
fn settlement_refusals_and_config() {
    assert!(matches!(settle(None, 5), Err(ContractError::NoRoyaltyConfig)));
    assert!(matches!(settle(Some(vec![recipient("R", 2)]), i128::MAX), Err(ContractError::Overflow)));
    let e = emitter();
    assert_eq!(e.set_config(&addr("OTHER"), &vec![]), Err(ContractError::Unauthorized));
    assert_eq!(NFTRoyaltyEmitter::new().set_config(&addr("ADMIN"), &vec![]), Err(ContractError::NotInitialized));
    let mut e2 = emitter();
    assert_eq!(e2.initialize(addr("X")), Err(ContractError::AlreadyInitialized));
    assert!(get_config(None).is_empty());
    assert_eq!(get_config(Some(vec![recipient("R", 7)]))[0].bps, 7);
    assert_eq!(version(), 100);
}
