use horizon_contracts::addr::Addr;
use horizon_contracts::delegator_registry::{
    claim_rewards, delegate, get_delegation, get_validator, distribute_rewards, get_pending_rewards, slash_validator, undelegate, DelegationPosition,
    DelegatorRegistry, ValidatorInfo,
};
use horizon_contracts::error::ContractError;

fn addr(s: &str) -> Addr {
    Addr::new(s.as_bytes().to_vec())
}

/// One validator's records as the contract stores them.
struct Validator {
    info: ValidatorInfo,
    reward_per_token: i128,
    total_rewards: i128,
}

fn setup() -> (DelegatorRegistry, Validator) {
    let mut reg = DelegatorRegistry::initialize(addr("ADMIN"), addr("TOKEN"));
    let info = reg.register_validator(addr("VALIDATOR"), false).unwrap();
    (reg, Validator { info, reward_per_token: 0, total_rewards: 0 })
}

fn copy_info(v: &ValidatorInfo) -> ValidatorInfo {
    ValidatorInfo { validator: v.validator.duplicate(), total_delegated: v.total_delegated, delegator_count: v.delegator_count, active: v.active }
}

fn copy_pos(p: &DelegationPosition) -> DelegationPosition {
    DelegationPosition { delegator: p.delegator.duplicate(), validator: p.validator.duplicate(), amount: p.amount, reward_debt: p.reward_debt, since_ts: p.since_ts }
}

fn do_delegate(v: &mut Validator, pos: Option<&DelegationPosition>, who: &str, amount: i128) -> DelegationPosition {
    let d = delegate(Some(copy_info(&v.info)), pos.map(copy_pos), &addr(who), &addr("VALIDATOR"), v.reward_per_token, amount, 0).unwrap();
    v.info = d.validator;
    d.position
}

fn do_distribute(v: &mut Validator, amount: i128) {
    let r = distribute_rewards(Some(copy_info(&v.info)), v.reward_per_token, v.total_rewards, amount).unwrap();
    v.reward_per_token = r.reward_per_token;
    v.total_rewards = r.total_rewards;
}

#[test]
fn test_delegate_and_undelegate() {
    let (_reg, mut v) = setup();
    let pos = do_delegate(&mut v, None, "DELEGATOR", 500);
    assert_eq!(v.info.total_delegated, 500);
    assert_eq!(v.info.delegator_count, 1);
    assert_eq!(pos.amount, 500);

    let u = undelegate(Some(copy_info(&v.info)), Some(pos), v.reward_per_token, 200).unwrap();
    assert_eq!(u.validator.total_delegated, 300);
    assert_eq!(u.position.unwrap().amount, 300);
}

#[test]
fn test_reward_distribution_and_claim() {
    let (_reg, mut v) = setup();
    let pos = do_delegate(&mut v, None, "DELEGATOR", 1000);
    do_distribute(&mut v, 100);
    let pending = get_pending_rewards(Some(copy_pos(&pos)), v.reward_per_token).unwrap();
    assert_eq!(pending, 100);
    let claimed = claim_rewards(Some(pos), v.reward_per_token).unwrap();
    assert_eq!(claimed.pending, 100);
    let pending_after = get_pending_rewards(claimed.position, v.reward_per_token).unwrap();
    assert_eq!(pending_after, 0);
}

#[test]
fn test_slash_validator() {
    let (_reg, mut v) = setup();
    do_delegate(&mut v, None, "DELEGATOR", 1000);
    let slashed = slash_validator(Some(copy_info(&v.info)), 200).unwrap();
    assert_eq!(slashed.total_delegated, 800);
}

#[test]
fn test_multiple_delegators_reward_split() {
    let (_reg, mut v) = setup();
    let p1 = do_delegate(&mut v, None, "D1", 500);
    let p2 = do_delegate(&mut v, None, "D2", 500);
    do_distribute(&mut v, 100);
    assert_eq!(get_pending_rewards(Some(p1), v.reward_per_token).unwrap(), 50);
    assert_eq!(get_pending_rewards(Some(p2), v.reward_per_token).unwrap(), 50);
}

#[test]
fn test_undelegate_more_than_staked_panics() {
    let (_reg, mut v) = setup();
    let pos = do_delegate(&mut v, None, "DELEGATOR", 500);
    let r = undelegate(Some(copy_info(&v.info)), Some(pos), v.reward_per_token, 600);
    assert_eq!(r.err(), Some(ContractError::InsufficientDelegation));
}

#[test]
fn registering_twice_is_refused() {
    let (mut reg, _v) = setup();
    assert_eq!(reg.register_validator(addr("VALIDATOR"), true).err(), Some(ContractError::ValidatorAlreadyRegistered));
}

#[test]
fn redelegation_pays_pending_reward_first() {
    let (_reg, mut v) = setup();
    let pos = do_delegate(&mut v, None, "DELEGATOR", 1000);
    do_distribute(&mut v, 100);
    let d = delegate(Some(copy_info(&v.info)), Some(pos), &addr("DELEGATOR"), &addr("VALIDATOR"), v.reward_per_token, 500, 7).unwrap();
    assert_eq!(d.reward_paid, 100);
    assert_eq!(d.position.amount, 1500);
    assert_eq!(get_pending_rewards(Some(d.position), v.reward_per_token).unwrap(), 0);
    assert_eq!(d.validator.delegator_count, 1);
}

#[test]
fn record_lookups() {
    assert!(matches!(get_validator(None), Err(ContractError::ValidatorNotFound)));
    assert!(matches!(get_delegation(None), Err(ContractError::DelegationNotFound)));
    let (_, v) = setup();
    let got = get_validator(Some(copy_info(&v.info))).unwrap();
    assert_eq!(got.validator.bytes, v.info.validator.bytes);
    assert_eq!(got.total_delegated, v.info.total_delegated);
}
