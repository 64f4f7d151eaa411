use horizon_contracts::addr::Addr;
use horizon_contracts::cross_chain::{init_intent, is_relayer, relay, CrossChainBridge, CrossChainHandler};
use horizon_contracts::error::ContractError;

fn addr(s: &str) -> Addr {
    Addr::new(s.as_bytes().to_vec())
}

#[test]
fn test_init_intent() {
    let intent = init_intent("ETH".to_string(), "0x1234567890abcdef".to_string(), vec![0u8; 32]);
    assert_eq!(intent.target_network, "ETH");
    assert_eq!(intent.target_address, "0x1234567890abcdef");
    assert_eq!(intent.hash, vec![0u8; 32]);
}

#[test]
fn test_relay_success() {
    let mut bridge = CrossChainBridge::new();
    let status = bridge.set_relayer(addr("ADMIN"), true).unwrap();
    assert!(is_relayer(Some(status)));
    let intent = relay(is_relayer(Some(status)), "SOL".to_string(), "7xkx...sol".to_string(), vec![1u8; 32]).unwrap();
    assert_eq!(intent.target_network, "SOL");
    assert_eq!(intent.hash, vec![1u8; 32]);
}

#[test]
fn test_relay_unauthorized() {
    let r = relay(is_relayer(None), "ETH".to_string(), "0x...".to_string(), vec![0u8; 32]);
    assert_eq!(r.err(), Some(ContractError::UnauthorizedRelayer));
    assert_eq!(relay(is_relayer(Some(false)), "ETH".to_string(), "0x...".to_string(), vec![]).err(), Some(ContractError::UnauthorizedRelayer));
}

#[test]
fn test_admin_restriction() {
    let mut bridge = CrossChainBridge::new();
    bridge.set_relayer(addr("ADMIN1"), true).unwrap();
    assert_eq!(bridge.set_relayer(addr("ADMIN2"), false), Err(ContractError::NotAuthorizedAdmin));
    assert_eq!(bridge.set_relayer(addr("ADMIN1"), false), Ok(false));
}

#[test]
fn test_send_message() {
    let mut h = CrossChainHandler::new();
    let m1 = h.send_message(addr("SENDER"), "ETH".to_string(), "0x1234...".to_string(), vec![0, 1, 2, 3]).unwrap();
    assert_eq!(m1.nonce, 1);
    assert_eq!(h.get_nonce(), 1);
    let m2 = h.send_message(addr("SENDER"), "ETH".to_string(), "0x1234...".to_string(), vec![0, 1, 2, 3]).unwrap();
    assert_eq!(m2.nonce, 2);
    assert_eq!(h.get_nonce(), 2);
    assert_eq!(m2.payload, vec![0, 1, 2, 3]);
}
