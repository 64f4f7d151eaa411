//! Verified core of the EventHorizon Soroban contract suite.
use vstd::prelude::*;

pub mod error;
pub mod math;
pub mod addr;
pub mod interest_rate_model;
pub mod amm_pool;
pub mod delegator_registry;
pub mod dao_governance;
pub mod reward_pool;
pub mod abi_registry;
pub mod escrow;
pub mod access_whitelist;
pub mod lending_protocol;
pub mod nft_factory;
pub mod signer_set;
pub mod event_proxy;
pub mod dao_whitelist;
pub mod multisig_wallet;
pub mod dividend_distribution;
pub mod royalty_registry;
pub mod bonding_curve;
pub mod oracle_aggregator;
pub mod recursive_action_guard;
pub mod merkle;
pub mod airdrop;
pub mod batch_merkle_verifier;
pub mod nft_royalty_emitter;
pub mod flash_loan;
pub mod cross_chain;
pub mod gas_estimator;
pub mod action_provider_registry;
pub mod event_wrapper;
pub mod governance_timelock;
pub mod prediction_market;

verus! {
} // verus!
