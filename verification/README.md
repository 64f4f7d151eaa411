# horizon_contracts

A suite of Soroban smart contracts (AMM pool, DAO governance and whitelist, escrow,
lending, staking and reward pools, NFT factory and royalties, multisig and timelock
proxies, Merkle airdrop, bonding curve, oracle aggregation and more) whose logic is
written and proved in Verus.

## Layout

- `src/`: the verified library. Each contract's rules are functions from the contract's
  state and the values read from the ledger to the new state and the effects to perform,
  with `requires`/`ensures` contracts over spec models. Laws that relate several calls are
  public proof functions. `math.rs` holds checked integer arithmetic, `addr.rs` the
  address type, `merkle.rs` the Merkle proofs and the two hashing/encoding calls into
  soroban-sdk.
- `app/`: the Soroban contracts themselves: storage, authorisation, token transfers and
  events around the library's functions. Verus does not see it.
- `tests/`: tests of the library, run with the real soroban-sdk.

## Checking

Verus verifies `src/`; `cargo test` runs `tests/`.
