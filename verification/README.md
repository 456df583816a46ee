# stellarflow

Verified core of the StellarFlow Soroban contracts, written in Verus.

- `src/price_oracle/`: the price oracle as a state machine over plain values:
  admins and multi-signature controls, asset tracking, price writes and reads,
  relayer buffers with weight-based truncation and the median, floors, bounds
  and deviation limits with rollback, staking and slashing, governance
  proposals with delegated votes, and the re-entrancy lock. `laws.rs` holds
  the properties that relate several operations.
- `src/reward_splitter.rs`: the fixed reward distribution splitter.
- `src/upgrade.rs`: the 48-hour time-locked upgrade contract with heartbeats
  and per-address nonces.
- `src/keyed.rs`: a string-keyed store with distinct keys, viewed as a map.
- `app/`: the Soroban host side: storage, signatures, events, token transfers
  and code upgrades around the library.
- `tests/`: executable tests of the library.
