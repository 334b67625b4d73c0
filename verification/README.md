# vm_bridge_mock

Verified helpers for the test runtime of a bridge that lets EVM contracts and
Wasm (ink!) contracts call each other.

- `src/runtime.rs`: the runtime's configuration values, the genesis builder
  (`ExtBuilder`), the existential deposit it publishes, the chain-extension
  dispatch and the weight-to-fee conversion.
- `src/calldata.rs`: selectors, EVM call inputs and Wasm messages that carry a
  token transfer across the bridge, and the readers of the balances the
  contracts answer with.
- `src/modules.rs`: where test contracts are found, `.wat` compilation and code
  hashes.
- `src/bytes.rs`, `src/scale.rs`, `src/hashing.rs`: integer byte orders, the
  SCALE codec calls and the two hash functions.
- `app/lib.rs`: reading contracts and fixtures from disk.
