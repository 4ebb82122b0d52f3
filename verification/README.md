# caspay

The CasPay payment-platform contract for the Casper network, with its rules
verified in Verus.

- `src/` is the library: the contract as a state machine over its own storage.
  Every entry point takes the caller and the block time as plain values, returns
  the events to emit on success, and on refusal returns the error and leaves the
  storage unchanged. Contracts are stated over `StorageView`, a mathematical view
  of the storage, and `src/laws.rs` proves what holds across calls.
  - `amount.rs`: 256-bit amounts with exact arithmetic.
  - `address.rs`, `text.rs`: addresses and the keys of payments and balances.
  - `strmap.rs`: a map keyed by text.
  - `types.rs`, `errors.rs`, `events.rs`: records, errors, events.
  - `storage.rs`, `caspay.rs`: the storage and the contract.
- `app/` is the Odra module that runs on the chain: it moves records between the
  chain's storage and the library, emits the events and reverts with the errors.
- `tests/` exercises the library.
