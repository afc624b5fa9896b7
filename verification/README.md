# kora

On-chain logic of the Kora protocol, verified with Verus.

- `src/` is the library: the price oracle (`price_oracle`, `price_book`,
  `median`), the treasury (`treasury`, `token_account`, `admin_log`), and what
  they share (`errors`, `events`, `audit`, `reentrancy`, `validation`, `types`,
  `table`). Contracts are stated over mathematical states; what holds across
  calls is proved in `oracle_laws`, `treasury_laws`, `withdrawal_laws`,
  `admin_log`, `median`, `audit`, `events` and `errors`.
- `src/host.rs` holds everything that is taken on trust from `soroban_sdk`: its
  list type and SHA-256.
- `app/` holds the Soroban contracts. They load the state that a call concerns,
  hand it to the library with the ledger time, and store, publish and transfer
  what the library says. Authorization, storage, events, token calls and upgrades
  are the host's. Both contracts export `initialize`, so a WASM build takes one
  of the two modules at a time.
- `tests/` runs the library against the real `soroban_sdk`.
