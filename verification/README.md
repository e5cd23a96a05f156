# nft_marketplace

A CosmWasm contract for selling CW721 tokens (for CW20 tokens or the chain's
native coin) and for a pay-per-view video catalogue, with its logic verified
by Verus.

- `src/` is the verified library. `market.rs` holds the state and its
  mathematical model, `rules.rs` states what every handler does as functions
  of that model, `contract.rs` and `query.rs` hold the handlers, each proved
  to follow its rule, and `laws.rs` proves properties of the contract as a
  whole. `store.rs` and `keys.rs` are the ordered tables behind the state,
  kept in the order the chain's key-value store lists their keys.
  `external.rs` and `version.rs` hold the trusted calls into `cosmwasm-std`,
  `cw-utils`, `cw20`, `cw721`, `semver` and std's formatting.
- `app/` is the contract around the library: entry points, the JSON forms of
  messages, and the storage that holds the state between calls.
- `tests/` runs the library on concrete values.
