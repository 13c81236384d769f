# counting-contract

A CosmWasm contract that counts donations, verified with Verus.

- `src/` is the verified library. The contract's storage is modelled as a
  `ContractStore` of optional items, and every entry point (`instantiate`,
  `execute`, `query`, `migrate`) is a function on it whose contract gives the
  new storage and the answer exactly, as spec functions in `src/contract.rs`
  and `src/legacy.rs` (the first release). What the host decides (whether an
  address is valid, the contract's balance) is passed in as a value; an action
  that needs the balance returns `ExecStep::QueryBalance`, and `use_balance`
  finishes it. `src/laws.rs` proves what holds across operations.
- `app/` is the chain glue: serde forms of the messages and storage items,
  the `#[entry_point]` functions that load and save the storage around the
  library, and a `cw-multi-test` handle.
- `tests/` drives the library on a small simulated chain and on concrete storage.
