# clarity_db

A verified model of the storage layer under the Clarity VM of the Stacks
blockchain: STX balances and their locks, a key/value store with nested
transactions, the Clarity database that keeps contract metadata, data
variables, data maps, token state and account state in it, and what the
chain says of its blocks.

- `src/` — the library, verified with Verus.
  - `balance.rs` — `STXBalance`: locks, debits, credits, transfers, and their laws.
  - `rollback.rs` — the store: a log of writes with nested transactions, its
    mathematical model, and the laws of reads, commits and rollbacks.
  - `keys.rs` — the kinds of stored items and the shapes of their keys.
  - `clarity_db.rs` — `ClarityDatabase` over the store, a headers database
    and a burnchain database.
  - `headers.rs`, `hashing.rs`, `types.rs` — block identifiers, the index
    hash of a block, and the databases of an empty chain.
  - `structures.rs`, `errors.rs` — stored records and errors.
  - `special.rs` — the STX lock that a `stack-stx` call on the PoX boot
    contract asks for.
  - `c32.rs`, `cli.rs` — Stacks addresses and the decisions of the address tool.
  - `tenure.rs` — when a mining tenure stops waiting.
- `tests/` — tests of the library.
- `app/` — the address tool's `main`, and the JSON forms of the stored records.
