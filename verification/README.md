# compliance

A compliance registry for a smart contract: one officer keeps sanctions, flags
and credentials, and anyone can ask how an address stands. A revocation runs in
two phases, so that a check made in the ledger in which it is initiated already
reports it.

- `src/` is the verified registry. `contract.rs` holds the calls, each with the
  exact environment it leaves; `env.rs` the environment of an invocation (the
  ledger, the storage, the requests made of the host); `effect.rs` those
  requests; `types.rs` what is stored; `table.rs` and `address.rs` what these
  rest on. `laws.rs` states and proves what holds of the registry as a whole.
- `app/` runs the registry on a Soroban host: it reads the entries that a call
  looks at and carries out the requests that the call makes, in their order.
- `tests/` runs the registry on concrete values.
