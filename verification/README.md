# oracle

A contract for the Soroban host that records the results of matches. An admin,
the off-chain service that knows the results, submits them; the contract checks
with an escrow contract that the match exists, keeps the result for about 30
days, and lets anyone read it. A recorded result never changes, and the admin
can hand its role over.

- `src/contract.rs`: the functions of the contract and their contracts.
- `src/types.rs`: errors, outcomes and entries.
- `src/host.rs`: the calls of the host, with what is taken to hold of them.
- `src/laws.rs`: what holds of the oracle as a whole, proved.
- `tests/`: the oracle on a real host.
- `app/`: the entry points of the contract, which have the host check the
  admin's authorisation and then call the library.

The crate is built for the machine it is developed on. It uses the standard
library, so it is not built to wasm as it stands.
