# cryptdao

A DAO contract for NEAR, verified with Verus: citizens, a role-based policy that decides who
may act on which kind of proposal, and the submission of proposals against a bond.

- `src/policy.rs`: roles, the default policy, and the permission check.
- `src/proposals.rs`: proposal kinds and proposals.
- `src/dao.rs`: the state of the DAO and its operations, with the laws they keep.
- `src/contract.rs`: the contract, which adds the caller, the attached deposit and the block
  time from the runtime, and the token ledger of near-contract-standards.
- `src/chain.rs`: the trusted interface to near-sdk and near-contract-standards.
- `app/`: JSON forms of the values, and plain functions around the contract that turn refusals
  into aborted calls (no persisted state and no `near_bindgen` methods).
