# nevo_contract

Verified rules of a donation and scholarship pool contract for Soroban.

- `src/` is the verified library. `Contract`'s functions take the
  records a contract call reads from its persistent storage (the pool
  counter, a pool, a donation counter, the unclaimed protocol fees, a
  student's status text and application record) and return what the call
  writes back, or the `ContractError` with which it is refused. Each states
  its result exactly in `ensures`, over the spec functions of
  `src/contract.rs`; `src/laws.rs` proves what holds across calls (pool ids in
  sequence, donations and claims accumulating, closed pools refusing
  donations, claims staying within what a pool collected and within the
  approved amount). `src/ledger.rs` models the contract's storage as the
  records its calls read and write, so that `src/laws.rs` can also state
  laws over any sequence of calls from a fresh contract: pools read back
  exactly for ids 1 to the pool count, the count is the number of successful
  creations, and a student's application record sums the granted claims.
- `app/` is the Soroban contract shell: storage keys, reading and writing
  the ledger, `require_auth`, and the token transfer of a granted claim.
- `tests/` runs the library's rules over an in-memory ledger.

The protocol fees kept from donations accumulate in the ledger and can be
read; there is no call that pays them out, and no admin or school roles.
