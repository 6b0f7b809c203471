# arenax_contracts

Verified models of the ArenaX analytics and treasury Soroban contracts,
written in Verus.

- `src/analytics/`: the analytics contract. `model.rs` states what its
  storage means and what every call does to it; `contract.rs`,
  `reporting.rs` and `aggregate.rs` hold the executable entry points, each
  proved against that statement; `laws.rs` proves what holds across calls
  (emergency stop, reporter and registry round trips, the hourly circular
  buffer, rolling averages, bounded privacy noise).
- `src/treasury/`: the multi-signature treasury, laid out the same way;
  `laws.rs` proves the invariants every call keeps (threshold, non-negative
  balance, budgets within allocations, unique approvals, duplicate-free
  allocation and duration ballots that match their vote records, proposal
  ids), conservation of funds, frozen time locks, single execution, and
  that distinct proposals hash distinct time-lock operation preimages.
- `src/table.rs`: a verified association table whose meaning is a `Map`.

The contracts keep their lists (signers, approvals, votes) in Soroban
`Vec`s and their records in keyed contract storage. Both are host objects:
a Soroban `Vec` or `Map` lives in the host and is reached only through an
`Env`, which verified code cannot construct, and its contents are opaque
to Verus. The model therefore holds the same data as plain values: a std
`Vec` for each list, with the properties the contracts rely on stated as
invariants (no duplicates, order of arrival kept), and `Table` for each
keyed record. `app/` converts between the two at the storage boundary.
- `src/ids.rs`: addresses (as their XDR bytes) and byte strings.
- `src/digest.rs`: SHA-256 through the Soroban host, the one trusted call.
- `app/`: the Soroban contracts themselves; each entry point loads storage
  into the verified model, lets it decide, checks signatures, stores the
  result, publishes events and calls the time-lock contract (for an
  execution, after the verified pre-checks and before the ledger changes).
