# propchain

Verified models of two real-estate contracts, written in Verus.

- `src/crowdfunding.rs` — the crowdfunding contract: campaigns, investor
  onboarding and investment, milestones, proposals and votes, a secondary
  market for shares, risk ratings and the discovery queries. Each message
  takes the calling account explicitly and appends the events it emits to the
  contract's event log.
- `src/rules.rs` — the contract's state as mathematical values and, for every
  message, the state it leads to and its answer; each message's `ensures`
  is stated against these.
- `src/discovery.rs`, `src/text.rs` — summaries, filters, paging, the
  raised-amount ranking and case-insensitive keyword search.
- `src/laws.rs` — properties of the contract as a whole: the invariants every
  request keeps (well-formedness, balanced books, no closed campaigns),
  refused requests changing nothing, one vote per account, one release per
  milestone, funded campaigns refusing investment, share transfers,
  statistics, risk listings and rankings.
- `src/ledger.rs` — sums over accounts: investments and shares per campaign.
- `src/lending.rs` — the lending pool's storage model and its
  utilization-based interest rate.
- `src/storage.rs`, `src/account.rs` — the key-value store the contracts keep
  their records in, and account identifiers.
- `app/lib.rs` — the Soroban shell of the lending pool: it reads the
  instance storage into the library's model and writes back what changed.
