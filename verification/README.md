# sla_calculator

An SLA calculator contract for the Soroban platform, with its logic verified
in Verus.

- `src/` is the verified library. `contract.rs` holds the contract state (one
  field per storage key, the ledger time, the published events) and every
  entry point; each entry point's `ensures` equates its effect with a
  transition of the abstract model in `model.rs`. `calc.rs` is the
  evaluation rule (met / violated, rating tiers, reward and penalty),
  `config.rs` the severity tiers, config validation and the config version
  hash, `events.rs` the published events, `version_negotiation.rs` the
  multi-contract version protocol, and `laws.rs` the properties proved of
  the whole (failed calls change nothing, the event log only grows, the
  state invariant is kept by every entry point, the version check comes
  first, renouncing the admin is irreversible, the role hand-overs,
  pruning, audit mode, negotiation independent of peer order and status).
- `app/` is the on-chain shell: a `#[contract]` that loads instance storage
  into the library's state, runs the entry point, writes the state back and
  publishes the recorded events through the Soroban SDK.
- `tests/` exercise the library through a small ledger harness.
