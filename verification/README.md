# rent_to_own

A rent-to-own leasing platform: assets are registered and leased, lessees pay
monthly instalments or pay off early at a discount, and the maintenance of
assets is logged. The decision logic is a Verus-verified library; the Internet
Computer canister that stores the records and serves the requests is a thin
Rust crate around it.

- `src/types.rs` – records, payloads and their mathematical views.
- `src/text.rs` – blank-text detection and decimal rendering.
- `src/validation.rs` – the rules for new assets and leases.
- `src/schedule.rs` – days remaining, payment standing, next due date.
- `src/leases.rs` – opening, looking up, paying and terminating leases.
- `src/assets.rs` – registering, looking up and maintaining assets.
- `src/laws.rs` – properties that span operations (well-formedness kept by
  every operation, completion, termination, access, time).
- `app/` – the canister: stable storage, id counters, clock and caller.
