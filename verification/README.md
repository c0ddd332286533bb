# stellarcred

The verified core of the StellarCred credential contracts for Soroban.

- `src/credential_verifier.rs` — the verification-key registry: which key a
  proof is checked against, deprecation, and the latest-version pointer.
- `src/proof_registry.rs` — the cache of verified credentials: what a
  submission stores, what `is_verified` and `check_claim` answer, aggregate
  submissions, revocation.
- `src/public_inputs.rs` — the layout of a proof's public inputs (issuer key,
  thresholds, aggregate blocks) as mathematical functions.
- `src/credential_types.rs` — the credential types known by name.
- `src/table.rs` — the keyed table that holds a family of ledger entries.
- `src/outside.rs` — the calls into `ultrahonk_soroban_verifier` and their
  contracts.
- `src/laws.rs` — properties that hold across operations.
- `app/` — the Soroban contracts: storage, entry lifetimes, authorization, the
  ledger clock, and calls between contracts, around the verified core.
