# zk_octopus

Privacy-preserving urban credentials from Octopus card transactions, as a
Verus-verified library with a small command line around it.

- `src/` — the verified library:
  - `types.rs`: transactions, POD credentials, claim predicates, proofs,
    attestations, errors, and their mathematical views.
  - `pod.rs`: aggregation of transactions into credential entries, Merkle root,
    issuer signature and provenance commitment; integrity check.
  - `prover.rs`: Semaphore-style identities and nullifiers, the nullifier
    registry, predicate evaluation, proof generation and verification.
  - `eas.rs`: attestation issuance (claim data as JSON, gas, block) and the
    verifier's schema check.
  - `demo.rs`: the synthetic March 2026 transaction history.
  - `cli.rs`: the predicates and registration statuses the command line offers.
  - `text.rs`: decimal text, byte prefixes and byte-wise string comparison.
  - `outside.rs`: the trusted contracts of the calls into `sha2`, `hex`,
    `serde_json` and `chrono`.
- `tests/` — tests run against the compiled library with the real outside crates.
- `app/` — the `zk-octopus` command line (argument parsing, printing).

Laws proved in `src/` include: a credential as built passes the integrity
check, and one with an entry changed, added or removed fails it (absent a
SHA-256 collision); a generated proof verifies while its nullifier is unused,
and one with a forged output or predicate name does not; a registered
nullifier is refused; different scopes give different nullifiers; a payment
bucket contains its total; an issued attestation passes the verifier's schema
check; and a generated proof with a fresh nullifier is always attested.
