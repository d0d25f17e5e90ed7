# prexager

The verified core of the Prexager knowledge base's data model:

- `src/epistemic.rs` — the three epistemic tiers, their order, mutability,
  bifurcation eligibility and the Correspondence Principle, with proofs of the
  tier hierarchy.
- `src/strictness.rs` — property strictness levels, their order and
  mutability, and the cluster table that ties tiers to dominant strictness.
- `src/properties.rs` — non-zero property keys and typed property values.
- `src/storage_error.rs` — storage errors and their high-level codes.
- `app/lib.rs` — the serde and `std::error::Error` forms of these types, the
  floating-point reads of property values, and the conversions to and from
  the library's types.
- `tests/` — the tests, run against the compiled library.
