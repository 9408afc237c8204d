# symbiont-core

Deterministic rules for checking agent outcome metrics (social views, market
resolutions, participant surveys) over supplied evidence, with SHA-256 commitments
that bind a result to its policy and evidence. The library is written in Verus and
its contracts are proved.

Layout:

- `src/model.rs` – policy, evidence and result types, and their models.
- `src/checks.rs` – identifier text rules, unique identifier lists, first-failure scans.
- `src/policy.rs` – `Policy::validate`.
- `src/rules.rs` – `evaluate` and the per-metric rules, `check_input_size`.
- `src/digest.rs` – `commitment`: domain, zero byte and serialized value, hashed with
  the `sha2` crate and rendered as lowercase hex.
- `src/expect.rs` – `expectation` and `check_expectation`.
- `src/laws.rs` – properties relating evaluation, expectations and comparison.
- `src/report.rs` – threshold reports over pre-aggregated figures.
- `app/` – the command-line front end: file I/O, JSON reading and writing (serde),
  and serializable copies of the library's types.

The library takes the compact JSON serialization of a policy and of evidence as bytes;
`app/wire.rs` produces them with `serde_json` from the serializable copies.
