# hello_service

The verified logic of the current-boot hello service: how its records are
hashed, how the artifact load plan preflight is built and validated, and how
the rollback gates of a hot swap keep every durable rollback append denied.

Every record is the SHA-256 of canonical `key=value\n` lines. The contracts
speak of those lines as byte sequences and of the digest through the
uninterpreted `sha256_digest`; SHA-256 itself comes from the `sha2` crate.

## Layout

- `sha256` — the hasher held opaquely, and what it has absorbed.
- `canonical` — hashing, measuring and laying out canonical lines in a
  sector image.
- `compare`, `methods` — byte-exact comparison of texts and digests, and the
  self-test method names.
- `preflight` — the artifact load plan preflight, the service slot
  activation record and the preflight self-test.
- `foundation` — what the storage layout, append engine and append contract
  report, assembled into the writer storage foundation.
- `append_plan` — the audit and rollback transaction record images, their
  sector image, and the append record, sector plan and scratch write dry
  runs.
- `target_region`, `sector_inspection` — the durable target region's media
  write policy, write-and-readback dry run and sector inspection, built from
  what the storage controller reports.
- `inspect_source` — the retained recovery inspect source and its state.
- `writer_gate`, `audit_policy` — the writer policy, durable append authority
  and durable audit policy steps of the denial chain.
- `rollback_gate` — the preview, denied apply, transaction preflight, gates,
  payload and provenance digests of a hot swap.
- `rollback_chain` — the whole denial chain, and the proof that it grants
  nothing.

The storage controller, the event log and the descriptor sources are not
part of this crate: what they report enters as plain values.
