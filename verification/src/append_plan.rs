//! The two append record images of a proposed rollback transaction (the
//! audit record and the rollback transaction record), their byte lengths
//! and hashes, the scratch sector image that holds them, and the append
//! record and sector plan dry runs.

use vstd::prelude::*;
use vstd::string::StringSliceAdditionalSpecFns;
use crate::canonical::{
    SECTOR_BYTES, canonical_line_bool_len, canonical_line_hash_len, canonical_line_str_len,
    copy_count, finalize_sha256, hash_line_bool, hash_line_hash, hash_line_str, hash_line_u64,
    lay_bytes, lemma_lay_bytes_concat, line_bool, line_hash, line_str, line_u64, sha256_bytes,
    write_canonical_line_bool, write_canonical_line_hash, write_canonical_line_str,
};
use crate::constants::{
    HELLO_ROLLBACK_APPEND_SECTOR_WRITE_READBACK_DRY_RUN_ID,
    HELLO_ROLLBACK_APPEND_SECTOR_WRITE_READBACK_DRY_RUN_REASON,
    HELLO_ROLLBACK_APPEND_SECTOR_WRITE_READBACK_DRY_RUN_SCHEMA,
    HELLO_ROLLBACK_APPEND_SECTOR_WRITE_READBACK_DRY_RUN_STATUS,
    HELLO_ROLLBACK_APPEND_RECORD_CANONICALIZATION, HELLO_ROLLBACK_APPEND_RECORD_DRY_RUN_ID,
    HELLO_ROLLBACK_APPEND_RECORD_DRY_RUN_REASON, HELLO_ROLLBACK_APPEND_RECORD_DRY_RUN_SCHEMA,
    HELLO_ROLLBACK_APPEND_RECORD_DRY_RUN_STATUS, HELLO_ROLLBACK_APPEND_SECTOR_PADDING_POLICY,
    HELLO_ROLLBACK_APPEND_SECTOR_PLAN_CANONICALIZATION, HELLO_ROLLBACK_APPEND_SECTOR_PLAN_DRY_RUN_ID,
    HELLO_ROLLBACK_APPEND_SECTOR_PLAN_DRY_RUN_REASON, HELLO_ROLLBACK_APPEND_SECTOR_PLAN_DRY_RUN_SCHEMA,
    HELLO_ROLLBACK_APPEND_SECTOR_PLAN_DRY_RUN_STATUS, HELLO_ROLLBACK_TRANSACTION_PAYLOAD_SCHEMA,
};
use crate::compare::text_eq;
use crate::foundation::{ControllerIds, RollbackWriterStorageFoundation, StorageLayoutIds};
use crate::sha256::{sha256_absorbed, sha256_digest, sha256_new};

verus! {

/// The digests a proposed rollback transaction's append records carry: of
/// the transaction payload, of its provenance and of the rollback apply
/// denial it answers.
#[derive(Clone, Copy)]
pub struct AppendRecordSources {
    pub payload_hash: [u8; 32],
    pub provenance_hash: [u8; 32],
    pub rollback_apply_hash: [u8; 32],
}

/// The append record dry run: both record images measured and hashed and
/// the scratch range they would occupy.
#[derive(Clone, Copy)]
pub struct RollbackAppendRecordDryRun {
    pub dry_run_hash: [u8; 32],
    pub audit_record_image_hash: [u8; 32],
    pub rollback_transaction_image_hash: [u8; 32],
    pub audit_record_byte_length: u64,
    pub rollback_transaction_byte_length: u64,
    pub total_record_byte_length: u64,
    pub target_start_lba: u64,
    pub target_lba_count: u64,
    pub target_byte_count: u64,
    pub target_range_ready: bool,
}

/// The sector plan dry run: where each record image and the padding lie in
/// one sector, and the hash of the planned sector image.
#[derive(Clone, Copy)]
pub struct RollbackAppendSectorPlanDryRun {
    pub plan_hash: [u8; 32],
    pub sector_image_hash: [u8; 32],
    pub sector_size_bytes: u64,
    pub audit_record_offset: u64,
    pub audit_record_byte_length: u64,
    pub rollback_transaction_offset: u64,
    pub rollback_transaction_byte_length: u64,
    pub padding_offset: u64,
    pub padding_byte_length: u64,
    pub target_start_lba: u64,
    pub target_lba_count: u64,
    pub target_byte_count: u64,
    pub target_range_ready: bool,
}

/// The canonical lines of the audit record image.
pub open spec fn audit_record_stream(
    layout: StorageLayoutIds,
    sources: AppendRecordSources,
) -> Seq<u8> {
    line_str("schema", "raios.audit_record.v0") + line_str(
        "append_target_id",
        layout.audit_append_target_id,
    ) + line_hash("payload_sha256", sources.payload_hash@) + line_hash(
        "provenance_sha256",
        sources.provenance_hash@,
    ) + line_hash("rollback_apply_sha256", sources.rollback_apply_hash@) + line_bool(
        "write_attempted",
        false,
    )
}

/// The canonical lines of the rollback transaction record image.
pub open spec fn transaction_record_stream(
    layout: StorageLayoutIds,
    sources: AppendRecordSources,
) -> Seq<u8> {
    line_str("schema", HELLO_ROLLBACK_TRANSACTION_PAYLOAD_SCHEMA) + line_str(
        "append_target_id",
        layout.rollback_append_target_id,
    ) + line_hash("payload_sha256", sources.payload_hash@) + line_hash(
        "provenance_sha256",
        sources.provenance_hash@,
    ) + line_bool("appended", false) + line_bool("write_attempted", false)
}

/// The byte length of the audit record image: its fixed lines and the
/// audit ledger's identifier.
pub open spec fn audit_record_length(layout: StorageLayoutIds) -> nat {
    223 + layout.audit_append_target_id.spec_bytes().len()
}

/// The byte length of the rollback transaction record image: its fixed
/// lines and the rollback store's identifier.
pub open spec fn transaction_record_length(layout: StorageLayoutIds) -> nat {
    191 + layout.rollback_append_target_id.spec_bytes().len()
}

/// Both record image lengths, and their sum, fit in a `u64`.
pub open spec fn record_lengths_fit(layout: StorageLayoutIds) -> bool {
    audit_record_length(layout) + transaction_record_length(layout) <= u64::MAX
}

proof fn lemma_ascii_len(s: &str)
    requires
        vstd::string::is_ascii(s),
    ensures
        s.spec_bytes().len() == s@.len(),
{
    vstd::string::is_ascii_spec_bytes(s);
}

proof fn lemma_audit_record_literals()
    ensures
        "schema".spec_bytes().len() == 6,
        "raios.audit_record.v0".spec_bytes().len() == 21,
        "append_target_id".spec_bytes().len() == 16,
        "payload_sha256".spec_bytes().len() == 14,
        "provenance_sha256".spec_bytes().len() == 17,
        "rollback_apply_sha256".spec_bytes().len() == 21,
        "write_attempted".spec_bytes().len() == 15,
{
    reveal_strlit("schema");
    reveal_strlit("raios.audit_record.v0");
    reveal_strlit("append_target_id");
    reveal_strlit("payload_sha256");
    reveal_strlit("provenance_sha256");
    reveal_strlit("rollback_apply_sha256");
    reveal_strlit("write_attempted");
    lemma_ascii_len("schema");
    lemma_ascii_len("raios.audit_record.v0");
    lemma_ascii_len("append_target_id");
    lemma_ascii_len("payload_sha256");
    lemma_ascii_len("provenance_sha256");
    lemma_ascii_len("rollback_apply_sha256");
    lemma_ascii_len("write_attempted");
}

proof fn lemma_transaction_record_literals()
    ensures
        "schema".spec_bytes().len() == 6,
        "raios.rollback_transaction.v0".spec_bytes().len() == 29,
        "append_target_id".spec_bytes().len() == 16,
        "payload_sha256".spec_bytes().len() == 14,
        "provenance_sha256".spec_bytes().len() == 17,
        "appended".spec_bytes().len() == 8,
        "write_attempted".spec_bytes().len() == 15,
{
    reveal_strlit("schema");
    reveal_strlit("raios.rollback_transaction.v0");
    reveal_strlit("append_target_id");
    reveal_strlit("payload_sha256");
    reveal_strlit("provenance_sha256");
    reveal_strlit("appended");
    reveal_strlit("write_attempted");
    lemma_ascii_len("schema");
    lemma_ascii_len("raios.rollback_transaction.v0");
    lemma_ascii_len("append_target_id");
    lemma_ascii_len("payload_sha256");
    lemma_ascii_len("provenance_sha256");
    lemma_ascii_len("appended");
    lemma_ascii_len("write_attempted");
}

/// The audit record image is as long as `audit_record_length` says.
pub proof fn lemma_audit_record_length(layout: StorageLayoutIds, sources: AppendRecordSources)
    ensures
        audit_record_stream(layout, sources).len() == audit_record_length(layout),
{
    reveal(line_str);
    reveal(line_hash);
    reveal(line_bool);
    lemma_audit_record_literals();
}

/// The rollback transaction record image is as long as
/// `transaction_record_length` says.
pub proof fn lemma_transaction_record_length(layout: StorageLayoutIds, sources: AppendRecordSources)
    ensures
        transaction_record_stream(layout, sources).len() == transaction_record_length(layout),
{
    reveal(line_str);
    reveal(line_hash);
    reveal(line_bool);
    lemma_transaction_record_literals();
}

/// The byte length of the audit record image.
pub fn hello_rollback_audit_append_record_image_byte_length(layout: StorageLayoutIds) -> (len: u64)
    requires
        audit_record_length(layout) <= u64::MAX,
    ensures
        len == audit_record_length(layout),
        forall|sources: AppendRecordSources| len == #[trigger] audit_record_stream(layout, sources).len(),
{
    proof {
        lemma_audit_record_literals();
        assert forall|sources: AppendRecordSources| audit_record_length(layout) == #[trigger] audit_record_stream(layout, sources).len() by {
            lemma_audit_record_length(layout, sources);
        }
    }
    canonical_line_str_len("schema", "raios.audit_record.v0") + canonical_line_str_len(
        "append_target_id",
        layout.audit_append_target_id,
    ) + canonical_line_hash_len("payload_sha256") + canonical_line_hash_len("provenance_sha256")
        + canonical_line_hash_len("rollback_apply_sha256") + canonical_line_bool_len(
        "write_attempted",
        false,
    )
}

/// The byte length of the rollback transaction record image.
pub fn hello_rollback_transaction_append_record_image_byte_length(
    layout: StorageLayoutIds,
) -> (len: u64)
    requires
        transaction_record_length(layout) <= u64::MAX,
    ensures
        len == transaction_record_length(layout),
        forall|sources: AppendRecordSources| len == #[trigger] transaction_record_stream(layout, sources).len(),
{
    proof {
        lemma_transaction_record_literals();
        assert forall|sources: AppendRecordSources| transaction_record_length(layout) == #[trigger] transaction_record_stream(layout, sources).len() by {
            lemma_transaction_record_length(layout, sources);
        }
    }
    canonical_line_str_len("schema", HELLO_ROLLBACK_TRANSACTION_PAYLOAD_SCHEMA)
        + canonical_line_str_len("append_target_id", layout.rollback_append_target_id)
        + canonical_line_hash_len("payload_sha256") + canonical_line_hash_len("provenance_sha256")
        + canonical_line_bool_len("appended", false) + canonical_line_bool_len(
        "write_attempted",
        false,
    )
}

/// The SHA-256 of the audit record image.
pub fn hello_rollback_audit_append_record_image_hash(
    layout: StorageLayoutIds,
    sources: AppendRecordSources,
) -> (digest: [u8; 32])
    ensures
        digest@ == sha256_digest(audit_record_stream(layout, sources)),
{
    let mut hash = sha256_new();
    hash_line_str(&mut hash, "schema", "raios.audit_record.v0");
    assert(sha256_absorbed(hash) =~= line_str("schema", "raios.audit_record.v0"));
    hash_line_str(&mut hash, "append_target_id", layout.audit_append_target_id);
    hash_line_hash(&mut hash, "payload_sha256", sources.payload_hash);
    hash_line_hash(&mut hash, "provenance_sha256", sources.provenance_hash);
    hash_line_hash(&mut hash, "rollback_apply_sha256", sources.rollback_apply_hash);
    hash_line_bool(&mut hash, "write_attempted", false);
    finalize_sha256(hash)
}

/// The SHA-256 of the rollback transaction record image.
pub fn hello_rollback_transaction_append_record_image_hash(
    layout: StorageLayoutIds,
    sources: AppendRecordSources,
) -> (digest: [u8; 32])
    ensures
        digest@ == sha256_digest(transaction_record_stream(layout, sources)),
{
    let mut hash = sha256_new();
    hash_line_str(&mut hash, "schema", HELLO_ROLLBACK_TRANSACTION_PAYLOAD_SCHEMA);
    assert(sha256_absorbed(hash) =~= line_str("schema", HELLO_ROLLBACK_TRANSACTION_PAYLOAD_SCHEMA));
    hash_line_str(&mut hash, "append_target_id", layout.rollback_append_target_id);
    hash_line_hash(&mut hash, "payload_sha256", sources.payload_hash);
    hash_line_hash(&mut hash, "provenance_sha256", sources.provenance_hash);
    hash_line_bool(&mut hash, "appended", false);
    hash_line_bool(&mut hash, "write_attempted", false);
    finalize_sha256(hash)
}

/// A sector of zero bytes.
pub open spec fn zero_sector() -> Seq<u8> {
    Seq::new(SECTOR_BYTES as nat, |_i: int| 0u8)
}

/// The audit record image followed by the rollback transaction record image.
pub open spec fn append_sector_stream(
    layout: StorageLayoutIds,
    sources: AppendRecordSources,
) -> Seq<u8> {
    audit_record_stream(layout, sources) + transaction_record_stream(layout, sources)
}

/// The scratch sector image: both record images from the start of a zeroed
/// sector, cut off where the sector ends.
pub fn hello_rollback_append_sector_image(
    layout: StorageLayoutIds,
    sources: AppendRecordSources,
) -> (image: [u8; SECTOR_BYTES])
    ensures
        image@ == lay_bytes(zero_sector(), 0, append_sector_stream(layout, sources)),
{
    let mut image = [0u8; SECTOR_BYTES];
    let mut offset = 0usize;
    let ghost zero = zero_sector();
    let ghost acc: Seq<u8> = Seq::empty();
    assert(image@ =~= zero);
    assert(lay_bytes(zero, 0, acc) =~= zero);
    write_canonical_line_str(&mut image, &mut offset, "schema", "raios.audit_record.v0");
    proof {
        lemma_lay_bytes_concat(zero, 0, acc, line_str("schema", "raios.audit_record.v0"));
        acc = acc + line_str("schema", "raios.audit_record.v0");
    }
    write_canonical_line_str(&mut image, &mut offset, "append_target_id", layout.audit_append_target_id);
    proof {
        lemma_lay_bytes_concat(zero, 0, acc, line_str("append_target_id", layout.audit_append_target_id));
        acc = acc + line_str("append_target_id", layout.audit_append_target_id);
    }
    write_canonical_line_hash(&mut image, &mut offset, "payload_sha256", sources.payload_hash);
    proof {
        lemma_lay_bytes_concat(zero, 0, acc, line_hash("payload_sha256", sources.payload_hash@));
        acc = acc + line_hash("payload_sha256", sources.payload_hash@);
    }
    write_canonical_line_hash(&mut image, &mut offset, "provenance_sha256", sources.provenance_hash);
    proof {
        lemma_lay_bytes_concat(zero, 0, acc, line_hash("provenance_sha256", sources.provenance_hash@));
        acc = acc + line_hash("provenance_sha256", sources.provenance_hash@);
    }
    write_canonical_line_hash(&mut image, &mut offset, "rollback_apply_sha256", sources.rollback_apply_hash);
    proof {
        lemma_lay_bytes_concat(zero, 0, acc, line_hash("rollback_apply_sha256", sources.rollback_apply_hash@));
        acc = acc + line_hash("rollback_apply_sha256", sources.rollback_apply_hash@);
    }
    write_canonical_line_bool(&mut image, &mut offset, "write_attempted", false);
    proof {
        lemma_lay_bytes_concat(zero, 0, acc, line_bool("write_attempted", false));
        acc = acc + line_bool("write_attempted", false);
        assert(acc =~= audit_record_stream(layout, sources));
    }
    write_canonical_line_str(&mut image, &mut offset, "schema", HELLO_ROLLBACK_TRANSACTION_PAYLOAD_SCHEMA);
    proof {
        lemma_lay_bytes_concat(zero, 0, acc, line_str("schema", HELLO_ROLLBACK_TRANSACTION_PAYLOAD_SCHEMA));
        acc = acc + line_str("schema", HELLO_ROLLBACK_TRANSACTION_PAYLOAD_SCHEMA);
    }
    write_canonical_line_str(&mut image, &mut offset, "append_target_id", layout.rollback_append_target_id);
    proof {
        lemma_lay_bytes_concat(zero, 0, acc, line_str("append_target_id", layout.rollback_append_target_id));
        acc = acc + line_str("append_target_id", layout.rollback_append_target_id);
    }
    write_canonical_line_hash(&mut image, &mut offset, "payload_sha256", sources.payload_hash);
    proof {
        lemma_lay_bytes_concat(zero, 0, acc, line_hash("payload_sha256", sources.payload_hash@));
        acc = acc + line_hash("payload_sha256", sources.payload_hash@);
    }
    write_canonical_line_hash(&mut image, &mut offset, "provenance_sha256", sources.provenance_hash);
    proof {
        lemma_lay_bytes_concat(zero, 0, acc, line_hash("provenance_sha256", sources.provenance_hash@));
        acc = acc + line_hash("provenance_sha256", sources.provenance_hash@);
    }
    write_canonical_line_bool(&mut image, &mut offset, "appended", false);
    proof {
        lemma_lay_bytes_concat(zero, 0, acc, line_bool("appended", false));
        acc = acc + line_bool("appended", false);
    }
    write_canonical_line_bool(&mut image, &mut offset, "write_attempted", false);
    proof {
        lemma_lay_bytes_concat(zero, 0, acc, line_bool("write_attempted", false));
        acc = acc + line_bool("write_attempted", false);
        assert(acc =~= append_sector_stream(layout, sources));
    }
    image
}

/// When both record images fit in one sector, the sector image holds the
/// audit record image at offset zero, the rollback transaction record image
/// right after it and zeros to the end, so hashing either stretch of the
/// sector gives that record's image hash.
pub proof fn lemma_sector_image_holds_records(
    layout: StorageLayoutIds,
    sources: AppendRecordSources,
    image: Seq<u8>,
)
    requires
        image == lay_bytes(zero_sector(), 0, append_sector_stream(layout, sources)),
        audit_record_length(layout) + transaction_record_length(layout) <= SECTOR_BYTES,
    ensures
        image.len() == SECTOR_BYTES,
        image.subrange(0, audit_record_length(layout) as int) == audit_record_stream(layout, sources),
        image.subrange(
            audit_record_length(layout) as int,
            (audit_record_length(layout) + transaction_record_length(layout)) as int,
        ) == transaction_record_stream(layout, sources),
        forall|i: int|
            audit_record_length(layout) + transaction_record_length(layout) <= i < SECTOR_BYTES
                ==> image[i] == 0,
        sha256_digest(image.subrange(0, audit_record_length(layout) as int)) == sha256_digest(
            audit_record_stream(layout, sources),
        ),
        sha256_digest(
            image.subrange(
                audit_record_length(layout) as int,
                (audit_record_length(layout) + transaction_record_length(layout)) as int,
            ),
        ) == sha256_digest(transaction_record_stream(layout, sources)),
{
    lemma_audit_record_length(layout, sources);
    lemma_transaction_record_length(layout, sources);
    let a = audit_record_stream(layout, sources);
    let t = transaction_record_stream(layout, sources);
    let al = audit_record_length(layout) as int;
    let tl = transaction_record_length(layout) as int;
    assert(copy_count(0, (a + t).len() as int) == al + tl);
    assert(image.subrange(0, al) =~= a) by {
        assert forall|i: int| 0 <= i < al implies image.subrange(0, al)[i] == a[i] by {
            assert((a + t)[i] == a[i]);
        }
    }
    assert(image.subrange(al, al + tl) =~= t) by {
        assert forall|i: int| 0 <= i < tl implies image.subrange(al, al + tl)[i] == t[i] by {
            assert((a + t)[al + i] == t[i]);
        }
    }
}

/// The append record dry run's canonical lines.
pub open spec fn append_record_dry_run_stream(
    r: RollbackAppendRecordDryRun,
    sources: AppendRecordSources,
) -> Seq<u8> {
    line_str("schema", HELLO_ROLLBACK_APPEND_RECORD_DRY_RUN_SCHEMA) + line_str(
        "id",
        HELLO_ROLLBACK_APPEND_RECORD_DRY_RUN_ID,
    ) + line_str("scope", "current_boot") + line_str("classification", "local_only") + line_str(
        "persistence",
        "none",
    ) + line_str("canonicalization", HELLO_ROLLBACK_APPEND_RECORD_CANONICALIZATION) + line_str(
        "status",
        HELLO_ROLLBACK_APPEND_RECORD_DRY_RUN_STATUS,
    ) + line_str("reason", HELLO_ROLLBACK_APPEND_RECORD_DRY_RUN_REASON) + line_hash(
        "audit_record_image_sha256",
        r.audit_record_image_hash@,
    ) + line_u64("audit_record_byte_length", r.audit_record_byte_length) + line_hash(
        "rollback_transaction_image_sha256",
        r.rollback_transaction_image_hash@,
    ) + line_u64("rollback_transaction_byte_length", r.rollback_transaction_byte_length)
        + line_u64("total_record_byte_length", r.total_record_byte_length) + line_u64(
        "target_start_lba",
        r.target_start_lba,
    ) + line_u64("target_lba_count", r.target_lba_count) + line_u64(
        "target_byte_count",
        r.target_byte_count,
    ) + line_bool("target_range_ready", r.target_range_ready) + line_hash(
        "payload_sha256",
        sources.payload_hash@,
    ) + line_hash("provenance_sha256", sources.provenance_hash@) + line_bool(
        "authorizes_append",
        false,
    ) + line_bool("writes_durable_audit_log", false) + line_bool("writes_rollback_store", false)
        + line_bool("appends_rollback_transaction", false) + line_bool("write_attempted", false)
}

/// The number of whole blocks of `block` bytes that `total` bytes occupy
/// (none when blocks are empty).
pub open spec fn blocks_for(total: int, block: int) -> int {
    if block == 0 {
        0
    } else {
        (total + block - 1) / block
    }
}

/// `r` is the append record dry run of both record images against the
/// scratch region.
pub open spec fn is_append_record_dry_run_for(
    r: RollbackAppendRecordDryRun,
    layout: StorageLayoutIds,
    sources: AppendRecordSources,
    foundation: RollbackWriterStorageFoundation,
) -> bool {
    &&& r.audit_record_byte_length == audit_record_length(layout)
    &&& r.rollback_transaction_byte_length == transaction_record_length(layout)
    &&& r.total_record_byte_length == audit_record_length(layout) + transaction_record_length(layout)
    &&& r.audit_record_image_hash@ == sha256_digest(audit_record_stream(layout, sources))
    &&& r.rollback_transaction_image_hash@ == sha256_digest(transaction_record_stream(layout, sources))
    &&& r.target_start_lba == foundation.scratch_region_start_lba
    &&& r.target_byte_count == foundation.scratch_region_byte_count
    &&& r.target_lba_count == blocks_for(
        r.total_record_byte_length as int,
        foundation.scratch_region_byte_count as int,
    )
    &&& r.target_range_ready == (foundation.scratch_writer_dry_run_ready && r.target_lba_count
        <= foundation.scratch_region_lba_count)
    &&& r.dry_run_hash@ == sha256_digest(append_record_dry_run_stream(r, sources))
}

/// Measures and hashes both record images and plans the scratch blocks
/// they would take, without any write.
pub fn hello_rollback_append_record_dry_run(
    layout: StorageLayoutIds,
    sources: AppendRecordSources,
    foundation: RollbackWriterStorageFoundation,
) -> (record: RollbackAppendRecordDryRun)
    requires
        record_lengths_fit(layout),
        audit_record_length(layout) + transaction_record_length(layout)
            + foundation.scratch_region_byte_count <= u64::MAX,
    ensures
        is_append_record_dry_run_for(record, layout, sources, foundation),
{
    let audit_record_byte_length = hello_rollback_audit_append_record_image_byte_length(layout);
    let rollback_transaction_byte_length =
        hello_rollback_transaction_append_record_image_byte_length(layout);
    let total_record_byte_length = audit_record_byte_length + rollback_transaction_byte_length;
    let target_byte_count = foundation.scratch_region_byte_count as u64;
    let target_lba_count = if target_byte_count == 0 {
        0
    } else {
        (total_record_byte_length + target_byte_count - 1) / target_byte_count
    };
    let target_range_ready = foundation.scratch_writer_dry_run_ready && target_lba_count
        <= foundation.scratch_region_lba_count;
    let audit_record_image_hash = hello_rollback_audit_append_record_image_hash(layout, sources);
    let rollback_transaction_image_hash = hello_rollback_transaction_append_record_image_hash(
        layout,
        sources,
    );
    let mut hash = sha256_new();
    hash_line_str(&mut hash, "schema", HELLO_ROLLBACK_APPEND_RECORD_DRY_RUN_SCHEMA);
    assert(sha256_absorbed(hash) =~= line_str("schema",
        HELLO_ROLLBACK_APPEND_RECORD_DRY_RUN_SCHEMA));
    hash_line_str(&mut hash, "id", HELLO_ROLLBACK_APPEND_RECORD_DRY_RUN_ID);
    hash_line_str(&mut hash, "scope", "current_boot");
    hash_line_str(&mut hash, "classification", "local_only");
    hash_line_str(&mut hash, "persistence", "none");
    hash_line_str(&mut hash, "canonicalization", HELLO_ROLLBACK_APPEND_RECORD_CANONICALIZATION);
    hash_line_str(&mut hash, "status", HELLO_ROLLBACK_APPEND_RECORD_DRY_RUN_STATUS);
    hash_line_str(&mut hash, "reason", HELLO_ROLLBACK_APPEND_RECORD_DRY_RUN_REASON);
    hash_line_hash(&mut hash, "audit_record_image_sha256", audit_record_image_hash);
    hash_line_u64(&mut hash, "audit_record_byte_length", audit_record_byte_length);
    hash_line_hash(&mut hash, "rollback_transaction_image_sha256", rollback_transaction_image_hash);
    hash_line_u64(&mut hash, "rollback_transaction_byte_length", rollback_transaction_byte_length);
    hash_line_u64(&mut hash, "total_record_byte_length", total_record_byte_length);
    hash_line_u64(&mut hash, "target_start_lba", foundation.scratch_region_start_lba);
    hash_line_u64(&mut hash, "target_lba_count", target_lba_count);
    hash_line_u64(&mut hash, "target_byte_count", target_byte_count);
    hash_line_bool(&mut hash, "target_range_ready", target_range_ready);
    hash_line_hash(&mut hash, "payload_sha256", sources.payload_hash);
    hash_line_hash(&mut hash, "provenance_sha256", sources.provenance_hash);
    hash_line_bool(&mut hash, "authorizes_append", false);
    hash_line_bool(&mut hash, "writes_durable_audit_log", false);
    hash_line_bool(&mut hash, "writes_rollback_store", false);
    hash_line_bool(&mut hash, "appends_rollback_transaction", false);
    hash_line_bool(&mut hash, "write_attempted", false);
    RollbackAppendRecordDryRun {
        dry_run_hash: finalize_sha256(hash),
        audit_record_image_hash,
        rollback_transaction_image_hash,
        audit_record_byte_length,
        rollback_transaction_byte_length,
        total_record_byte_length,
        target_start_lba: foundation.scratch_region_start_lba,
        target_lba_count,
        target_byte_count,
        target_range_ready,
    }
}

/// The sector plan dry run's canonical lines.
pub open spec fn sector_plan_stream(
    p: RollbackAppendSectorPlanDryRun,
    append_record: RollbackAppendRecordDryRun,
) -> Seq<u8> {
    line_str("schema", HELLO_ROLLBACK_APPEND_SECTOR_PLAN_DRY_RUN_SCHEMA) + line_str(
        "id",
        HELLO_ROLLBACK_APPEND_SECTOR_PLAN_DRY_RUN_ID,
    ) + line_str("scope", "current_boot") + line_str("classification", "local_only") + line_str(
        "persistence",
        "none",
    ) + line_str("canonicalization", HELLO_ROLLBACK_APPEND_SECTOR_PLAN_CANONICALIZATION)
        + line_str("status", HELLO_ROLLBACK_APPEND_SECTOR_PLAN_DRY_RUN_STATUS) + line_str(
        "reason",
        HELLO_ROLLBACK_APPEND_SECTOR_PLAN_DRY_RUN_REASON,
    ) + line_hash("append_record_dry_run_sha256", append_record.dry_run_hash@) + line_hash(
        "sector_image_sha256",
        p.sector_image_hash@,
    ) + line_u64("sector_size_bytes", p.sector_size_bytes) + line_u64(
        "audit_record_offset",
        p.audit_record_offset,
    ) + line_u64("rollback_transaction_offset", p.rollback_transaction_offset) + line_str(
        "padding_policy",
        HELLO_ROLLBACK_APPEND_SECTOR_PADDING_POLICY,
    ) + line_u64("padding_offset", p.padding_offset) + line_u64(
        "padding_byte_length",
        p.padding_byte_length,
    ) + line_u64("target_start_lba", p.target_start_lba) + line_u64(
        "target_lba_count",
        p.target_lba_count,
    ) + line_u64("target_byte_count", p.target_byte_count) + line_bool(
        "target_range_ready",
        p.target_range_ready,
    ) + line_bool("authorizes_append", false) + line_bool("writes_durable_audit_log", false)
        + line_bool("writes_rollback_store", false) + line_bool(
        "appends_rollback_transaction",
        false,
    ) + line_bool("write_attempted", false)
}

/// `p` is the sector plan for `append_record`: the audit record at offset
/// zero, the transaction record after it, zero padding to the end of the
/// target bytes, and the hash of the planned sector image.
pub open spec fn is_sector_plan_for(
    p: RollbackAppendSectorPlanDryRun,
    layout: StorageLayoutIds,
    sources: AppendRecordSources,
    append_record: RollbackAppendRecordDryRun,
) -> bool {
    &&& p.sector_image_hash@ == sha256_digest(
        lay_bytes(zero_sector(), 0, append_sector_stream(layout, sources)),
    )
    &&& p.sector_size_bytes == append_record.target_byte_count
    &&& p.audit_record_offset == 0
    &&& p.audit_record_byte_length == append_record.audit_record_byte_length
    &&& p.rollback_transaction_offset == append_record.audit_record_byte_length
    &&& p.rollback_transaction_byte_length == append_record.rollback_transaction_byte_length
    &&& p.padding_offset == append_record.total_record_byte_length
    &&& p.padding_byte_length == (if append_record.target_byte_count
        >= append_record.total_record_byte_length {
        append_record.target_byte_count - append_record.total_record_byte_length
    } else {
        0
    })
    &&& p.target_start_lba == append_record.target_start_lba
    &&& p.target_lba_count == append_record.target_lba_count
    &&& p.target_byte_count == append_record.target_byte_count
    &&& p.target_range_ready == (append_record.target_range_ready
        && append_record.target_lba_count == 1 && append_record.total_record_byte_length
        <= append_record.target_byte_count)
    &&& p.plan_hash@ == sha256_digest(sector_plan_stream(p, append_record))
}

/// Plans where both record images and the padding lie in one sector and
/// hashes the planned sector image, without any write.
pub fn hello_rollback_append_sector_plan_dry_run(
    layout: StorageLayoutIds,
    sources: AppendRecordSources,
    append_record: RollbackAppendRecordDryRun,
) -> (plan: RollbackAppendSectorPlanDryRun)
    ensures
        is_sector_plan_for(plan, layout, sources, append_record),
{
    let audit_record_offset: u64 = 0;
    let rollback_transaction_offset = append_record.audit_record_byte_length;
    let padding_offset = append_record.total_record_byte_length;
    let padding_byte_length = append_record.target_byte_count.saturating_sub(
        append_record.total_record_byte_length,
    );
    let sector_size_bytes = append_record.target_byte_count;
    let target_range_ready = append_record.target_range_ready && append_record.target_lba_count
        == 1 && append_record.total_record_byte_length <= sector_size_bytes;

    let sector_image = hello_rollback_append_sector_image(layout, sources);
    let sector_image_hash = sha256_bytes(&sector_image);

    let mut plan_hash = sha256_new();
    hash_line_str(&mut plan_hash, "schema", HELLO_ROLLBACK_APPEND_SECTOR_PLAN_DRY_RUN_SCHEMA);
    assert(sha256_absorbed(plan_hash) =~= line_str("schema", HELLO_ROLLBACK_APPEND_SECTOR_PLAN_DRY_RUN_SCHEMA));
    hash_line_str(&mut plan_hash, "id", HELLO_ROLLBACK_APPEND_SECTOR_PLAN_DRY_RUN_ID);
    hash_line_str(&mut plan_hash, "scope", "current_boot");
    hash_line_str(&mut plan_hash, "classification", "local_only");
    hash_line_str(&mut plan_hash, "persistence", "none");
    hash_line_str(&mut plan_hash, "canonicalization", HELLO_ROLLBACK_APPEND_SECTOR_PLAN_CANONICALIZATION);
    hash_line_str(&mut plan_hash, "status", HELLO_ROLLBACK_APPEND_SECTOR_PLAN_DRY_RUN_STATUS);
    hash_line_str(&mut plan_hash, "reason", HELLO_ROLLBACK_APPEND_SECTOR_PLAN_DRY_RUN_REASON);
    hash_line_hash(&mut plan_hash, "append_record_dry_run_sha256", append_record.dry_run_hash);
    hash_line_hash(&mut plan_hash, "sector_image_sha256", sector_image_hash);
    hash_line_u64(&mut plan_hash, "sector_size_bytes", sector_size_bytes);
    hash_line_u64(&mut plan_hash, "audit_record_offset", audit_record_offset);
    hash_line_u64(&mut plan_hash, "rollback_transaction_offset", rollback_transaction_offset);
    hash_line_str(&mut plan_hash, "padding_policy", HELLO_ROLLBACK_APPEND_SECTOR_PADDING_POLICY);
    hash_line_u64(&mut plan_hash, "padding_offset", padding_offset);
    hash_line_u64(&mut plan_hash, "padding_byte_length", padding_byte_length);
    hash_line_u64(&mut plan_hash, "target_start_lba", append_record.target_start_lba);
    hash_line_u64(&mut plan_hash, "target_lba_count", append_record.target_lba_count);
    hash_line_u64(&mut plan_hash, "target_byte_count", append_record.target_byte_count);
    hash_line_bool(&mut plan_hash, "target_range_ready", target_range_ready);
    hash_line_bool(&mut plan_hash, "authorizes_append", false);
    hash_line_bool(&mut plan_hash, "writes_durable_audit_log", false);
    hash_line_bool(&mut plan_hash, "writes_rollback_store", false);
    hash_line_bool(&mut plan_hash, "appends_rollback_transaction", false);
    hash_line_bool(&mut plan_hash, "write_attempted", false);

    RollbackAppendSectorPlanDryRun {
        plan_hash: finalize_sha256(plan_hash),
        sector_image_hash,
        sector_size_bytes,
        audit_record_offset,
        audit_record_byte_length: append_record.audit_record_byte_length,
        rollback_transaction_offset,
        rollback_transaction_byte_length: append_record.rollback_transaction_byte_length,
        padding_offset,
        padding_byte_length,
        target_start_lba: append_record.target_start_lba,
        target_lba_count: append_record.target_lba_count,
        target_byte_count: append_record.target_byte_count,
        target_range_ready,
    }
}

/// The planned blocks hold all the record bytes, and one block fewer
/// would not.
pub proof fn lemma_blocks_for_covers(total: int, block: int)
    requires
        0 <= total,
        0 < block,
    ensures
        blocks_for(total, block) * block >= total,
        total > 0 ==> (blocks_for(total, block) - 1) * block < total,
        blocks_for(total, block) >= 0,
{
    let n = blocks_for(total, block);
    assert(n == (total + block - 1) / block);
    vstd::arithmetic::div_mod::lemma_fundamental_div_mod(total + block - 1, block);
    let r = (total + block - 1) % block;
    assert(total + block - 1 == block * n + r);
    assert(0 <= r < block);
    assert(n * block == block * n) by (nonlinear_arith);
    assert((n - 1) * block == n * block - block) by (nonlinear_arith);
    assert(n >= 0) by (nonlinear_arith)
        requires
            total + block - 1 == block * n + r,
            0 <= r < block,
            0 <= total,
            0 < block,
    ;
}

/// A ready sector plan of a whole sector holds both record images: the
/// sector whose hash it records carries the audit record image at the
/// plan's audit offset and the transaction record image at the plan's
/// transaction offset, each hashing to the append record's image hash, with
/// zero padding from the plan's padding offset on.
pub proof fn lemma_ready_plan_holds_records(
    layout: StorageLayoutIds,
    sources: AppendRecordSources,
    foundation: RollbackWriterStorageFoundation,
    append_record: RollbackAppendRecordDryRun,
    plan: RollbackAppendSectorPlanDryRun,
)
    requires
        is_append_record_dry_run_for(append_record, layout, sources, foundation),
        is_sector_plan_for(plan, layout, sources, append_record),
        plan.target_range_ready,
        plan.sector_size_bytes == SECTOR_BYTES,
    ensures
        plan.target_lba_count == 1,
        plan.padding_offset + plan.padding_byte_length == SECTOR_BYTES,
        ({
            let image = lay_bytes(zero_sector(), 0, append_sector_stream(layout, sources));
            &&& plan.sector_image_hash@ == sha256_digest(image)
            &&& sha256_digest(
                image.subrange(
                    plan.audit_record_offset as int,
                    plan.audit_record_offset + plan.audit_record_byte_length,
                ),
            ) == append_record.audit_record_image_hash@
            &&& sha256_digest(
                image.subrange(
                    plan.rollback_transaction_offset as int,
                    plan.rollback_transaction_offset + plan.rollback_transaction_byte_length,
                ),
            ) == append_record.rollback_transaction_image_hash@
            &&& forall|i: int| plan.padding_offset <= i < SECTOR_BYTES ==> image[i] == 0
        }),
{
    let image = lay_bytes(zero_sector(), 0, append_sector_stream(layout, sources));
    lemma_sector_image_holds_records(layout, sources, image);
}

/// What the storage controller reports after writing the planned sector
/// image to the scratch region and reading it back.
#[derive(Clone, Copy)]
pub struct ScratchSectorWriteReadbackEvidence {
    pub available: bool,
    pub region_id: &'static str,
    pub target_lba: u64,
    pub byte_count: usize,
    pub region_within_device_bounds: bool,
    pub no_boot_or_partition_metadata_overlap: bool,
    pub label_found: bool,
    pub planned_image_hash: [u8; 32],
    pub readback_image_hash: [u8; 32],
    pub write_attempted: bool,
    pub write_completed: bool,
    pub readback_completed: bool,
    pub readback_matches_planned_image: bool,
    pub reason: &'static str,
}

/// The scratch sector write-and-readback dry run.
#[derive(Clone, Copy)]
pub struct RollbackAppendSectorWriteReadbackDryRun {
    pub dry_run_hash: [u8; 32],
    pub source_plan_hash: [u8; 32],
    pub planned_sector_image_hash: [u8; 32],
    pub readback_sector_image_hash: [u8; 32],
    pub target_start_lba: u64,
    pub target_lba_count: u64,
    pub target_byte_count: u64,
    pub label_found: bool,
    pub target_range_ready: bool,
    pub write_attempted: bool,
    pub write_completed: bool,
    pub readback_completed: bool,
    pub readback_matches_planned_image: bool,
    pub status: &'static str,
    pub reason: &'static str,
}

/// The scratch write-and-readback dry run's canonical lines.
pub open spec fn sector_write_stream(r: RollbackAppendSectorWriteReadbackDryRun) -> Seq<u8> {
    line_str("schema", HELLO_ROLLBACK_APPEND_SECTOR_WRITE_READBACK_DRY_RUN_SCHEMA)
        + line_str("id", HELLO_ROLLBACK_APPEND_SECTOR_WRITE_READBACK_DRY_RUN_ID)
        + line_str("scope", "current_boot")
        + line_str("classification", "local_only")
        + line_str("persistence", "none")
        + line_str("status", r.status)
        + line_str("reason", r.reason)
        + line_hash("source_plan_sha256", r.source_plan_hash@)
        + line_hash("planned_sector_image_sha256", r.planned_sector_image_hash@)
        + line_hash("readback_sector_image_sha256", r.readback_sector_image_hash@)
        + line_u64("target_start_lba", r.target_start_lba)
        + line_u64("target_lba_count", r.target_lba_count)
        + line_u64("target_byte_count", r.target_byte_count)
        + line_bool("label_found", r.label_found)
        + line_bool("target_range_ready", r.target_range_ready)
        + line_bool("scratch_write_attempted", r.write_attempted)
        + line_bool("scratch_write_completed", r.write_completed)
        + line_bool("scratch_readback_completed", r.readback_completed)
        + line_bool("readback_matches_planned_image", r.readback_matches_planned_image)
        + line_bool("authorizes_append", false)
        + line_bool("writes_durable_audit_log", false)
        + line_bool("writes_rollback_store", false)
        + line_bool("appends_rollback_transaction", false)
}

/// `r` is the scratch write-and-readback dry run built from the
/// controller's evidence, or from its absence.
pub open spec fn is_sector_write_for(
    r: RollbackAppendSectorWriteReadbackDryRun,
    sector_plan: RollbackAppendSectorPlanDryRun,
    evidence: Option<ScratchSectorWriteReadbackEvidence>,
    ids: ControllerIds,
) -> bool {
    &&& match evidence {
        Some(e) => {
            &&& r.planned_sector_image_hash == e.planned_image_hash
            &&& r.readback_sector_image_hash == e.readback_image_hash
            &&& r.label_found == e.label_found
            &&& r.target_range_ready == (sector_plan.target_range_ready && e.available
                && e.region_id.spec_bytes() == ids.scratch_block_region_id.spec_bytes()
                && e.target_lba == sector_plan.target_start_lba
                && e.byte_count == sector_plan.target_byte_count
                && e.region_within_device_bounds && e.no_boot_or_partition_metadata_overlap)
            &&& r.write_attempted == e.write_attempted
            &&& r.write_completed == e.write_completed
            &&& r.readback_completed == e.readback_completed
            &&& r.readback_matches_planned_image == e.readback_matches_planned_image
            &&& r.status == (if e.available {
                HELLO_ROLLBACK_APPEND_SECTOR_WRITE_READBACK_DRY_RUN_STATUS
            } else {
                "missing"
            })
            &&& r.reason == (if e.available {
                HELLO_ROLLBACK_APPEND_SECTOR_WRITE_READBACK_DRY_RUN_REASON
            } else {
                e.reason
            })
        },
        None => {
            &&& r.planned_sector_image_hash == sector_plan.sector_image_hash
            &&& r.readback_sector_image_hash@ == Seq::new(32, |_i: int| 0u8)
            &&& !r.label_found
            &&& !r.target_range_ready
            &&& !r.write_attempted
            &&& !r.write_completed
            &&& !r.readback_completed
            &&& !r.readback_matches_planned_image
            &&& r.status == "missing"
            &&& r.reason == "pci_mass_storage_controller_missing"
        },
    }
    &&& r.source_plan_hash == sector_plan.plan_hash
    &&& r.target_start_lba == sector_plan.target_start_lba
    &&& r.target_lba_count == sector_plan.target_lba_count
    &&& r.target_byte_count == sector_plan.target_byte_count
    &&& r.dry_run_hash@ == sha256_digest(sector_write_stream(r))
}

/// Builds the scratch sector write-and-readback dry run from what the
/// storage controller reported after writing the planned sector image to
/// the scratch region, or from its absence when no mass storage controller
/// was found.
pub fn hello_rollback_append_sector_write_readback_dry_run(
    sector_plan: RollbackAppendSectorPlanDryRun,
    evidence: Option<ScratchSectorWriteReadbackEvidence>,
    ids: ControllerIds,
) -> (record: RollbackAppendSectorWriteReadbackDryRun)
    ensures
        is_sector_write_for(record, sector_plan, evidence, ids),
{
    let (
        planned_sector_image_hash,
        readback_sector_image_hash,
        label_found,
        target_range_ready,
        write_attempted,
        write_completed,
        readback_completed,
        readback_matches_planned_image,
        status,
        reason,
    ) = match evidence {
        Some(evidence) => (
            evidence.planned_image_hash,
            evidence.readback_image_hash,
            evidence.label_found,
            sector_plan.target_range_ready && evidence.available && text_eq(
                evidence.region_id,
                ids.scratch_block_region_id,
            ) && evidence.target_lba == sector_plan.target_start_lba && evidence.byte_count as u64
                == sector_plan.target_byte_count && evidence.region_within_device_bounds
                && evidence.no_boot_or_partition_metadata_overlap,
            evidence.write_attempted,
            evidence.write_completed,
            evidence.readback_completed,
            evidence.readback_matches_planned_image,
            if evidence.available {
                HELLO_ROLLBACK_APPEND_SECTOR_WRITE_READBACK_DRY_RUN_STATUS
            } else {
                "missing"
            },
            if evidence.available {
                HELLO_ROLLBACK_APPEND_SECTOR_WRITE_READBACK_DRY_RUN_REASON
            } else {
                evidence.reason
            },
        ),
        None => (
            sector_plan.sector_image_hash,
            [0u8; 32],
            false,
            false,
            false,
            false,
            false,
            false,
            "missing",
            "pci_mass_storage_controller_missing",
        ),
    };
    proof {
        if evidence is None {
            assert(readback_sector_image_hash@ =~= Seq::new(32, |_i: int| 0u8));
        }
    }
    let mut hash = sha256_new();
    hash_line_str(&mut hash, "schema", HELLO_ROLLBACK_APPEND_SECTOR_WRITE_READBACK_DRY_RUN_SCHEMA);
    assert(sha256_absorbed(hash) =~= line_str("schema",
        HELLO_ROLLBACK_APPEND_SECTOR_WRITE_READBACK_DRY_RUN_SCHEMA));
    hash_line_str(&mut hash, "id", HELLO_ROLLBACK_APPEND_SECTOR_WRITE_READBACK_DRY_RUN_ID);
    hash_line_str(&mut hash, "scope", "current_boot");
    hash_line_str(&mut hash, "classification", "local_only");
    hash_line_str(&mut hash, "persistence", "none");
    hash_line_str(&mut hash, "status", status);
    hash_line_str(&mut hash, "reason", reason);
    hash_line_hash(&mut hash, "source_plan_sha256", sector_plan.plan_hash);
    hash_line_hash(&mut hash, "planned_sector_image_sha256", planned_sector_image_hash);
    hash_line_hash(&mut hash, "readback_sector_image_sha256", readback_sector_image_hash);
    hash_line_u64(&mut hash, "target_start_lba", sector_plan.target_start_lba);
    hash_line_u64(&mut hash, "target_lba_count", sector_plan.target_lba_count);
    hash_line_u64(&mut hash, "target_byte_count", sector_plan.target_byte_count);
    hash_line_bool(&mut hash, "label_found", label_found);
    hash_line_bool(&mut hash, "target_range_ready", target_range_ready);
    hash_line_bool(&mut hash, "scratch_write_attempted", write_attempted);
    hash_line_bool(&mut hash, "scratch_write_completed", write_completed);
    hash_line_bool(&mut hash, "scratch_readback_completed", readback_completed);
    hash_line_bool(&mut hash, "readback_matches_planned_image", readback_matches_planned_image);
    hash_line_bool(&mut hash, "authorizes_append", false);
    hash_line_bool(&mut hash, "writes_durable_audit_log", false);
    hash_line_bool(&mut hash, "writes_rollback_store", false);
    hash_line_bool(&mut hash, "appends_rollback_transaction", false);
    RollbackAppendSectorWriteReadbackDryRun {
        dry_run_hash: finalize_sha256(hash),
        source_plan_hash: sector_plan.plan_hash,
        planned_sector_image_hash,
        readback_sector_image_hash,
        target_start_lba: sector_plan.target_start_lba,
        target_lba_count: sector_plan.target_lba_count,
        target_byte_count: sector_plan.target_byte_count,
        label_found,
        target_range_ready,
        write_attempted,
        write_completed,
        readback_completed,
        readback_matches_planned_image,
        status,
        reason,
    }
}


/// The scratch write-and-readback dry run reports its range ready only for
/// available evidence of the planned scratch region and span, inside the
/// device and clear of boot and partition metadata, of a ready plan.
pub proof fn lemma_scratch_range_ready_needs_clean_evidence(
    r: RollbackAppendSectorWriteReadbackDryRun,
    sector_plan: RollbackAppendSectorPlanDryRun,
    evidence: Option<ScratchSectorWriteReadbackEvidence>,
    ids: ControllerIds,
)
    requires
        is_sector_write_for(r, sector_plan, evidence, ids),
    ensures
        r.target_range_ready ==> {
            &&& evidence matches Some(e)
            &&& e.available
            &&& e.no_boot_or_partition_metadata_overlap
            &&& e.region_within_device_bounds
            &&& e.region_id.spec_bytes() == ids.scratch_block_region_id.spec_bytes()
            &&& e.target_lba == sector_plan.target_start_lba
            &&& e.byte_count == sector_plan.target_byte_count
            &&& sector_plan.target_range_ready
        },
        evidence matches Some(e) && !e.no_boot_or_partition_metadata_overlap ==> !r.target_range_ready,
{
}

} // verus!
