//! The writer-policy side of a rollback transaction append: which writers
//! the verified target region write supports, the append transaction
//! authorization gate, the append engine readiness decision, and the
//! durable append authority and durable audit policy decisions that still
//! deny the append.

use vstd::prelude::*;
use crate::append_plan::{
    RollbackAppendRecordDryRun, RollbackAppendSectorPlanDryRun, RollbackAppendSectorWriteReadbackDryRun,
};
use crate::foundation::{
    AppendContractIds, RollbackWriterStorageFoundation, StorageLayoutIds, TargetRegionDiscovery,
};
use crate::canonical::{
    finalize_sha256, hash_line_bool, hash_line_hash, hash_line_str, hash_line_u64, line_bool,
    line_hash, line_str, line_u64,
};
use crate::constants::{
    HELLO_ROLLBACK_DURABLE_APPEND_AUTHORITY_PREFLIGHT_ID,
    HELLO_ROLLBACK_DURABLE_APPEND_AUTHORITY_PREFLIGHT_REASON,
    HELLO_ROLLBACK_DURABLE_APPEND_AUTHORITY_PREFLIGHT_SCHEMA,
    HELLO_ROLLBACK_DURABLE_APPEND_AUTHORITY_PREFLIGHT_STATUS,
    HELLO_ROLLBACK_DURABLE_APPEND_AUTHORITY_REMAINING_DENIAL_REASON,
    HELLO_ROLLBACK_DURABLE_AUDIT_POLICY_MISSING_REASON,
    HELLO_ROLLBACK_MEDIA_WRITE_AUTHORITY_GATE_ID, HELLO_ROLLBACK_MEDIA_WRITE_AUTHORITY_GATE_REASON,
    HELLO_ROLLBACK_MEDIA_WRITE_AUTHORITY_GATE_SCHEMA, HELLO_ROLLBACK_MEDIA_WRITE_AUTHORITY_GATE_STATUS,
    HELLO_ROLLBACK_MEDIA_WRITE_AUTHORITY_MISSING_REASON,
    HELLO_ROLLBACK_TARGET_REGION_WRITE_READBACK_DRY_RUN_ID,
    HELLO_ROLLBACK_TARGET_REGION_WRITE_READBACK_DRY_RUN_SCHEMA,
    HELLO_ROLLBACK_TEST_MEDIA_WRITE_AUTHORITY_REASON,
    HELLO_ROLLBACK_APPEND_ENGINE_READINESS_DECISION_ID,
    HELLO_ROLLBACK_APPEND_ENGINE_READINESS_DECISION_SCHEMA,
    HELLO_ROLLBACK_DURABLE_APPEND_AUTHORITY_DECISION_ID,
    HELLO_ROLLBACK_DURABLE_APPEND_AUTHORITY_DECISION_REASON,
    HELLO_ROLLBACK_DURABLE_APPEND_AUTHORITY_DECISION_SCHEMA,
    HELLO_ROLLBACK_DURABLE_APPEND_AUTHORITY_DECISION_STATUS,
    HELLO_ROLLBACK_DURABLE_APPEND_TRANSACTION_AUTHORIZATION_GATE_ID,
    HELLO_ROLLBACK_DURABLE_APPEND_TRANSACTION_AUTHORIZATION_GATE_REASON,
    HELLO_ROLLBACK_DURABLE_APPEND_TRANSACTION_AUTHORIZATION_GATE_SCHEMA,
    HELLO_ROLLBACK_DURABLE_APPEND_TRANSACTION_AUTHORIZATION_GATE_STATUS,
    HELLO_ROLLBACK_DURABLE_AUDIT_POLICY_DECISION_ID,
    HELLO_ROLLBACK_DURABLE_AUDIT_POLICY_DECISION_REASON,
    HELLO_ROLLBACK_DURABLE_AUDIT_POLICY_DECISION_SCHEMA,
    HELLO_ROLLBACK_DURABLE_AUDIT_POLICY_DECISION_STATUS,
    HELLO_ROLLBACK_DURABLE_WRITER_POLICY_PREFLIGHT_ID,
    HELLO_ROLLBACK_DURABLE_WRITER_POLICY_PREFLIGHT_REASON,
    HELLO_ROLLBACK_DURABLE_WRITER_POLICY_PREFLIGHT_SCHEMA,
    HELLO_ROLLBACK_DURABLE_WRITER_POLICY_PREFLIGHT_STATUS,
};
use crate::sha256::{Sha256, sha256_absorbed, sha256_digest, sha256_new};
use crate::target_region::{
    RollbackTargetRegionWriteReadbackDryRun, TargetRegionMediaWritePolicyPreflight,
};

verus! {

/// The durable writer policy preflight: which durable writers the verified
/// target region write would support.
#[derive(Clone, Copy)]
pub struct RollbackDurableWriterPolicyPreflight {
    pub preflight_hash: [u8; 32],
    pub source_append_record_hash: [u8; 32],
    pub source_sector_plan_hash: [u8; 32],
    pub source_target_region_write_readback_hash: [u8; 32],
    pub target_start_lba: u64,
    pub target_lba_count: u64,
    pub target_byte_count: u64,
    pub target_range_ready: bool,
    pub test_infrastructure_media_write_authority_available: bool,
    pub durable_audit_writer_available: bool,
    pub rollback_store_writer_available: bool,
    pub transaction_append_writer_available: bool,
}

/// The durable append transaction authorization gate.
#[derive(Clone, Copy)]
pub struct RollbackDurableAppendTransactionAuthorizationGate {
    pub gate_hash: [u8; 32],
    pub source_writer_policy_preflight_hash: [u8; 32],
    pub source_append_record_hash: [u8; 32],
    pub source_sector_plan_hash: [u8; 32],
    pub source_target_region_write_readback_hash: [u8; 32],
    pub target_start_lba: u64,
    pub target_lba_count: u64,
    pub target_byte_count: u64,
    pub target_range_ready: bool,
    pub test_infrastructure_media_write_authority_available: bool,
    pub append_engine_available: bool,
    pub durable_audit_writer_available: bool,
    pub rollback_store_writer_available: bool,
    pub transaction_append_writer_available: bool,
}

/// The append engine readiness decision.
#[derive(Clone, Copy)]
pub struct RollbackAppendEngineReadinessDecision {
    pub decision_hash: [u8; 32],
    pub source_authorization_gate_hash: [u8; 32],
    pub source_writer_policy_preflight_hash: [u8; 32],
    pub source_append_record_hash: [u8; 32],
    pub source_sector_plan_hash: [u8; 32],
    pub source_target_region_write_readback_hash: [u8; 32],
    pub target_start_lba: u64,
    pub target_lba_count: u64,
    pub target_byte_count: u64,
    pub target_range_ready: bool,
    pub test_infrastructure_media_write_authority_available: bool,
    pub status: &'static str,
    pub reason: &'static str,
    pub append_engine_available: bool,
    pub durable_audit_writer_available: bool,
    pub rollback_store_writer_available: bool,
    pub transaction_append_writer_available: bool,
    pub ready: bool,
}

/// The durable append authority preflight.
#[derive(Clone, Copy)]
pub struct RollbackDurableAppendAuthorityPreflight {
    pub preflight_hash: [u8; 32],
    pub source_write_readback_hash: [u8; 32],
    pub source_target_region_write_readback_hash: [u8; 32],
    pub durable_writer_policy_preflight: RollbackDurableWriterPolicyPreflight,
    pub target_region_discovery: TargetRegionDiscovery,
    pub target_region_media_write_policy_preflight: TargetRegionMediaWritePolicyPreflight,
    pub scratch_write_readback_verified: bool,
    pub test_infrastructure_media_write_authority_available: bool,
    pub remaining_denial_reason: &'static str,
    pub durable_audit_writer_available: bool,
    pub rollback_store_writer_available: bool,
    pub transaction_append_writer_available: bool,
}

/// The media write authority gate.
#[derive(Clone, Copy)]
pub struct RollbackMediaWriteAuthorityGate {
    pub gate_hash: [u8; 32],
    pub source_durable_append_authority_preflight_hash: [u8; 32],
    pub source_policy_preflight_hash: [u8; 32],
    pub source_target_region_write_readback_hash: [u8; 32],
    pub source_contract_status: &'static str,
    pub source_contract_reason: &'static str,
    pub source_contract_target_range_ready: bool,
    pub owner_ids_verified: bool,
    pub target_ids_verified: bool,
    pub target_span_verified: bool,
    pub schema_ids_verified: bool,
    pub target_region_start_lba: u64,
    pub target_region_lba_count: u64,
    pub target_byte_count: u64,
    pub media_write_authority_available: bool,
    pub test_infrastructure_media_write_authority_available: bool,
    pub durable_audit_policy_available: bool,
    pub target_region_write_attempted: bool,
}

/// The durable append authority decision.
#[derive(Clone, Copy)]
pub struct RollbackDurableAppendAuthorityDecision {
    pub decision_hash: [u8; 32],
    pub source_durable_append_authority_preflight_hash: [u8; 32],
    pub source_writer_policy_preflight_hash: [u8; 32],
    pub source_append_engine_readiness_decision_hash: [u8; 32],
    pub source_media_write_authority_gate_hash: [u8; 32],
    pub source_policy_preflight_hash: [u8; 32],
    pub source_target_region_write_readback_hash: [u8; 32],
    pub target_start_lba: u64,
    pub target_lba_count: u64,
    pub target_byte_count: u64,
    pub writer_policy_ready: bool,
    pub append_engine_ready: bool,
    pub media_write_gate_ready: bool,
    pub test_infrastructure_media_write_authority_available: bool,
    pub durable_audit_policy_available: bool,
    pub durable_append_authority_available: bool,
}

/// The durable audit policy decision.
#[derive(Clone, Copy)]
pub struct RollbackDurableAuditPolicyDecision {
    pub decision_hash: [u8; 32],
    pub source_durable_append_authority_decision_hash: [u8; 32],
    pub source_policy_preflight_hash: [u8; 32],
    pub source_media_write_authority_gate_hash: [u8; 32],
    pub source_target_region_write_readback_hash: [u8; 32],
    pub target_start_lba: u64,
    pub target_lba_count: u64,
    pub target_byte_count: u64,
    pub append_engine_ready: bool,
    pub media_write_policy_verified: bool,
    pub test_infrastructure_media_write_authority_available: bool,
    pub durable_append_authority_available: bool,
    pub durable_audit_policy_available: bool,
}

/// The writer policy preflight's canonical lines.
pub open spec fn writer_policy_stream(
    r: RollbackDurableWriterPolicyPreflight,
    layout: StorageLayoutIds,
) -> Seq<u8> {
    line_str("schema", HELLO_ROLLBACK_DURABLE_WRITER_POLICY_PREFLIGHT_SCHEMA)
        + line_str("id", HELLO_ROLLBACK_DURABLE_WRITER_POLICY_PREFLIGHT_ID)
        + line_str("scope", "current_boot")
        + line_str("classification", "local_only")
        + line_str("persistence", "none")
        + line_str("status", HELLO_ROLLBACK_DURABLE_WRITER_POLICY_PREFLIGHT_STATUS)
        + line_str("reason", HELLO_ROLLBACK_DURABLE_WRITER_POLICY_PREFLIGHT_REASON)
        + line_hash("source_append_record_sha256", r.source_append_record_hash@)
        + line_hash("source_sector_plan_sha256", r.source_sector_plan_hash@)
        + line_hash("source_target_region_write_readback_sha256",
            r.source_target_region_write_readback_hash@,
        )
        + line_str("audit_ledger_target_id", layout.audit_append_target_id)
        + line_str("audit_record_schema", layout.audit_append_target_schema)
        + line_str("rollback_store_target_id", layout.rollback_append_target_id)
        + line_str("rollback_transaction_schema", layout.rollback_append_target_schema)
        + line_u64("target_start_lba", r.target_start_lba)
        + line_u64("target_lba_count", r.target_lba_count)
        + line_u64("target_byte_count", r.target_byte_count)
        + line_bool("target_range_ready", r.target_range_ready)
        + line_bool("test_infrastructure_media_write_authority_available",
            r.test_infrastructure_media_write_authority_available,
        )
        + line_bool("durable_audit_writer_available", r.durable_audit_writer_available)
        + line_bool("rollback_store_writer_available", r.rollback_store_writer_available)
        + line_bool("transaction_append_writer_available", r.transaction_append_writer_available)
        + line_bool("authorizes_append", false)
        + line_bool("writes_durable_audit_log", false)
        + line_bool("writes_rollback_store", false)
        + line_bool("appends_rollback_transaction", false)
        + line_bool("write_attempted", false)
}

/// The target region write that writers rely on: the test media write
/// authority, a completed write and readback, and a matching readback.
pub open spec fn target_write_verified(t: RollbackTargetRegionWriteReadbackDryRun) -> bool {
    &&& t.test_infrastructure_media_write_authority_available
    &&& t.write_completed
    &&& t.readback_completed
    &&& t.readback_matches_planned_image
}

/// The append record, the sector plan and the target region write all
/// name the same ready target span.
pub open spec fn writer_span_ready(
    append_record: RollbackAppendRecordDryRun,
    sector_plan: RollbackAppendSectorPlanDryRun,
    t: RollbackTargetRegionWriteReadbackDryRun,
) -> bool {
    &&& append_record.target_range_ready
    &&& sector_plan.target_range_ready
    &&& t.target_range_ready
    &&& append_record.target_start_lba == t.target_start_lba
    &&& append_record.target_lba_count == t.target_lba_count
    &&& append_record.target_byte_count == t.target_byte_count
    &&& sector_plan.target_start_lba == t.target_start_lba
    &&& sector_plan.target_lba_count == t.target_lba_count
    &&& sector_plan.target_byte_count == t.target_byte_count
}

/// `r` is the writer policy preflight of the three dry runs.
pub open spec fn is_writer_policy_for(
    r: RollbackDurableWriterPolicyPreflight,
    append_record: RollbackAppendRecordDryRun,
    sector_plan: RollbackAppendSectorPlanDryRun,
    t: RollbackTargetRegionWriteReadbackDryRun,
    layout: StorageLayoutIds,
) -> bool {
    &&& r.target_range_ready == writer_span_ready(append_record, sector_plan, t)
    &&& r.durable_audit_writer_available == (r.target_range_ready
        && append_record.audit_record_byte_length > 0
        && append_record.audit_record_byte_length <= t.target_byte_count
        && target_write_verified(t))
    &&& r.rollback_store_writer_available == (r.target_range_ready
        && r.durable_audit_writer_available
        && append_record.rollback_transaction_byte_length > 0
        && append_record.rollback_transaction_byte_length <= t.target_byte_count
        && sector_plan.rollback_transaction_byte_length == append_record.rollback_transaction_byte_length
        && target_write_verified(t))
    &&& r.transaction_append_writer_available == (r.target_range_ready
        && r.durable_audit_writer_available && r.rollback_store_writer_available
        && append_record.total_record_byte_length > 0
        && append_record.total_record_byte_length <= t.target_byte_count
        && sector_plan.audit_record_offset == 0
        && sector_plan.audit_record_byte_length == append_record.audit_record_byte_length
        && sector_plan.rollback_transaction_offset == append_record.audit_record_byte_length
        && sector_plan.rollback_transaction_byte_length == append_record.rollback_transaction_byte_length
        && sector_plan.padding_offset == append_record.total_record_byte_length
        && target_write_verified(t))
    &&& r.source_append_record_hash == append_record.dry_run_hash
    &&& r.source_sector_plan_hash == sector_plan.plan_hash
    &&& r.source_target_region_write_readback_hash == t.dry_run_hash
    &&& r.target_start_lba == t.target_start_lba
    &&& r.target_lba_count == t.target_lba_count
    &&& r.target_byte_count == t.target_byte_count
    &&& r.test_infrastructure_media_write_authority_available
        == t.test_infrastructure_media_write_authority_available
    &&& r.preflight_hash@ == sha256_digest(writer_policy_stream(r, layout))
}

/// Decides which durable writers the verified target region write would
/// support: the audit ledger writer, the rollback store writer and the
/// transaction append writer, each needing the one before it. It grants
/// no append.
pub fn hello_rollback_durable_writer_policy_preflight(
    append_record: RollbackAppendRecordDryRun,
    sector_plan: RollbackAppendSectorPlanDryRun,
    target_region_write: RollbackTargetRegionWriteReadbackDryRun,
    layout: StorageLayoutIds,
) -> (record: RollbackDurableWriterPolicyPreflight)
    ensures
        is_writer_policy_for(record, append_record, sector_plan, target_region_write, layout),
{
    let target_range_ready = append_record.target_range_ready && sector_plan.target_range_ready
        && target_region_write.target_range_ready && append_record.target_start_lba
        == target_region_write.target_start_lba && append_record.target_lba_count
        == target_region_write.target_lba_count && append_record.target_byte_count
        == target_region_write.target_byte_count && sector_plan.target_start_lba
        == target_region_write.target_start_lba && sector_plan.target_lba_count
        == target_region_write.target_lba_count && sector_plan.target_byte_count
        == target_region_write.target_byte_count;
    let durable_audit_writer_available = target_range_ready
        && append_record.audit_record_byte_length > 0
        && append_record.audit_record_byte_length <= target_region_write.target_byte_count
        && target_region_write.test_infrastructure_media_write_authority_available
        && target_region_write.write_completed && target_region_write.readback_completed
        && target_region_write.readback_matches_planned_image;
    let rollback_store_writer_available = target_range_ready && durable_audit_writer_available
        && append_record.rollback_transaction_byte_length > 0
        && append_record.rollback_transaction_byte_length <= target_region_write.target_byte_count
        && sector_plan.rollback_transaction_byte_length
        == append_record.rollback_transaction_byte_length
        && target_region_write.test_infrastructure_media_write_authority_available
        && target_region_write.write_completed && target_region_write.readback_completed
        && target_region_write.readback_matches_planned_image;
    let transaction_append_writer_available = target_range_ready && durable_audit_writer_available
        && rollback_store_writer_available && append_record.total_record_byte_length > 0
        && append_record.total_record_byte_length <= target_region_write.target_byte_count
        && sector_plan.audit_record_offset == 0 && sector_plan.audit_record_byte_length
        == append_record.audit_record_byte_length && sector_plan.rollback_transaction_offset
        == append_record.audit_record_byte_length && sector_plan.rollback_transaction_byte_length
        == append_record.rollback_transaction_byte_length && sector_plan.padding_offset
        == append_record.total_record_byte_length
        && target_region_write.test_infrastructure_media_write_authority_available
        && target_region_write.write_completed && target_region_write.readback_completed
        && target_region_write.readback_matches_planned_image;
    let mut hash = sha256_new();
    hash_line_str(&mut hash, "schema", HELLO_ROLLBACK_DURABLE_WRITER_POLICY_PREFLIGHT_SCHEMA);
    assert(sha256_absorbed(hash) =~= line_str("schema",
        HELLO_ROLLBACK_DURABLE_WRITER_POLICY_PREFLIGHT_SCHEMA));
    hash_line_str(&mut hash, "id", HELLO_ROLLBACK_DURABLE_WRITER_POLICY_PREFLIGHT_ID);
    hash_line_str(&mut hash, "scope", "current_boot");
    hash_line_str(&mut hash, "classification", "local_only");
    hash_line_str(&mut hash, "persistence", "none");
    hash_line_str(&mut hash, "status", HELLO_ROLLBACK_DURABLE_WRITER_POLICY_PREFLIGHT_STATUS);
    hash_line_str(&mut hash, "reason", HELLO_ROLLBACK_DURABLE_WRITER_POLICY_PREFLIGHT_REASON);
    hash_line_hash(&mut hash, "source_append_record_sha256", append_record.dry_run_hash);
    hash_line_hash(&mut hash, "source_sector_plan_sha256", sector_plan.plan_hash);
    hash_line_hash(&mut hash, "source_target_region_write_readback_sha256",
        target_region_write.dry_run_hash,
    );
    hash_line_str(&mut hash, "audit_ledger_target_id", layout.audit_append_target_id);
    hash_line_str(&mut hash, "audit_record_schema", layout.audit_append_target_schema);
    hash_line_str(&mut hash, "rollback_store_target_id", layout.rollback_append_target_id);
    hash_line_str(&mut hash, "rollback_transaction_schema", layout.rollback_append_target_schema);
    hash_line_u64(&mut hash, "target_start_lba", target_region_write.target_start_lba);
    hash_line_u64(&mut hash, "target_lba_count", target_region_write.target_lba_count);
    hash_line_u64(&mut hash, "target_byte_count", target_region_write.target_byte_count);
    hash_line_bool(&mut hash, "target_range_ready", target_range_ready);
    hash_line_bool(&mut hash, "test_infrastructure_media_write_authority_available",
        target_region_write.test_infrastructure_media_write_authority_available,
    );
    hash_line_bool(&mut hash, "durable_audit_writer_available", durable_audit_writer_available);
    hash_line_bool(&mut hash, "rollback_store_writer_available", rollback_store_writer_available);
    hash_line_bool(&mut hash, "transaction_append_writer_available",
        transaction_append_writer_available,
    );
    hash_line_bool(&mut hash, "authorizes_append", false);
    hash_line_bool(&mut hash, "writes_durable_audit_log", false);
    hash_line_bool(&mut hash, "writes_rollback_store", false);
    hash_line_bool(&mut hash, "appends_rollback_transaction", false);
    hash_line_bool(&mut hash, "write_attempted", false);
    RollbackDurableWriterPolicyPreflight {
        preflight_hash: finalize_sha256(hash),
        source_append_record_hash: append_record.dry_run_hash,
        source_sector_plan_hash: sector_plan.plan_hash,
        source_target_region_write_readback_hash: target_region_write.dry_run_hash,
        target_start_lba: target_region_write.target_start_lba,
        target_lba_count: target_region_write.target_lba_count,
        target_byte_count: target_region_write.target_byte_count,
        target_range_ready,
        test_infrastructure_media_write_authority_available:
            target_region_write.test_infrastructure_media_write_authority_available,
        durable_audit_writer_available,
        rollback_store_writer_available,
        transaction_append_writer_available,
    }
}

/// The authorization gate's canonical lines.
pub open spec fn authorization_gate_stream(
    r: RollbackDurableAppendTransactionAuthorizationGate,
    layout: StorageLayoutIds,
) -> Seq<u8> {
    line_str("schema", HELLO_ROLLBACK_DURABLE_APPEND_TRANSACTION_AUTHORIZATION_GATE_SCHEMA)
        + line_str("id", HELLO_ROLLBACK_DURABLE_APPEND_TRANSACTION_AUTHORIZATION_GATE_ID)
        + line_str("scope", "current_boot")
        + line_str("classification", "local_only")
        + line_str("persistence", "none")
        + line_str("status", HELLO_ROLLBACK_DURABLE_APPEND_TRANSACTION_AUTHORIZATION_GATE_STATUS)
        + line_str("reason", HELLO_ROLLBACK_DURABLE_APPEND_TRANSACTION_AUTHORIZATION_GATE_REASON)
        + line_hash("source_writer_policy_preflight_sha256", r.source_writer_policy_preflight_hash@)
        + line_hash("source_append_record_sha256", r.source_append_record_hash@)
        + line_hash("source_sector_plan_sha256", r.source_sector_plan_hash@)
        + line_hash("source_target_region_write_readback_sha256",
            r.source_target_region_write_readback_hash@,
        )
        + line_str("audit_ledger_target_id", layout.audit_append_target_id)
        + line_str("audit_record_schema", layout.audit_append_target_schema)
        + line_str("rollback_store_target_id", layout.rollback_append_target_id)
        + line_str("rollback_transaction_schema", layout.rollback_append_target_schema)
        + line_u64("target_start_lba", r.target_start_lba)
        + line_u64("target_lba_count", r.target_lba_count)
        + line_u64("target_byte_count", r.target_byte_count)
        + line_bool("target_range_ready", r.target_range_ready)
        + line_bool("test_infrastructure_media_write_authority_available",
            r.test_infrastructure_media_write_authority_available,
        )
        + line_bool("append_engine_available", r.append_engine_available)
        + line_bool("durable_audit_writer_available", r.durable_audit_writer_available)
        + line_bool("rollback_store_writer_available", r.rollback_store_writer_available)
        + line_bool("transaction_append_writer_available", r.transaction_append_writer_available)
        + line_bool("authorizes_append", false)
        + line_bool("authorizes_transaction_append", false)
        + line_bool("writes_durable_audit_log", false)
        + line_bool("writes_rollback_store", false)
        + line_bool("appends_rollback_transaction", false)
        + line_bool("write_attempted", false)
}

/// `r` is the authorization gate over the writer policy and the dry runs.
pub open spec fn is_authorization_gate_for(
    r: RollbackDurableAppendTransactionAuthorizationGate,
    writer_policy: RollbackDurableWriterPolicyPreflight,
    append_record: RollbackAppendRecordDryRun,
    sector_plan: RollbackAppendSectorPlanDryRun,
    t: RollbackTargetRegionWriteReadbackDryRun,
    layout: StorageLayoutIds,
) -> bool {
    &&& r.append_engine_available == (writer_policy.target_range_ready
        && writer_policy.test_infrastructure_media_write_authority_available
        && append_record.target_range_ready && sector_plan.target_range_ready
        && t.target_range_ready && t.write_completed && t.readback_completed
        && t.readback_matches_planned_image)
    &&& r.source_writer_policy_preflight_hash == writer_policy.preflight_hash
    &&& r.source_append_record_hash == append_record.dry_run_hash
    &&& r.source_sector_plan_hash == sector_plan.plan_hash
    &&& r.source_target_region_write_readback_hash == t.dry_run_hash
    &&& r.target_start_lba == writer_policy.target_start_lba
    &&& r.target_lba_count == writer_policy.target_lba_count
    &&& r.target_byte_count == writer_policy.target_byte_count
    &&& r.target_range_ready == writer_policy.target_range_ready
    &&& r.test_infrastructure_media_write_authority_available
        == writer_policy.test_infrastructure_media_write_authority_available
    &&& r.durable_audit_writer_available == writer_policy.durable_audit_writer_available
    &&& r.rollback_store_writer_available == writer_policy.rollback_store_writer_available
    &&& r.transaction_append_writer_available == writer_policy.transaction_append_writer_available
    &&& r.gate_hash@ == sha256_digest(authorization_gate_stream(r, layout))
}

/// The durable append transaction authorization gate: whether an append
/// engine candidate is available for the verified target write. It
/// authorizes no append.
pub fn hello_rollback_durable_append_transaction_authorization_gate(
    writer_policy: RollbackDurableWriterPolicyPreflight,
    append_record: RollbackAppendRecordDryRun,
    sector_plan: RollbackAppendSectorPlanDryRun,
    target_region_write: RollbackTargetRegionWriteReadbackDryRun,
    layout: StorageLayoutIds,
) -> (gate: RollbackDurableAppendTransactionAuthorizationGate)
    ensures
        is_authorization_gate_for(
            gate,
            writer_policy,
            append_record,
            sector_plan,
            target_region_write,
            layout,
        ),
{
    let append_engine_available = writer_policy.target_range_ready
        && writer_policy.test_infrastructure_media_write_authority_available
        && append_record.target_range_ready && sector_plan.target_range_ready
        && target_region_write.target_range_ready && target_region_write.write_completed
        && target_region_write.readback_completed
        && target_region_write.readback_matches_planned_image;
    let mut hash = sha256_new();
    hash_line_str(&mut hash, "schema",
        HELLO_ROLLBACK_DURABLE_APPEND_TRANSACTION_AUTHORIZATION_GATE_SCHEMA,
    );
    assert(sha256_absorbed(hash) =~= line_str("schema",
        HELLO_ROLLBACK_DURABLE_APPEND_TRANSACTION_AUTHORIZATION_GATE_SCHEMA));
    hash_line_str(&mut hash, "id", HELLO_ROLLBACK_DURABLE_APPEND_TRANSACTION_AUTHORIZATION_GATE_ID);
    hash_line_str(&mut hash, "scope", "current_boot");
    hash_line_str(&mut hash, "classification", "local_only");
    hash_line_str(&mut hash, "persistence", "none");
    hash_line_str(&mut hash, "status",
        HELLO_ROLLBACK_DURABLE_APPEND_TRANSACTION_AUTHORIZATION_GATE_STATUS,
    );
    hash_line_str(&mut hash, "reason",
        HELLO_ROLLBACK_DURABLE_APPEND_TRANSACTION_AUTHORIZATION_GATE_REASON,
    );
    hash_line_hash(&mut hash, "source_writer_policy_preflight_sha256",
        writer_policy.preflight_hash,
    );
    hash_line_hash(&mut hash, "source_append_record_sha256", append_record.dry_run_hash);
    hash_line_hash(&mut hash, "source_sector_plan_sha256", sector_plan.plan_hash);
    hash_line_hash(&mut hash, "source_target_region_write_readback_sha256",
        target_region_write.dry_run_hash,
    );
    hash_line_str(&mut hash, "audit_ledger_target_id", layout.audit_append_target_id);
    hash_line_str(&mut hash, "audit_record_schema", layout.audit_append_target_schema);
    hash_line_str(&mut hash, "rollback_store_target_id", layout.rollback_append_target_id);
    hash_line_str(&mut hash, "rollback_transaction_schema", layout.rollback_append_target_schema);
    hash_line_u64(&mut hash, "target_start_lba", writer_policy.target_start_lba);
    hash_line_u64(&mut hash, "target_lba_count", writer_policy.target_lba_count);
    hash_line_u64(&mut hash, "target_byte_count", writer_policy.target_byte_count);
    hash_line_bool(&mut hash, "target_range_ready", writer_policy.target_range_ready);
    hash_line_bool(&mut hash, "test_infrastructure_media_write_authority_available",
        writer_policy.test_infrastructure_media_write_authority_available,
    );
    hash_line_bool(&mut hash, "append_engine_available", append_engine_available);
    hash_line_bool(&mut hash, "durable_audit_writer_available",
        writer_policy.durable_audit_writer_available,
    );
    hash_line_bool(&mut hash, "rollback_store_writer_available",
        writer_policy.rollback_store_writer_available,
    );
    hash_line_bool(&mut hash, "transaction_append_writer_available",
        writer_policy.transaction_append_writer_available,
    );
    hash_line_bool(&mut hash, "authorizes_append", false);
    hash_line_bool(&mut hash, "authorizes_transaction_append", false);
    hash_line_bool(&mut hash, "writes_durable_audit_log", false);
    hash_line_bool(&mut hash, "writes_rollback_store", false);
    hash_line_bool(&mut hash, "appends_rollback_transaction", false);
    hash_line_bool(&mut hash, "write_attempted", false);
    RollbackDurableAppendTransactionAuthorizationGate {
        gate_hash: finalize_sha256(hash),
        source_writer_policy_preflight_hash: writer_policy.preflight_hash,
        source_append_record_hash: append_record.dry_run_hash,
        source_sector_plan_hash: sector_plan.plan_hash,
        source_target_region_write_readback_hash: target_region_write.dry_run_hash,
        target_start_lba: writer_policy.target_start_lba,
        target_lba_count: writer_policy.target_lba_count,
        target_byte_count: writer_policy.target_byte_count,
        target_range_ready: writer_policy.target_range_ready,
        test_infrastructure_media_write_authority_available:
            writer_policy.test_infrastructure_media_write_authority_available,
        append_engine_available,
        durable_audit_writer_available: writer_policy.durable_audit_writer_available,
        rollback_store_writer_available: writer_policy.rollback_store_writer_available,
        transaction_append_writer_available: writer_policy.transaction_append_writer_available,
    }
}

/// The engine readiness decision's canonical lines.
pub open spec fn engine_readiness_stream(r: RollbackAppendEngineReadinessDecision) -> Seq<u8> {
    line_str("schema", HELLO_ROLLBACK_APPEND_ENGINE_READINESS_DECISION_SCHEMA)
        + line_str("id", HELLO_ROLLBACK_APPEND_ENGINE_READINESS_DECISION_ID)
        + line_str("scope", "current_boot")
        + line_str("classification", "local_only")
        + line_str("persistence", "none")
        + line_str("status", r.status)
        + line_str("reason", r.reason)
        + line_hash("source_authorization_gate_sha256", r.source_authorization_gate_hash@)
        + line_hash("source_writer_policy_preflight_sha256", r.source_writer_policy_preflight_hash@)
        + line_hash("source_append_record_sha256", r.source_append_record_hash@)
        + line_hash("source_sector_plan_sha256", r.source_sector_plan_hash@)
        + line_hash("source_target_region_write_readback_sha256",
            r.source_target_region_write_readback_hash@,
        )
        + line_u64("target_start_lba", r.target_start_lba)
        + line_u64("target_lba_count", r.target_lba_count)
        + line_u64("target_byte_count", r.target_byte_count)
        + line_bool("target_range_ready", r.target_range_ready)
        + line_bool("test_infrastructure_media_write_authority_available",
            r.test_infrastructure_media_write_authority_available,
        )
        + line_bool("append_engine_available", r.append_engine_available)
        + line_bool("durable_audit_writer_available", r.durable_audit_writer_available)
        + line_bool("rollback_store_writer_available", r.rollback_store_writer_available)
        + line_bool("transaction_append_writer_available", r.transaction_append_writer_available)
        + line_bool("ready", r.ready)
        + line_bool("authorizes_append", false)
        + line_bool("authorizes_transaction_append", false)
        + line_bool("writes_durable_audit_log", false)
        + line_bool("writes_rollback_store", false)
        + line_bool("appends_rollback_transaction", false)
        + line_bool("write_attempted", false)
}

/// The status, reason and readiness of the engine readiness decision: the
/// first unmet requirement, in a fixed order, names the reason.
pub open spec fn engine_readiness_verdict(
    gate: RollbackDurableAppendTransactionAuthorizationGate,
) -> (&'static str, &'static str, bool) {
    if !gate.target_range_ready {
        ("missing", "authorization_gate_target_range_not_ready", false)
    } else if !gate.test_infrastructure_media_write_authority_available {
        ("missing", "authorization_gate_test_media_authority_missing", false)
    } else if !gate.append_engine_available {
        ("missing", "append_engine_candidate_not_ready", false)
    } else if !gate.durable_audit_writer_available {
        ("missing", "durable_audit_writer_missing", false)
    } else if !gate.rollback_store_writer_available {
        ("missing", "rollback_store_writer_missing", false)
    } else if !gate.transaction_append_writer_available {
        ("missing", "transaction_append_writer_missing", false)
    } else {
        ("available", "transaction_append_engine_ready", true)
    }
}

/// `r` is the engine readiness decision on `gate`.
pub open spec fn is_engine_readiness_for(
    r: RollbackAppendEngineReadinessDecision,
    gate: RollbackDurableAppendTransactionAuthorizationGate,
) -> bool {
    &&& (r.status, r.reason, r.ready) == engine_readiness_verdict(gate)
    &&& r.source_authorization_gate_hash == gate.gate_hash
    &&& r.source_writer_policy_preflight_hash == gate.source_writer_policy_preflight_hash
    &&& r.source_append_record_hash == gate.source_append_record_hash
    &&& r.source_sector_plan_hash == gate.source_sector_plan_hash
    &&& r.source_target_region_write_readback_hash == gate.source_target_region_write_readback_hash
    &&& r.target_start_lba == gate.target_start_lba
    &&& r.target_lba_count == gate.target_lba_count
    &&& r.target_byte_count == gate.target_byte_count
    &&& r.target_range_ready == gate.target_range_ready
    &&& r.test_infrastructure_media_write_authority_available
        == gate.test_infrastructure_media_write_authority_available
    &&& r.append_engine_available == gate.append_engine_available
    &&& r.durable_audit_writer_available == gate.durable_audit_writer_available
    &&& r.rollback_store_writer_available == gate.rollback_store_writer_available
    &&& r.transaction_append_writer_available == gate.transaction_append_writer_available
    &&& r.decision_hash@ == sha256_digest(engine_readiness_stream(r))
}

/// Decides whether the append engine is ready, naming the first missing
/// requirement when it is not.
pub fn hello_rollback_append_engine_readiness_decision(
    authorization_gate: RollbackDurableAppendTransactionAuthorizationGate,
) -> (decision: RollbackAppendEngineReadinessDecision)
    ensures
        is_engine_readiness_for(decision, authorization_gate),
{
    let (status, reason, ready) = if !authorization_gate.target_range_ready {
        ("missing", "authorization_gate_target_range_not_ready", false)
    } else if !authorization_gate.test_infrastructure_media_write_authority_available {
        ("missing", "authorization_gate_test_media_authority_missing", false)
    } else if !authorization_gate.append_engine_available {
        ("missing", "append_engine_candidate_not_ready", false)
    } else if !authorization_gate.durable_audit_writer_available {
        ("missing", "durable_audit_writer_missing", false)
    } else if !authorization_gate.rollback_store_writer_available {
        ("missing", "rollback_store_writer_missing", false)
    } else if !authorization_gate.transaction_append_writer_available {
        ("missing", "transaction_append_writer_missing", false)
    } else {
        ("available", "transaction_append_engine_ready", true)
    };
    let mut hash = sha256_new();
    hash_line_str(&mut hash, "schema", HELLO_ROLLBACK_APPEND_ENGINE_READINESS_DECISION_SCHEMA);
    assert(sha256_absorbed(hash) =~= line_str("schema",
        HELLO_ROLLBACK_APPEND_ENGINE_READINESS_DECISION_SCHEMA));
    hash_line_str(&mut hash, "id", HELLO_ROLLBACK_APPEND_ENGINE_READINESS_DECISION_ID);
    hash_line_str(&mut hash, "scope", "current_boot");
    hash_line_str(&mut hash, "classification", "local_only");
    hash_line_str(&mut hash, "persistence", "none");
    hash_line_str(&mut hash, "status", status);
    hash_line_str(&mut hash, "reason", reason);
    hash_line_hash(&mut hash, "source_authorization_gate_sha256", authorization_gate.gate_hash);
    hash_line_hash(&mut hash, "source_writer_policy_preflight_sha256",
        authorization_gate.source_writer_policy_preflight_hash,
    );
    hash_line_hash(&mut hash, "source_append_record_sha256",
        authorization_gate.source_append_record_hash,
    );
    hash_line_hash(&mut hash, "source_sector_plan_sha256",
        authorization_gate.source_sector_plan_hash,
    );
    hash_line_hash(&mut hash, "source_target_region_write_readback_sha256",
        authorization_gate.source_target_region_write_readback_hash,
    );
    hash_line_u64(&mut hash, "target_start_lba", authorization_gate.target_start_lba);
    hash_line_u64(&mut hash, "target_lba_count", authorization_gate.target_lba_count);
    hash_line_u64(&mut hash, "target_byte_count", authorization_gate.target_byte_count);
    hash_line_bool(&mut hash, "target_range_ready", authorization_gate.target_range_ready);
    hash_line_bool(&mut hash, "test_infrastructure_media_write_authority_available",
        authorization_gate.test_infrastructure_media_write_authority_available,
    );
    hash_line_bool(&mut hash, "append_engine_available",
        authorization_gate.append_engine_available,
    );
    hash_line_bool(&mut hash, "durable_audit_writer_available",
        authorization_gate.durable_audit_writer_available,
    );
    hash_line_bool(&mut hash, "rollback_store_writer_available",
        authorization_gate.rollback_store_writer_available,
    );
    hash_line_bool(&mut hash, "transaction_append_writer_available",
        authorization_gate.transaction_append_writer_available,
    );
    hash_line_bool(&mut hash, "ready", ready);
    hash_line_bool(&mut hash, "authorizes_append", false);
    hash_line_bool(&mut hash, "authorizes_transaction_append", false);
    hash_line_bool(&mut hash, "writes_durable_audit_log", false);
    hash_line_bool(&mut hash, "writes_rollback_store", false);
    hash_line_bool(&mut hash, "appends_rollback_transaction", false);
    hash_line_bool(&mut hash, "write_attempted", false);
    RollbackAppendEngineReadinessDecision {
        decision_hash: finalize_sha256(hash),
        source_authorization_gate_hash: authorization_gate.gate_hash,
        source_writer_policy_preflight_hash: authorization_gate.source_writer_policy_preflight_hash,
        source_append_record_hash: authorization_gate.source_append_record_hash,
        source_sector_plan_hash: authorization_gate.source_sector_plan_hash,
        source_target_region_write_readback_hash:
            authorization_gate.source_target_region_write_readback_hash,
        target_start_lba: authorization_gate.target_start_lba,
        target_lba_count: authorization_gate.target_lba_count,
        target_byte_count: authorization_gate.target_byte_count,
        target_range_ready: authorization_gate.target_range_ready,
        test_infrastructure_media_write_authority_available:
            authorization_gate.test_infrastructure_media_write_authority_available,
        status,
        reason,
        append_engine_available: authorization_gate.append_engine_available,
        durable_audit_writer_available: authorization_gate.durable_audit_writer_available,
        rollback_store_writer_available: authorization_gate.rollback_store_writer_available,
        transaction_append_writer_available: authorization_gate.transaction_append_writer_available,
        ready,
    }
}

/// The durable append authority decision's canonical lines.
pub open spec fn durable_append_decision_stream(
    r: RollbackDurableAppendAuthorityDecision,
) -> Seq<u8> {
    line_str("schema", HELLO_ROLLBACK_DURABLE_APPEND_AUTHORITY_DECISION_SCHEMA)
        + line_str("id", HELLO_ROLLBACK_DURABLE_APPEND_AUTHORITY_DECISION_ID)
        + line_str("scope", "current_boot")
        + line_str("classification", "local_only")
        + line_str("persistence", "none")
        + line_str("status", HELLO_ROLLBACK_DURABLE_APPEND_AUTHORITY_DECISION_STATUS)
        + line_str("reason", HELLO_ROLLBACK_DURABLE_APPEND_AUTHORITY_DECISION_REASON)
        + line_hash("source_durable_append_authority_preflight_sha256",
            r.source_durable_append_authority_preflight_hash@,
        )
        + line_hash("source_writer_policy_preflight_sha256", r.source_writer_policy_preflight_hash@)
        + line_hash("source_append_engine_readiness_decision_sha256",
            r.source_append_engine_readiness_decision_hash@,
        )
        + line_hash("source_media_write_authority_gate_sha256",
            r.source_media_write_authority_gate_hash@,
        )
        + line_hash("source_policy_preflight_sha256", r.source_policy_preflight_hash@)
        + line_hash("source_target_region_write_readback_sha256",
            r.source_target_region_write_readback_hash@,
        )
        + line_u64("target_start_lba", r.target_start_lba)
        + line_u64("target_lba_count", r.target_lba_count)
        + line_u64("target_byte_count", r.target_byte_count)
        + line_bool("writer_policy_ready", r.writer_policy_ready)
        + line_bool("append_engine_ready", r.append_engine_ready)
        + line_bool("media_write_gate_ready", r.media_write_gate_ready)
        + line_bool("test_infrastructure_media_write_authority_available",
            r.test_infrastructure_media_write_authority_available,
        )
        + line_bool("durable_audit_policy_available", r.durable_audit_policy_available)
        + line_bool("durable_append_authority_available", false)
        + line_bool("authorizes_append", false)
        + line_bool("authorizes_transaction_append", false)
        + line_bool("writes_durable_audit_log", false)
        + line_bool("writes_rollback_store", false)
        + line_bool("appends_rollback_transaction", false)
        + line_bool("write_attempted", false)
}

/// `r` is the durable append authority decision on its three sources.
pub open spec fn is_durable_append_decision_for(
    r: RollbackDurableAppendAuthorityDecision,
    preflight: RollbackDurableAppendAuthorityPreflight,
    gate: RollbackMediaWriteAuthorityGate,
    engine: RollbackAppendEngineReadinessDecision,
) -> bool {
    let wp = preflight.durable_writer_policy_preflight;
    &&& r.writer_policy_ready == (wp.target_range_ready
        && wp.test_infrastructure_media_write_authority_available
        && wp.durable_audit_writer_available && wp.rollback_store_writer_available
        && wp.transaction_append_writer_available)
    &&& r.media_write_gate_ready == (gate.source_contract_target_range_ready
        && gate.owner_ids_verified && gate.target_ids_verified && gate.target_span_verified
        && gate.schema_ids_verified && gate.test_infrastructure_media_write_authority_available
        && gate.target_region_write_attempted)
    &&& r.append_engine_ready == engine.ready
    &&& !r.durable_append_authority_available
    &&& r.source_durable_append_authority_preflight_hash == preflight.preflight_hash
    &&& r.source_writer_policy_preflight_hash == wp.preflight_hash
    &&& r.source_append_engine_readiness_decision_hash == engine.decision_hash
    &&& r.source_media_write_authority_gate_hash == gate.gate_hash
    &&& r.source_policy_preflight_hash == gate.source_policy_preflight_hash
    &&& r.source_target_region_write_readback_hash == gate.source_target_region_write_readback_hash
    &&& r.target_start_lba == engine.target_start_lba
    &&& r.target_lba_count == engine.target_lba_count
    &&& r.target_byte_count == engine.target_byte_count
    &&& r.test_infrastructure_media_write_authority_available
        == gate.test_infrastructure_media_write_authority_available
    &&& r.durable_audit_policy_available == gate.durable_audit_policy_available
    &&& r.decision_hash@ == sha256_digest(durable_append_decision_stream(r))
}

/// The durable append authority decision: it records whether the writer
/// policy, the append engine and the media write gate are ready, and
/// always withholds durable append authority.
pub fn hello_rollback_durable_append_authority_decision(
    durable_append_preflight: RollbackDurableAppendAuthorityPreflight,
    media_write_authority_gate: RollbackMediaWriteAuthorityGate,
    append_engine_readiness_decision: RollbackAppendEngineReadinessDecision,
) -> (decision: RollbackDurableAppendAuthorityDecision)
    ensures
        is_durable_append_decision_for(
            decision,
            durable_append_preflight,
            media_write_authority_gate,
            append_engine_readiness_decision,
        ),
{
    let writer_policy = durable_append_preflight.durable_writer_policy_preflight;
    let writer_policy_ready = writer_policy.target_range_ready
        && writer_policy.test_infrastructure_media_write_authority_available
        && writer_policy.durable_audit_writer_available
        && writer_policy.rollback_store_writer_available
        && writer_policy.transaction_append_writer_available;
    let media_write_gate_ready = media_write_authority_gate.source_contract_target_range_ready
        && media_write_authority_gate.owner_ids_verified
        && media_write_authority_gate.target_ids_verified
        && media_write_authority_gate.target_span_verified
        && media_write_authority_gate.schema_ids_verified
        && media_write_authority_gate.test_infrastructure_media_write_authority_available
        && media_write_authority_gate.target_region_write_attempted;
    let mut hash = sha256_new();
    hash_line_str(&mut hash, "schema", HELLO_ROLLBACK_DURABLE_APPEND_AUTHORITY_DECISION_SCHEMA);
    assert(sha256_absorbed(hash) =~= line_str("schema",
        HELLO_ROLLBACK_DURABLE_APPEND_AUTHORITY_DECISION_SCHEMA));
    hash_line_str(&mut hash, "id", HELLO_ROLLBACK_DURABLE_APPEND_AUTHORITY_DECISION_ID);
    hash_line_str(&mut hash, "scope", "current_boot");
    hash_line_str(&mut hash, "classification", "local_only");
    hash_line_str(&mut hash, "persistence", "none");
    hash_line_str(&mut hash, "status", HELLO_ROLLBACK_DURABLE_APPEND_AUTHORITY_DECISION_STATUS);
    hash_line_str(&mut hash, "reason", HELLO_ROLLBACK_DURABLE_APPEND_AUTHORITY_DECISION_REASON);
    hash_line_hash(&mut hash, "source_durable_append_authority_preflight_sha256",
        durable_append_preflight.preflight_hash,
    );
    hash_line_hash(&mut hash, "source_writer_policy_preflight_sha256",
        writer_policy.preflight_hash,
    );
    hash_line_hash(&mut hash, "source_append_engine_readiness_decision_sha256",
        append_engine_readiness_decision.decision_hash,
    );
    hash_line_hash(&mut hash, "source_media_write_authority_gate_sha256",
        media_write_authority_gate.gate_hash,
    );
    hash_line_hash(&mut hash, "source_policy_preflight_sha256",
        media_write_authority_gate.source_policy_preflight_hash,
    );
    hash_line_hash(&mut hash, "source_target_region_write_readback_sha256",
        media_write_authority_gate.source_target_region_write_readback_hash,
    );
    hash_line_u64(&mut hash, "target_start_lba", append_engine_readiness_decision.target_start_lba);
    hash_line_u64(&mut hash, "target_lba_count", append_engine_readiness_decision.target_lba_count);
    hash_line_u64(&mut hash, "target_byte_count",
        append_engine_readiness_decision.target_byte_count,
    );
    hash_line_bool(&mut hash, "writer_policy_ready", writer_policy_ready);
    hash_line_bool(&mut hash, "append_engine_ready", append_engine_readiness_decision.ready);
    hash_line_bool(&mut hash, "media_write_gate_ready", media_write_gate_ready);
    hash_line_bool(&mut hash, "test_infrastructure_media_write_authority_available",
        media_write_authority_gate.test_infrastructure_media_write_authority_available,
    );
    hash_line_bool(&mut hash, "durable_audit_policy_available",
        media_write_authority_gate.durable_audit_policy_available,
    );
    hash_line_bool(&mut hash, "durable_append_authority_available", false);
    hash_line_bool(&mut hash, "authorizes_append", false);
    hash_line_bool(&mut hash, "authorizes_transaction_append", false);
    hash_line_bool(&mut hash, "writes_durable_audit_log", false);
    hash_line_bool(&mut hash, "writes_rollback_store", false);
    hash_line_bool(&mut hash, "appends_rollback_transaction", false);
    hash_line_bool(&mut hash, "write_attempted", false);
    RollbackDurableAppendAuthorityDecision {
        decision_hash: finalize_sha256(hash),
        source_durable_append_authority_preflight_hash: durable_append_preflight.preflight_hash,
        source_writer_policy_preflight_hash: writer_policy.preflight_hash,
        source_append_engine_readiness_decision_hash:
            append_engine_readiness_decision.decision_hash,
        source_media_write_authority_gate_hash: media_write_authority_gate.gate_hash,
        source_policy_preflight_hash: media_write_authority_gate.source_policy_preflight_hash,
        source_target_region_write_readback_hash:
            media_write_authority_gate.source_target_region_write_readback_hash,
        target_start_lba: append_engine_readiness_decision.target_start_lba,
        target_lba_count: append_engine_readiness_decision.target_lba_count,
        target_byte_count: append_engine_readiness_decision.target_byte_count,
        writer_policy_ready,
        append_engine_ready: append_engine_readiness_decision.ready,
        media_write_gate_ready,
        test_infrastructure_media_write_authority_available:
            media_write_authority_gate.test_infrastructure_media_write_authority_available,
        durable_audit_policy_available: media_write_authority_gate.durable_audit_policy_available,
        durable_append_authority_available: false,
    }
}

/// The durable audit policy decision's canonical lines.
pub open spec fn audit_policy_decision_stream(r: RollbackDurableAuditPolicyDecision) -> Seq<u8> {
    line_str("schema", HELLO_ROLLBACK_DURABLE_AUDIT_POLICY_DECISION_SCHEMA)
        + line_str("id", HELLO_ROLLBACK_DURABLE_AUDIT_POLICY_DECISION_ID)
        + line_str("scope", "current_boot")
        + line_str("classification", "local_only")
        + line_str("persistence", "none")
        + line_str("status", HELLO_ROLLBACK_DURABLE_AUDIT_POLICY_DECISION_STATUS)
        + line_str("reason", HELLO_ROLLBACK_DURABLE_AUDIT_POLICY_DECISION_REASON)
        + line_hash("source_durable_append_authority_decision_sha256",
            r.source_durable_append_authority_decision_hash@,
        )
        + line_hash("source_policy_preflight_sha256", r.source_policy_preflight_hash@)
        + line_hash("source_media_write_authority_gate_sha256",
            r.source_media_write_authority_gate_hash@,
        )
        + line_hash("source_target_region_write_readback_sha256",
            r.source_target_region_write_readback_hash@,
        )
        + line_u64("target_start_lba", r.target_start_lba)
        + line_u64("target_lba_count", r.target_lba_count)
        + line_u64("target_byte_count", r.target_byte_count)
        + line_bool("append_engine_ready", r.append_engine_ready)
        + line_bool("media_write_policy_verified", r.media_write_policy_verified)
        + line_bool("test_infrastructure_media_write_authority_available",
            r.test_infrastructure_media_write_authority_available,
        )
        + line_bool("durable_append_authority_available", r.durable_append_authority_available)
        + line_bool("durable_audit_policy_available", r.durable_audit_policy_available)
        + line_bool("authorizes_append", false)
        + line_bool("writes_durable_audit_log", false)
        + line_bool("writes_rollback_store", false)
        + line_bool("appends_rollback_transaction", false)
        + line_bool("write_attempted", false)
}

/// `r` is the durable audit policy decision on `d`.
pub open spec fn is_audit_policy_decision_for(
    r: RollbackDurableAuditPolicyDecision,
    d: RollbackDurableAppendAuthorityDecision,
) -> bool {
    &&& r.media_write_policy_verified == (d.media_write_gate_ready
        && d.test_infrastructure_media_write_authority_available)
    &&& r.source_durable_append_authority_decision_hash == d.decision_hash
    &&& r.source_policy_preflight_hash == d.source_policy_preflight_hash
    &&& r.source_media_write_authority_gate_hash == d.source_media_write_authority_gate_hash
    &&& r.source_target_region_write_readback_hash == d.source_target_region_write_readback_hash
    &&& r.target_start_lba == d.target_start_lba
    &&& r.target_lba_count == d.target_lba_count
    &&& r.target_byte_count == d.target_byte_count
    &&& r.append_engine_ready == d.append_engine_ready
    &&& r.test_infrastructure_media_write_authority_available
        == d.test_infrastructure_media_write_authority_available
    &&& r.durable_append_authority_available == d.durable_append_authority_available
    &&& r.durable_audit_policy_available == d.durable_audit_policy_available
    &&& r.decision_hash@ == sha256_digest(audit_policy_decision_stream(r))
}

/// The durable audit policy decision: whether the media write policy is
/// verified, carried forward from the durable append authority decision.
pub fn hello_rollback_durable_audit_policy_decision(
    durable_append_authority_decision: RollbackDurableAppendAuthorityDecision,
) -> (decision: RollbackDurableAuditPolicyDecision)
    ensures
        is_audit_policy_decision_for(decision, durable_append_authority_decision),
{
    let media_write_policy_verified = durable_append_authority_decision.media_write_gate_ready
        && durable_append_authority_decision.test_infrastructure_media_write_authority_available;
    let mut hash = sha256_new();
    hash_line_str(&mut hash, "schema", HELLO_ROLLBACK_DURABLE_AUDIT_POLICY_DECISION_SCHEMA);
    assert(sha256_absorbed(hash) =~= line_str("schema",
        HELLO_ROLLBACK_DURABLE_AUDIT_POLICY_DECISION_SCHEMA));
    hash_line_str(&mut hash, "id", HELLO_ROLLBACK_DURABLE_AUDIT_POLICY_DECISION_ID);
    hash_line_str(&mut hash, "scope", "current_boot");
    hash_line_str(&mut hash, "classification", "local_only");
    hash_line_str(&mut hash, "persistence", "none");
    hash_line_str(&mut hash, "status", HELLO_ROLLBACK_DURABLE_AUDIT_POLICY_DECISION_STATUS);
    hash_line_str(&mut hash, "reason", HELLO_ROLLBACK_DURABLE_AUDIT_POLICY_DECISION_REASON);
    hash_line_hash(&mut hash, "source_durable_append_authority_decision_sha256",
        durable_append_authority_decision.decision_hash,
    );
    hash_line_hash(&mut hash, "source_policy_preflight_sha256",
        durable_append_authority_decision.source_policy_preflight_hash,
    );
    hash_line_hash(&mut hash, "source_media_write_authority_gate_sha256",
        durable_append_authority_decision.source_media_write_authority_gate_hash,
    );
    hash_line_hash(&mut hash, "source_target_region_write_readback_sha256",
        durable_append_authority_decision.source_target_region_write_readback_hash,
    );
    hash_line_u64(&mut hash, "target_start_lba",
        durable_append_authority_decision.target_start_lba,
    );
    hash_line_u64(&mut hash, "target_lba_count",
        durable_append_authority_decision.target_lba_count,
    );
    hash_line_u64(&mut hash, "target_byte_count",
        durable_append_authority_decision.target_byte_count,
    );
    hash_line_bool(&mut hash, "append_engine_ready",
        durable_append_authority_decision.append_engine_ready,
    );
    hash_line_bool(&mut hash, "media_write_policy_verified", media_write_policy_verified);
    hash_line_bool(&mut hash, "test_infrastructure_media_write_authority_available",
        durable_append_authority_decision.test_infrastructure_media_write_authority_available,
    );
    hash_line_bool(&mut hash, "durable_append_authority_available",
        durable_append_authority_decision.durable_append_authority_available,
    );
    hash_line_bool(&mut hash, "durable_audit_policy_available",
        durable_append_authority_decision.durable_audit_policy_available,
    );
    hash_line_bool(&mut hash, "authorizes_append", false);
    hash_line_bool(&mut hash, "writes_durable_audit_log", false);
    hash_line_bool(&mut hash, "writes_rollback_store", false);
    hash_line_bool(&mut hash, "appends_rollback_transaction", false);
    hash_line_bool(&mut hash, "write_attempted", false);
    RollbackDurableAuditPolicyDecision {
        decision_hash: finalize_sha256(hash),
        source_durable_append_authority_decision_hash:
            durable_append_authority_decision.decision_hash,
        source_policy_preflight_hash:
            durable_append_authority_decision.source_policy_preflight_hash,
        source_media_write_authority_gate_hash:
            durable_append_authority_decision.source_media_write_authority_gate_hash,
        source_target_region_write_readback_hash:
            durable_append_authority_decision.source_target_region_write_readback_hash,
        target_start_lba: durable_append_authority_decision.target_start_lba,
        target_lba_count: durable_append_authority_decision.target_lba_count,
        target_byte_count: durable_append_authority_decision.target_byte_count,
        append_engine_ready: durable_append_authority_decision.append_engine_ready,
        media_write_policy_verified,
        test_infrastructure_media_write_authority_available:
            durable_append_authority_decision.test_infrastructure_media_write_authority_available,
        durable_append_authority_available:
            durable_append_authority_decision.durable_append_authority_available,
        durable_audit_policy_available:
            durable_append_authority_decision.durable_audit_policy_available,
    }
}

/// `prefix` followed by the media write policy lines of the durable append
/// authority preflight.
pub open spec fn with_media_write_policy_lines(
    prefix: Seq<u8>,
    policy: TargetRegionMediaWritePolicyPreflight,
    foundation: RollbackWriterStorageFoundation,
    contract: AppendContractIds,
) -> Seq<u8> {
    prefix + line_str("target_region_media_write_policy_preflight_schema", contract.media_write_policy_preflight_schema)
        + line_str("target_region_media_write_policy_preflight_id",
            contract.media_write_policy_preflight_id,
        )
        + line_str("target_region_media_write_policy_preflight_status",
            foundation.target_region_media_write_policy_preflight_status,
        )
        + line_str("target_region_media_write_policy_preflight_reason",
            foundation.target_region_media_write_policy_preflight_reason,
        )
        + line_hash("target_region_media_write_policy_preflight_sha256", policy.preflight_hash@)
        + line_str("target_region_media_write_policy_preflight_source_contract_schema",
            contract.writer_contract_schema,
        )
        + line_str("target_region_media_write_policy_preflight_source_contract_id",
            contract.writer_contract_id,
        )
        + line_str("target_region_media_write_policy_preflight_source_contract_status",
            policy.source_contract_status,
        )
        + line_str("target_region_media_write_policy_preflight_source_contract_reason",
            policy.source_contract_reason,
        )
        + line_bool("target_region_media_write_policy_preflight_source_contract_target_range_ready",
            policy.source_contract_target_range_ready,
        )
        + line_bool("target_region_media_write_policy_preflight_owner_ids_verified",
            policy.owner_ids_verified,
        )
        + line_bool("target_region_media_write_policy_preflight_target_ids_verified",
            policy.target_ids_verified,
        )
        + line_bool("target_region_media_write_policy_preflight_target_span_verified",
            policy.target_span_verified,
        )
        + line_bool("target_region_media_write_policy_preflight_schema_ids_verified",
            policy.schema_ids_verified,
        )
        + line_bool("target_region_media_write_policy_preflight_media_write_authority_available",
            policy.media_write_authority_available,
        )
        + line_bool("target_region_media_write_policy_preflight_durable_audit_policy_available",
            policy.durable_audit_policy_available,
        )
        + line_bool("target_region_media_write_policy_preflight_authorizes_media_write", false)
        + line_bool("target_region_media_write_policy_preflight_write_attempted", false)
}

/// `prefix` followed by the discovered target region lines of the durable
/// append authority preflight.
pub open spec fn with_target_region_discovery_lines(
    prefix: Seq<u8>,
    discovery: TargetRegionDiscovery,
) -> Seq<u8> {
    prefix + line_str("target_region_discovery_schema", discovery.schema)
        + line_str("target_region_discovery_id", discovery.id)
        + line_str("target_region_discovery_status", discovery.status)
        + line_str("target_region_discovery_reason", discovery.reason)
        + line_str("target_region_discovery_source", discovery.source)
        + line_bool("target_region_partition_inventory_available",
            discovery.partition_inventory_available,
        )
        + line_str("target_region_partition_inventory_scheme", discovery.partition_inventory_scheme)
        + line_u64("target_region_partition_entry_count", discovery.partition_entry_count as u64)
        + line_bool("target_region_mbr_signature_valid", discovery.mbr_signature_valid)
        + line_bool("target_region_candidate_present", discovery.candidate_region_present)
        + line_u64("target_region_candidate_start_lba", discovery.candidate_region_start_lba)
        + line_u64("target_region_candidate_lba_count", discovery.candidate_region_lba_count)
        + line_bool("target_region_candidate_is_scratch", discovery.candidate_region_is_scratch)
        + line_bool("target_region_candidate_overlaps_boot_metadata",
            discovery.candidate_overlaps_boot_metadata,
        )
        + line_bool("target_region_candidate_overlaps_scratch",
            discovery.candidate_overlaps_scratch,
        )
        + line_str("target_region_scratch_region_id", discovery.scratch_region_id)
        + line_bool("target_region_scratch_rejected_as_durable_authority",
            discovery.scratch_rejected_as_durable_authority,
        )
        + line_bool("target_region_durable_region_available", discovery.durable_region_available)
}

fn hash_media_write_policy_lines(
    hash: &mut Sha256,
    policy: TargetRegionMediaWritePolicyPreflight,
    foundation: RollbackWriterStorageFoundation,
    contract: AppendContractIds,
)
    ensures
        sha256_absorbed(*final(hash)) == with_media_write_policy_lines(
            sha256_absorbed(*old(hash)),
            policy,
            foundation,
            contract,
        ),
{
    hash_line_str(hash, "target_region_media_write_policy_preflight_schema",
        contract.media_write_policy_preflight_schema,
    );
    hash_line_str(hash, "target_region_media_write_policy_preflight_id",
        contract.media_write_policy_preflight_id,
    );
    hash_line_str(hash, "target_region_media_write_policy_preflight_status",
        foundation.target_region_media_write_policy_preflight_status,
    );
    hash_line_str(hash, "target_region_media_write_policy_preflight_reason",
        foundation.target_region_media_write_policy_preflight_reason,
    );
    hash_line_hash(hash, "target_region_media_write_policy_preflight_sha256",
        policy.preflight_hash,
    );
    hash_line_str(hash, "target_region_media_write_policy_preflight_source_contract_schema",
        contract.writer_contract_schema,
    );
    hash_line_str(hash, "target_region_media_write_policy_preflight_source_contract_id",
        contract.writer_contract_id,
    );
    hash_line_str(hash, "target_region_media_write_policy_preflight_source_contract_status",
        policy.source_contract_status,
    );
    hash_line_str(hash, "target_region_media_write_policy_preflight_source_contract_reason",
        policy.source_contract_reason,
    );
    hash_line_bool(hash, "target_region_media_write_policy_preflight_source_contract_target_range_ready",
        policy.source_contract_target_range_ready,
    );
    hash_line_bool(hash, "target_region_media_write_policy_preflight_owner_ids_verified",
        policy.owner_ids_verified,
    );
    hash_line_bool(hash, "target_region_media_write_policy_preflight_target_ids_verified",
        policy.target_ids_verified,
    );
    hash_line_bool(hash, "target_region_media_write_policy_preflight_target_span_verified",
        policy.target_span_verified,
    );
    hash_line_bool(hash, "target_region_media_write_policy_preflight_schema_ids_verified",
        policy.schema_ids_verified,
    );
    hash_line_bool(hash, "target_region_media_write_policy_preflight_media_write_authority_available",
        policy.media_write_authority_available,
    );
    hash_line_bool(hash, "target_region_media_write_policy_preflight_durable_audit_policy_available",
        policy.durable_audit_policy_available,
    );
    hash_line_bool(hash, "target_region_media_write_policy_preflight_authorizes_media_write",
        false,
    );
    hash_line_bool(hash, "target_region_media_write_policy_preflight_write_attempted", false);
}

fn hash_target_region_discovery_lines(hash: &mut Sha256, discovery: TargetRegionDiscovery)
    ensures
        sha256_absorbed(*final(hash)) == with_target_region_discovery_lines(
            sha256_absorbed(*old(hash)),
            discovery,
        ),
{
    hash_line_str(hash, "target_region_discovery_schema", discovery.schema);
    hash_line_str(hash, "target_region_discovery_id", discovery.id);
    hash_line_str(hash, "target_region_discovery_status", discovery.status);
    hash_line_str(hash, "target_region_discovery_reason", discovery.reason);
    hash_line_str(hash, "target_region_discovery_source", discovery.source);
    hash_line_bool(hash, "target_region_partition_inventory_available",
        discovery.partition_inventory_available,
    );
    hash_line_str(hash, "target_region_partition_inventory_scheme",
        discovery.partition_inventory_scheme,
    );
    hash_line_u64(hash, "target_region_partition_entry_count",
        discovery.partition_entry_count as u64,
    );
    hash_line_bool(hash, "target_region_mbr_signature_valid", discovery.mbr_signature_valid);
    hash_line_bool(hash, "target_region_candidate_present", discovery.candidate_region_present);
    hash_line_u64(hash, "target_region_candidate_start_lba", discovery.candidate_region_start_lba);
    hash_line_u64(hash, "target_region_candidate_lba_count", discovery.candidate_region_lba_count);
    hash_line_bool(hash, "target_region_candidate_is_scratch",
        discovery.candidate_region_is_scratch,
    );
    hash_line_bool(hash, "target_region_candidate_overlaps_boot_metadata",
        discovery.candidate_overlaps_boot_metadata,
    );
    hash_line_bool(hash, "target_region_candidate_overlaps_scratch",
        discovery.candidate_overlaps_scratch,
    );
    hash_line_str(hash, "target_region_scratch_region_id", discovery.scratch_region_id);
    hash_line_bool(hash, "target_region_scratch_rejected_as_durable_authority",
        discovery.scratch_rejected_as_durable_authority,
    );
    hash_line_bool(hash, "target_region_durable_region_available",
        discovery.durable_region_available,
    );
}

/// The leading lines of the durable append authority preflight: its
/// identity, the digests it binds and the durable writer policy.
pub open spec fn durable_append_preflight_head(
    r: RollbackDurableAppendAuthorityPreflight,
    append_record: RollbackAppendRecordDryRun,
    sector_plan: RollbackAppendSectorPlanDryRun,
    target_region_write: RollbackTargetRegionWriteReadbackDryRun,
) -> Seq<u8> {
    line_str("schema", HELLO_ROLLBACK_DURABLE_APPEND_AUTHORITY_PREFLIGHT_SCHEMA)
        + line_str("id", HELLO_ROLLBACK_DURABLE_APPEND_AUTHORITY_PREFLIGHT_ID)
        + line_str("scope", "current_boot")
        + line_str("classification", "local_only")
        + line_str("persistence", "none")
        + line_str("status", HELLO_ROLLBACK_DURABLE_APPEND_AUTHORITY_PREFLIGHT_STATUS)
        + line_str("reason", HELLO_ROLLBACK_DURABLE_APPEND_AUTHORITY_PREFLIGHT_REASON)
        + line_hash("source_write_readback_sha256", r.source_write_readback_hash@)
        + line_hash("source_append_record_sha256", append_record.dry_run_hash@)
        + line_hash("source_sector_plan_sha256", sector_plan.plan_hash@)
        + line_str("source_target_region_write_readback_schema",
            HELLO_ROLLBACK_TARGET_REGION_WRITE_READBACK_DRY_RUN_SCHEMA,
        )
        + line_str("source_target_region_write_readback_id",
            HELLO_ROLLBACK_TARGET_REGION_WRITE_READBACK_DRY_RUN_ID,
        )
        + line_str("source_target_region_write_readback_status", target_region_write.status)
        + line_str("source_target_region_write_readback_reason", target_region_write.reason)
        + line_hash("source_target_region_write_readback_sha256",
            r.source_target_region_write_readback_hash@,
        )
        + line_bool("test_infrastructure_media_write_authority_available",
            r.test_infrastructure_media_write_authority_available,
        )
        + line_str("remaining_denial_reason",
            HELLO_ROLLBACK_DURABLE_APPEND_AUTHORITY_REMAINING_DENIAL_REASON,
        )
        + line_str("durable_writer_policy_preflight_schema",
            HELLO_ROLLBACK_DURABLE_WRITER_POLICY_PREFLIGHT_SCHEMA,
        )
        + line_str("durable_writer_policy_preflight_id",
            HELLO_ROLLBACK_DURABLE_WRITER_POLICY_PREFLIGHT_ID,
        )
        + line_str("durable_writer_policy_preflight_status",
            HELLO_ROLLBACK_DURABLE_WRITER_POLICY_PREFLIGHT_STATUS,
        )
        + line_str("durable_writer_policy_preflight_reason",
            HELLO_ROLLBACK_DURABLE_WRITER_POLICY_PREFLIGHT_REASON,
        )
        + line_hash("durable_writer_policy_preflight_sha256",
            r.durable_writer_policy_preflight.preflight_hash@,
        )
        + line_bool("durable_writer_policy_preflight_test_media_write_authority_available",
            r.durable_writer_policy_preflight.test_infrastructure_media_write_authority_available,
        )
        + line_bool("durable_writer_policy_preflight_durable_audit_writer_available",
            r.durable_writer_policy_preflight.durable_audit_writer_available,
        )
        + line_bool("durable_writer_policy_preflight_rollback_store_writer_available",
            r.durable_writer_policy_preflight.rollback_store_writer_available,
        )
        + line_bool("durable_writer_policy_preflight_transaction_append_writer_available",
            r.durable_writer_policy_preflight.transaction_append_writer_available,
        )
}

/// The durable append authority preflight's canonical lines.
pub open spec fn durable_append_preflight_stream(
    r: RollbackDurableAppendAuthorityPreflight,
    foundation: RollbackWriterStorageFoundation,
    append_record: RollbackAppendRecordDryRun,
    sector_plan: RollbackAppendSectorPlanDryRun,
    target_region_write: RollbackTargetRegionWriteReadbackDryRun,
    layout: StorageLayoutIds,
    contract: AppendContractIds,
) -> Seq<u8> {
    with_target_region_discovery_lines(
        with_media_write_policy_lines(
            durable_append_preflight_head(r, append_record, sector_plan, target_region_write),
            r.target_region_media_write_policy_preflight,
            foundation,
            contract,
        ),
        r.target_region_discovery,
    )
        + line_str("storage_authority_id", layout.storage_authority_id)
        + line_str("append_target_owner_id", contract.append_target_owner_id)
        + line_str("transaction_writer_readiness_id", contract.transaction_writer_readiness_id)
        + line_str("audit_ledger_writer_fact_id", layout.audit_append_target_id)
        + line_str("rollback_store_writer_fact_id", layout.rollback_append_target_id)
        + line_bool("scratch_write_readback_verified", r.scratch_write_readback_verified)
        + line_bool("scratch_used_as_durable_authority", false)
        + line_bool("durable_audit_writer_available",
            r.durable_writer_policy_preflight.durable_audit_writer_available,
        )
        + line_bool("rollback_store_writer_available",
            r.durable_writer_policy_preflight.rollback_store_writer_available,
        )
        + line_bool("transaction_append_writer_available",
            r.durable_writer_policy_preflight.transaction_append_writer_available,
        )
        + line_bool("authorizes_append", false)
        + line_bool("writes_durable_audit_log", false)
        + line_bool("writes_rollback_store", false)
        + line_bool("appends_rollback_transaction", false)
}

/// `r` is the durable append authority preflight of its sources.
pub open spec fn is_durable_append_preflight_for(
    r: RollbackDurableAppendAuthorityPreflight,
    foundation: RollbackWriterStorageFoundation,
    append_record: RollbackAppendRecordDryRun,
    sector_plan: RollbackAppendSectorPlanDryRun,
    sector_write: RollbackAppendSectorWriteReadbackDryRun,
    policy: TargetRegionMediaWritePolicyPreflight,
    target_region_write: RollbackTargetRegionWriteReadbackDryRun,
    writer_policy: RollbackDurableWriterPolicyPreflight,
    layout: StorageLayoutIds,
    contract: AppendContractIds,
) -> bool {
    &&& r.scratch_write_readback_verified == (sector_write.target_range_ready
        && sector_write.write_completed && sector_write.readback_completed
        && sector_write.readback_matches_planned_image)
    &&& r.source_write_readback_hash == sector_write.dry_run_hash
    &&& r.source_target_region_write_readback_hash == target_region_write.dry_run_hash
    &&& r.durable_writer_policy_preflight == writer_policy
    &&& r.target_region_discovery == foundation.target_region_discovery
    &&& r.target_region_media_write_policy_preflight == policy
    &&& r.test_infrastructure_media_write_authority_available
        == target_region_write.test_infrastructure_media_write_authority_available
    &&& r.remaining_denial_reason == HELLO_ROLLBACK_DURABLE_APPEND_AUTHORITY_REMAINING_DENIAL_REASON
    &&& r.durable_audit_writer_available == writer_policy.durable_audit_writer_available
    &&& r.rollback_store_writer_available == writer_policy.rollback_store_writer_available
    &&& r.transaction_append_writer_available == writer_policy.transaction_append_writer_available
    &&& r.preflight_hash@ == sha256_digest(
        durable_append_preflight_stream(
            r,
            foundation,
            append_record,
            sector_plan,
            target_region_write,
            layout,
            contract,
        ),
    )
}

/// The durable append authority preflight: binds the scratch write, the
/// writer policy, the media write policy and the discovered target region,
/// records whether the scratch write was read back intact (scratch is never
/// durable authority), and leaves durable append authority missing.
pub fn hello_rollback_durable_append_authority_preflight(
    foundation: RollbackWriterStorageFoundation,
    append_record: RollbackAppendRecordDryRun,
    sector_plan: RollbackAppendSectorPlanDryRun,
    sector_write: RollbackAppendSectorWriteReadbackDryRun,
    target_region_media_write_policy_preflight: TargetRegionMediaWritePolicyPreflight,
    target_region_write: RollbackTargetRegionWriteReadbackDryRun,
    durable_writer_policy_preflight: RollbackDurableWriterPolicyPreflight,
    layout: StorageLayoutIds,
    contract: AppendContractIds,
) -> (preflight: RollbackDurableAppendAuthorityPreflight)
    ensures
        is_durable_append_preflight_for(
            preflight,
            foundation,
            append_record,
            sector_plan,
            sector_write,
            target_region_media_write_policy_preflight,
            target_region_write,
            durable_writer_policy_preflight,
            layout,
            contract,
        ),
{
    let scratch_write_readback_verified = sector_write.target_range_ready
        && sector_write.write_completed && sector_write.readback_completed
        && sector_write.readback_matches_planned_image;
    let target_region_discovery = foundation.target_region_discovery;
    let test_infrastructure_media_write_authority_available =
        target_region_write.test_infrastructure_media_write_authority_available;
    let mut hash = sha256_new();
    hash_line_str(&mut hash, "schema", HELLO_ROLLBACK_DURABLE_APPEND_AUTHORITY_PREFLIGHT_SCHEMA);
    assert(sha256_absorbed(hash) =~= line_str("schema",
        HELLO_ROLLBACK_DURABLE_APPEND_AUTHORITY_PREFLIGHT_SCHEMA));
    hash_line_str(&mut hash, "id", HELLO_ROLLBACK_DURABLE_APPEND_AUTHORITY_PREFLIGHT_ID);
    hash_line_str(&mut hash, "scope", "current_boot");
    hash_line_str(&mut hash, "classification", "local_only");
    hash_line_str(&mut hash, "persistence", "none");
    hash_line_str(&mut hash, "status", HELLO_ROLLBACK_DURABLE_APPEND_AUTHORITY_PREFLIGHT_STATUS);
    hash_line_str(&mut hash, "reason", HELLO_ROLLBACK_DURABLE_APPEND_AUTHORITY_PREFLIGHT_REASON);
    hash_line_hash(&mut hash, "source_write_readback_sha256", sector_write.dry_run_hash);
    hash_line_hash(&mut hash, "source_append_record_sha256", append_record.dry_run_hash);
    hash_line_hash(&mut hash, "source_sector_plan_sha256", sector_plan.plan_hash);
    hash_line_str(&mut hash, "source_target_region_write_readback_schema",
        HELLO_ROLLBACK_TARGET_REGION_WRITE_READBACK_DRY_RUN_SCHEMA,
    );
    hash_line_str(&mut hash, "source_target_region_write_readback_id",
        HELLO_ROLLBACK_TARGET_REGION_WRITE_READBACK_DRY_RUN_ID,
    );
    hash_line_str(&mut hash, "source_target_region_write_readback_status",
        target_region_write.status,
    );
    hash_line_str(&mut hash, "source_target_region_write_readback_reason",
        target_region_write.reason,
    );
    hash_line_hash(&mut hash, "source_target_region_write_readback_sha256",
        target_region_write.dry_run_hash,
    );
    hash_line_bool(&mut hash, "test_infrastructure_media_write_authority_available",
        test_infrastructure_media_write_authority_available,
    );
    hash_line_str(&mut hash, "remaining_denial_reason",
        HELLO_ROLLBACK_DURABLE_APPEND_AUTHORITY_REMAINING_DENIAL_REASON,
    );
    hash_line_str(&mut hash, "durable_writer_policy_preflight_schema",
        HELLO_ROLLBACK_DURABLE_WRITER_POLICY_PREFLIGHT_SCHEMA,
    );
    hash_line_str(&mut hash, "durable_writer_policy_preflight_id",
        HELLO_ROLLBACK_DURABLE_WRITER_POLICY_PREFLIGHT_ID,
    );
    hash_line_str(&mut hash, "durable_writer_policy_preflight_status",
        HELLO_ROLLBACK_DURABLE_WRITER_POLICY_PREFLIGHT_STATUS,
    );
    hash_line_str(&mut hash, "durable_writer_policy_preflight_reason",
        HELLO_ROLLBACK_DURABLE_WRITER_POLICY_PREFLIGHT_REASON,
    );
    hash_line_hash(&mut hash, "durable_writer_policy_preflight_sha256",
        durable_writer_policy_preflight.preflight_hash,
    );
    hash_line_bool(&mut hash, "durable_writer_policy_preflight_test_media_write_authority_available",
        durable_writer_policy_preflight.test_infrastructure_media_write_authority_available,
    );
    hash_line_bool(&mut hash, "durable_writer_policy_preflight_durable_audit_writer_available",
        durable_writer_policy_preflight.durable_audit_writer_available,
    );
    hash_line_bool(&mut hash, "durable_writer_policy_preflight_rollback_store_writer_available",
        durable_writer_policy_preflight.rollback_store_writer_available,
    );
    hash_line_bool(&mut hash, "durable_writer_policy_preflight_transaction_append_writer_available",
        durable_writer_policy_preflight.transaction_append_writer_available,
    );
    hash_media_write_policy_lines(&mut hash, target_region_media_write_policy_preflight, foundation, contract);
    hash_target_region_discovery_lines(&mut hash, target_region_discovery);
    hash_line_str(&mut hash, "storage_authority_id", layout.storage_authority_id);
    hash_line_str(&mut hash, "append_target_owner_id", contract.append_target_owner_id);
    hash_line_str(&mut hash, "transaction_writer_readiness_id",
        contract.transaction_writer_readiness_id,
    );
    hash_line_str(&mut hash, "audit_ledger_writer_fact_id", layout.audit_append_target_id);
    hash_line_str(&mut hash, "rollback_store_writer_fact_id", layout.rollback_append_target_id);
    hash_line_bool(&mut hash, "scratch_write_readback_verified", scratch_write_readback_verified);
    hash_line_bool(&mut hash, "scratch_used_as_durable_authority", false);
    hash_line_bool(&mut hash, "durable_audit_writer_available",
        durable_writer_policy_preflight.durable_audit_writer_available,
    );
    hash_line_bool(&mut hash, "rollback_store_writer_available",
        durable_writer_policy_preflight.rollback_store_writer_available,
    );
    hash_line_bool(&mut hash, "transaction_append_writer_available",
        durable_writer_policy_preflight.transaction_append_writer_available,
    );
    hash_line_bool(&mut hash, "authorizes_append", false);
    hash_line_bool(&mut hash, "writes_durable_audit_log", false);
    hash_line_bool(&mut hash, "writes_rollback_store", false);
    hash_line_bool(&mut hash, "appends_rollback_transaction", false);
    RollbackDurableAppendAuthorityPreflight {
        preflight_hash: finalize_sha256(hash),
        source_write_readback_hash: sector_write.dry_run_hash,
        source_target_region_write_readback_hash: target_region_write.dry_run_hash,
        durable_writer_policy_preflight,
        target_region_discovery,
        target_region_media_write_policy_preflight,
        scratch_write_readback_verified,
        test_infrastructure_media_write_authority_available,
        remaining_denial_reason: HELLO_ROLLBACK_DURABLE_APPEND_AUTHORITY_REMAINING_DENIAL_REASON,
        durable_audit_writer_available:
            durable_writer_policy_preflight.durable_audit_writer_available,
        rollback_store_writer_available:
            durable_writer_policy_preflight.rollback_store_writer_available,
        transaction_append_writer_available:
            durable_writer_policy_preflight.transaction_append_writer_available,
    }
}

/// The status the append contract gives a media write policy preflight.
pub open spec fn contract_policy_status(contract: AppendContractIds, ready: bool) -> &'static str {
    if ready {
        contract.media_write_policy_preflight_status_ready
    } else {
        contract.media_write_policy_preflight_status_not_ready
    }
}

/// The reason the append contract gives a media write policy preflight.
pub open spec fn contract_policy_reason(contract: AppendContractIds, ready: bool) -> &'static str {
    if ready {
        contract.media_write_policy_preflight_reason_ready
    } else {
        contract.media_write_policy_preflight_reason_not_ready
    }
}

/// Why media write authority is, or is not, available.
pub open spec fn media_write_authority_reason(test_authority: bool) -> &'static str {
    if test_authority {
        HELLO_ROLLBACK_TEST_MEDIA_WRITE_AUTHORITY_REASON
    } else {
        HELLO_ROLLBACK_MEDIA_WRITE_AUTHORITY_MISSING_REASON
    }
}

/// The media write authority gate's canonical lines.
pub open spec fn media_write_gate_stream(
    r: RollbackMediaWriteAuthorityGate,
    target_region_write: RollbackTargetRegionWriteReadbackDryRun,
    contract: AppendContractIds,
) -> Seq<u8> {
    line_str("schema", HELLO_ROLLBACK_MEDIA_WRITE_AUTHORITY_GATE_SCHEMA)
        + line_str("id", HELLO_ROLLBACK_MEDIA_WRITE_AUTHORITY_GATE_ID)
        + line_str("scope", "current_boot")
        + line_str("classification", "local_only")
        + line_str("persistence", "none")
        + line_str("status", HELLO_ROLLBACK_MEDIA_WRITE_AUTHORITY_GATE_STATUS)
        + line_str("reason", HELLO_ROLLBACK_MEDIA_WRITE_AUTHORITY_GATE_REASON)
        + line_str("source_durable_append_authority_preflight_schema",
            HELLO_ROLLBACK_DURABLE_APPEND_AUTHORITY_PREFLIGHT_SCHEMA,
        )
        + line_str("source_durable_append_authority_preflight_id",
            HELLO_ROLLBACK_DURABLE_APPEND_AUTHORITY_PREFLIGHT_ID,
        )
        + line_hash("source_durable_append_authority_preflight_sha256",
            r.source_durable_append_authority_preflight_hash@,
        )
        + line_str("source_policy_preflight_schema", contract.media_write_policy_preflight_schema)
        + line_str("source_policy_preflight_id", contract.media_write_policy_preflight_id)
        + line_str("source_policy_preflight_status",
            contract_policy_status(contract, r.source_contract_target_range_ready),
        )
        + line_str("source_policy_preflight_reason",
            contract_policy_reason(contract, r.source_contract_target_range_ready),
        )
        + line_hash("source_policy_preflight_sha256", r.source_policy_preflight_hash@)
        + line_str("source_target_region_write_readback_schema",
            HELLO_ROLLBACK_TARGET_REGION_WRITE_READBACK_DRY_RUN_SCHEMA,
        )
        + line_str("source_target_region_write_readback_id",
            HELLO_ROLLBACK_TARGET_REGION_WRITE_READBACK_DRY_RUN_ID,
        )
        + line_str("source_target_region_write_readback_status", target_region_write.status)
        + line_str("source_target_region_write_readback_reason", target_region_write.reason)
        + line_hash("source_target_region_write_readback_sha256",
            r.source_target_region_write_readback_hash@,
        )
        + line_str("source_contract_schema", contract.writer_contract_schema)
        + line_str("source_contract_id", contract.writer_contract_id)
        + line_str("source_contract_status", r.source_contract_status)
        + line_str("source_contract_reason", r.source_contract_reason)
        + line_bool("source_contract_target_range_ready", r.source_contract_target_range_ready)
        + line_bool("owner_ids_verified", r.owner_ids_verified)
        + line_bool("target_ids_verified", r.target_ids_verified)
        + line_bool("target_span_verified", r.target_span_verified)
        + line_bool("schema_ids_verified", r.schema_ids_verified)
        + line_u64("target_region_start_lba", r.target_region_start_lba)
        + line_u64("target_region_lba_count", r.target_region_lba_count)
        + line_u64("target_byte_count", r.target_byte_count)
        + line_bool("media_write_authority_required", true)
        + line_bool("media_write_authority_available",
            r.test_infrastructure_media_write_authority_available,
        )
        + line_str("media_write_authority_reason",
            media_write_authority_reason(r.test_infrastructure_media_write_authority_available),
        )
        + line_bool("test_infrastructure_media_write_authority_available",
            r.test_infrastructure_media_write_authority_available,
        )
        + line_bool("durable_audit_policy_required", true)
        + line_bool("durable_audit_policy_available", r.durable_audit_policy_available)
        + line_str("durable_audit_policy_reason",
            HELLO_ROLLBACK_DURABLE_AUDIT_POLICY_MISSING_REASON,
        )
        + line_bool("authorizes_media_write", false)
        + line_bool("authorizes_append", false)
        + line_bool("writes_durable_audit_log", false)
        + line_bool("writes_rollback_store", false)
        + line_bool("appends_rollback_transaction", false)
        + line_bool("target_region_write_attempted", r.target_region_write_attempted)
        + line_bool("write_attempted", false)
}

/// `r` is the media write authority gate over the preflight and the target
/// region write.
pub open spec fn is_media_write_gate_for(
    r: RollbackMediaWriteAuthorityGate,
    preflight: RollbackDurableAppendAuthorityPreflight,
    target_region_write: RollbackTargetRegionWriteReadbackDryRun,
    contract: AppendContractIds,
) -> bool {
    let policy = preflight.target_region_media_write_policy_preflight;
    &&& r.source_durable_append_authority_preflight_hash == preflight.preflight_hash
    &&& r.source_policy_preflight_hash == policy.preflight_hash
    &&& r.source_target_region_write_readback_hash == target_region_write.dry_run_hash
    &&& r.source_contract_status == policy.source_contract_status
    &&& r.source_contract_reason == policy.source_contract_reason
    &&& r.source_contract_target_range_ready == policy.source_contract_target_range_ready
    &&& r.owner_ids_verified == policy.owner_ids_verified
    &&& r.target_ids_verified == policy.target_ids_verified
    &&& r.target_span_verified == policy.target_span_verified
    &&& r.schema_ids_verified == policy.schema_ids_verified
    &&& r.target_region_start_lba == policy.target_region_start_lba
    &&& r.target_region_lba_count == policy.target_region_lba_count
    &&& r.target_byte_count == policy.target_byte_count
    &&& r.media_write_authority_available
        == target_region_write.test_infrastructure_media_write_authority_available
    &&& r.test_infrastructure_media_write_authority_available
        == target_region_write.test_infrastructure_media_write_authority_available
    &&& r.durable_audit_policy_available == policy.durable_audit_policy_available
    &&& r.target_region_write_attempted == target_region_write.write_attempted
    &&& r.gate_hash@ == sha256_digest(media_write_gate_stream(r, target_region_write, contract))
}

/// The media write authority gate: media write authority stands exactly
/// when the target region write gave test-infrastructure authority; the
/// durable audit policy stays missing.
pub fn hello_rollback_media_write_authority_gate(
    durable_append_preflight: RollbackDurableAppendAuthorityPreflight,
    target_region_write: RollbackTargetRegionWriteReadbackDryRun,
    contract: AppendContractIds,
) -> (gate: RollbackMediaWriteAuthorityGate)
    ensures
        is_media_write_gate_for(gate, durable_append_preflight, target_region_write, contract),
{
    let policy = durable_append_preflight.target_region_media_write_policy_preflight;
    let test_media_write_authority_available =
        target_region_write.test_infrastructure_media_write_authority_available;
    let media_write_authority_reason = if test_media_write_authority_available {
        HELLO_ROLLBACK_TEST_MEDIA_WRITE_AUTHORITY_REASON
    } else {
        HELLO_ROLLBACK_MEDIA_WRITE_AUTHORITY_MISSING_REASON
    };
    let policy_status = if policy.source_contract_target_range_ready {
        contract.media_write_policy_preflight_status_ready
    } else {
        contract.media_write_policy_preflight_status_not_ready
    };
    let policy_reason = if policy.source_contract_target_range_ready {
        contract.media_write_policy_preflight_reason_ready
    } else {
        contract.media_write_policy_preflight_reason_not_ready
    };
    let mut hash = sha256_new();
    hash_line_str(&mut hash, "schema", HELLO_ROLLBACK_MEDIA_WRITE_AUTHORITY_GATE_SCHEMA);
    assert(sha256_absorbed(hash) =~= line_str("schema",
        HELLO_ROLLBACK_MEDIA_WRITE_AUTHORITY_GATE_SCHEMA));
    hash_line_str(&mut hash, "id", HELLO_ROLLBACK_MEDIA_WRITE_AUTHORITY_GATE_ID);
    hash_line_str(&mut hash, "scope", "current_boot");
    hash_line_str(&mut hash, "classification", "local_only");
    hash_line_str(&mut hash, "persistence", "none");
    hash_line_str(&mut hash, "status", HELLO_ROLLBACK_MEDIA_WRITE_AUTHORITY_GATE_STATUS);
    hash_line_str(&mut hash, "reason", HELLO_ROLLBACK_MEDIA_WRITE_AUTHORITY_GATE_REASON);
    hash_line_str(&mut hash, "source_durable_append_authority_preflight_schema",
        HELLO_ROLLBACK_DURABLE_APPEND_AUTHORITY_PREFLIGHT_SCHEMA,
    );
    hash_line_str(&mut hash, "source_durable_append_authority_preflight_id",
        HELLO_ROLLBACK_DURABLE_APPEND_AUTHORITY_PREFLIGHT_ID,
    );
    hash_line_hash(&mut hash, "source_durable_append_authority_preflight_sha256",
        durable_append_preflight.preflight_hash,
    );
    hash_line_str(&mut hash, "source_policy_preflight_schema",
        contract.media_write_policy_preflight_schema,
    );
    hash_line_str(&mut hash, "source_policy_preflight_id",
        contract.media_write_policy_preflight_id,
    );
    hash_line_str(&mut hash, "source_policy_preflight_status", policy_status);
    hash_line_str(&mut hash, "source_policy_preflight_reason", policy_reason);
    hash_line_hash(&mut hash, "source_policy_preflight_sha256", policy.preflight_hash);
    hash_line_str(&mut hash, "source_target_region_write_readback_schema",
        HELLO_ROLLBACK_TARGET_REGION_WRITE_READBACK_DRY_RUN_SCHEMA,
    );
    hash_line_str(&mut hash, "source_target_region_write_readback_id",
        HELLO_ROLLBACK_TARGET_REGION_WRITE_READBACK_DRY_RUN_ID,
    );
    hash_line_str(&mut hash, "source_target_region_write_readback_status",
        target_region_write.status,
    );
    hash_line_str(&mut hash, "source_target_region_write_readback_reason",
        target_region_write.reason,
    );
    hash_line_hash(&mut hash, "source_target_region_write_readback_sha256",
        target_region_write.dry_run_hash,
    );
    hash_line_str(&mut hash, "source_contract_schema", contract.writer_contract_schema);
    hash_line_str(&mut hash, "source_contract_id", contract.writer_contract_id);
    hash_line_str(&mut hash, "source_contract_status", policy.source_contract_status);
    hash_line_str(&mut hash, "source_contract_reason", policy.source_contract_reason);
    hash_line_bool(&mut hash, "source_contract_target_range_ready",
        policy.source_contract_target_range_ready,
    );
    hash_line_bool(&mut hash, "owner_ids_verified", policy.owner_ids_verified);
    hash_line_bool(&mut hash, "target_ids_verified", policy.target_ids_verified);
    hash_line_bool(&mut hash, "target_span_verified", policy.target_span_verified);
    hash_line_bool(&mut hash, "schema_ids_verified", policy.schema_ids_verified);
    hash_line_u64(&mut hash, "target_region_start_lba", policy.target_region_start_lba);
    hash_line_u64(&mut hash, "target_region_lba_count", policy.target_region_lba_count);
    hash_line_u64(&mut hash, "target_byte_count", policy.target_byte_count);
    hash_line_bool(&mut hash, "media_write_authority_required", true);
    hash_line_bool(&mut hash, "media_write_authority_available",
        test_media_write_authority_available,
    );
    hash_line_str(&mut hash, "media_write_authority_reason", media_write_authority_reason);
    hash_line_bool(&mut hash, "test_infrastructure_media_write_authority_available",
        test_media_write_authority_available,
    );
    hash_line_bool(&mut hash, "durable_audit_policy_required", true);
    hash_line_bool(&mut hash, "durable_audit_policy_available",
        policy.durable_audit_policy_available,
    );
    hash_line_str(&mut hash, "durable_audit_policy_reason",
        HELLO_ROLLBACK_DURABLE_AUDIT_POLICY_MISSING_REASON,
    );
    hash_line_bool(&mut hash, "authorizes_media_write", false);
    hash_line_bool(&mut hash, "authorizes_append", false);
    hash_line_bool(&mut hash, "writes_durable_audit_log", false);
    hash_line_bool(&mut hash, "writes_rollback_store", false);
    hash_line_bool(&mut hash, "appends_rollback_transaction", false);
    hash_line_bool(&mut hash, "target_region_write_attempted", target_region_write.write_attempted);
    hash_line_bool(&mut hash, "write_attempted", false);
    RollbackMediaWriteAuthorityGate {
        gate_hash: finalize_sha256(hash),
        source_durable_append_authority_preflight_hash: durable_append_preflight.preflight_hash,
        source_policy_preflight_hash: policy.preflight_hash,
        source_target_region_write_readback_hash: target_region_write.dry_run_hash,
        source_contract_status: policy.source_contract_status,
        source_contract_reason: policy.source_contract_reason,
        source_contract_target_range_ready: policy.source_contract_target_range_ready,
        owner_ids_verified: policy.owner_ids_verified,
        target_ids_verified: policy.target_ids_verified,
        target_span_verified: policy.target_span_verified,
        schema_ids_verified: policy.schema_ids_verified,
        target_region_start_lba: policy.target_region_start_lba,
        target_region_lba_count: policy.target_region_lba_count,
        target_byte_count: policy.target_byte_count,
        media_write_authority_available: test_media_write_authority_available,
        test_infrastructure_media_write_authority_available: test_media_write_authority_available,
        durable_audit_policy_available: policy.durable_audit_policy_available,
        target_region_write_attempted: target_region_write.write_attempted,
    }
}


/// The writers come in a chain: the rollback store writer needs the audit
/// ledger writer, and the transaction append writer needs both.
pub proof fn lemma_writer_chain(
    r: RollbackDurableWriterPolicyPreflight,
    append_record: RollbackAppendRecordDryRun,
    sector_plan: RollbackAppendSectorPlanDryRun,
    t: RollbackTargetRegionWriteReadbackDryRun,
    layout: StorageLayoutIds,
)
    requires
        is_writer_policy_for(r, append_record, sector_plan, t, layout),
    ensures
        r.rollback_store_writer_available ==> r.durable_audit_writer_available,
        r.transaction_append_writer_available ==> r.rollback_store_writer_available,
        r.durable_audit_writer_available ==> r.target_range_ready && target_write_verified(t),
{
}

/// Built from the writer policy of the same dry runs, the append engine is
/// ready exactly when the transaction append writer is available.
pub proof fn lemma_engine_ready_iff_transaction_writer(
    writer_policy: RollbackDurableWriterPolicyPreflight,
    gate: RollbackDurableAppendTransactionAuthorizationGate,
    decision: RollbackAppendEngineReadinessDecision,
    append_record: RollbackAppendRecordDryRun,
    sector_plan: RollbackAppendSectorPlanDryRun,
    t: RollbackTargetRegionWriteReadbackDryRun,
    layout: StorageLayoutIds,
)
    requires
        is_writer_policy_for(writer_policy, append_record, sector_plan, t, layout),
        is_authorization_gate_for(gate, writer_policy, append_record, sector_plan, t, layout),
        is_engine_readiness_for(decision, gate),
    ensures
        decision.ready <==> writer_policy.transaction_append_writer_available,
        decision.ready <==> decision.status == "available",
{
}

/// No decision of the chain grants durable append authority: the durable
/// append authority decision withholds it, and the durable audit policy
/// decision built on it carries that on.
pub proof fn lemma_durable_append_never_granted(
    preflight: RollbackDurableAppendAuthorityPreflight,
    gate: RollbackMediaWriteAuthorityGate,
    engine: RollbackAppendEngineReadinessDecision,
    decision: RollbackDurableAppendAuthorityDecision,
    audit_policy: RollbackDurableAuditPolicyDecision,
)
    requires
        is_durable_append_decision_for(decision, preflight, gate, engine),
        is_audit_policy_decision_for(audit_policy, decision),
    ensures
        !decision.durable_append_authority_available,
        !audit_policy.durable_append_authority_available,
        audit_policy.media_write_policy_verified ==> decision.media_write_gate_ready,
{
}


/// The append engine is ready exactly when all six requirements of the
/// authorization gate hold, and then it reads `available`; a ready target
/// range without test media write authority is refused for that authority.
pub proof fn lemma_engine_ready_iff_all_requirements(
    decision: RollbackAppendEngineReadinessDecision,
    gate: RollbackDurableAppendTransactionAuthorizationGate,
)
    requires
        is_engine_readiness_for(decision, gate),
    ensures
        decision.ready == (gate.target_range_ready
            && gate.test_infrastructure_media_write_authority_available
            && gate.append_engine_available && gate.durable_audit_writer_available
            && gate.rollback_store_writer_available && gate.transaction_append_writer_available),
        decision.ready ==> decision.status == "available",
        !decision.ready ==> decision.status == "missing",
        gate.target_range_ready && !gate.test_infrastructure_media_write_authority_available
            ==> decision.reason == "authorization_gate_test_media_authority_missing",
        !gate.target_range_ready ==> decision.reason == "authorization_gate_target_range_not_ready",
{
}

} // verus!
