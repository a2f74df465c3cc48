//! The durable audit policy and durable append authority availability
//! chain of a proposed rollback transaction: each step binds the digests of
//! the steps before it, checks that they agree on the target span and the
//! evidence, and keeps every authority it names unavailable, so that the
//! transaction append stays denied.

use vstd::prelude::*;
use crate::append_plan::{RollbackAppendRecordDryRun, RollbackAppendSectorPlanDryRun};
use crate::canonical::{
    finalize_sha256, hash_line_bool, hash_line_hash, hash_line_str, hash_line_u64, line_bool,
    line_hash, line_str, line_u64,
};
use crate::compare::digest_eq;
use crate::constants::{
    HELLO_ROLLBACK_DURABLE_APPEND_AUTHORITY_AVAILABILITY_DRY_RUN_ID,
    HELLO_ROLLBACK_DURABLE_APPEND_AUTHORITY_AVAILABILITY_DRY_RUN_REASON,
    HELLO_ROLLBACK_DURABLE_APPEND_AUTHORITY_AVAILABILITY_DRY_RUN_SCHEMA,
    HELLO_ROLLBACK_DURABLE_APPEND_AUTHORITY_AVAILABILITY_DRY_RUN_STATUS,
    HELLO_ROLLBACK_DURABLE_APPEND_AUTHORITY_AVAILABILITY_ID,
    HELLO_ROLLBACK_DURABLE_APPEND_AUTHORITY_AVAILABILITY_REASON,
    HELLO_ROLLBACK_DURABLE_APPEND_AUTHORITY_AVAILABILITY_SCHEMA,
    HELLO_ROLLBACK_DURABLE_APPEND_AUTHORITY_AVAILABILITY_STATUS,
    HELLO_ROLLBACK_DURABLE_AUDIT_POLICY_ACCEPTANCE_GATE_ID,
    HELLO_ROLLBACK_DURABLE_AUDIT_POLICY_ACCEPTANCE_GATE_REASON,
    HELLO_ROLLBACK_DURABLE_AUDIT_POLICY_ACCEPTANCE_GATE_SCHEMA,
    HELLO_ROLLBACK_DURABLE_AUDIT_POLICY_ACCEPTANCE_GATE_STATUS,
    HELLO_ROLLBACK_DURABLE_AUDIT_POLICY_AVAILABILITY_DRY_RUN_ID,
    HELLO_ROLLBACK_DURABLE_AUDIT_POLICY_AVAILABILITY_DRY_RUN_REASON,
    HELLO_ROLLBACK_DURABLE_AUDIT_POLICY_AVAILABILITY_DRY_RUN_SCHEMA,
    HELLO_ROLLBACK_DURABLE_AUDIT_POLICY_AVAILABILITY_DRY_RUN_STATUS,
    HELLO_ROLLBACK_DURABLE_AUDIT_POLICY_AVAILABILITY_ID,
    HELLO_ROLLBACK_DURABLE_AUDIT_POLICY_AVAILABILITY_REASON,
    HELLO_ROLLBACK_DURABLE_AUDIT_POLICY_AVAILABILITY_SCHEMA,
    HELLO_ROLLBACK_DURABLE_AUDIT_POLICY_AVAILABILITY_STATUS,
    HELLO_ROLLBACK_DURABLE_AUDIT_POLICY_CANDIDATE_ID,
    HELLO_ROLLBACK_DURABLE_AUDIT_POLICY_CANDIDATE_REASON,
    HELLO_ROLLBACK_DURABLE_AUDIT_POLICY_CANDIDATE_SCHEMA,
    HELLO_ROLLBACK_DURABLE_AUDIT_POLICY_CANDIDATE_STATUS,
    HELLO_ROLLBACK_DURABLE_AUDIT_POLICY_LEDGER_AWARE_ACCEPTANCE_RESULT_ID,
    HELLO_ROLLBACK_DURABLE_AUDIT_POLICY_LEDGER_AWARE_ACCEPTANCE_RESULT_REASON,
    HELLO_ROLLBACK_DURABLE_AUDIT_POLICY_LEDGER_AWARE_ACCEPTANCE_RESULT_SCHEMA,
    HELLO_ROLLBACK_DURABLE_AUDIT_POLICY_LEDGER_AWARE_ACCEPTANCE_RESULT_STATUS,
    HELLO_ROLLBACK_DURABLE_AUDIT_POLICY_LEDGER_CANDIDATE_ID,
    HELLO_ROLLBACK_DURABLE_AUDIT_POLICY_LEDGER_CANDIDATE_REASON,
    HELLO_ROLLBACK_DURABLE_AUDIT_POLICY_LEDGER_CANDIDATE_SCHEMA,
    HELLO_ROLLBACK_DURABLE_AUDIT_POLICY_LEDGER_CANDIDATE_STATUS,
    HELLO_ROLLBACK_DURABLE_AUDIT_POLICY_WRITE_AUTHORITY_AVAILABILITY_ID,
    HELLO_ROLLBACK_DURABLE_AUDIT_POLICY_WRITE_AUTHORITY_AVAILABILITY_REASON,
    HELLO_ROLLBACK_DURABLE_AUDIT_POLICY_WRITE_AUTHORITY_AVAILABILITY_SCHEMA,
    HELLO_ROLLBACK_DURABLE_AUDIT_POLICY_WRITE_AUTHORITY_AVAILABILITY_STATUS,
    HELLO_ROLLBACK_DURABLE_POLICY_LEDGER_AVAILABILITY_DRY_RUN_ID,
    HELLO_ROLLBACK_DURABLE_POLICY_LEDGER_AVAILABILITY_DRY_RUN_REASON,
    HELLO_ROLLBACK_DURABLE_POLICY_LEDGER_AVAILABILITY_DRY_RUN_SCHEMA,
    HELLO_ROLLBACK_DURABLE_POLICY_LEDGER_AVAILABILITY_DRY_RUN_STATUS,
    HELLO_ROLLBACK_DURABLE_POLICY_LEDGER_AVAILABILITY_ID,
    HELLO_ROLLBACK_DURABLE_POLICY_LEDGER_AVAILABILITY_REASON,
    HELLO_ROLLBACK_DURABLE_POLICY_LEDGER_AVAILABILITY_SCHEMA,
    HELLO_ROLLBACK_DURABLE_POLICY_LEDGER_AVAILABILITY_STATUS,
    HELLO_ROLLBACK_DURABLE_POLICY_WRITE_AUTHORITY_DECISION_ID,
    HELLO_ROLLBACK_DURABLE_POLICY_WRITE_AUTHORITY_DECISION_REASON,
    HELLO_ROLLBACK_DURABLE_POLICY_WRITE_AUTHORITY_DECISION_SCHEMA,
    HELLO_ROLLBACK_DURABLE_POLICY_WRITE_AUTHORITY_DECISION_STATUS,
    HELLO_ROLLBACK_TRANSACTION_APPEND_AUTHORITY_DENIAL_GATE_ID,
    HELLO_ROLLBACK_TRANSACTION_APPEND_AUTHORITY_DENIAL_GATE_REASON,
    HELLO_ROLLBACK_TRANSACTION_APPEND_AUTHORITY_DENIAL_GATE_SCHEMA,
    HELLO_ROLLBACK_TRANSACTION_APPEND_AUTHORITY_DENIAL_GATE_STATUS,
    HELLO_ROLLBACK_TRANSACTION_APPEND_AVAILABILITY_DECISION_ID,
    HELLO_ROLLBACK_TRANSACTION_APPEND_AVAILABILITY_DECISION_REASON,
    HELLO_ROLLBACK_TRANSACTION_APPEND_AVAILABILITY_DECISION_SCHEMA,
    HELLO_ROLLBACK_TRANSACTION_APPEND_AVAILABILITY_DECISION_STATUS,
    HELLO_ROLLBACK_TRANSACTION_APPEND_DRY_RUN_ID,
    HELLO_ROLLBACK_TRANSACTION_APPEND_DRY_RUN_REASON,
    HELLO_ROLLBACK_TRANSACTION_APPEND_DRY_RUN_SCHEMA,
    HELLO_ROLLBACK_TRANSACTION_APPEND_DRY_RUN_STATUS,
};
use crate::foundation::StorageLayoutIds;
use crate::sector_inspection::RollbackTargetRegionSectorInspection;
use crate::sha256::{sha256_absorbed, sha256_digest, sha256_new};
use crate::target_region::{
    RollbackTargetRegionWriteReadbackDryRun, TargetRegionMediaWritePolicyPreflight,
};
use crate::writer_gate::{
    RollbackAppendEngineReadinessDecision, RollbackDurableAuditPolicyDecision,
    RollbackDurableWriterPolicyPreflight,
};

verus! {

/// The durable audit policy candidate: the audit record a durable audit policy would cover.
#[derive(Clone, Copy)]
pub struct RollbackDurableAuditPolicyCandidate {
    pub candidate_hash: [u8; 32],
    pub source_durable_audit_policy_decision_hash: [u8; 32],
    pub source_audit_record_image_hash: [u8; 32],
    pub source_policy_preflight_hash: [u8; 32],
    pub source_target_region_write_readback_hash: [u8; 32],
    pub target_start_lba: u64,
    pub target_lba_count: u64,
    pub target_byte_count: u64,
    pub media_write_policy_verified: bool,
    pub durable_audit_policy_candidate_available: bool,
    pub durable_audit_policy_available: bool,
    pub durable_append_authority_available: bool,
}

/// The canonical lines of the durable audit policy candidate.
pub open spec fn audit_policy_candidate_stream(
    r: RollbackDurableAuditPolicyCandidate,
    layout: StorageLayoutIds,
) -> Seq<u8> {
    line_str("schema", HELLO_ROLLBACK_DURABLE_AUDIT_POLICY_CANDIDATE_SCHEMA)
        + line_str("id", HELLO_ROLLBACK_DURABLE_AUDIT_POLICY_CANDIDATE_ID)
        + line_str("scope", "current_boot")
        + line_str("classification", "local_only")
        + line_str("persistence", "none")
        + line_str("status", HELLO_ROLLBACK_DURABLE_AUDIT_POLICY_CANDIDATE_STATUS)
        + line_str("reason", HELLO_ROLLBACK_DURABLE_AUDIT_POLICY_CANDIDATE_REASON)
        + line_hash("source_durable_audit_policy_decision_sha256",
            r.source_durable_audit_policy_decision_hash@,
        )
        + line_hash("source_audit_record_image_sha256", r.source_audit_record_image_hash@)
        + line_hash("source_policy_preflight_sha256", r.source_policy_preflight_hash@)
        + line_hash("source_target_region_write_readback_sha256",
            r.source_target_region_write_readback_hash@,
        )
        + line_str("audit_record_schema", layout.audit_append_target_schema)
        + line_u64("target_start_lba", r.target_start_lba)
        + line_u64("target_lba_count", r.target_lba_count)
        + line_u64("target_byte_count", r.target_byte_count)
        + line_bool("media_write_policy_verified", r.media_write_policy_verified)
        + line_bool("durable_audit_policy_candidate_available",
            r.durable_audit_policy_candidate_available,
        )
        + line_bool("durable_audit_policy_available", r.durable_audit_policy_available)
        + line_bool("durable_append_authority_available", r.durable_append_authority_available)
        + line_bool("authorizes_append", false)
        + line_bool("writes_durable_audit_log", false)
        + line_bool("writes_rollback_store", false)
        + line_bool("appends_rollback_transaction", false)
        + line_bool("write_attempted", false)
}

/// `r` is the durable audit policy candidate built from its sources.
pub open spec fn is_audit_policy_candidate_for(
    r: RollbackDurableAuditPolicyCandidate,
    durable_audit_policy_decision: RollbackDurableAuditPolicyDecision,
    append_record: RollbackAppendRecordDryRun,
    layout: StorageLayoutIds,
) -> bool {
    &&& r.source_durable_audit_policy_decision_hash == durable_audit_policy_decision.decision_hash
    &&& r.source_audit_record_image_hash == append_record.audit_record_image_hash
    &&& r.source_policy_preflight_hash == durable_audit_policy_decision.source_policy_preflight_hash
    &&& r.source_target_region_write_readback_hash
        == durable_audit_policy_decision.source_target_region_write_readback_hash
    &&& r.target_start_lba == durable_audit_policy_decision.target_start_lba
    &&& r.target_lba_count == durable_audit_policy_decision.target_lba_count
    &&& r.target_byte_count == durable_audit_policy_decision.target_byte_count
    &&& r.media_write_policy_verified == durable_audit_policy_decision.media_write_policy_verified
    &&& r.durable_audit_policy_candidate_available
        == durable_audit_policy_decision.media_write_policy_verified
    &&& r.durable_audit_policy_available
        == durable_audit_policy_decision.durable_audit_policy_available
    &&& r.durable_append_authority_available
        == durable_audit_policy_decision.durable_append_authority_available
    &&& r.candidate_hash@ == sha256_digest(audit_policy_candidate_stream(r, layout))
}

/// The durable audit policy candidate: available exactly when the media write
/// policy was verified; it grants no durable audit policy.
pub fn hello_rollback_durable_audit_policy_candidate(
    durable_audit_policy_decision: RollbackDurableAuditPolicyDecision,
    append_record: RollbackAppendRecordDryRun,
    layout: StorageLayoutIds,
) -> (result: RollbackDurableAuditPolicyCandidate)
    ensures
        is_audit_policy_candidate_for(result, durable_audit_policy_decision, append_record, layout),
{
    let durable_audit_policy_candidate_available =
        durable_audit_policy_decision.media_write_policy_verified;
    let mut hash = sha256_new();
    hash_line_str(&mut hash, "schema", HELLO_ROLLBACK_DURABLE_AUDIT_POLICY_CANDIDATE_SCHEMA);
    assert(sha256_absorbed(hash) =~= line_str("schema",
        HELLO_ROLLBACK_DURABLE_AUDIT_POLICY_CANDIDATE_SCHEMA));
    hash_line_str(&mut hash, "id", HELLO_ROLLBACK_DURABLE_AUDIT_POLICY_CANDIDATE_ID);
    hash_line_str(&mut hash, "scope", "current_boot");
    hash_line_str(&mut hash, "classification", "local_only");
    hash_line_str(&mut hash, "persistence", "none");
    hash_line_str(&mut hash, "status", HELLO_ROLLBACK_DURABLE_AUDIT_POLICY_CANDIDATE_STATUS);
    hash_line_str(&mut hash, "reason", HELLO_ROLLBACK_DURABLE_AUDIT_POLICY_CANDIDATE_REASON);
    hash_line_hash(&mut hash, "source_durable_audit_policy_decision_sha256",
        durable_audit_policy_decision.decision_hash,
    );
    hash_line_hash(&mut hash, "source_audit_record_image_sha256",
        append_record.audit_record_image_hash,
    );
    hash_line_hash(&mut hash, "source_policy_preflight_sha256",
        durable_audit_policy_decision.source_policy_preflight_hash,
    );
    hash_line_hash(&mut hash, "source_target_region_write_readback_sha256",
        durable_audit_policy_decision.source_target_region_write_readback_hash,
    );
    hash_line_str(&mut hash, "audit_record_schema", layout.audit_append_target_schema);
    hash_line_u64(&mut hash, "target_start_lba", durable_audit_policy_decision.target_start_lba);
    hash_line_u64(&mut hash, "target_lba_count", durable_audit_policy_decision.target_lba_count);
    hash_line_u64(&mut hash, "target_byte_count", durable_audit_policy_decision.target_byte_count);
    hash_line_bool(&mut hash, "media_write_policy_verified",
        durable_audit_policy_decision.media_write_policy_verified,
    );
    hash_line_bool(&mut hash, "durable_audit_policy_candidate_available",
        durable_audit_policy_candidate_available,
    );
    hash_line_bool(&mut hash, "durable_audit_policy_available",
        durable_audit_policy_decision.durable_audit_policy_available,
    );
    hash_line_bool(&mut hash, "durable_append_authority_available",
        durable_audit_policy_decision.durable_append_authority_available,
    );
    hash_line_bool(&mut hash, "authorizes_append", false);
    hash_line_bool(&mut hash, "writes_durable_audit_log", false);
    hash_line_bool(&mut hash, "writes_rollback_store", false);
    hash_line_bool(&mut hash, "appends_rollback_transaction", false);
    hash_line_bool(&mut hash, "write_attempted", false);
    RollbackDurableAuditPolicyCandidate {
        candidate_hash: finalize_sha256(hash),
        source_durable_audit_policy_decision_hash: durable_audit_policy_decision.decision_hash,
        source_audit_record_image_hash: append_record.audit_record_image_hash,
        source_policy_preflight_hash: durable_audit_policy_decision.source_policy_preflight_hash,
        source_target_region_write_readback_hash:
            durable_audit_policy_decision.source_target_region_write_readback_hash,
        target_start_lba: durable_audit_policy_decision.target_start_lba,
        target_lba_count: durable_audit_policy_decision.target_lba_count,
        target_byte_count: durable_audit_policy_decision.target_byte_count,
        media_write_policy_verified: durable_audit_policy_decision.media_write_policy_verified,
        durable_audit_policy_candidate_available,
        durable_audit_policy_available:
            durable_audit_policy_decision.durable_audit_policy_available,
        durable_append_authority_available:
            durable_audit_policy_decision.durable_append_authority_available,
    }
}

/// The durable audit policy acceptance gate.
#[derive(Clone, Copy)]
pub struct RollbackDurableAuditPolicyAcceptanceGate {
    pub gate_hash: [u8; 32],
    pub source_durable_audit_policy_candidate_hash: [u8; 32],
    pub source_durable_audit_policy_decision_hash: [u8; 32],
    pub source_audit_record_image_hash: [u8; 32],
    pub source_policy_preflight_hash: [u8; 32],
    pub source_target_region_write_readback_hash: [u8; 32],
    pub target_start_lba: u64,
    pub target_lba_count: u64,
    pub target_byte_count: u64,
    pub candidate_available: bool,
    pub media_write_policy_verified: bool,
    pub durable_policy_ledger_available: bool,
    pub write_authority_available: bool,
    pub durable_audit_policy_available: bool,
    pub durable_append_authority_available: bool,
}

/// The canonical lines of the durable audit policy acceptance gate.
pub open spec fn audit_policy_acceptance_gate_stream(
    r: RollbackDurableAuditPolicyAcceptanceGate,
    layout: StorageLayoutIds,
) -> Seq<u8> {
    line_str("schema", HELLO_ROLLBACK_DURABLE_AUDIT_POLICY_ACCEPTANCE_GATE_SCHEMA)
        + line_str("id", HELLO_ROLLBACK_DURABLE_AUDIT_POLICY_ACCEPTANCE_GATE_ID)
        + line_str("scope", "current_boot")
        + line_str("classification", "local_only")
        + line_str("persistence", "none")
        + line_str("status", HELLO_ROLLBACK_DURABLE_AUDIT_POLICY_ACCEPTANCE_GATE_STATUS)
        + line_str("reason", HELLO_ROLLBACK_DURABLE_AUDIT_POLICY_ACCEPTANCE_GATE_REASON)
        + line_hash("source_durable_audit_policy_candidate_sha256",
            r.source_durable_audit_policy_candidate_hash@,
        )
        + line_hash("source_durable_audit_policy_decision_sha256",
            r.source_durable_audit_policy_decision_hash@,
        )
        + line_hash("source_audit_record_image_sha256", r.source_audit_record_image_hash@)
        + line_hash("source_policy_preflight_sha256", r.source_policy_preflight_hash@)
        + line_hash("source_target_region_write_readback_sha256",
            r.source_target_region_write_readback_hash@,
        )
        + line_str("audit_record_schema", layout.audit_append_target_schema)
        + line_u64("target_start_lba", r.target_start_lba)
        + line_u64("target_lba_count", r.target_lba_count)
        + line_u64("target_byte_count", r.target_byte_count)
        + line_bool("candidate_available", r.candidate_available)
        + line_bool("media_write_policy_verified", r.media_write_policy_verified)
        + line_bool("durable_policy_ledger_available", r.durable_policy_ledger_available)
        + line_bool("write_authority_available", r.write_authority_available)
        + line_bool("durable_audit_policy_available", r.durable_audit_policy_available)
        + line_bool("durable_append_authority_available", r.durable_append_authority_available)
        + line_bool("authorizes_append", false)
        + line_bool("writes_durable_audit_log", false)
        + line_bool("writes_rollback_store", false)
        + line_bool("appends_rollback_transaction", false)
        + line_bool("write_attempted", false)
}

/// `r` is the durable audit policy acceptance gate built from its sources.
pub open spec fn is_audit_policy_acceptance_gate_for(
    r: RollbackDurableAuditPolicyAcceptanceGate,
    durable_audit_policy_candidate: RollbackDurableAuditPolicyCandidate,
    layout: StorageLayoutIds,
) -> bool {
    &&& r.source_durable_audit_policy_candidate_hash
        == durable_audit_policy_candidate.candidate_hash
    &&& r.source_durable_audit_policy_decision_hash
        == durable_audit_policy_candidate.source_durable_audit_policy_decision_hash
    &&& r.source_audit_record_image_hash
        == durable_audit_policy_candidate.source_audit_record_image_hash
    &&& r.source_policy_preflight_hash
        == durable_audit_policy_candidate.source_policy_preflight_hash
    &&& r.source_target_region_write_readback_hash
        == durable_audit_policy_candidate.source_target_region_write_readback_hash
    &&& r.target_start_lba == durable_audit_policy_candidate.target_start_lba
    &&& r.target_lba_count == durable_audit_policy_candidate.target_lba_count
    &&& r.target_byte_count == durable_audit_policy_candidate.target_byte_count
    &&& r.candidate_available
        == durable_audit_policy_candidate.durable_audit_policy_candidate_available
    &&& r.media_write_policy_verified == durable_audit_policy_candidate.media_write_policy_verified
    &&& r.durable_policy_ledger_available == false
    &&& r.write_authority_available == false
    &&& r.durable_audit_policy_available
        == durable_audit_policy_candidate.durable_audit_policy_available
    &&& r.durable_append_authority_available
        == durable_audit_policy_candidate.durable_append_authority_available
    &&& r.gate_hash@ == sha256_digest(audit_policy_acceptance_gate_stream(r, layout))
}

/// The durable audit policy acceptance gate: neither a durable policy ledger
/// nor write authority is available to accept the candidate.
pub fn hello_rollback_durable_audit_policy_acceptance_gate(
    durable_audit_policy_candidate: RollbackDurableAuditPolicyCandidate,
    layout: StorageLayoutIds,
) -> (result: RollbackDurableAuditPolicyAcceptanceGate)
    ensures
        is_audit_policy_acceptance_gate_for(result, durable_audit_policy_candidate, layout),
{
    let durable_policy_ledger_available = false;
    let write_authority_available = false;
    let mut hash = sha256_new();
    hash_line_str(&mut hash, "schema", HELLO_ROLLBACK_DURABLE_AUDIT_POLICY_ACCEPTANCE_GATE_SCHEMA);
    assert(sha256_absorbed(hash) =~= line_str("schema",
        HELLO_ROLLBACK_DURABLE_AUDIT_POLICY_ACCEPTANCE_GATE_SCHEMA));
    hash_line_str(&mut hash, "id", HELLO_ROLLBACK_DURABLE_AUDIT_POLICY_ACCEPTANCE_GATE_ID);
    hash_line_str(&mut hash, "scope", "current_boot");
    hash_line_str(&mut hash, "classification", "local_only");
    hash_line_str(&mut hash, "persistence", "none");
    hash_line_str(&mut hash, "status", HELLO_ROLLBACK_DURABLE_AUDIT_POLICY_ACCEPTANCE_GATE_STATUS);
    hash_line_str(&mut hash, "reason", HELLO_ROLLBACK_DURABLE_AUDIT_POLICY_ACCEPTANCE_GATE_REASON);
    hash_line_hash(&mut hash, "source_durable_audit_policy_candidate_sha256",
        durable_audit_policy_candidate.candidate_hash,
    );
    hash_line_hash(&mut hash, "source_durable_audit_policy_decision_sha256",
        durable_audit_policy_candidate.source_durable_audit_policy_decision_hash,
    );
    hash_line_hash(&mut hash, "source_audit_record_image_sha256",
        durable_audit_policy_candidate.source_audit_record_image_hash,
    );
    hash_line_hash(&mut hash, "source_policy_preflight_sha256",
        durable_audit_policy_candidate.source_policy_preflight_hash,
    );
    hash_line_hash(&mut hash, "source_target_region_write_readback_sha256",
        durable_audit_policy_candidate.source_target_region_write_readback_hash,
    );
    hash_line_str(&mut hash, "audit_record_schema", layout.audit_append_target_schema);
    hash_line_u64(&mut hash, "target_start_lba", durable_audit_policy_candidate.target_start_lba);
    hash_line_u64(&mut hash, "target_lba_count", durable_audit_policy_candidate.target_lba_count);
    hash_line_u64(&mut hash, "target_byte_count", durable_audit_policy_candidate.target_byte_count);
    hash_line_bool(&mut hash, "candidate_available",
        durable_audit_policy_candidate.durable_audit_policy_candidate_available,
    );
    hash_line_bool(&mut hash, "media_write_policy_verified",
        durable_audit_policy_candidate.media_write_policy_verified,
    );
    hash_line_bool(&mut hash, "durable_policy_ledger_available", durable_policy_ledger_available);
    hash_line_bool(&mut hash, "write_authority_available", write_authority_available);
    hash_line_bool(&mut hash, "durable_audit_policy_available",
        durable_audit_policy_candidate.durable_audit_policy_available,
    );
    hash_line_bool(&mut hash, "durable_append_authority_available",
        durable_audit_policy_candidate.durable_append_authority_available,
    );
    hash_line_bool(&mut hash, "authorizes_append", false);
    hash_line_bool(&mut hash, "writes_durable_audit_log", false);
    hash_line_bool(&mut hash, "writes_rollback_store", false);
    hash_line_bool(&mut hash, "appends_rollback_transaction", false);
    hash_line_bool(&mut hash, "write_attempted", false);
    RollbackDurableAuditPolicyAcceptanceGate {
        gate_hash: finalize_sha256(hash),
        source_durable_audit_policy_candidate_hash: durable_audit_policy_candidate.candidate_hash,
        source_durable_audit_policy_decision_hash:
            durable_audit_policy_candidate.source_durable_audit_policy_decision_hash,
        source_audit_record_image_hash:
            durable_audit_policy_candidate.source_audit_record_image_hash,
        source_policy_preflight_hash: durable_audit_policy_candidate.source_policy_preflight_hash,
        source_target_region_write_readback_hash:
            durable_audit_policy_candidate.source_target_region_write_readback_hash,
        target_start_lba: durable_audit_policy_candidate.target_start_lba,
        target_lba_count: durable_audit_policy_candidate.target_lba_count,
        target_byte_count: durable_audit_policy_candidate.target_byte_count,
        candidate_available:
            durable_audit_policy_candidate.durable_audit_policy_candidate_available,
        media_write_policy_verified: durable_audit_policy_candidate.media_write_policy_verified,
        durable_policy_ledger_available,
        write_authority_available,
        durable_audit_policy_available:
            durable_audit_policy_candidate.durable_audit_policy_available,
        durable_append_authority_available:
            durable_audit_policy_candidate.durable_append_authority_available,
    }
}

/// The durable audit policy ledger candidate.
#[derive(Clone, Copy)]
pub struct RollbackDurableAuditPolicyLedgerCandidate {
    pub ledger_candidate_hash: [u8; 32],
    pub source_acceptance_gate_hash: [u8; 32],
    pub source_durable_audit_policy_candidate_hash: [u8; 32],
    pub source_durable_audit_policy_decision_hash: [u8; 32],
    pub source_audit_record_image_hash: [u8; 32],
    pub source_policy_preflight_hash: [u8; 32],
    pub source_target_region_write_readback_hash: [u8; 32],
    pub target_start_lba: u64,
    pub target_lba_count: u64,
    pub target_byte_count: u64,
    pub read_only_ledger_candidate_available: bool,
    pub candidate_available: bool,
    pub media_write_policy_verified: bool,
    pub durable_policy_ledger_available: bool,
    pub write_authority_available: bool,
    pub durable_audit_policy_available: bool,
    pub durable_append_authority_available: bool,
}

/// The canonical lines of the durable audit policy ledger candidate.
pub open spec fn ledger_candidate_stream(
    r: RollbackDurableAuditPolicyLedgerCandidate,
    layout: StorageLayoutIds,
) -> Seq<u8> {
    line_str("schema", HELLO_ROLLBACK_DURABLE_AUDIT_POLICY_LEDGER_CANDIDATE_SCHEMA)
        + line_str("id", HELLO_ROLLBACK_DURABLE_AUDIT_POLICY_LEDGER_CANDIDATE_ID)
        + line_str("scope", "current_boot")
        + line_str("classification", "local_only")
        + line_str("persistence", "none")
        + line_str("access", "read_only")
        + line_str("status", HELLO_ROLLBACK_DURABLE_AUDIT_POLICY_LEDGER_CANDIDATE_STATUS)
        + line_str("reason", HELLO_ROLLBACK_DURABLE_AUDIT_POLICY_LEDGER_CANDIDATE_REASON)
        + line_hash("source_acceptance_gate_sha256", r.source_acceptance_gate_hash@)
        + line_hash("source_durable_audit_policy_candidate_sha256",
            r.source_durable_audit_policy_candidate_hash@,
        )
        + line_hash("source_durable_audit_policy_decision_sha256",
            r.source_durable_audit_policy_decision_hash@,
        )
        + line_hash("source_audit_record_image_sha256", r.source_audit_record_image_hash@)
        + line_hash("source_policy_preflight_sha256", r.source_policy_preflight_hash@)
        + line_hash("source_target_region_write_readback_sha256",
            r.source_target_region_write_readback_hash@,
        )
        + line_str("audit_record_schema", layout.audit_append_target_schema)
        + line_u64("target_start_lba", r.target_start_lba)
        + line_u64("target_lba_count", r.target_lba_count)
        + line_u64("target_byte_count", r.target_byte_count)
        + line_bool("read_only_ledger_candidate_available", r.read_only_ledger_candidate_available)
        + line_bool("candidate_available", r.candidate_available)
        + line_bool("media_write_policy_verified", r.media_write_policy_verified)
        + line_bool("durable_policy_ledger_available", r.durable_policy_ledger_available)
        + line_bool("write_authority_available", r.write_authority_available)
        + line_bool("durable_audit_policy_available", r.durable_audit_policy_available)
        + line_bool("durable_append_authority_available", r.durable_append_authority_available)
        + line_bool("authorizes_append", false)
        + line_bool("writes_durable_audit_log", false)
        + line_bool("writes_rollback_store", false)
        + line_bool("appends_rollback_transaction", false)
        + line_bool("write_attempted", false)
}

/// `r` is the durable audit policy ledger candidate built from its sources.
pub open spec fn is_ledger_candidate_for(
    r: RollbackDurableAuditPolicyLedgerCandidate,
    durable_audit_policy_acceptance_gate: RollbackDurableAuditPolicyAcceptanceGate,
    layout: StorageLayoutIds,
) -> bool {
    &&& r.source_acceptance_gate_hash == durable_audit_policy_acceptance_gate.gate_hash
    &&& r.source_durable_audit_policy_candidate_hash
        == durable_audit_policy_acceptance_gate.source_durable_audit_policy_candidate_hash
    &&& r.source_durable_audit_policy_decision_hash
        == durable_audit_policy_acceptance_gate.source_durable_audit_policy_decision_hash
    &&& r.source_audit_record_image_hash
        == durable_audit_policy_acceptance_gate.source_audit_record_image_hash
    &&& r.source_policy_preflight_hash
        == durable_audit_policy_acceptance_gate.source_policy_preflight_hash
    &&& r.source_target_region_write_readback_hash
        == durable_audit_policy_acceptance_gate.source_target_region_write_readback_hash
    &&& r.target_start_lba == durable_audit_policy_acceptance_gate.target_start_lba
    &&& r.target_lba_count == durable_audit_policy_acceptance_gate.target_lba_count
    &&& r.target_byte_count == durable_audit_policy_acceptance_gate.target_byte_count
    &&& r.read_only_ledger_candidate_available == (durable_audit_policy_acceptance_gate.candidate_available
        && durable_audit_policy_acceptance_gate.media_write_policy_verified)
    &&& r.candidate_available == durable_audit_policy_acceptance_gate.candidate_available
    &&& r.media_write_policy_verified
        == durable_audit_policy_acceptance_gate.media_write_policy_verified
    &&& r.durable_policy_ledger_available == false
    &&& r.write_authority_available == false
    &&& r.durable_audit_policy_available
        == durable_audit_policy_acceptance_gate.durable_audit_policy_available
    &&& r.durable_append_authority_available
        == durable_audit_policy_acceptance_gate.durable_append_authority_available
    &&& r.ledger_candidate_hash@ == sha256_digest(ledger_candidate_stream(r, layout))
}

/// The durable audit policy ledger candidate: a read-only ledger candidate
/// stands when the accepted candidate is available and the media write
/// policy verified.
pub fn hello_rollback_durable_audit_policy_ledger_candidate(
    durable_audit_policy_acceptance_gate: RollbackDurableAuditPolicyAcceptanceGate,
    layout: StorageLayoutIds,
) -> (result: RollbackDurableAuditPolicyLedgerCandidate)
    ensures
        is_ledger_candidate_for(result, durable_audit_policy_acceptance_gate, layout),
{
    let read_only_ledger_candidate_available = durable_audit_policy_acceptance_gate.candidate_available
        && durable_audit_policy_acceptance_gate.media_write_policy_verified;
    let durable_policy_ledger_available = false;
    let write_authority_available = false;
    let mut hash = sha256_new();
    hash_line_str(&mut hash, "schema", HELLO_ROLLBACK_DURABLE_AUDIT_POLICY_LEDGER_CANDIDATE_SCHEMA);
    assert(sha256_absorbed(hash) =~= line_str("schema",
        HELLO_ROLLBACK_DURABLE_AUDIT_POLICY_LEDGER_CANDIDATE_SCHEMA));
    hash_line_str(&mut hash, "id", HELLO_ROLLBACK_DURABLE_AUDIT_POLICY_LEDGER_CANDIDATE_ID);
    hash_line_str(&mut hash, "scope", "current_boot");
    hash_line_str(&mut hash, "classification", "local_only");
    hash_line_str(&mut hash, "persistence", "none");
    hash_line_str(&mut hash, "access", "read_only");
    hash_line_str(&mut hash, "status", HELLO_ROLLBACK_DURABLE_AUDIT_POLICY_LEDGER_CANDIDATE_STATUS);
    hash_line_str(&mut hash, "reason", HELLO_ROLLBACK_DURABLE_AUDIT_POLICY_LEDGER_CANDIDATE_REASON);
    hash_line_hash(&mut hash, "source_acceptance_gate_sha256",
        durable_audit_policy_acceptance_gate.gate_hash,
    );
    hash_line_hash(&mut hash, "source_durable_audit_policy_candidate_sha256",
        durable_audit_policy_acceptance_gate.source_durable_audit_policy_candidate_hash,
    );
    hash_line_hash(&mut hash, "source_durable_audit_policy_decision_sha256",
        durable_audit_policy_acceptance_gate.source_durable_audit_policy_decision_hash,
    );
    hash_line_hash(&mut hash, "source_audit_record_image_sha256",
        durable_audit_policy_acceptance_gate.source_audit_record_image_hash,
    );
    hash_line_hash(&mut hash, "source_policy_preflight_sha256",
        durable_audit_policy_acceptance_gate.source_policy_preflight_hash,
    );
    hash_line_hash(&mut hash, "source_target_region_write_readback_sha256",
        durable_audit_policy_acceptance_gate.source_target_region_write_readback_hash,
    );
    hash_line_str(&mut hash, "audit_record_schema", layout.audit_append_target_schema);
    hash_line_u64(&mut hash, "target_start_lba",
        durable_audit_policy_acceptance_gate.target_start_lba,
    );
    hash_line_u64(&mut hash, "target_lba_count",
        durable_audit_policy_acceptance_gate.target_lba_count,
    );
    hash_line_u64(&mut hash, "target_byte_count",
        durable_audit_policy_acceptance_gate.target_byte_count,
    );
    hash_line_bool(&mut hash, "read_only_ledger_candidate_available",
        read_only_ledger_candidate_available,
    );
    hash_line_bool(&mut hash, "candidate_available",
        durable_audit_policy_acceptance_gate.candidate_available,
    );
    hash_line_bool(&mut hash, "media_write_policy_verified",
        durable_audit_policy_acceptance_gate.media_write_policy_verified,
    );
    hash_line_bool(&mut hash, "durable_policy_ledger_available", durable_policy_ledger_available);
    hash_line_bool(&mut hash, "write_authority_available", write_authority_available);
    hash_line_bool(&mut hash, "durable_audit_policy_available",
        durable_audit_policy_acceptance_gate.durable_audit_policy_available,
    );
    hash_line_bool(&mut hash, "durable_append_authority_available",
        durable_audit_policy_acceptance_gate.durable_append_authority_available,
    );
    hash_line_bool(&mut hash, "authorizes_append", false);
    hash_line_bool(&mut hash, "writes_durable_audit_log", false);
    hash_line_bool(&mut hash, "writes_rollback_store", false);
    hash_line_bool(&mut hash, "appends_rollback_transaction", false);
    hash_line_bool(&mut hash, "write_attempted", false);
    RollbackDurableAuditPolicyLedgerCandidate {
        ledger_candidate_hash: finalize_sha256(hash),
        source_acceptance_gate_hash: durable_audit_policy_acceptance_gate.gate_hash,
        source_durable_audit_policy_candidate_hash:
            durable_audit_policy_acceptance_gate.source_durable_audit_policy_candidate_hash,
        source_durable_audit_policy_decision_hash:
            durable_audit_policy_acceptance_gate.source_durable_audit_policy_decision_hash,
        source_audit_record_image_hash:
            durable_audit_policy_acceptance_gate.source_audit_record_image_hash,
        source_policy_preflight_hash:
            durable_audit_policy_acceptance_gate.source_policy_preflight_hash,
        source_target_region_write_readback_hash:
            durable_audit_policy_acceptance_gate.source_target_region_write_readback_hash,
        target_start_lba: durable_audit_policy_acceptance_gate.target_start_lba,
        target_lba_count: durable_audit_policy_acceptance_gate.target_lba_count,
        target_byte_count: durable_audit_policy_acceptance_gate.target_byte_count,
        read_only_ledger_candidate_available,
        candidate_available: durable_audit_policy_acceptance_gate.candidate_available,
        media_write_policy_verified:
            durable_audit_policy_acceptance_gate.media_write_policy_verified,
        durable_policy_ledger_available,
        write_authority_available,
        durable_audit_policy_available:
            durable_audit_policy_acceptance_gate.durable_audit_policy_available,
        durable_append_authority_available:
            durable_audit_policy_acceptance_gate.durable_append_authority_available,
    }
}

/// The ledger-aware acceptance result of the durable audit policy.
#[derive(Clone, Copy)]
pub struct RollbackDurableAuditPolicyLedgerAwareAcceptanceResult {
    pub result_hash: [u8; 32],
    pub source_ledger_candidate_hash: [u8; 32],
    pub source_acceptance_gate_hash: [u8; 32],
    pub source_durable_audit_policy_candidate_hash: [u8; 32],
    pub source_durable_audit_policy_decision_hash: [u8; 32],
    pub source_audit_record_image_hash: [u8; 32],
    pub source_policy_preflight_hash: [u8; 32],
    pub source_target_region_write_readback_hash: [u8; 32],
    pub target_start_lba: u64,
    pub target_lba_count: u64,
    pub target_byte_count: u64,
    pub read_only_ledger_candidate_available: bool,
    pub ledger_evidence_verified: bool,
    pub write_authority_available: bool,
    pub durable_policy_ledger_available: bool,
    pub durable_audit_policy_available: bool,
    pub durable_append_authority_available: bool,
}

/// The canonical lines of the ledger-aware acceptance result.
pub open spec fn ledger_aware_result_stream(
    r: RollbackDurableAuditPolicyLedgerAwareAcceptanceResult,
    layout: StorageLayoutIds,
) -> Seq<u8> {
    line_str("schema", HELLO_ROLLBACK_DURABLE_AUDIT_POLICY_LEDGER_AWARE_ACCEPTANCE_RESULT_SCHEMA)
        + line_str("id", HELLO_ROLLBACK_DURABLE_AUDIT_POLICY_LEDGER_AWARE_ACCEPTANCE_RESULT_ID)
        + line_str("scope", "current_boot")
        + line_str("classification", "local_only")
        + line_str("persistence", "none")
        + line_str("status",
            HELLO_ROLLBACK_DURABLE_AUDIT_POLICY_LEDGER_AWARE_ACCEPTANCE_RESULT_STATUS,
        )
        + line_str("reason",
            HELLO_ROLLBACK_DURABLE_AUDIT_POLICY_LEDGER_AWARE_ACCEPTANCE_RESULT_REASON,
        )
        + line_hash("source_ledger_candidate_sha256", r.source_ledger_candidate_hash@)
        + line_hash("source_acceptance_gate_sha256", r.source_acceptance_gate_hash@)
        + line_hash("source_durable_audit_policy_candidate_sha256",
            r.source_durable_audit_policy_candidate_hash@,
        )
        + line_hash("source_durable_audit_policy_decision_sha256",
            r.source_durable_audit_policy_decision_hash@,
        )
        + line_hash("source_audit_record_image_sha256", r.source_audit_record_image_hash@)
        + line_hash("source_policy_preflight_sha256", r.source_policy_preflight_hash@)
        + line_hash("source_target_region_write_readback_sha256",
            r.source_target_region_write_readback_hash@,
        )
        + line_str("audit_record_schema", layout.audit_append_target_schema)
        + line_u64("target_start_lba", r.target_start_lba)
        + line_u64("target_lba_count", r.target_lba_count)
        + line_u64("target_byte_count", r.target_byte_count)
        + line_bool("read_only_ledger_candidate_available", r.read_only_ledger_candidate_available)
        + line_bool("ledger_evidence_verified", r.ledger_evidence_verified)
        + line_bool("write_authority_available", r.write_authority_available)
        + line_bool("durable_policy_ledger_available", r.durable_policy_ledger_available)
        + line_bool("durable_audit_policy_available", r.durable_audit_policy_available)
        + line_bool("durable_append_authority_available", r.durable_append_authority_available)
        + line_bool("authorizes_append", false)
        + line_bool("writes_durable_audit_log", false)
        + line_bool("writes_rollback_store", false)
        + line_bool("appends_rollback_transaction", false)
        + line_bool("write_attempted", false)
}

/// `r` is the ledger-aware acceptance result built from its sources.
pub open spec fn is_ledger_aware_result_for(
    r: RollbackDurableAuditPolicyLedgerAwareAcceptanceResult,
    ledger_candidate: RollbackDurableAuditPolicyLedgerCandidate,
    layout: StorageLayoutIds,
) -> bool {
    &&& r.source_ledger_candidate_hash == ledger_candidate.ledger_candidate_hash
    &&& r.source_acceptance_gate_hash == ledger_candidate.source_acceptance_gate_hash
    &&& r.source_durable_audit_policy_candidate_hash
        == ledger_candidate.source_durable_audit_policy_candidate_hash
    &&& r.source_durable_audit_policy_decision_hash
        == ledger_candidate.source_durable_audit_policy_decision_hash
    &&& r.source_audit_record_image_hash == ledger_candidate.source_audit_record_image_hash
    &&& r.source_policy_preflight_hash == ledger_candidate.source_policy_preflight_hash
    &&& r.source_target_region_write_readback_hash
        == ledger_candidate.source_target_region_write_readback_hash
    &&& r.target_start_lba == ledger_candidate.target_start_lba
    &&& r.target_lba_count == ledger_candidate.target_lba_count
    &&& r.target_byte_count == ledger_candidate.target_byte_count
    &&& r.read_only_ledger_candidate_available
        == ledger_candidate.read_only_ledger_candidate_available
    &&& r.ledger_evidence_verified == (ledger_candidate.read_only_ledger_candidate_available
        && ledger_candidate.candidate_available
        && ledger_candidate.media_write_policy_verified)
    &&& r.write_authority_available == false
    &&& r.durable_policy_ledger_available == false
    &&& r.durable_audit_policy_available == ledger_candidate.durable_audit_policy_available
    &&& r.durable_append_authority_available == ledger_candidate.durable_append_authority_available
    &&& r.result_hash@ == sha256_digest(ledger_aware_result_stream(r, layout))
}

/// The ledger-aware acceptance result: the ledger evidence is verified when
/// the read-only ledger candidate, the candidate and the media write policy
/// all stand.
pub fn hello_rollback_durable_audit_policy_ledger_aware_acceptance_result(
    ledger_candidate: RollbackDurableAuditPolicyLedgerCandidate,
    layout: StorageLayoutIds,
) -> (result: RollbackDurableAuditPolicyLedgerAwareAcceptanceResult)
    ensures
        is_ledger_aware_result_for(result, ledger_candidate, layout),
{
    let ledger_evidence_verified = ledger_candidate.read_only_ledger_candidate_available
        && ledger_candidate.candidate_available
        && ledger_candidate.media_write_policy_verified;
    let write_authority_available = false;
    let durable_policy_ledger_available = false;
    let mut hash = sha256_new();
    hash_line_str(&mut hash, "schema",
        HELLO_ROLLBACK_DURABLE_AUDIT_POLICY_LEDGER_AWARE_ACCEPTANCE_RESULT_SCHEMA,
    );
    assert(sha256_absorbed(hash) =~= line_str("schema",
        HELLO_ROLLBACK_DURABLE_AUDIT_POLICY_LEDGER_AWARE_ACCEPTANCE_RESULT_SCHEMA));
    hash_line_str(&mut hash, "id",
        HELLO_ROLLBACK_DURABLE_AUDIT_POLICY_LEDGER_AWARE_ACCEPTANCE_RESULT_ID,
    );
    hash_line_str(&mut hash, "scope", "current_boot");
    hash_line_str(&mut hash, "classification", "local_only");
    hash_line_str(&mut hash, "persistence", "none");
    hash_line_str(&mut hash, "status",
        HELLO_ROLLBACK_DURABLE_AUDIT_POLICY_LEDGER_AWARE_ACCEPTANCE_RESULT_STATUS,
    );
    hash_line_str(&mut hash, "reason",
        HELLO_ROLLBACK_DURABLE_AUDIT_POLICY_LEDGER_AWARE_ACCEPTANCE_RESULT_REASON,
    );
    hash_line_hash(&mut hash, "source_ledger_candidate_sha256",
        ledger_candidate.ledger_candidate_hash,
    );
    hash_line_hash(&mut hash, "source_acceptance_gate_sha256",
        ledger_candidate.source_acceptance_gate_hash,
    );
    hash_line_hash(&mut hash, "source_durable_audit_policy_candidate_sha256",
        ledger_candidate.source_durable_audit_policy_candidate_hash,
    );
    hash_line_hash(&mut hash, "source_durable_audit_policy_decision_sha256",
        ledger_candidate.source_durable_audit_policy_decision_hash,
    );
    hash_line_hash(&mut hash, "source_audit_record_image_sha256",
        ledger_candidate.source_audit_record_image_hash,
    );
    hash_line_hash(&mut hash, "source_policy_preflight_sha256",
        ledger_candidate.source_policy_preflight_hash,
    );
    hash_line_hash(&mut hash, "source_target_region_write_readback_sha256",
        ledger_candidate.source_target_region_write_readback_hash,
    );
    hash_line_str(&mut hash, "audit_record_schema", layout.audit_append_target_schema);
    hash_line_u64(&mut hash, "target_start_lba", ledger_candidate.target_start_lba);
    hash_line_u64(&mut hash, "target_lba_count", ledger_candidate.target_lba_count);
    hash_line_u64(&mut hash, "target_byte_count", ledger_candidate.target_byte_count);
    hash_line_bool(&mut hash, "read_only_ledger_candidate_available",
        ledger_candidate.read_only_ledger_candidate_available,
    );
    hash_line_bool(&mut hash, "ledger_evidence_verified", ledger_evidence_verified);
    hash_line_bool(&mut hash, "write_authority_available", write_authority_available);
    hash_line_bool(&mut hash, "durable_policy_ledger_available", durable_policy_ledger_available);
    hash_line_bool(&mut hash, "durable_audit_policy_available",
        ledger_candidate.durable_audit_policy_available,
    );
    hash_line_bool(&mut hash, "durable_append_authority_available",
        ledger_candidate.durable_append_authority_available,
    );
    hash_line_bool(&mut hash, "authorizes_append", false);
    hash_line_bool(&mut hash, "writes_durable_audit_log", false);
    hash_line_bool(&mut hash, "writes_rollback_store", false);
    hash_line_bool(&mut hash, "appends_rollback_transaction", false);
    hash_line_bool(&mut hash, "write_attempted", false);
    RollbackDurableAuditPolicyLedgerAwareAcceptanceResult {
        result_hash: finalize_sha256(hash),
        source_ledger_candidate_hash: ledger_candidate.ledger_candidate_hash,
        source_acceptance_gate_hash: ledger_candidate.source_acceptance_gate_hash,
        source_durable_audit_policy_candidate_hash:
            ledger_candidate.source_durable_audit_policy_candidate_hash,
        source_durable_audit_policy_decision_hash:
            ledger_candidate.source_durable_audit_policy_decision_hash,
        source_audit_record_image_hash: ledger_candidate.source_audit_record_image_hash,
        source_policy_preflight_hash: ledger_candidate.source_policy_preflight_hash,
        source_target_region_write_readback_hash:
            ledger_candidate.source_target_region_write_readback_hash,
        target_start_lba: ledger_candidate.target_start_lba,
        target_lba_count: ledger_candidate.target_lba_count,
        target_byte_count: ledger_candidate.target_byte_count,
        read_only_ledger_candidate_available: ledger_candidate.read_only_ledger_candidate_available,
        ledger_evidence_verified,
        write_authority_available,
        durable_policy_ledger_available,
        durable_audit_policy_available: ledger_candidate.durable_audit_policy_available,
        durable_append_authority_available: ledger_candidate.durable_append_authority_available,
    }
}

/// What the durable audit policy would need of write authority.
#[derive(Clone, Copy)]
pub struct RollbackDurableAuditPolicyWriteAuthorityAvailability {
    pub availability_hash: [u8; 32],
    pub source_ledger_aware_acceptance_result_hash: [u8; 32],
    pub source_ledger_candidate_hash: [u8; 32],
    pub source_policy_preflight_hash: [u8; 32],
    pub source_target_region_write_readback_hash: [u8; 32],
    pub target_start_lba: u64,
    pub target_lba_count: u64,
    pub target_byte_count: u64,
    pub ledger_evidence_verified: bool,
    pub media_write_policy_verified: bool,
    pub target_region_write_readback_verified: bool,
    pub target_span_verified: bool,
    pub audit_rollback_target_ids_verified: bool,
    pub write_authority_available: bool,
    pub durable_policy_ledger_available: bool,
    pub durable_audit_policy_available: bool,
    pub durable_append_authority_available: bool,
    pub test_infrastructure_media_write_authority_available: bool,
}

/// The canonical lines of the durable audit policy write authority availability.
pub open spec fn write_authority_availability_stream(
    r: RollbackDurableAuditPolicyWriteAuthorityAvailability,
    layout: StorageLayoutIds,
) -> Seq<u8> {
    line_str("schema", HELLO_ROLLBACK_DURABLE_AUDIT_POLICY_WRITE_AUTHORITY_AVAILABILITY_SCHEMA)
        + line_str("id", HELLO_ROLLBACK_DURABLE_AUDIT_POLICY_WRITE_AUTHORITY_AVAILABILITY_ID)
        + line_str("scope", "current_boot")
        + line_str("classification", "local_only")
        + line_str("persistence", "none")
        + line_str("status",
            HELLO_ROLLBACK_DURABLE_AUDIT_POLICY_WRITE_AUTHORITY_AVAILABILITY_STATUS,
        )
        + line_str("reason",
            HELLO_ROLLBACK_DURABLE_AUDIT_POLICY_WRITE_AUTHORITY_AVAILABILITY_REASON,
        )
        + line_hash("source_ledger_aware_acceptance_result_sha256",
            r.source_ledger_aware_acceptance_result_hash@,
        )
        + line_hash("source_ledger_candidate_sha256", r.source_ledger_candidate_hash@)
        + line_hash("source_policy_preflight_sha256", r.source_policy_preflight_hash@)
        + line_hash("source_target_region_write_readback_sha256",
            r.source_target_region_write_readback_hash@,
        )
        + line_str("audit_ledger_target_id", layout.audit_append_target_id)
        + line_str("audit_record_schema", layout.audit_append_target_schema)
        + line_str("rollback_store_target_id", layout.rollback_append_target_id)
        + line_str("rollback_transaction_schema", layout.rollback_append_target_schema)
        + line_u64("target_start_lba", r.target_start_lba)
        + line_u64("target_lba_count", r.target_lba_count)
        + line_u64("target_byte_count", r.target_byte_count)
        + line_bool("ledger_evidence_verified", r.ledger_evidence_verified)
        + line_bool("media_write_policy_verified", r.media_write_policy_verified)
        + line_bool("target_region_write_readback_verified",
            r.target_region_write_readback_verified,
        )
        + line_bool("target_span_verified", r.target_span_verified)
        + line_bool("audit_rollback_target_ids_verified", r.audit_rollback_target_ids_verified)
        + line_bool("test_infrastructure_media_write_authority_available",
            r.test_infrastructure_media_write_authority_available,
        )
        + line_bool("write_authority_available", r.write_authority_available)
        + line_bool("durable_policy_ledger_available", r.durable_policy_ledger_available)
        + line_bool("durable_audit_policy_available", r.durable_audit_policy_available)
        + line_bool("durable_append_authority_available", r.durable_append_authority_available)
        + line_bool("authorizes_media_write", false)
        + line_bool("authorizes_append", false)
        + line_bool("writes_durable_audit_log", false)
        + line_bool("writes_rollback_store", false)
        + line_bool("appends_rollback_transaction", false)
        + line_bool("write_attempted", false)
}

/// `r` is the durable audit policy write authority availability built from its sources.
pub open spec fn is_write_authority_availability_for(
    r: RollbackDurableAuditPolicyWriteAuthorityAvailability,
    ledger_aware_result: RollbackDurableAuditPolicyLedgerAwareAcceptanceResult,
    ledger_candidate: RollbackDurableAuditPolicyLedgerCandidate,
    target_region_media_write_policy_preflight: TargetRegionMediaWritePolicyPreflight,
    target_region_write: RollbackTargetRegionWriteReadbackDryRun,
    layout: StorageLayoutIds,
) -> bool {
    &&& r.source_ledger_aware_acceptance_result_hash == ledger_aware_result.result_hash
    &&& r.source_ledger_candidate_hash == ledger_candidate.ledger_candidate_hash
    &&& r.source_policy_preflight_hash == target_region_media_write_policy_preflight.preflight_hash
    &&& r.source_target_region_write_readback_hash == target_region_write.dry_run_hash
    &&& r.target_start_lba == ledger_aware_result.target_start_lba
    &&& r.target_lba_count == ledger_aware_result.target_lba_count
    &&& r.target_byte_count == ledger_aware_result.target_byte_count
    &&& r.ledger_evidence_verified == ledger_aware_result.ledger_evidence_verified
    &&& r.media_write_policy_verified == (target_region_media_write_policy_preflight.source_contract_target_range_ready
        && target_region_media_write_policy_preflight.owner_ids_verified
        && target_region_media_write_policy_preflight.target_ids_verified
        && target_region_media_write_policy_preflight.target_span_verified
        && target_region_media_write_policy_preflight.schema_ids_verified)
    &&& r.target_region_write_readback_verified == (target_region_write.label_found
        && target_region_write.target_range_ready
        && target_region_write.write_completed
        && target_region_write.readback_completed
        && target_region_write.readback_matches_planned_image)
    &&& r.target_span_verified == (ledger_aware_result.target_start_lba == ledger_candidate.target_start_lba
        && ledger_aware_result.target_lba_count == ledger_candidate.target_lba_count
        && ledger_aware_result.target_byte_count == ledger_candidate.target_byte_count
        && ledger_aware_result.target_start_lba == target_region_media_write_policy_preflight.target_region_start_lba
        && ledger_aware_result.target_lba_count == target_region_media_write_policy_preflight.target_region_lba_count
        && ledger_aware_result.target_byte_count == target_region_media_write_policy_preflight.target_byte_count
        && ledger_aware_result.target_start_lba == target_region_write.target_start_lba
        && ledger_aware_result.target_lba_count == target_region_write.target_lba_count
        && ledger_aware_result.target_byte_count == target_region_write.target_byte_count)
    &&& r.audit_rollback_target_ids_verified == (target_region_media_write_policy_preflight.target_ids_verified
        && target_region_media_write_policy_preflight.schema_ids_verified)
    &&& r.write_authority_available == false
    &&& r.durable_policy_ledger_available == ledger_aware_result.durable_policy_ledger_available
    &&& r.durable_audit_policy_available == ledger_aware_result.durable_audit_policy_available
    &&& r.durable_append_authority_available
        == ledger_aware_result.durable_append_authority_available
    &&& r.test_infrastructure_media_write_authority_available
        == target_region_write.test_infrastructure_media_write_authority_available
    &&& r.availability_hash@ == sha256_digest(write_authority_availability_stream(r, layout))
}

/// The durable audit policy write authority availability: checks the media
/// write policy, the target region write, the span that every source names
/// and the target ids; write authority stays unavailable.
pub fn hello_rollback_durable_audit_policy_write_authority_availability(
    ledger_aware_result: RollbackDurableAuditPolicyLedgerAwareAcceptanceResult,
    ledger_candidate: RollbackDurableAuditPolicyLedgerCandidate,
    target_region_media_write_policy_preflight: TargetRegionMediaWritePolicyPreflight,
    target_region_write: RollbackTargetRegionWriteReadbackDryRun,
    layout: StorageLayoutIds,
) -> (result: RollbackDurableAuditPolicyWriteAuthorityAvailability)
    ensures
        is_write_authority_availability_for(
            result,
            ledger_aware_result,
            ledger_candidate,
            target_region_media_write_policy_preflight,
            target_region_write,
            layout,
        ),
{
    let media_write_policy_verified = target_region_media_write_policy_preflight.source_contract_target_range_ready
        && target_region_media_write_policy_preflight.owner_ids_verified
        && target_region_media_write_policy_preflight.target_ids_verified
        && target_region_media_write_policy_preflight.target_span_verified
        && target_region_media_write_policy_preflight.schema_ids_verified;
    let target_region_write_readback_verified = target_region_write.label_found
        && target_region_write.target_range_ready
        && target_region_write.write_completed
        && target_region_write.readback_completed
        && target_region_write.readback_matches_planned_image;
    let target_span_verified = ledger_aware_result.target_start_lba == ledger_candidate.target_start_lba
        && ledger_aware_result.target_lba_count == ledger_candidate.target_lba_count
        && ledger_aware_result.target_byte_count == ledger_candidate.target_byte_count
        && ledger_aware_result.target_start_lba == target_region_media_write_policy_preflight.target_region_start_lba
        && ledger_aware_result.target_lba_count == target_region_media_write_policy_preflight.target_region_lba_count
        && ledger_aware_result.target_byte_count == target_region_media_write_policy_preflight.target_byte_count
        && ledger_aware_result.target_start_lba == target_region_write.target_start_lba
        && ledger_aware_result.target_lba_count == target_region_write.target_lba_count
        && ledger_aware_result.target_byte_count == target_region_write.target_byte_count;
    let audit_rollback_target_ids_verified = target_region_media_write_policy_preflight.target_ids_verified
        && target_region_media_write_policy_preflight.schema_ids_verified;
    let write_authority_available = false;
    let mut hash = sha256_new();
    hash_line_str(&mut hash, "schema",
        HELLO_ROLLBACK_DURABLE_AUDIT_POLICY_WRITE_AUTHORITY_AVAILABILITY_SCHEMA,
    );
    assert(sha256_absorbed(hash) =~= line_str("schema",
        HELLO_ROLLBACK_DURABLE_AUDIT_POLICY_WRITE_AUTHORITY_AVAILABILITY_SCHEMA));
    hash_line_str(&mut hash, "id",
        HELLO_ROLLBACK_DURABLE_AUDIT_POLICY_WRITE_AUTHORITY_AVAILABILITY_ID,
    );
    hash_line_str(&mut hash, "scope", "current_boot");
    hash_line_str(&mut hash, "classification", "local_only");
    hash_line_str(&mut hash, "persistence", "none");
    hash_line_str(&mut hash, "status",
        HELLO_ROLLBACK_DURABLE_AUDIT_POLICY_WRITE_AUTHORITY_AVAILABILITY_STATUS,
    );
    hash_line_str(&mut hash, "reason",
        HELLO_ROLLBACK_DURABLE_AUDIT_POLICY_WRITE_AUTHORITY_AVAILABILITY_REASON,
    );
    hash_line_hash(&mut hash, "source_ledger_aware_acceptance_result_sha256",
        ledger_aware_result.result_hash,
    );
    hash_line_hash(&mut hash, "source_ledger_candidate_sha256",
        ledger_candidate.ledger_candidate_hash,
    );
    hash_line_hash(&mut hash, "source_policy_preflight_sha256",
        target_region_media_write_policy_preflight.preflight_hash,
    );
    hash_line_hash(&mut hash, "source_target_region_write_readback_sha256",
        target_region_write.dry_run_hash,
    );
    hash_line_str(&mut hash, "audit_ledger_target_id", layout.audit_append_target_id);
    hash_line_str(&mut hash, "audit_record_schema", layout.audit_append_target_schema);
    hash_line_str(&mut hash, "rollback_store_target_id", layout.rollback_append_target_id);
    hash_line_str(&mut hash, "rollback_transaction_schema", layout.rollback_append_target_schema);
    hash_line_u64(&mut hash, "target_start_lba", ledger_aware_result.target_start_lba);
    hash_line_u64(&mut hash, "target_lba_count", ledger_aware_result.target_lba_count);
    hash_line_u64(&mut hash, "target_byte_count", ledger_aware_result.target_byte_count);
    hash_line_bool(&mut hash, "ledger_evidence_verified",
        ledger_aware_result.ledger_evidence_verified,
    );
    hash_line_bool(&mut hash, "media_write_policy_verified", media_write_policy_verified);
    hash_line_bool(&mut hash, "target_region_write_readback_verified",
        target_region_write_readback_verified,
    );
    hash_line_bool(&mut hash, "target_span_verified", target_span_verified);
    hash_line_bool(&mut hash, "audit_rollback_target_ids_verified",
        audit_rollback_target_ids_verified,
    );
    hash_line_bool(&mut hash, "test_infrastructure_media_write_authority_available",
        target_region_write.test_infrastructure_media_write_authority_available,
    );
    hash_line_bool(&mut hash, "write_authority_available", write_authority_available);
    hash_line_bool(&mut hash, "durable_policy_ledger_available",
        ledger_aware_result.durable_policy_ledger_available,
    );
    hash_line_bool(&mut hash, "durable_audit_policy_available",
        ledger_aware_result.durable_audit_policy_available,
    );
    hash_line_bool(&mut hash, "durable_append_authority_available",
        ledger_aware_result.durable_append_authority_available,
    );
    hash_line_bool(&mut hash, "authorizes_media_write", false);
    hash_line_bool(&mut hash, "authorizes_append", false);
    hash_line_bool(&mut hash, "writes_durable_audit_log", false);
    hash_line_bool(&mut hash, "writes_rollback_store", false);
    hash_line_bool(&mut hash, "appends_rollback_transaction", false);
    hash_line_bool(&mut hash, "write_attempted", false);
    RollbackDurableAuditPolicyWriteAuthorityAvailability {
        availability_hash: finalize_sha256(hash),
        source_ledger_aware_acceptance_result_hash: ledger_aware_result.result_hash,
        source_ledger_candidate_hash: ledger_candidate.ledger_candidate_hash,
        source_policy_preflight_hash: target_region_media_write_policy_preflight.preflight_hash,
        source_target_region_write_readback_hash: target_region_write.dry_run_hash,
        target_start_lba: ledger_aware_result.target_start_lba,
        target_lba_count: ledger_aware_result.target_lba_count,
        target_byte_count: ledger_aware_result.target_byte_count,
        ledger_evidence_verified: ledger_aware_result.ledger_evidence_verified,
        media_write_policy_verified,
        target_region_write_readback_verified,
        target_span_verified,
        audit_rollback_target_ids_verified,
        write_authority_available,
        durable_policy_ledger_available: ledger_aware_result.durable_policy_ledger_available,
        durable_audit_policy_available: ledger_aware_result.durable_audit_policy_available,
        durable_append_authority_available: ledger_aware_result.durable_append_authority_available,
        test_infrastructure_media_write_authority_available:
            target_region_write.test_infrastructure_media_write_authority_available,
    }
}

/// The durable policy ledger availability.
#[derive(Clone, Copy)]
pub struct RollbackDurablePolicyLedgerAvailability {
    pub availability_hash: [u8; 32],
    pub source_write_authority_availability_hash: [u8; 32],
    pub source_ledger_aware_acceptance_result_hash: [u8; 32],
    pub source_ledger_candidate_hash: [u8; 32],
    pub source_policy_preflight_hash: [u8; 32],
    pub source_target_region_write_readback_hash: [u8; 32],
    pub target_start_lba: u64,
    pub target_lba_count: u64,
    pub target_byte_count: u64,
    pub write_authority_evidence_verified: bool,
    pub ledger_evidence_verified: bool,
    pub media_write_policy_verified: bool,
    pub target_region_write_readback_verified: bool,
    pub target_span_verified: bool,
    pub audit_rollback_target_ids_verified: bool,
    pub write_authority_available: bool,
    pub durable_policy_ledger_available: bool,
    pub durable_audit_policy_available: bool,
    pub durable_append_authority_available: bool,
    pub test_infrastructure_media_write_authority_available: bool,
}

/// The canonical lines of the durable policy ledger availability.
pub open spec fn policy_ledger_availability_stream(
    r: RollbackDurablePolicyLedgerAvailability,
    layout: StorageLayoutIds,
) -> Seq<u8> {
    line_str("schema", HELLO_ROLLBACK_DURABLE_POLICY_LEDGER_AVAILABILITY_SCHEMA)
        + line_str("id", HELLO_ROLLBACK_DURABLE_POLICY_LEDGER_AVAILABILITY_ID)
        + line_str("scope", "current_boot")
        + line_str("classification", "local_only")
        + line_str("persistence", "none")
        + line_str("status", HELLO_ROLLBACK_DURABLE_POLICY_LEDGER_AVAILABILITY_STATUS)
        + line_str("reason", HELLO_ROLLBACK_DURABLE_POLICY_LEDGER_AVAILABILITY_REASON)
        + line_hash("source_write_authority_availability_sha256",
            r.source_write_authority_availability_hash@,
        )
        + line_hash("source_ledger_aware_acceptance_result_sha256",
            r.source_ledger_aware_acceptance_result_hash@,
        )
        + line_hash("source_ledger_candidate_sha256", r.source_ledger_candidate_hash@)
        + line_hash("source_policy_preflight_sha256", r.source_policy_preflight_hash@)
        + line_hash("source_target_region_write_readback_sha256",
            r.source_target_region_write_readback_hash@,
        )
        + line_str("audit_ledger_target_id", layout.audit_append_target_id)
        + line_str("audit_record_schema", layout.audit_append_target_schema)
        + line_str("rollback_store_target_id", layout.rollback_append_target_id)
        + line_str("rollback_transaction_schema", layout.rollback_append_target_schema)
        + line_u64("target_start_lba", r.target_start_lba)
        + line_u64("target_lba_count", r.target_lba_count)
        + line_u64("target_byte_count", r.target_byte_count)
        + line_bool("write_authority_evidence_verified", r.write_authority_evidence_verified)
        + line_bool("ledger_evidence_verified", r.ledger_evidence_verified)
        + line_bool("media_write_policy_verified", r.media_write_policy_verified)
        + line_bool("target_region_write_readback_verified",
            r.target_region_write_readback_verified,
        )
        + line_bool("target_span_verified", r.target_span_verified)
        + line_bool("audit_rollback_target_ids_verified", r.audit_rollback_target_ids_verified)
        + line_bool("test_infrastructure_media_write_authority_available",
            r.test_infrastructure_media_write_authority_available,
        )
        + line_bool("write_authority_available", r.write_authority_available)
        + line_bool("durable_policy_ledger_available", r.durable_policy_ledger_available)
        + line_bool("durable_audit_policy_available", r.durable_audit_policy_available)
        + line_bool("durable_append_authority_available", r.durable_append_authority_available)
        + line_bool("authorizes_media_write", false)
        + line_bool("authorizes_append", false)
        + line_bool("writes_durable_audit_log", false)
        + line_bool("writes_rollback_store", false)
        + line_bool("appends_rollback_transaction", false)
        + line_bool("write_attempted", false)
}

/// `r` is the durable policy ledger availability built from its sources.
pub open spec fn is_policy_ledger_availability_for(
    r: RollbackDurablePolicyLedgerAvailability,
    write_authority_availability: RollbackDurableAuditPolicyWriteAuthorityAvailability,
    layout: StorageLayoutIds,
) -> bool {
    &&& r.source_write_authority_availability_hash == write_authority_availability.availability_hash
    &&& r.source_ledger_aware_acceptance_result_hash
        == write_authority_availability.source_ledger_aware_acceptance_result_hash
    &&& r.source_ledger_candidate_hash == write_authority_availability.source_ledger_candidate_hash
    &&& r.source_policy_preflight_hash == write_authority_availability.source_policy_preflight_hash
    &&& r.source_target_region_write_readback_hash
        == write_authority_availability.source_target_region_write_readback_hash
    &&& r.target_start_lba == write_authority_availability.target_start_lba
    &&& r.target_lba_count == write_authority_availability.target_lba_count
    &&& r.target_byte_count == write_authority_availability.target_byte_count
    &&& r.write_authority_evidence_verified == (write_authority_availability.ledger_evidence_verified
        && write_authority_availability.media_write_policy_verified
        && write_authority_availability.target_region_write_readback_verified
        && write_authority_availability.target_span_verified
        && write_authority_availability.audit_rollback_target_ids_verified)
    &&& r.ledger_evidence_verified == write_authority_availability.ledger_evidence_verified
    &&& r.media_write_policy_verified == write_authority_availability.media_write_policy_verified
    &&& r.target_region_write_readback_verified
        == write_authority_availability.target_region_write_readback_verified
    &&& r.target_span_verified == write_authority_availability.target_span_verified
    &&& r.audit_rollback_target_ids_verified
        == write_authority_availability.audit_rollback_target_ids_verified
    &&& r.write_authority_available == write_authority_availability.write_authority_available
    &&& r.durable_policy_ledger_available == false
    &&& r.durable_audit_policy_available
        == write_authority_availability.durable_audit_policy_available
    &&& r.durable_append_authority_available
        == write_authority_availability.durable_append_authority_available
    &&& r.test_infrastructure_media_write_authority_available
        == write_authority_availability.test_infrastructure_media_write_authority_available
    &&& r.availability_hash@ == sha256_digest(policy_ledger_availability_stream(r, layout))
}

/// The durable policy ledger availability: the write authority evidence is
/// verified when all its checks stand; no durable policy ledger exists.
pub fn hello_rollback_durable_policy_ledger_availability(
    write_authority_availability: RollbackDurableAuditPolicyWriteAuthorityAvailability,
    layout: StorageLayoutIds,
) -> (result: RollbackDurablePolicyLedgerAvailability)
    ensures
        is_policy_ledger_availability_for(result, write_authority_availability, layout),
{
    let write_authority_evidence_verified = write_authority_availability.ledger_evidence_verified
        && write_authority_availability.media_write_policy_verified
        && write_authority_availability.target_region_write_readback_verified
        && write_authority_availability.target_span_verified
        && write_authority_availability.audit_rollback_target_ids_verified;
    let durable_policy_ledger_available = false;
    let mut hash = sha256_new();
    hash_line_str(&mut hash, "schema", HELLO_ROLLBACK_DURABLE_POLICY_LEDGER_AVAILABILITY_SCHEMA);
    assert(sha256_absorbed(hash) =~= line_str("schema",
        HELLO_ROLLBACK_DURABLE_POLICY_LEDGER_AVAILABILITY_SCHEMA));
    hash_line_str(&mut hash, "id", HELLO_ROLLBACK_DURABLE_POLICY_LEDGER_AVAILABILITY_ID);
    hash_line_str(&mut hash, "scope", "current_boot");
    hash_line_str(&mut hash, "classification", "local_only");
    hash_line_str(&mut hash, "persistence", "none");
    hash_line_str(&mut hash, "status", HELLO_ROLLBACK_DURABLE_POLICY_LEDGER_AVAILABILITY_STATUS);
    hash_line_str(&mut hash, "reason", HELLO_ROLLBACK_DURABLE_POLICY_LEDGER_AVAILABILITY_REASON);
    hash_line_hash(&mut hash, "source_write_authority_availability_sha256",
        write_authority_availability.availability_hash,
    );
    hash_line_hash(&mut hash, "source_ledger_aware_acceptance_result_sha256",
        write_authority_availability.source_ledger_aware_acceptance_result_hash,
    );
    hash_line_hash(&mut hash, "source_ledger_candidate_sha256",
        write_authority_availability.source_ledger_candidate_hash,
    );
    hash_line_hash(&mut hash, "source_policy_preflight_sha256",
        write_authority_availability.source_policy_preflight_hash,
    );
    hash_line_hash(&mut hash, "source_target_region_write_readback_sha256",
        write_authority_availability.source_target_region_write_readback_hash,
    );
    hash_line_str(&mut hash, "audit_ledger_target_id", layout.audit_append_target_id);
    hash_line_str(&mut hash, "audit_record_schema", layout.audit_append_target_schema);
    hash_line_str(&mut hash, "rollback_store_target_id", layout.rollback_append_target_id);
    hash_line_str(&mut hash, "rollback_transaction_schema", layout.rollback_append_target_schema);
    hash_line_u64(&mut hash, "target_start_lba", write_authority_availability.target_start_lba);
    hash_line_u64(&mut hash, "target_lba_count", write_authority_availability.target_lba_count);
    hash_line_u64(&mut hash, "target_byte_count", write_authority_availability.target_byte_count);
    hash_line_bool(&mut hash, "write_authority_evidence_verified",
        write_authority_evidence_verified,
    );
    hash_line_bool(&mut hash, "ledger_evidence_verified",
        write_authority_availability.ledger_evidence_verified,
    );
    hash_line_bool(&mut hash, "media_write_policy_verified",
        write_authority_availability.media_write_policy_verified,
    );
    hash_line_bool(&mut hash, "target_region_write_readback_verified",
        write_authority_availability.target_region_write_readback_verified,
    );
    hash_line_bool(&mut hash, "target_span_verified",
        write_authority_availability.target_span_verified,
    );
    hash_line_bool(&mut hash, "audit_rollback_target_ids_verified",
        write_authority_availability.audit_rollback_target_ids_verified,
    );
    hash_line_bool(&mut hash, "test_infrastructure_media_write_authority_available",
        write_authority_availability.test_infrastructure_media_write_authority_available,
    );
    hash_line_bool(&mut hash, "write_authority_available",
        write_authority_availability.write_authority_available,
    );
    hash_line_bool(&mut hash, "durable_policy_ledger_available", durable_policy_ledger_available);
    hash_line_bool(&mut hash, "durable_audit_policy_available",
        write_authority_availability.durable_audit_policy_available,
    );
    hash_line_bool(&mut hash, "durable_append_authority_available",
        write_authority_availability.durable_append_authority_available,
    );
    hash_line_bool(&mut hash, "authorizes_media_write", false);
    hash_line_bool(&mut hash, "authorizes_append", false);
    hash_line_bool(&mut hash, "writes_durable_audit_log", false);
    hash_line_bool(&mut hash, "writes_rollback_store", false);
    hash_line_bool(&mut hash, "appends_rollback_transaction", false);
    hash_line_bool(&mut hash, "write_attempted", false);
    RollbackDurablePolicyLedgerAvailability {
        availability_hash: finalize_sha256(hash),
        source_write_authority_availability_hash: write_authority_availability.availability_hash,
        source_ledger_aware_acceptance_result_hash:
            write_authority_availability.source_ledger_aware_acceptance_result_hash,
        source_ledger_candidate_hash: write_authority_availability.source_ledger_candidate_hash,
        source_policy_preflight_hash: write_authority_availability.source_policy_preflight_hash,
        source_target_region_write_readback_hash:
            write_authority_availability.source_target_region_write_readback_hash,
        target_start_lba: write_authority_availability.target_start_lba,
        target_lba_count: write_authority_availability.target_lba_count,
        target_byte_count: write_authority_availability.target_byte_count,
        write_authority_evidence_verified,
        ledger_evidence_verified: write_authority_availability.ledger_evidence_verified,
        media_write_policy_verified: write_authority_availability.media_write_policy_verified,
        target_region_write_readback_verified:
            write_authority_availability.target_region_write_readback_verified,
        target_span_verified: write_authority_availability.target_span_verified,
        audit_rollback_target_ids_verified:
            write_authority_availability.audit_rollback_target_ids_verified,
        write_authority_available: write_authority_availability.write_authority_available,
        durable_policy_ledger_available,
        durable_audit_policy_available: write_authority_availability.durable_audit_policy_available,
        durable_append_authority_available:
            write_authority_availability.durable_append_authority_available,
        test_infrastructure_media_write_authority_available:
            write_authority_availability.test_infrastructure_media_write_authority_available,
    }
}

/// The durable audit policy availability.
#[derive(Clone, Copy)]
pub struct RollbackDurableAuditPolicyAvailability {
    pub availability_hash: [u8; 32],
    pub source_policy_ledger_availability_hash: [u8; 32],
    pub source_write_authority_availability_hash: [u8; 32],
    pub source_ledger_aware_acceptance_result_hash: [u8; 32],
    pub source_ledger_candidate_hash: [u8; 32],
    pub source_policy_preflight_hash: [u8; 32],
    pub source_target_region_write_readback_hash: [u8; 32],
    pub target_start_lba: u64,
    pub target_lba_count: u64,
    pub target_byte_count: u64,
    pub policy_ledger_availability_evidence_verified: bool,
    pub write_authority_evidence_verified: bool,
    pub ledger_evidence_verified: bool,
    pub media_write_policy_verified: bool,
    pub target_region_write_readback_verified: bool,
    pub target_span_verified: bool,
    pub audit_rollback_target_ids_verified: bool,
    pub write_authority_available: bool,
    pub durable_policy_ledger_available: bool,
    pub durable_audit_policy_available: bool,
    pub durable_append_authority_available: bool,
    pub test_infrastructure_media_write_authority_available: bool,
}

/// The canonical lines of the durable audit policy availability.
pub open spec fn audit_policy_availability_stream(
    r: RollbackDurableAuditPolicyAvailability,
    layout: StorageLayoutIds,
) -> Seq<u8> {
    line_str("schema", HELLO_ROLLBACK_DURABLE_AUDIT_POLICY_AVAILABILITY_SCHEMA)
        + line_str("id", HELLO_ROLLBACK_DURABLE_AUDIT_POLICY_AVAILABILITY_ID)
        + line_str("scope", "current_boot")
        + line_str("classification", "local_only")
        + line_str("persistence", "none")
        + line_str("status", HELLO_ROLLBACK_DURABLE_AUDIT_POLICY_AVAILABILITY_STATUS)
        + line_str("reason", HELLO_ROLLBACK_DURABLE_AUDIT_POLICY_AVAILABILITY_REASON)
        + line_hash("source_policy_ledger_availability_sha256",
            r.source_policy_ledger_availability_hash@,
        )
        + line_hash("source_write_authority_availability_sha256",
            r.source_write_authority_availability_hash@,
        )
        + line_hash("source_ledger_aware_acceptance_result_sha256",
            r.source_ledger_aware_acceptance_result_hash@,
        )
        + line_hash("source_ledger_candidate_sha256", r.source_ledger_candidate_hash@)
        + line_hash("source_policy_preflight_sha256", r.source_policy_preflight_hash@)
        + line_hash("source_target_region_write_readback_sha256",
            r.source_target_region_write_readback_hash@,
        )
        + line_str("audit_ledger_target_id", layout.audit_append_target_id)
        + line_str("audit_record_schema", layout.audit_append_target_schema)
        + line_str("rollback_store_target_id", layout.rollback_append_target_id)
        + line_str("rollback_transaction_schema", layout.rollback_append_target_schema)
        + line_u64("target_start_lba", r.target_start_lba)
        + line_u64("target_lba_count", r.target_lba_count)
        + line_u64("target_byte_count", r.target_byte_count)
        + line_bool("policy_ledger_availability_evidence_verified",
            r.policy_ledger_availability_evidence_verified,
        )
        + line_bool("write_authority_evidence_verified", r.write_authority_evidence_verified)
        + line_bool("ledger_evidence_verified", r.ledger_evidence_verified)
        + line_bool("media_write_policy_verified", r.media_write_policy_verified)
        + line_bool("target_region_write_readback_verified",
            r.target_region_write_readback_verified,
        )
        + line_bool("target_span_verified", r.target_span_verified)
        + line_bool("audit_rollback_target_ids_verified", r.audit_rollback_target_ids_verified)
        + line_bool("test_infrastructure_media_write_authority_available",
            r.test_infrastructure_media_write_authority_available,
        )
        + line_bool("write_authority_available", r.write_authority_available)
        + line_bool("durable_policy_ledger_available", r.durable_policy_ledger_available)
        + line_bool("durable_audit_policy_available", r.durable_audit_policy_available)
        + line_bool("durable_append_authority_available", r.durable_append_authority_available)
        + line_bool("authorizes_media_write", false)
        + line_bool("authorizes_append", false)
        + line_bool("writes_durable_audit_log", false)
        + line_bool("writes_rollback_store", false)
        + line_bool("appends_rollback_transaction", false)
        + line_bool("write_attempted", false)
}

/// `r` is the durable audit policy availability built from its sources.
pub open spec fn is_audit_policy_availability_for(
    r: RollbackDurableAuditPolicyAvailability,
    policy_ledger_availability: RollbackDurablePolicyLedgerAvailability,
    layout: StorageLayoutIds,
) -> bool {
    &&& r.source_policy_ledger_availability_hash == policy_ledger_availability.availability_hash
    &&& r.source_write_authority_availability_hash
        == policy_ledger_availability.source_write_authority_availability_hash
    &&& r.source_ledger_aware_acceptance_result_hash
        == policy_ledger_availability.source_ledger_aware_acceptance_result_hash
    &&& r.source_ledger_candidate_hash == policy_ledger_availability.source_ledger_candidate_hash
    &&& r.source_policy_preflight_hash == policy_ledger_availability.source_policy_preflight_hash
    &&& r.source_target_region_write_readback_hash
        == policy_ledger_availability.source_target_region_write_readback_hash
    &&& r.target_start_lba == policy_ledger_availability.target_start_lba
    &&& r.target_lba_count == policy_ledger_availability.target_lba_count
    &&& r.target_byte_count == policy_ledger_availability.target_byte_count
    &&& r.policy_ledger_availability_evidence_verified == (policy_ledger_availability.write_authority_evidence_verified
        && policy_ledger_availability.ledger_evidence_verified
        && policy_ledger_availability.media_write_policy_verified
        && policy_ledger_availability.target_region_write_readback_verified
        && policy_ledger_availability.target_span_verified
        && policy_ledger_availability.audit_rollback_target_ids_verified)
    &&& r.write_authority_evidence_verified
        == policy_ledger_availability.write_authority_evidence_verified
    &&& r.ledger_evidence_verified == policy_ledger_availability.ledger_evidence_verified
    &&& r.media_write_policy_verified == policy_ledger_availability.media_write_policy_verified
    &&& r.target_region_write_readback_verified
        == policy_ledger_availability.target_region_write_readback_verified
    &&& r.target_span_verified == policy_ledger_availability.target_span_verified
    &&& r.audit_rollback_target_ids_verified
        == policy_ledger_availability.audit_rollback_target_ids_verified
    &&& r.write_authority_available == policy_ledger_availability.write_authority_available
    &&& r.durable_policy_ledger_available
        == policy_ledger_availability.durable_policy_ledger_available
    &&& r.durable_audit_policy_available == false
    &&& r.durable_append_authority_available
        == policy_ledger_availability.durable_append_authority_available
    &&& r.test_infrastructure_media_write_authority_available
        == policy_ledger_availability.test_infrastructure_media_write_authority_available
    &&& r.availability_hash@ == sha256_digest(audit_policy_availability_stream(r, layout))
}

/// The durable audit policy availability: the ledger availability evidence is
/// verified when all its checks stand; no durable audit policy exists.
pub fn hello_rollback_durable_audit_policy_availability(
    policy_ledger_availability: RollbackDurablePolicyLedgerAvailability,
    layout: StorageLayoutIds,
) -> (result: RollbackDurableAuditPolicyAvailability)
    ensures
        is_audit_policy_availability_for(result, policy_ledger_availability, layout),
{
    let policy_ledger_availability_evidence_verified = policy_ledger_availability.write_authority_evidence_verified
        && policy_ledger_availability.ledger_evidence_verified
        && policy_ledger_availability.media_write_policy_verified
        && policy_ledger_availability.target_region_write_readback_verified
        && policy_ledger_availability.target_span_verified
        && policy_ledger_availability.audit_rollback_target_ids_verified;
    let durable_audit_policy_available = false;
    let mut hash = sha256_new();
    hash_line_str(&mut hash, "schema", HELLO_ROLLBACK_DURABLE_AUDIT_POLICY_AVAILABILITY_SCHEMA);
    assert(sha256_absorbed(hash) =~= line_str("schema",
        HELLO_ROLLBACK_DURABLE_AUDIT_POLICY_AVAILABILITY_SCHEMA));
    hash_line_str(&mut hash, "id", HELLO_ROLLBACK_DURABLE_AUDIT_POLICY_AVAILABILITY_ID);
    hash_line_str(&mut hash, "scope", "current_boot");
    hash_line_str(&mut hash, "classification", "local_only");
    hash_line_str(&mut hash, "persistence", "none");
    hash_line_str(&mut hash, "status", HELLO_ROLLBACK_DURABLE_AUDIT_POLICY_AVAILABILITY_STATUS);
    hash_line_str(&mut hash, "reason", HELLO_ROLLBACK_DURABLE_AUDIT_POLICY_AVAILABILITY_REASON);
    hash_line_hash(&mut hash, "source_policy_ledger_availability_sha256",
        policy_ledger_availability.availability_hash,
    );
    hash_line_hash(&mut hash, "source_write_authority_availability_sha256",
        policy_ledger_availability.source_write_authority_availability_hash,
    );
    hash_line_hash(&mut hash, "source_ledger_aware_acceptance_result_sha256",
        policy_ledger_availability.source_ledger_aware_acceptance_result_hash,
    );
    hash_line_hash(&mut hash, "source_ledger_candidate_sha256",
        policy_ledger_availability.source_ledger_candidate_hash,
    );
    hash_line_hash(&mut hash, "source_policy_preflight_sha256",
        policy_ledger_availability.source_policy_preflight_hash,
    );
    hash_line_hash(&mut hash, "source_target_region_write_readback_sha256",
        policy_ledger_availability.source_target_region_write_readback_hash,
    );
    hash_line_str(&mut hash, "audit_ledger_target_id", layout.audit_append_target_id);
    hash_line_str(&mut hash, "audit_record_schema", layout.audit_append_target_schema);
    hash_line_str(&mut hash, "rollback_store_target_id", layout.rollback_append_target_id);
    hash_line_str(&mut hash, "rollback_transaction_schema", layout.rollback_append_target_schema);
    hash_line_u64(&mut hash, "target_start_lba", policy_ledger_availability.target_start_lba);
    hash_line_u64(&mut hash, "target_lba_count", policy_ledger_availability.target_lba_count);
    hash_line_u64(&mut hash, "target_byte_count", policy_ledger_availability.target_byte_count);
    hash_line_bool(&mut hash, "policy_ledger_availability_evidence_verified",
        policy_ledger_availability_evidence_verified,
    );
    hash_line_bool(&mut hash, "write_authority_evidence_verified",
        policy_ledger_availability.write_authority_evidence_verified,
    );
    hash_line_bool(&mut hash, "ledger_evidence_verified",
        policy_ledger_availability.ledger_evidence_verified,
    );
    hash_line_bool(&mut hash, "media_write_policy_verified",
        policy_ledger_availability.media_write_policy_verified,
    );
    hash_line_bool(&mut hash, "target_region_write_readback_verified",
        policy_ledger_availability.target_region_write_readback_verified,
    );
    hash_line_bool(&mut hash, "target_span_verified",
        policy_ledger_availability.target_span_verified,
    );
    hash_line_bool(&mut hash, "audit_rollback_target_ids_verified",
        policy_ledger_availability.audit_rollback_target_ids_verified,
    );
    hash_line_bool(&mut hash, "test_infrastructure_media_write_authority_available",
        policy_ledger_availability.test_infrastructure_media_write_authority_available,
    );
    hash_line_bool(&mut hash, "write_authority_available",
        policy_ledger_availability.write_authority_available,
    );
    hash_line_bool(&mut hash, "durable_policy_ledger_available",
        policy_ledger_availability.durable_policy_ledger_available,
    );
    hash_line_bool(&mut hash, "durable_audit_policy_available", durable_audit_policy_available);
    hash_line_bool(&mut hash, "durable_append_authority_available",
        policy_ledger_availability.durable_append_authority_available,
    );
    hash_line_bool(&mut hash, "authorizes_media_write", false);
    hash_line_bool(&mut hash, "authorizes_append", false);
    hash_line_bool(&mut hash, "writes_durable_audit_log", false);
    hash_line_bool(&mut hash, "writes_rollback_store", false);
    hash_line_bool(&mut hash, "appends_rollback_transaction", false);
    hash_line_bool(&mut hash, "write_attempted", false);
    RollbackDurableAuditPolicyAvailability {
        availability_hash: finalize_sha256(hash),
        source_policy_ledger_availability_hash: policy_ledger_availability.availability_hash,
        source_write_authority_availability_hash:
            policy_ledger_availability.source_write_authority_availability_hash,
        source_ledger_aware_acceptance_result_hash:
            policy_ledger_availability.source_ledger_aware_acceptance_result_hash,
        source_ledger_candidate_hash: policy_ledger_availability.source_ledger_candidate_hash,
        source_policy_preflight_hash: policy_ledger_availability.source_policy_preflight_hash,
        source_target_region_write_readback_hash:
            policy_ledger_availability.source_target_region_write_readback_hash,
        target_start_lba: policy_ledger_availability.target_start_lba,
        target_lba_count: policy_ledger_availability.target_lba_count,
        target_byte_count: policy_ledger_availability.target_byte_count,
        policy_ledger_availability_evidence_verified,
        write_authority_evidence_verified:
            policy_ledger_availability.write_authority_evidence_verified,
        ledger_evidence_verified: policy_ledger_availability.ledger_evidence_verified,
        media_write_policy_verified: policy_ledger_availability.media_write_policy_verified,
        target_region_write_readback_verified:
            policy_ledger_availability.target_region_write_readback_verified,
        target_span_verified: policy_ledger_availability.target_span_verified,
        audit_rollback_target_ids_verified:
            policy_ledger_availability.audit_rollback_target_ids_verified,
        write_authority_available: policy_ledger_availability.write_authority_available,
        durable_policy_ledger_available: policy_ledger_availability.durable_policy_ledger_available,
        durable_audit_policy_available,
        durable_append_authority_available:
            policy_ledger_availability.durable_append_authority_available,
        test_infrastructure_media_write_authority_available:
            policy_ledger_availability.test_infrastructure_media_write_authority_available,
    }
}

/// The durable append authority availability.
#[derive(Clone, Copy)]
pub struct RollbackDurableAppendAuthorityAvailability {
    pub availability_hash: [u8; 32],
    pub source_audit_policy_availability_hash: [u8; 32],
    pub source_policy_ledger_availability_hash: [u8; 32],
    pub source_write_authority_availability_hash: [u8; 32],
    pub source_ledger_aware_acceptance_result_hash: [u8; 32],
    pub source_ledger_candidate_hash: [u8; 32],
    pub source_policy_preflight_hash: [u8; 32],
    pub source_target_region_write_readback_hash: [u8; 32],
    pub target_start_lba: u64,
    pub target_lba_count: u64,
    pub target_byte_count: u64,
    pub audit_policy_availability_evidence_verified: bool,
    pub policy_ledger_availability_evidence_verified: bool,
    pub write_authority_evidence_verified: bool,
    pub ledger_evidence_verified: bool,
    pub media_write_policy_verified: bool,
    pub target_region_write_readback_verified: bool,
    pub target_span_verified: bool,
    pub audit_rollback_target_ids_verified: bool,
    pub write_authority_available: bool,
    pub durable_policy_ledger_available: bool,
    pub durable_audit_policy_available: bool,
    pub durable_append_authority_available: bool,
    pub test_infrastructure_media_write_authority_available: bool,
}

/// The canonical lines of the durable append authority availability.
pub open spec fn append_authority_availability_stream(
    r: RollbackDurableAppendAuthorityAvailability,
    layout: StorageLayoutIds,
) -> Seq<u8> {
    line_str("schema", HELLO_ROLLBACK_DURABLE_APPEND_AUTHORITY_AVAILABILITY_SCHEMA)
        + line_str("id", HELLO_ROLLBACK_DURABLE_APPEND_AUTHORITY_AVAILABILITY_ID)
        + line_str("scope", "current_boot")
        + line_str("classification", "local_only")
        + line_str("persistence", "none")
        + line_str("status", HELLO_ROLLBACK_DURABLE_APPEND_AUTHORITY_AVAILABILITY_STATUS)
        + line_str("reason", HELLO_ROLLBACK_DURABLE_APPEND_AUTHORITY_AVAILABILITY_REASON)
        + line_hash("source_audit_policy_availability_sha256",
            r.source_audit_policy_availability_hash@,
        )
        + line_hash("source_policy_ledger_availability_sha256",
            r.source_policy_ledger_availability_hash@,
        )
        + line_hash("source_write_authority_availability_sha256",
            r.source_write_authority_availability_hash@,
        )
        + line_hash("source_ledger_aware_acceptance_result_sha256",
            r.source_ledger_aware_acceptance_result_hash@,
        )
        + line_hash("source_ledger_candidate_sha256", r.source_ledger_candidate_hash@)
        + line_hash("source_policy_preflight_sha256", r.source_policy_preflight_hash@)
        + line_hash("source_target_region_write_readback_sha256",
            r.source_target_region_write_readback_hash@,
        )
        + line_str("audit_ledger_target_id", layout.audit_append_target_id)
        + line_str("audit_record_schema", layout.audit_append_target_schema)
        + line_str("rollback_store_target_id", layout.rollback_append_target_id)
        + line_str("rollback_transaction_schema", layout.rollback_append_target_schema)
        + line_u64("target_start_lba", r.target_start_lba)
        + line_u64("target_lba_count", r.target_lba_count)
        + line_u64("target_byte_count", r.target_byte_count)
        + line_bool("audit_policy_availability_evidence_verified",
            r.audit_policy_availability_evidence_verified,
        )
        + line_bool("policy_ledger_availability_evidence_verified",
            r.policy_ledger_availability_evidence_verified,
        )
        + line_bool("write_authority_evidence_verified", r.write_authority_evidence_verified)
        + line_bool("ledger_evidence_verified", r.ledger_evidence_verified)
        + line_bool("media_write_policy_verified", r.media_write_policy_verified)
        + line_bool("target_region_write_readback_verified",
            r.target_region_write_readback_verified,
        )
        + line_bool("target_span_verified", r.target_span_verified)
        + line_bool("audit_rollback_target_ids_verified", r.audit_rollback_target_ids_verified)
        + line_bool("test_infrastructure_media_write_authority_available",
            r.test_infrastructure_media_write_authority_available,
        )
        + line_bool("write_authority_available", r.write_authority_available)
        + line_bool("durable_policy_ledger_available", r.durable_policy_ledger_available)
        + line_bool("durable_audit_policy_available", r.durable_audit_policy_available)
        + line_bool("durable_append_authority_available", r.durable_append_authority_available)
        + line_bool("authorizes_media_write", false)
        + line_bool("authorizes_append", false)
        + line_bool("writes_durable_audit_log", false)
        + line_bool("writes_rollback_store", false)
        + line_bool("appends_rollback_transaction", false)
        + line_bool("write_attempted", false)
}

/// `r` is the durable append authority availability built from its sources.
pub open spec fn is_append_authority_availability_for(
    r: RollbackDurableAppendAuthorityAvailability,
    audit_policy_availability: RollbackDurableAuditPolicyAvailability,
    layout: StorageLayoutIds,
) -> bool {
    &&& r.source_audit_policy_availability_hash == audit_policy_availability.availability_hash
    &&& r.source_policy_ledger_availability_hash
        == audit_policy_availability.source_policy_ledger_availability_hash
    &&& r.source_write_authority_availability_hash
        == audit_policy_availability.source_write_authority_availability_hash
    &&& r.source_ledger_aware_acceptance_result_hash
        == audit_policy_availability.source_ledger_aware_acceptance_result_hash
    &&& r.source_ledger_candidate_hash == audit_policy_availability.source_ledger_candidate_hash
    &&& r.source_policy_preflight_hash == audit_policy_availability.source_policy_preflight_hash
    &&& r.source_target_region_write_readback_hash
        == audit_policy_availability.source_target_region_write_readback_hash
    &&& r.target_start_lba == audit_policy_availability.target_start_lba
    &&& r.target_lba_count == audit_policy_availability.target_lba_count
    &&& r.target_byte_count == audit_policy_availability.target_byte_count
    &&& r.audit_policy_availability_evidence_verified == (audit_policy_availability.policy_ledger_availability_evidence_verified
        && audit_policy_availability.write_authority_evidence_verified
        && audit_policy_availability.ledger_evidence_verified
        && audit_policy_availability.media_write_policy_verified
        && audit_policy_availability.target_region_write_readback_verified
        && audit_policy_availability.target_span_verified
        && audit_policy_availability.audit_rollback_target_ids_verified)
    &&& r.policy_ledger_availability_evidence_verified
        == audit_policy_availability.policy_ledger_availability_evidence_verified
    &&& r.write_authority_evidence_verified
        == audit_policy_availability.write_authority_evidence_verified
    &&& r.ledger_evidence_verified == audit_policy_availability.ledger_evidence_verified
    &&& r.media_write_policy_verified == audit_policy_availability.media_write_policy_verified
    &&& r.target_region_write_readback_verified
        == audit_policy_availability.target_region_write_readback_verified
    &&& r.target_span_verified == audit_policy_availability.target_span_verified
    &&& r.audit_rollback_target_ids_verified
        == audit_policy_availability.audit_rollback_target_ids_verified
    &&& r.write_authority_available == audit_policy_availability.write_authority_available
    &&& r.durable_policy_ledger_available
        == audit_policy_availability.durable_policy_ledger_available
    &&& r.durable_audit_policy_available == audit_policy_availability.durable_audit_policy_available
    &&& r.durable_append_authority_available == false
    &&& r.test_infrastructure_media_write_authority_available
        == audit_policy_availability.test_infrastructure_media_write_authority_available
    &&& r.availability_hash@ == sha256_digest(append_authority_availability_stream(r, layout))
}

/// The durable append authority availability: the audit policy availability
/// evidence is verified when all its checks stand; durable append authority
/// stays unavailable.
pub fn hello_rollback_durable_append_authority_availability(
    audit_policy_availability: RollbackDurableAuditPolicyAvailability,
    layout: StorageLayoutIds,
) -> (result: RollbackDurableAppendAuthorityAvailability)
    ensures
        is_append_authority_availability_for(result, audit_policy_availability, layout),
{
    let audit_policy_availability_evidence_verified = audit_policy_availability.policy_ledger_availability_evidence_verified
        && audit_policy_availability.write_authority_evidence_verified
        && audit_policy_availability.ledger_evidence_verified
        && audit_policy_availability.media_write_policy_verified
        && audit_policy_availability.target_region_write_readback_verified
        && audit_policy_availability.target_span_verified
        && audit_policy_availability.audit_rollback_target_ids_verified;
    let durable_append_authority_available = false;
    let mut hash = sha256_new();
    hash_line_str(&mut hash, "schema", HELLO_ROLLBACK_DURABLE_APPEND_AUTHORITY_AVAILABILITY_SCHEMA);
    assert(sha256_absorbed(hash) =~= line_str("schema",
        HELLO_ROLLBACK_DURABLE_APPEND_AUTHORITY_AVAILABILITY_SCHEMA));
    hash_line_str(&mut hash, "id", HELLO_ROLLBACK_DURABLE_APPEND_AUTHORITY_AVAILABILITY_ID);
    hash_line_str(&mut hash, "scope", "current_boot");
    hash_line_str(&mut hash, "classification", "local_only");
    hash_line_str(&mut hash, "persistence", "none");
    hash_line_str(&mut hash, "status", HELLO_ROLLBACK_DURABLE_APPEND_AUTHORITY_AVAILABILITY_STATUS);
    hash_line_str(&mut hash, "reason", HELLO_ROLLBACK_DURABLE_APPEND_AUTHORITY_AVAILABILITY_REASON);
    hash_line_hash(&mut hash, "source_audit_policy_availability_sha256",
        audit_policy_availability.availability_hash,
    );
    hash_line_hash(&mut hash, "source_policy_ledger_availability_sha256",
        audit_policy_availability.source_policy_ledger_availability_hash,
    );
    hash_line_hash(&mut hash, "source_write_authority_availability_sha256",
        audit_policy_availability.source_write_authority_availability_hash,
    );
    hash_line_hash(&mut hash, "source_ledger_aware_acceptance_result_sha256",
        audit_policy_availability.source_ledger_aware_acceptance_result_hash,
    );
    hash_line_hash(&mut hash, "source_ledger_candidate_sha256",
        audit_policy_availability.source_ledger_candidate_hash,
    );
    hash_line_hash(&mut hash, "source_policy_preflight_sha256",
        audit_policy_availability.source_policy_preflight_hash,
    );
    hash_line_hash(&mut hash, "source_target_region_write_readback_sha256",
        audit_policy_availability.source_target_region_write_readback_hash,
    );
    hash_line_str(&mut hash, "audit_ledger_target_id", layout.audit_append_target_id);
    hash_line_str(&mut hash, "audit_record_schema", layout.audit_append_target_schema);
    hash_line_str(&mut hash, "rollback_store_target_id", layout.rollback_append_target_id);
    hash_line_str(&mut hash, "rollback_transaction_schema", layout.rollback_append_target_schema);
    hash_line_u64(&mut hash, "target_start_lba", audit_policy_availability.target_start_lba);
    hash_line_u64(&mut hash, "target_lba_count", audit_policy_availability.target_lba_count);
    hash_line_u64(&mut hash, "target_byte_count", audit_policy_availability.target_byte_count);
    hash_line_bool(&mut hash, "audit_policy_availability_evidence_verified",
        audit_policy_availability_evidence_verified,
    );
    hash_line_bool(&mut hash, "policy_ledger_availability_evidence_verified",
        audit_policy_availability.policy_ledger_availability_evidence_verified,
    );
    hash_line_bool(&mut hash, "write_authority_evidence_verified",
        audit_policy_availability.write_authority_evidence_verified,
    );
    hash_line_bool(&mut hash, "ledger_evidence_verified",
        audit_policy_availability.ledger_evidence_verified,
    );
    hash_line_bool(&mut hash, "media_write_policy_verified",
        audit_policy_availability.media_write_policy_verified,
    );
    hash_line_bool(&mut hash, "target_region_write_readback_verified",
        audit_policy_availability.target_region_write_readback_verified,
    );
    hash_line_bool(&mut hash, "target_span_verified",
        audit_policy_availability.target_span_verified,
    );
    hash_line_bool(&mut hash, "audit_rollback_target_ids_verified",
        audit_policy_availability.audit_rollback_target_ids_verified,
    );
    hash_line_bool(&mut hash, "test_infrastructure_media_write_authority_available",
        audit_policy_availability.test_infrastructure_media_write_authority_available,
    );
    hash_line_bool(&mut hash, "write_authority_available",
        audit_policy_availability.write_authority_available,
    );
    hash_line_bool(&mut hash, "durable_policy_ledger_available",
        audit_policy_availability.durable_policy_ledger_available,
    );
    hash_line_bool(&mut hash, "durable_audit_policy_available",
        audit_policy_availability.durable_audit_policy_available,
    );
    hash_line_bool(&mut hash, "durable_append_authority_available",
        durable_append_authority_available,
    );
    hash_line_bool(&mut hash, "authorizes_media_write", false);
    hash_line_bool(&mut hash, "authorizes_append", false);
    hash_line_bool(&mut hash, "writes_durable_audit_log", false);
    hash_line_bool(&mut hash, "writes_rollback_store", false);
    hash_line_bool(&mut hash, "appends_rollback_transaction", false);
    hash_line_bool(&mut hash, "write_attempted", false);
    RollbackDurableAppendAuthorityAvailability {
        availability_hash: finalize_sha256(hash),
        source_audit_policy_availability_hash: audit_policy_availability.availability_hash,
        source_policy_ledger_availability_hash:
            audit_policy_availability.source_policy_ledger_availability_hash,
        source_write_authority_availability_hash:
            audit_policy_availability.source_write_authority_availability_hash,
        source_ledger_aware_acceptance_result_hash:
            audit_policy_availability.source_ledger_aware_acceptance_result_hash,
        source_ledger_candidate_hash: audit_policy_availability.source_ledger_candidate_hash,
        source_policy_preflight_hash: audit_policy_availability.source_policy_preflight_hash,
        source_target_region_write_readback_hash:
            audit_policy_availability.source_target_region_write_readback_hash,
        target_start_lba: audit_policy_availability.target_start_lba,
        target_lba_count: audit_policy_availability.target_lba_count,
        target_byte_count: audit_policy_availability.target_byte_count,
        audit_policy_availability_evidence_verified,
        policy_ledger_availability_evidence_verified:
            audit_policy_availability.policy_ledger_availability_evidence_verified,
        write_authority_evidence_verified:
            audit_policy_availability.write_authority_evidence_verified,
        ledger_evidence_verified: audit_policy_availability.ledger_evidence_verified,
        media_write_policy_verified: audit_policy_availability.media_write_policy_verified,
        target_region_write_readback_verified:
            audit_policy_availability.target_region_write_readback_verified,
        target_span_verified: audit_policy_availability.target_span_verified,
        audit_rollback_target_ids_verified:
            audit_policy_availability.audit_rollback_target_ids_verified,
        write_authority_available: audit_policy_availability.write_authority_available,
        durable_policy_ledger_available: audit_policy_availability.durable_policy_ledger_available,
        durable_audit_policy_available: audit_policy_availability.durable_audit_policy_available,
        durable_append_authority_available,
        test_infrastructure_media_write_authority_available:
            audit_policy_availability.test_infrastructure_media_write_authority_available,
    }
}

/// The transaction append availability decision.
#[derive(Clone, Copy)]
pub struct RollbackTransactionAppendAvailabilityDecision {
    pub decision_hash: [u8; 32],
    pub source_durable_append_authority_availability_hash: [u8; 32],
    pub source_audit_policy_availability_hash: [u8; 32],
    pub source_append_engine_readiness_decision_hash: [u8; 32],
    pub source_writer_policy_preflight_hash: [u8; 32],
    pub source_policy_preflight_hash: [u8; 32],
    pub source_target_region_write_readback_hash: [u8; 32],
    pub target_start_lba: u64,
    pub target_lba_count: u64,
    pub target_byte_count: u64,
    pub durable_append_authority_availability_evidence_verified: bool,
    pub audit_policy_availability_evidence_verified: bool,
    pub append_engine_ready: bool,
    pub writer_policy_ready: bool,
    pub media_write_policy_verified: bool,
    pub target_region_write_readback_verified: bool,
    pub target_span_verified: bool,
    pub audit_rollback_target_ids_verified: bool,
    pub test_infrastructure_media_write_authority_available: bool,
    pub durable_append_authority_available: bool,
    pub durable_audit_policy_available: bool,
    pub transaction_append_available: bool,
}

/// The canonical lines of the transaction append availability decision.
pub open spec fn append_availability_decision_stream(
    r: RollbackTransactionAppendAvailabilityDecision,
    layout: StorageLayoutIds,
) -> Seq<u8> {
    line_str("schema", HELLO_ROLLBACK_TRANSACTION_APPEND_AVAILABILITY_DECISION_SCHEMA)
        + line_str("id", HELLO_ROLLBACK_TRANSACTION_APPEND_AVAILABILITY_DECISION_ID)
        + line_str("scope", "current_boot")
        + line_str("classification", "local_only")
        + line_str("persistence", "none")
        + line_str("status", HELLO_ROLLBACK_TRANSACTION_APPEND_AVAILABILITY_DECISION_STATUS)
        + line_str("reason", HELLO_ROLLBACK_TRANSACTION_APPEND_AVAILABILITY_DECISION_REASON)
        + line_hash("source_durable_append_authority_availability_sha256",
            r.source_durable_append_authority_availability_hash@,
        )
        + line_hash("source_audit_policy_availability_sha256",
            r.source_audit_policy_availability_hash@,
        )
        + line_hash("source_append_engine_readiness_decision_sha256",
            r.source_append_engine_readiness_decision_hash@,
        )
        + line_hash("source_writer_policy_preflight_sha256", r.source_writer_policy_preflight_hash@)
        + line_hash("source_policy_preflight_sha256", r.source_policy_preflight_hash@)
        + line_hash("source_target_region_write_readback_sha256",
            r.source_target_region_write_readback_hash@,
        )
        + line_str("audit_ledger_target_id", layout.audit_append_target_id)
        + line_str("audit_record_schema", layout.audit_append_target_schema)
        + line_str("rollback_store_target_id", layout.rollback_append_target_id)
        + line_str("rollback_transaction_schema", layout.rollback_append_target_schema)
        + line_u64("target_start_lba", r.target_start_lba)
        + line_u64("target_lba_count", r.target_lba_count)
        + line_u64("target_byte_count", r.target_byte_count)
        + line_bool("durable_append_authority_availability_evidence_verified",
            r.durable_append_authority_availability_evidence_verified,
        )
        + line_bool("audit_policy_availability_evidence_verified",
            r.audit_policy_availability_evidence_verified,
        )
        + line_bool("append_engine_ready", r.append_engine_ready)
        + line_bool("writer_policy_ready", r.writer_policy_ready)
        + line_bool("media_write_policy_verified", r.media_write_policy_verified)
        + line_bool("target_region_write_readback_verified",
            r.target_region_write_readback_verified,
        )
        + line_bool("target_span_verified", r.target_span_verified)
        + line_bool("audit_rollback_target_ids_verified", r.audit_rollback_target_ids_verified)
        + line_bool("test_infrastructure_media_write_authority_available",
            r.test_infrastructure_media_write_authority_available,
        )
        + line_bool("durable_append_authority_available", r.durable_append_authority_available)
        + line_bool("durable_audit_policy_available", r.durable_audit_policy_available)
        + line_bool("transaction_append_available", r.transaction_append_available)
        + line_bool("authorizes_media_write", false)
        + line_bool("authorizes_append", false)
        + line_bool("authorizes_transaction_append", false)
        + line_bool("writes_durable_audit_log", false)
        + line_bool("writes_rollback_store", false)
        + line_bool("appends_rollback_transaction", false)
        + line_bool("write_attempted", false)
}

/// `r` is the transaction append availability decision built from its sources.
pub open spec fn is_append_availability_decision_for(
    r: RollbackTransactionAppendAvailabilityDecision,
    append_authority_availability: RollbackDurableAppendAuthorityAvailability,
    append_engine_readiness: RollbackAppendEngineReadinessDecision,
    writer_policy: RollbackDurableWriterPolicyPreflight,
    layout: StorageLayoutIds,
) -> bool {
    &&& r.source_durable_append_authority_availability_hash
        == append_authority_availability.availability_hash
    &&& r.source_audit_policy_availability_hash
        == append_authority_availability.source_audit_policy_availability_hash
    &&& r.source_append_engine_readiness_decision_hash == append_engine_readiness.decision_hash
    &&& r.source_writer_policy_preflight_hash == writer_policy.preflight_hash
    &&& r.source_policy_preflight_hash == append_authority_availability.source_policy_preflight_hash
    &&& r.source_target_region_write_readback_hash
        == append_authority_availability.source_target_region_write_readback_hash
    &&& r.target_start_lba == append_authority_availability.target_start_lba
    &&& r.target_lba_count == append_authority_availability.target_lba_count
    &&& r.target_byte_count == append_authority_availability.target_byte_count
    &&& r.durable_append_authority_availability_evidence_verified == (append_authority_availability.audit_policy_availability_evidence_verified
        && append_authority_availability.policy_ledger_availability_evidence_verified
        && append_authority_availability.write_authority_evidence_verified
        && append_authority_availability.ledger_evidence_verified
        && append_authority_availability.media_write_policy_verified
        && append_authority_availability.target_region_write_readback_verified
        && (append_authority_availability.target_span_verified && append_authority_availability.target_start_lba == append_engine_readiness.target_start_lba && append_authority_availability.target_lba_count == append_engine_readiness.target_lba_count && append_authority_availability.target_byte_count == append_engine_readiness.target_byte_count && append_authority_availability.target_start_lba == writer_policy.target_start_lba && append_authority_availability.target_lba_count == writer_policy.target_lba_count && append_authority_availability.target_byte_count == writer_policy.target_byte_count)
        && append_authority_availability.audit_rollback_target_ids_verified)
    &&& r.audit_policy_availability_evidence_verified
        == append_authority_availability.audit_policy_availability_evidence_verified
    &&& r.append_engine_ready == append_engine_readiness.ready
    &&& r.writer_policy_ready == (writer_policy.target_range_ready
        && writer_policy.durable_audit_writer_available
        && writer_policy.rollback_store_writer_available
        && writer_policy.transaction_append_writer_available)
    &&& r.media_write_policy_verified == append_authority_availability.media_write_policy_verified
    &&& r.target_region_write_readback_verified
        == append_authority_availability.target_region_write_readback_verified
    &&& r.target_span_verified == (append_authority_availability.target_span_verified
        && append_authority_availability.target_start_lba == append_engine_readiness.target_start_lba
        && append_authority_availability.target_lba_count == append_engine_readiness.target_lba_count
        && append_authority_availability.target_byte_count == append_engine_readiness.target_byte_count
        && append_authority_availability.target_start_lba == writer_policy.target_start_lba
        && append_authority_availability.target_lba_count == writer_policy.target_lba_count
        && append_authority_availability.target_byte_count == writer_policy.target_byte_count)
    &&& r.audit_rollback_target_ids_verified
        == append_authority_availability.audit_rollback_target_ids_verified
    &&& r.test_infrastructure_media_write_authority_available
        == append_authority_availability.test_infrastructure_media_write_authority_available
    &&& r.durable_append_authority_available
        == append_authority_availability.durable_append_authority_available
    &&& r.durable_audit_policy_available
        == append_authority_availability.durable_audit_policy_available
    &&& r.transaction_append_available == (append_engine_readiness.ready
        && (writer_policy.target_range_ready && writer_policy.durable_audit_writer_available && writer_policy.rollback_store_writer_available && writer_policy.transaction_append_writer_available)
        && append_authority_availability.durable_append_authority_available)
    &&& r.decision_hash@ == sha256_digest(append_availability_decision_stream(r, layout))
}

/// The transaction append availability decision: a transaction append is
/// available only with a ready append engine, a ready writer policy and
/// durable append authority.
pub fn hello_rollback_transaction_append_availability_decision(
    append_authority_availability: RollbackDurableAppendAuthorityAvailability,
    append_engine_readiness: RollbackAppendEngineReadinessDecision,
    writer_policy: RollbackDurableWriterPolicyPreflight,
    layout: StorageLayoutIds,
) -> (result: RollbackTransactionAppendAvailabilityDecision)
    ensures
        is_append_availability_decision_for(
            result,
            append_authority_availability,
            append_engine_readiness,
            writer_policy,
            layout,
        ),
{
    let target_span_verified = append_authority_availability.target_span_verified
        && append_authority_availability.target_start_lba == append_engine_readiness.target_start_lba
        && append_authority_availability.target_lba_count == append_engine_readiness.target_lba_count
        && append_authority_availability.target_byte_count == append_engine_readiness.target_byte_count
        && append_authority_availability.target_start_lba == writer_policy.target_start_lba
        && append_authority_availability.target_lba_count == writer_policy.target_lba_count
        && append_authority_availability.target_byte_count == writer_policy.target_byte_count;
    let writer_policy_ready = writer_policy.target_range_ready
        && writer_policy.durable_audit_writer_available
        && writer_policy.rollback_store_writer_available
        && writer_policy.transaction_append_writer_available;
    let durable_append_authority_availability_evidence_verified = append_authority_availability.audit_policy_availability_evidence_verified
        && append_authority_availability.policy_ledger_availability_evidence_verified
        && append_authority_availability.write_authority_evidence_verified
        && append_authority_availability.ledger_evidence_verified
        && append_authority_availability.media_write_policy_verified
        && append_authority_availability.target_region_write_readback_verified
        && target_span_verified
        && append_authority_availability.audit_rollback_target_ids_verified;
    let transaction_append_available = append_engine_readiness.ready
        && writer_policy_ready
        && append_authority_availability.durable_append_authority_available;
    let mut hash = sha256_new();
    hash_line_str(&mut hash, "schema",
        HELLO_ROLLBACK_TRANSACTION_APPEND_AVAILABILITY_DECISION_SCHEMA,
    );
    assert(sha256_absorbed(hash) =~= line_str("schema",
        HELLO_ROLLBACK_TRANSACTION_APPEND_AVAILABILITY_DECISION_SCHEMA));
    hash_line_str(&mut hash, "id", HELLO_ROLLBACK_TRANSACTION_APPEND_AVAILABILITY_DECISION_ID);
    hash_line_str(&mut hash, "scope", "current_boot");
    hash_line_str(&mut hash, "classification", "local_only");
    hash_line_str(&mut hash, "persistence", "none");
    hash_line_str(&mut hash, "status",
        HELLO_ROLLBACK_TRANSACTION_APPEND_AVAILABILITY_DECISION_STATUS,
    );
    hash_line_str(&mut hash, "reason",
        HELLO_ROLLBACK_TRANSACTION_APPEND_AVAILABILITY_DECISION_REASON,
    );
    hash_line_hash(&mut hash, "source_durable_append_authority_availability_sha256",
        append_authority_availability.availability_hash,
    );
    hash_line_hash(&mut hash, "source_audit_policy_availability_sha256",
        append_authority_availability.source_audit_policy_availability_hash,
    );
    hash_line_hash(&mut hash, "source_append_engine_readiness_decision_sha256",
        append_engine_readiness.decision_hash,
    );
    hash_line_hash(&mut hash, "source_writer_policy_preflight_sha256",
        writer_policy.preflight_hash,
    );
    hash_line_hash(&mut hash, "source_policy_preflight_sha256",
        append_authority_availability.source_policy_preflight_hash,
    );
    hash_line_hash(&mut hash, "source_target_region_write_readback_sha256",
        append_authority_availability.source_target_region_write_readback_hash,
    );
    hash_line_str(&mut hash, "audit_ledger_target_id", layout.audit_append_target_id);
    hash_line_str(&mut hash, "audit_record_schema", layout.audit_append_target_schema);
    hash_line_str(&mut hash, "rollback_store_target_id", layout.rollback_append_target_id);
    hash_line_str(&mut hash, "rollback_transaction_schema", layout.rollback_append_target_schema);
    hash_line_u64(&mut hash, "target_start_lba", append_authority_availability.target_start_lba);
    hash_line_u64(&mut hash, "target_lba_count", append_authority_availability.target_lba_count);
    hash_line_u64(&mut hash, "target_byte_count", append_authority_availability.target_byte_count);
    hash_line_bool(&mut hash, "durable_append_authority_availability_evidence_verified",
        durable_append_authority_availability_evidence_verified,
    );
    hash_line_bool(&mut hash, "audit_policy_availability_evidence_verified",
        append_authority_availability.audit_policy_availability_evidence_verified,
    );
    hash_line_bool(&mut hash, "append_engine_ready", append_engine_readiness.ready);
    hash_line_bool(&mut hash, "writer_policy_ready", writer_policy_ready);
    hash_line_bool(&mut hash, "media_write_policy_verified",
        append_authority_availability.media_write_policy_verified,
    );
    hash_line_bool(&mut hash, "target_region_write_readback_verified",
        append_authority_availability.target_region_write_readback_verified,
    );
    hash_line_bool(&mut hash, "target_span_verified", target_span_verified);
    hash_line_bool(&mut hash, "audit_rollback_target_ids_verified",
        append_authority_availability.audit_rollback_target_ids_verified,
    );
    hash_line_bool(&mut hash, "test_infrastructure_media_write_authority_available",
        append_authority_availability.test_infrastructure_media_write_authority_available,
    );
    hash_line_bool(&mut hash, "durable_append_authority_available",
        append_authority_availability.durable_append_authority_available,
    );
    hash_line_bool(&mut hash, "durable_audit_policy_available",
        append_authority_availability.durable_audit_policy_available,
    );
    hash_line_bool(&mut hash, "transaction_append_available", transaction_append_available);
    hash_line_bool(&mut hash, "authorizes_media_write", false);
    hash_line_bool(&mut hash, "authorizes_append", false);
    hash_line_bool(&mut hash, "authorizes_transaction_append", false);
    hash_line_bool(&mut hash, "writes_durable_audit_log", false);
    hash_line_bool(&mut hash, "writes_rollback_store", false);
    hash_line_bool(&mut hash, "appends_rollback_transaction", false);
    hash_line_bool(&mut hash, "write_attempted", false);
    RollbackTransactionAppendAvailabilityDecision {
        decision_hash: finalize_sha256(hash),
        source_durable_append_authority_availability_hash:
            append_authority_availability.availability_hash,
        source_audit_policy_availability_hash:
            append_authority_availability.source_audit_policy_availability_hash,
        source_append_engine_readiness_decision_hash: append_engine_readiness.decision_hash,
        source_writer_policy_preflight_hash: writer_policy.preflight_hash,
        source_policy_preflight_hash: append_authority_availability.source_policy_preflight_hash,
        source_target_region_write_readback_hash:
            append_authority_availability.source_target_region_write_readback_hash,
        target_start_lba: append_authority_availability.target_start_lba,
        target_lba_count: append_authority_availability.target_lba_count,
        target_byte_count: append_authority_availability.target_byte_count,
        durable_append_authority_availability_evidence_verified,
        audit_policy_availability_evidence_verified:
            append_authority_availability.audit_policy_availability_evidence_verified,
        append_engine_ready: append_engine_readiness.ready,
        writer_policy_ready,
        media_write_policy_verified: append_authority_availability.media_write_policy_verified,
        target_region_write_readback_verified:
            append_authority_availability.target_region_write_readback_verified,
        target_span_verified,
        audit_rollback_target_ids_verified:
            append_authority_availability.audit_rollback_target_ids_verified,
        test_infrastructure_media_write_authority_available:
            append_authority_availability.test_infrastructure_media_write_authority_available,
        durable_append_authority_available:
            append_authority_availability.durable_append_authority_available,
        durable_audit_policy_available:
            append_authority_availability.durable_audit_policy_available,
        transaction_append_available,
    }
}

/// The transaction append authority denial gate.
#[derive(Clone, Copy)]
pub struct RollbackTransactionAppendAuthorityDenialGate {
    pub gate_hash: [u8; 32],
    pub source_transaction_append_availability_decision_hash: [u8; 32],
    pub source_durable_append_authority_availability_hash: [u8; 32],
    pub source_audit_policy_availability_hash: [u8; 32],
    pub source_append_engine_readiness_decision_hash: [u8; 32],
    pub source_writer_policy_preflight_hash: [u8; 32],
    pub source_policy_preflight_hash: [u8; 32],
    pub source_target_region_write_readback_hash: [u8; 32],
    pub target_start_lba: u64,
    pub target_lba_count: u64,
    pub target_byte_count: u64,
    pub availability_decision_evidence_verified: bool,
    pub append_engine_ready: bool,
    pub writer_policy_ready: bool,
    pub media_write_policy_verified: bool,
    pub target_region_write_readback_verified: bool,
    pub target_span_verified: bool,
    pub audit_rollback_target_ids_verified: bool,
    pub test_infrastructure_media_write_authority_available: bool,
    pub durable_append_authority_available: bool,
    pub durable_audit_policy_available: bool,
    pub transaction_append_available: bool,
    pub missing_transaction_append_authority: bool,
}

/// The canonical lines of the transaction append authority denial gate.
pub open spec fn authority_denial_gate_stream(
    r: RollbackTransactionAppendAuthorityDenialGate,
    layout: StorageLayoutIds,
) -> Seq<u8> {
    line_str("schema", HELLO_ROLLBACK_TRANSACTION_APPEND_AUTHORITY_DENIAL_GATE_SCHEMA)
        + line_str("id", HELLO_ROLLBACK_TRANSACTION_APPEND_AUTHORITY_DENIAL_GATE_ID)
        + line_str("scope", "current_boot")
        + line_str("classification", "local_only")
        + line_str("persistence", "none")
        + line_str("status", HELLO_ROLLBACK_TRANSACTION_APPEND_AUTHORITY_DENIAL_GATE_STATUS)
        + line_str("reason", HELLO_ROLLBACK_TRANSACTION_APPEND_AUTHORITY_DENIAL_GATE_REASON)
        + line_hash("source_transaction_append_availability_decision_sha256",
            r.source_transaction_append_availability_decision_hash@,
        )
        + line_hash("source_durable_append_authority_availability_sha256",
            r.source_durable_append_authority_availability_hash@,
        )
        + line_hash("source_audit_policy_availability_sha256",
            r.source_audit_policy_availability_hash@,
        )
        + line_hash("source_append_engine_readiness_decision_sha256",
            r.source_append_engine_readiness_decision_hash@,
        )
        + line_hash("source_writer_policy_preflight_sha256", r.source_writer_policy_preflight_hash@)
        + line_hash("source_policy_preflight_sha256", r.source_policy_preflight_hash@)
        + line_hash("source_target_region_write_readback_sha256",
            r.source_target_region_write_readback_hash@,
        )
        + line_str("audit_ledger_target_id", layout.audit_append_target_id)
        + line_str("audit_record_schema", layout.audit_append_target_schema)
        + line_str("rollback_store_target_id", layout.rollback_append_target_id)
        + line_str("rollback_transaction_schema", layout.rollback_append_target_schema)
        + line_u64("target_start_lba", r.target_start_lba)
        + line_u64("target_lba_count", r.target_lba_count)
        + line_u64("target_byte_count", r.target_byte_count)
        + line_bool("availability_decision_evidence_verified",
            r.availability_decision_evidence_verified,
        )
        + line_bool("append_engine_ready", r.append_engine_ready)
        + line_bool("writer_policy_ready", r.writer_policy_ready)
        + line_bool("media_write_policy_verified", r.media_write_policy_verified)
        + line_bool("target_region_write_readback_verified",
            r.target_region_write_readback_verified,
        )
        + line_bool("target_span_verified", r.target_span_verified)
        + line_bool("audit_rollback_target_ids_verified", r.audit_rollback_target_ids_verified)
        + line_bool("test_infrastructure_media_write_authority_available",
            r.test_infrastructure_media_write_authority_available,
        )
        + line_bool("durable_append_authority_available", r.durable_append_authority_available)
        + line_bool("durable_audit_policy_available", r.durable_audit_policy_available)
        + line_bool("transaction_append_available", r.transaction_append_available)
        + line_bool("missing_transaction_append_authority", r.missing_transaction_append_authority)
        + line_bool("authorizes_media_write", false)
        + line_bool("authorizes_append", false)
        + line_bool("authorizes_transaction_append", false)
        + line_bool("writes_durable_audit_log", false)
        + line_bool("writes_rollback_store", false)
        + line_bool("appends_rollback_transaction", false)
        + line_bool("write_attempted", false)
}

/// `r` is the transaction append authority denial gate built from its sources.
pub open spec fn is_authority_denial_gate_for(
    r: RollbackTransactionAppendAuthorityDenialGate,
    decision: RollbackTransactionAppendAvailabilityDecision,
    layout: StorageLayoutIds,
) -> bool {
    &&& r.source_transaction_append_availability_decision_hash == decision.decision_hash
    &&& r.source_durable_append_authority_availability_hash
        == decision.source_durable_append_authority_availability_hash
    &&& r.source_audit_policy_availability_hash == decision.source_audit_policy_availability_hash
    &&& r.source_append_engine_readiness_decision_hash
        == decision.source_append_engine_readiness_decision_hash
    &&& r.source_writer_policy_preflight_hash == decision.source_writer_policy_preflight_hash
    &&& r.source_policy_preflight_hash == decision.source_policy_preflight_hash
    &&& r.source_target_region_write_readback_hash
        == decision.source_target_region_write_readback_hash
    &&& r.target_start_lba == decision.target_start_lba
    &&& r.target_lba_count == decision.target_lba_count
    &&& r.target_byte_count == decision.target_byte_count
    &&& r.availability_decision_evidence_verified == (decision.durable_append_authority_availability_evidence_verified
        && decision.audit_policy_availability_evidence_verified
        && decision.append_engine_ready
        && decision.writer_policy_ready
        && decision.media_write_policy_verified
        && decision.target_region_write_readback_verified
        && decision.target_span_verified
        && decision.audit_rollback_target_ids_verified)
    &&& r.append_engine_ready == decision.append_engine_ready
    &&& r.writer_policy_ready == decision.writer_policy_ready
    &&& r.media_write_policy_verified == decision.media_write_policy_verified
    &&& r.target_region_write_readback_verified == decision.target_region_write_readback_verified
    &&& r.target_span_verified == decision.target_span_verified
    &&& r.audit_rollback_target_ids_verified == decision.audit_rollback_target_ids_verified
    &&& r.test_infrastructure_media_write_authority_available
        == decision.test_infrastructure_media_write_authority_available
    &&& r.durable_append_authority_available == decision.durable_append_authority_available
    &&& r.durable_audit_policy_available == decision.durable_audit_policy_available
    &&& r.transaction_append_available == decision.transaction_append_available
    &&& r.missing_transaction_append_authority == (!decision.transaction_append_available
        && (!decision.durable_append_authority_available || !decision.durable_audit_policy_available))
    &&& r.gate_hash@ == sha256_digest(authority_denial_gate_stream(r, layout))
}

/// The transaction append authority denial gate: records that authority is
/// missing when no append is available and durable append authority or a
/// durable audit policy is absent.
pub fn hello_rollback_transaction_append_authority_denial_gate(
    decision: RollbackTransactionAppendAvailabilityDecision,
    layout: StorageLayoutIds,
) -> (result: RollbackTransactionAppendAuthorityDenialGate)
    ensures
        is_authority_denial_gate_for(result, decision, layout),
{
    let availability_decision_evidence_verified = decision.durable_append_authority_availability_evidence_verified
        && decision.audit_policy_availability_evidence_verified
        && decision.append_engine_ready
        && decision.writer_policy_ready
        && decision.media_write_policy_verified
        && decision.target_region_write_readback_verified
        && decision.target_span_verified
        && decision.audit_rollback_target_ids_verified;
    let missing_transaction_append_authority = !decision.transaction_append_available
        && (!decision.durable_append_authority_available || !decision.durable_audit_policy_available);
    let mut hash = sha256_new();
    hash_line_str(&mut hash, "schema",
        HELLO_ROLLBACK_TRANSACTION_APPEND_AUTHORITY_DENIAL_GATE_SCHEMA,
    );
    assert(sha256_absorbed(hash) =~= line_str("schema",
        HELLO_ROLLBACK_TRANSACTION_APPEND_AUTHORITY_DENIAL_GATE_SCHEMA));
    hash_line_str(&mut hash, "id", HELLO_ROLLBACK_TRANSACTION_APPEND_AUTHORITY_DENIAL_GATE_ID);
    hash_line_str(&mut hash, "scope", "current_boot");
    hash_line_str(&mut hash, "classification", "local_only");
    hash_line_str(&mut hash, "persistence", "none");
    hash_line_str(&mut hash, "status",
        HELLO_ROLLBACK_TRANSACTION_APPEND_AUTHORITY_DENIAL_GATE_STATUS,
    );
    hash_line_str(&mut hash, "reason",
        HELLO_ROLLBACK_TRANSACTION_APPEND_AUTHORITY_DENIAL_GATE_REASON,
    );
    hash_line_hash(&mut hash, "source_transaction_append_availability_decision_sha256",
        decision.decision_hash,
    );
    hash_line_hash(&mut hash, "source_durable_append_authority_availability_sha256",
        decision.source_durable_append_authority_availability_hash,
    );
    hash_line_hash(&mut hash, "source_audit_policy_availability_sha256",
        decision.source_audit_policy_availability_hash,
    );
    hash_line_hash(&mut hash, "source_append_engine_readiness_decision_sha256",
        decision.source_append_engine_readiness_decision_hash,
    );
    hash_line_hash(&mut hash, "source_writer_policy_preflight_sha256",
        decision.source_writer_policy_preflight_hash,
    );
    hash_line_hash(&mut hash, "source_policy_preflight_sha256",
        decision.source_policy_preflight_hash,
    );
    hash_line_hash(&mut hash, "source_target_region_write_readback_sha256",
        decision.source_target_region_write_readback_hash,
    );
    hash_line_str(&mut hash, "audit_ledger_target_id", layout.audit_append_target_id);
    hash_line_str(&mut hash, "audit_record_schema", layout.audit_append_target_schema);
    hash_line_str(&mut hash, "rollback_store_target_id", layout.rollback_append_target_id);
    hash_line_str(&mut hash, "rollback_transaction_schema", layout.rollback_append_target_schema);
    hash_line_u64(&mut hash, "target_start_lba", decision.target_start_lba);
    hash_line_u64(&mut hash, "target_lba_count", decision.target_lba_count);
    hash_line_u64(&mut hash, "target_byte_count", decision.target_byte_count);
    hash_line_bool(&mut hash, "availability_decision_evidence_verified",
        availability_decision_evidence_verified,
    );
    hash_line_bool(&mut hash, "append_engine_ready", decision.append_engine_ready);
    hash_line_bool(&mut hash, "writer_policy_ready", decision.writer_policy_ready);
    hash_line_bool(&mut hash, "media_write_policy_verified", decision.media_write_policy_verified);
    hash_line_bool(&mut hash, "target_region_write_readback_verified",
        decision.target_region_write_readback_verified,
    );
    hash_line_bool(&mut hash, "target_span_verified", decision.target_span_verified);
    hash_line_bool(&mut hash, "audit_rollback_target_ids_verified",
        decision.audit_rollback_target_ids_verified,
    );
    hash_line_bool(&mut hash, "test_infrastructure_media_write_authority_available",
        decision.test_infrastructure_media_write_authority_available,
    );
    hash_line_bool(&mut hash, "durable_append_authority_available",
        decision.durable_append_authority_available,
    );
    hash_line_bool(&mut hash, "durable_audit_policy_available",
        decision.durable_audit_policy_available,
    );
    hash_line_bool(&mut hash, "transaction_append_available",
        decision.transaction_append_available,
    );
    hash_line_bool(&mut hash, "missing_transaction_append_authority",
        missing_transaction_append_authority,
    );
    hash_line_bool(&mut hash, "authorizes_media_write", false);
    hash_line_bool(&mut hash, "authorizes_append", false);
    hash_line_bool(&mut hash, "authorizes_transaction_append", false);
    hash_line_bool(&mut hash, "writes_durable_audit_log", false);
    hash_line_bool(&mut hash, "writes_rollback_store", false);
    hash_line_bool(&mut hash, "appends_rollback_transaction", false);
    hash_line_bool(&mut hash, "write_attempted", false);
    RollbackTransactionAppendAuthorityDenialGate {
        gate_hash: finalize_sha256(hash),
        source_transaction_append_availability_decision_hash: decision.decision_hash,
        source_durable_append_authority_availability_hash:
            decision.source_durable_append_authority_availability_hash,
        source_audit_policy_availability_hash: decision.source_audit_policy_availability_hash,
        source_append_engine_readiness_decision_hash:
            decision.source_append_engine_readiness_decision_hash,
        source_writer_policy_preflight_hash: decision.source_writer_policy_preflight_hash,
        source_policy_preflight_hash: decision.source_policy_preflight_hash,
        source_target_region_write_readback_hash: decision.source_target_region_write_readback_hash,
        target_start_lba: decision.target_start_lba,
        target_lba_count: decision.target_lba_count,
        target_byte_count: decision.target_byte_count,
        availability_decision_evidence_verified,
        append_engine_ready: decision.append_engine_ready,
        writer_policy_ready: decision.writer_policy_ready,
        media_write_policy_verified: decision.media_write_policy_verified,
        target_region_write_readback_verified: decision.target_region_write_readback_verified,
        target_span_verified: decision.target_span_verified,
        audit_rollback_target_ids_verified: decision.audit_rollback_target_ids_verified,
        test_infrastructure_media_write_authority_available:
            decision.test_infrastructure_media_write_authority_available,
        durable_append_authority_available: decision.durable_append_authority_available,
        durable_audit_policy_available: decision.durable_audit_policy_available,
        transaction_append_available: decision.transaction_append_available,
        missing_transaction_append_authority,
    }
}

/// The durable policy ledger availability dry run.
#[derive(Clone, Copy)]
pub struct RollbackDurablePolicyLedgerAvailabilityDryRun {
    pub dry_run_hash: [u8; 32],
    pub source_policy_ledger_availability_hash: [u8; 32],
    pub source_write_authority_availability_hash: [u8; 32],
    pub source_ledger_aware_acceptance_result_hash: [u8; 32],
    pub source_ledger_candidate_hash: [u8; 32],
    pub source_policy_preflight_hash: [u8; 32],
    pub source_target_region_write_readback_hash: [u8; 32],
    pub source_authority_denial_gate_hash: [u8; 32],
    pub source_transaction_append_availability_decision_hash: [u8; 32],
    pub target_start_lba: u64,
    pub target_lba_count: u64,
    pub target_byte_count: u64,
    pub policy_ledger_availability_evidence_verified: bool,
    pub write_authority_evidence_verified: bool,
    pub ledger_evidence_verified: bool,
    pub media_write_policy_verified: bool,
    pub target_region_write_readback_verified: bool,
    pub transaction_append_denial_gate_verified: bool,
    pub target_span_verified: bool,
    pub audit_rollback_target_ids_verified: bool,
    pub test_infrastructure_media_write_authority_available: bool,
    pub write_authority_available: bool,
    pub durable_policy_ledger_available: bool,
    pub durable_audit_policy_available: bool,
    pub durable_append_authority_available: bool,
    pub transaction_append_available: bool,
}

/// The canonical lines of the durable policy ledger availability dry run.
pub open spec fn policy_ledger_dry_run_stream(
    r: RollbackDurablePolicyLedgerAvailabilityDryRun,
    layout: StorageLayoutIds,
) -> Seq<u8> {
    line_str("schema", HELLO_ROLLBACK_DURABLE_POLICY_LEDGER_AVAILABILITY_DRY_RUN_SCHEMA)
        + line_str("id", HELLO_ROLLBACK_DURABLE_POLICY_LEDGER_AVAILABILITY_DRY_RUN_ID)
        + line_str("scope", "current_boot")
        + line_str("classification", "local_only")
        + line_str("persistence", "none")
        + line_str("status", HELLO_ROLLBACK_DURABLE_POLICY_LEDGER_AVAILABILITY_DRY_RUN_STATUS)
        + line_str("reason", HELLO_ROLLBACK_DURABLE_POLICY_LEDGER_AVAILABILITY_DRY_RUN_REASON)
        + line_hash("source_policy_ledger_availability_sha256",
            r.source_policy_ledger_availability_hash@,
        )
        + line_hash("source_write_authority_availability_sha256",
            r.source_write_authority_availability_hash@,
        )
        + line_hash("source_ledger_aware_acceptance_result_sha256",
            r.source_ledger_aware_acceptance_result_hash@,
        )
        + line_hash("source_ledger_candidate_sha256", r.source_ledger_candidate_hash@)
        + line_hash("source_policy_preflight_sha256", r.source_policy_preflight_hash@)
        + line_hash("source_target_region_write_readback_sha256",
            r.source_target_region_write_readback_hash@,
        )
        + line_hash("source_authority_denial_gate_sha256", r.source_authority_denial_gate_hash@)
        + line_hash("source_transaction_append_availability_decision_sha256",
            r.source_transaction_append_availability_decision_hash@,
        )
        + line_str("audit_ledger_target_id", layout.audit_append_target_id)
        + line_str("audit_record_schema", layout.audit_append_target_schema)
        + line_str("rollback_store_target_id", layout.rollback_append_target_id)
        + line_str("rollback_transaction_schema", layout.rollback_append_target_schema)
        + line_u64("target_start_lba", r.target_start_lba)
        + line_u64("target_lba_count", r.target_lba_count)
        + line_u64("target_byte_count", r.target_byte_count)
        + line_bool("policy_ledger_availability_evidence_verified",
            r.policy_ledger_availability_evidence_verified,
        )
        + line_bool("write_authority_evidence_verified", r.write_authority_evidence_verified)
        + line_bool("ledger_evidence_verified", r.ledger_evidence_verified)
        + line_bool("media_write_policy_verified", r.media_write_policy_verified)
        + line_bool("target_region_write_readback_verified",
            r.target_region_write_readback_verified,
        )
        + line_bool("transaction_append_denial_gate_verified",
            r.transaction_append_denial_gate_verified,
        )
        + line_bool("target_span_verified", r.target_span_verified)
        + line_bool("audit_rollback_target_ids_verified", r.audit_rollback_target_ids_verified)
        + line_bool("test_infrastructure_media_write_authority_available",
            r.test_infrastructure_media_write_authority_available,
        )
        + line_bool("write_authority_available", r.write_authority_available)
        + line_bool("durable_policy_ledger_available", r.durable_policy_ledger_available)
        + line_bool("durable_audit_policy_available", r.durable_audit_policy_available)
        + line_bool("durable_append_authority_available", r.durable_append_authority_available)
        + line_bool("transaction_append_available", r.transaction_append_available)
        + line_bool("authorizes_media_write", false)
        + line_bool("authorizes_append", false)
        + line_bool("authorizes_transaction_append", false)
        + line_bool("writes_durable_audit_log", false)
        + line_bool("writes_rollback_store", false)
        + line_bool("appends_rollback_transaction", false)
        + line_bool("write_attempted", false)
        + line_bool("applies_rollback", false)
        + line_bool("installs_rollback_state", false)
}

/// `r` is the durable policy ledger availability dry run built from its sources.
pub open spec fn is_policy_ledger_dry_run_for(
    r: RollbackDurablePolicyLedgerAvailabilityDryRun,
    policy_ledger_availability: RollbackDurablePolicyLedgerAvailability,
    write_authority_availability: RollbackDurableAuditPolicyWriteAuthorityAvailability,
    authority_denial_gate: RollbackTransactionAppendAuthorityDenialGate,
    target_region_write: RollbackTargetRegionWriteReadbackDryRun,
    layout: StorageLayoutIds,
) -> bool {
    &&& r.source_policy_ledger_availability_hash == policy_ledger_availability.availability_hash
    &&& r.source_write_authority_availability_hash
        == policy_ledger_availability.source_write_authority_availability_hash
    &&& r.source_ledger_aware_acceptance_result_hash
        == policy_ledger_availability.source_ledger_aware_acceptance_result_hash
    &&& r.source_ledger_candidate_hash == policy_ledger_availability.source_ledger_candidate_hash
    &&& r.source_policy_preflight_hash == policy_ledger_availability.source_policy_preflight_hash
    &&& r.source_target_region_write_readback_hash
        == policy_ledger_availability.source_target_region_write_readback_hash
    &&& r.source_authority_denial_gate_hash == authority_denial_gate.gate_hash
    &&& r.source_transaction_append_availability_decision_hash
        == authority_denial_gate.source_transaction_append_availability_decision_hash
    &&& r.target_start_lba == policy_ledger_availability.target_start_lba
    &&& r.target_lba_count == policy_ledger_availability.target_lba_count
    &&& r.target_byte_count == policy_ledger_availability.target_byte_count
    &&& r.policy_ledger_availability_evidence_verified == (policy_ledger_availability.write_authority_evidence_verified
        && policy_ledger_availability.ledger_evidence_verified
        && policy_ledger_availability.media_write_policy_verified
        && policy_ledger_availability.target_region_write_readback_verified
        && !policy_ledger_availability.durable_policy_ledger_available)
    &&& r.write_authority_evidence_verified == (policy_ledger_availability.source_write_authority_availability_hash@ == write_authority_availability.availability_hash@
        && write_authority_availability.ledger_evidence_verified
        && write_authority_availability.media_write_policy_verified
        && !write_authority_availability.write_authority_available)
    &&& r.ledger_evidence_verified == (policy_ledger_availability.ledger_evidence_verified
        && write_authority_availability.ledger_evidence_verified
        && policy_ledger_availability.source_ledger_aware_acceptance_result_hash@ == write_authority_availability.source_ledger_aware_acceptance_result_hash@
        && policy_ledger_availability.source_ledger_candidate_hash@ == write_authority_availability.source_ledger_candidate_hash@)
    &&& r.media_write_policy_verified == (policy_ledger_availability.media_write_policy_verified
        && write_authority_availability.media_write_policy_verified
        && policy_ledger_availability.source_policy_preflight_hash@ == target_region_write.source_policy_preflight_hash@)
    &&& r.target_region_write_readback_verified == (policy_ledger_availability.target_region_write_readback_verified
        && write_authority_availability.target_region_write_readback_verified
        && policy_ledger_availability.source_target_region_write_readback_hash@ == target_region_write.dry_run_hash@
        && target_region_write.readback_matches_planned_image
        && target_region_write.write_attempted
        && target_region_write.write_completed
        && target_region_write.readback_completed)
    &&& r.transaction_append_denial_gate_verified == (authority_denial_gate.missing_transaction_append_authority
        && !authority_denial_gate.transaction_append_available
        && authority_denial_gate.source_target_region_write_readback_hash@ == policy_ledger_availability.source_target_region_write_readback_hash@
        && authority_denial_gate.source_policy_preflight_hash@ == policy_ledger_availability.source_policy_preflight_hash@
        && authority_denial_gate.media_write_policy_verified
        && authority_denial_gate.target_region_write_readback_verified)
    &&& r.target_span_verified == (policy_ledger_availability.target_span_verified
        && write_authority_availability.target_span_verified
        && authority_denial_gate.target_span_verified
        && target_region_write.target_range_ready
        && policy_ledger_availability.target_start_lba == write_authority_availability.target_start_lba
        && policy_ledger_availability.target_lba_count == write_authority_availability.target_lba_count
        && policy_ledger_availability.target_byte_count == write_authority_availability.target_byte_count
        && policy_ledger_availability.target_start_lba == authority_denial_gate.target_start_lba
        && policy_ledger_availability.target_lba_count == authority_denial_gate.target_lba_count
        && policy_ledger_availability.target_byte_count == authority_denial_gate.target_byte_count
        && policy_ledger_availability.target_start_lba == target_region_write.target_start_lba
        && policy_ledger_availability.target_lba_count == target_region_write.target_lba_count
        && policy_ledger_availability.target_byte_count == target_region_write.target_byte_count)
    &&& r.audit_rollback_target_ids_verified == (policy_ledger_availability.audit_rollback_target_ids_verified
        && write_authority_availability.audit_rollback_target_ids_verified
        && authority_denial_gate.audit_rollback_target_ids_verified)
    &&& r.test_infrastructure_media_write_authority_available == (policy_ledger_availability.test_infrastructure_media_write_authority_available
        && write_authority_availability.test_infrastructure_media_write_authority_available
        && authority_denial_gate.test_infrastructure_media_write_authority_available
        && target_region_write.test_infrastructure_media_write_authority_available)
    &&& r.write_authority_available == policy_ledger_availability.write_authority_available
    &&& r.durable_policy_ledger_available
        == policy_ledger_availability.durable_policy_ledger_available
    &&& r.durable_audit_policy_available
        == policy_ledger_availability.durable_audit_policy_available
    &&& r.durable_append_authority_available
        == policy_ledger_availability.durable_append_authority_available
    &&& r.transaction_append_available == authority_denial_gate.transaction_append_available
    &&& r.dry_run_hash@ == sha256_digest(policy_ledger_dry_run_stream(r, layout))
}

/// The durable policy ledger availability dry run: cross-checks the ledger
/// availability against the write authority availability, the denial gate
/// and the target region write.
#[verifier::rlimit(60)]
pub fn hello_rollback_durable_policy_ledger_availability_dry_run(
    policy_ledger_availability: RollbackDurablePolicyLedgerAvailability,
    write_authority_availability: RollbackDurableAuditPolicyWriteAuthorityAvailability,
    authority_denial_gate: RollbackTransactionAppendAuthorityDenialGate,
    target_region_write: RollbackTargetRegionWriteReadbackDryRun,
    layout: StorageLayoutIds,
) -> (result: RollbackDurablePolicyLedgerAvailabilityDryRun)
    ensures
        is_policy_ledger_dry_run_for(
            result,
            policy_ledger_availability,
            write_authority_availability,
            authority_denial_gate,
            target_region_write,
            layout,
        ),
{
    let target_span_verified = policy_ledger_availability.target_span_verified
        && write_authority_availability.target_span_verified
        && authority_denial_gate.target_span_verified
        && target_region_write.target_range_ready
        && policy_ledger_availability.target_start_lba == write_authority_availability.target_start_lba
        && policy_ledger_availability.target_lba_count == write_authority_availability.target_lba_count
        && policy_ledger_availability.target_byte_count == write_authority_availability.target_byte_count
        && policy_ledger_availability.target_start_lba == authority_denial_gate.target_start_lba
        && policy_ledger_availability.target_lba_count == authority_denial_gate.target_lba_count
        && policy_ledger_availability.target_byte_count == authority_denial_gate.target_byte_count
        && policy_ledger_availability.target_start_lba == target_region_write.target_start_lba
        && policy_ledger_availability.target_lba_count == target_region_write.target_lba_count
        && policy_ledger_availability.target_byte_count == target_region_write.target_byte_count;
    let policy_ledger_availability_evidence_verified = policy_ledger_availability.write_authority_evidence_verified
        && policy_ledger_availability.ledger_evidence_verified
        && policy_ledger_availability.media_write_policy_verified
        && policy_ledger_availability.target_region_write_readback_verified
        && !policy_ledger_availability.durable_policy_ledger_available;
    let source_write_authority_availability_matches_write_authority_availability = digest_eq(
        &policy_ledger_availability.source_write_authority_availability_hash,
        &write_authority_availability.availability_hash,
    );
    let write_authority_evidence_verified = source_write_authority_availability_matches_write_authority_availability
        && write_authority_availability.ledger_evidence_verified
        && write_authority_availability.media_write_policy_verified
        && !write_authority_availability.write_authority_available;
    let source_ledger_aware_acceptance_result_matches_write_authority_availability = digest_eq(
        &policy_ledger_availability.source_ledger_aware_acceptance_result_hash,
        &write_authority_availability.source_ledger_aware_acceptance_result_hash,
    );
    let source_ledger_candidate_matches_write_authority_availability = digest_eq(
        &policy_ledger_availability.source_ledger_candidate_hash,
        &write_authority_availability.source_ledger_candidate_hash,
    );
    let ledger_evidence_verified = policy_ledger_availability.ledger_evidence_verified
        && write_authority_availability.ledger_evidence_verified
        && source_ledger_aware_acceptance_result_matches_write_authority_availability
        && source_ledger_candidate_matches_write_authority_availability;
    let source_policy_preflight_matches_target_region_write = digest_eq(
        &policy_ledger_availability.source_policy_preflight_hash,
        &target_region_write.source_policy_preflight_hash,
    );
    let media_write_policy_verified = policy_ledger_availability.media_write_policy_verified
        && write_authority_availability.media_write_policy_verified
        && source_policy_preflight_matches_target_region_write;
    let source_target_region_write_readback_matches_target_region_write = digest_eq(
        &policy_ledger_availability.source_target_region_write_readback_hash,
        &target_region_write.dry_run_hash,
    );
    let target_region_write_readback_verified = policy_ledger_availability.target_region_write_readback_verified
        && write_authority_availability.target_region_write_readback_verified
        && source_target_region_write_readback_matches_target_region_write
        && target_region_write.readback_matches_planned_image
        && target_region_write.write_attempted
        && target_region_write.write_completed
        && target_region_write.readback_completed;
    let source_target_region_write_readback_matches_policy_ledger_availability = digest_eq(
        &authority_denial_gate.source_target_region_write_readback_hash,
        &policy_ledger_availability.source_target_region_write_readback_hash,
    );
    let source_policy_preflight_matches_policy_ledger_availability = digest_eq(
        &authority_denial_gate.source_policy_preflight_hash,
        &policy_ledger_availability.source_policy_preflight_hash,
    );
    let transaction_append_denial_gate_verified = authority_denial_gate.missing_transaction_append_authority
        && !authority_denial_gate.transaction_append_available
        && source_target_region_write_readback_matches_policy_ledger_availability
        && source_policy_preflight_matches_policy_ledger_availability
        && authority_denial_gate.media_write_policy_verified
        && authority_denial_gate.target_region_write_readback_verified;
    let audit_rollback_target_ids_verified = policy_ledger_availability.audit_rollback_target_ids_verified
        && write_authority_availability.audit_rollback_target_ids_verified
        && authority_denial_gate.audit_rollback_target_ids_verified;
    let test_infrastructure_media_write_authority_available = policy_ledger_availability.test_infrastructure_media_write_authority_available
        && write_authority_availability.test_infrastructure_media_write_authority_available
        && authority_denial_gate.test_infrastructure_media_write_authority_available
        && target_region_write.test_infrastructure_media_write_authority_available;
    let mut hash = sha256_new();
    hash_line_str(&mut hash, "schema",
        HELLO_ROLLBACK_DURABLE_POLICY_LEDGER_AVAILABILITY_DRY_RUN_SCHEMA,
    );
    assert(sha256_absorbed(hash) =~= line_str("schema",
        HELLO_ROLLBACK_DURABLE_POLICY_LEDGER_AVAILABILITY_DRY_RUN_SCHEMA));
    hash_line_str(&mut hash, "id", HELLO_ROLLBACK_DURABLE_POLICY_LEDGER_AVAILABILITY_DRY_RUN_ID);
    hash_line_str(&mut hash, "scope", "current_boot");
    hash_line_str(&mut hash, "classification", "local_only");
    hash_line_str(&mut hash, "persistence", "none");
    hash_line_str(&mut hash, "status",
        HELLO_ROLLBACK_DURABLE_POLICY_LEDGER_AVAILABILITY_DRY_RUN_STATUS,
    );
    hash_line_str(&mut hash, "reason",
        HELLO_ROLLBACK_DURABLE_POLICY_LEDGER_AVAILABILITY_DRY_RUN_REASON,
    );
    hash_line_hash(&mut hash, "source_policy_ledger_availability_sha256",
        policy_ledger_availability.availability_hash,
    );
    hash_line_hash(&mut hash, "source_write_authority_availability_sha256",
        policy_ledger_availability.source_write_authority_availability_hash,
    );
    hash_line_hash(&mut hash, "source_ledger_aware_acceptance_result_sha256",
        policy_ledger_availability.source_ledger_aware_acceptance_result_hash,
    );
    hash_line_hash(&mut hash, "source_ledger_candidate_sha256",
        policy_ledger_availability.source_ledger_candidate_hash,
    );
    hash_line_hash(&mut hash, "source_policy_preflight_sha256",
        policy_ledger_availability.source_policy_preflight_hash,
    );
    hash_line_hash(&mut hash, "source_target_region_write_readback_sha256",
        policy_ledger_availability.source_target_region_write_readback_hash,
    );
    hash_line_hash(&mut hash, "source_authority_denial_gate_sha256",
        authority_denial_gate.gate_hash,
    );
    hash_line_hash(&mut hash, "source_transaction_append_availability_decision_sha256",
        authority_denial_gate.source_transaction_append_availability_decision_hash,
    );
    hash_line_str(&mut hash, "audit_ledger_target_id", layout.audit_append_target_id);
    hash_line_str(&mut hash, "audit_record_schema", layout.audit_append_target_schema);
    hash_line_str(&mut hash, "rollback_store_target_id", layout.rollback_append_target_id);
    hash_line_str(&mut hash, "rollback_transaction_schema", layout.rollback_append_target_schema);
    hash_line_u64(&mut hash, "target_start_lba", policy_ledger_availability.target_start_lba);
    hash_line_u64(&mut hash, "target_lba_count", policy_ledger_availability.target_lba_count);
    hash_line_u64(&mut hash, "target_byte_count", policy_ledger_availability.target_byte_count);
    hash_line_bool(&mut hash, "policy_ledger_availability_evidence_verified",
        policy_ledger_availability_evidence_verified,
    );
    hash_line_bool(&mut hash, "write_authority_evidence_verified",
        write_authority_evidence_verified,
    );
    hash_line_bool(&mut hash, "ledger_evidence_verified", ledger_evidence_verified);
    hash_line_bool(&mut hash, "media_write_policy_verified", media_write_policy_verified);
    hash_line_bool(&mut hash, "target_region_write_readback_verified",
        target_region_write_readback_verified,
    );
    hash_line_bool(&mut hash, "transaction_append_denial_gate_verified",
        transaction_append_denial_gate_verified,
    );
    hash_line_bool(&mut hash, "target_span_verified", target_span_verified);
    hash_line_bool(&mut hash, "audit_rollback_target_ids_verified",
        audit_rollback_target_ids_verified,
    );
    hash_line_bool(&mut hash, "test_infrastructure_media_write_authority_available",
        test_infrastructure_media_write_authority_available,
    );
    hash_line_bool(&mut hash, "write_authority_available",
        policy_ledger_availability.write_authority_available,
    );
    hash_line_bool(&mut hash, "durable_policy_ledger_available",
        policy_ledger_availability.durable_policy_ledger_available,
    );
    hash_line_bool(&mut hash, "durable_audit_policy_available",
        policy_ledger_availability.durable_audit_policy_available,
    );
    hash_line_bool(&mut hash, "durable_append_authority_available",
        policy_ledger_availability.durable_append_authority_available,
    );
    hash_line_bool(&mut hash, "transaction_append_available",
        authority_denial_gate.transaction_append_available,
    );
    hash_line_bool(&mut hash, "authorizes_media_write", false);
    hash_line_bool(&mut hash, "authorizes_append", false);
    hash_line_bool(&mut hash, "authorizes_transaction_append", false);
    hash_line_bool(&mut hash, "writes_durable_audit_log", false);
    hash_line_bool(&mut hash, "writes_rollback_store", false);
    hash_line_bool(&mut hash, "appends_rollback_transaction", false);
    hash_line_bool(&mut hash, "write_attempted", false);
    hash_line_bool(&mut hash, "applies_rollback", false);
    hash_line_bool(&mut hash, "installs_rollback_state", false);
    RollbackDurablePolicyLedgerAvailabilityDryRun {
        dry_run_hash: finalize_sha256(hash),
        source_policy_ledger_availability_hash: policy_ledger_availability.availability_hash,
        source_write_authority_availability_hash:
            policy_ledger_availability.source_write_authority_availability_hash,
        source_ledger_aware_acceptance_result_hash:
            policy_ledger_availability.source_ledger_aware_acceptance_result_hash,
        source_ledger_candidate_hash: policy_ledger_availability.source_ledger_candidate_hash,
        source_policy_preflight_hash: policy_ledger_availability.source_policy_preflight_hash,
        source_target_region_write_readback_hash:
            policy_ledger_availability.source_target_region_write_readback_hash,
        source_authority_denial_gate_hash: authority_denial_gate.gate_hash,
        source_transaction_append_availability_decision_hash:
            authority_denial_gate.source_transaction_append_availability_decision_hash,
        target_start_lba: policy_ledger_availability.target_start_lba,
        target_lba_count: policy_ledger_availability.target_lba_count,
        target_byte_count: policy_ledger_availability.target_byte_count,
        policy_ledger_availability_evidence_verified,
        write_authority_evidence_verified,
        ledger_evidence_verified,
        media_write_policy_verified,
        target_region_write_readback_verified,
        transaction_append_denial_gate_verified,
        target_span_verified,
        audit_rollback_target_ids_verified,
        test_infrastructure_media_write_authority_available,
        write_authority_available: policy_ledger_availability.write_authority_available,
        durable_policy_ledger_available: policy_ledger_availability.durable_policy_ledger_available,
        durable_audit_policy_available: policy_ledger_availability.durable_audit_policy_available,
        durable_append_authority_available:
            policy_ledger_availability.durable_append_authority_available,
        transaction_append_available: authority_denial_gate.transaction_append_available,
    }
}

/// The durable audit policy availability dry run.
#[derive(Clone, Copy)]
pub struct RollbackDurableAuditPolicyAvailabilityDryRun {
    pub dry_run_hash: [u8; 32],
    pub source_audit_policy_availability_hash: [u8; 32],
    pub source_policy_ledger_availability_dry_run_hash: [u8; 32],
    pub source_policy_ledger_availability_hash: [u8; 32],
    pub source_write_authority_availability_hash: [u8; 32],
    pub source_ledger_aware_acceptance_result_hash: [u8; 32],
    pub source_ledger_candidate_hash: [u8; 32],
    pub source_policy_preflight_hash: [u8; 32],
    pub source_target_region_write_readback_hash: [u8; 32],
    pub source_authority_denial_gate_hash: [u8; 32],
    pub source_transaction_append_availability_decision_hash: [u8; 32],
    pub target_start_lba: u64,
    pub target_lba_count: u64,
    pub target_byte_count: u64,
    pub audit_policy_availability_evidence_verified: bool,
    pub policy_ledger_dry_run_evidence_verified: bool,
    pub policy_ledger_availability_evidence_verified: bool,
    pub write_authority_evidence_verified: bool,
    pub ledger_evidence_verified: bool,
    pub media_write_policy_verified: bool,
    pub target_region_write_readback_verified: bool,
    pub transaction_append_denial_gate_verified: bool,
    pub target_span_verified: bool,
    pub audit_rollback_target_ids_verified: bool,
    pub test_infrastructure_media_write_authority_available: bool,
    pub write_authority_available: bool,
    pub durable_policy_ledger_available: bool,
    pub durable_audit_policy_available: bool,
    pub durable_append_authority_available: bool,
    pub transaction_append_available: bool,
}

/// The canonical lines of the durable audit policy availability dry run.
pub open spec fn audit_policy_dry_run_stream(
    r: RollbackDurableAuditPolicyAvailabilityDryRun,
    layout: StorageLayoutIds,
) -> Seq<u8> {
    line_str("schema", HELLO_ROLLBACK_DURABLE_AUDIT_POLICY_AVAILABILITY_DRY_RUN_SCHEMA)
        + line_str("id", HELLO_ROLLBACK_DURABLE_AUDIT_POLICY_AVAILABILITY_DRY_RUN_ID)
        + line_str("scope", "current_boot")
        + line_str("classification", "local_only")
        + line_str("persistence", "none")
        + line_str("status", HELLO_ROLLBACK_DURABLE_AUDIT_POLICY_AVAILABILITY_DRY_RUN_STATUS)
        + line_str("reason", HELLO_ROLLBACK_DURABLE_AUDIT_POLICY_AVAILABILITY_DRY_RUN_REASON)
        + line_hash("source_audit_policy_availability_sha256",
            r.source_audit_policy_availability_hash@,
        )
        + line_hash("source_policy_ledger_availability_dry_run_sha256",
            r.source_policy_ledger_availability_dry_run_hash@,
        )
        + line_hash("source_policy_ledger_availability_sha256",
            r.source_policy_ledger_availability_hash@,
        )
        + line_hash("source_write_authority_availability_sha256",
            r.source_write_authority_availability_hash@,
        )
        + line_hash("source_ledger_aware_acceptance_result_sha256",
            r.source_ledger_aware_acceptance_result_hash@,
        )
        + line_hash("source_ledger_candidate_sha256", r.source_ledger_candidate_hash@)
        + line_hash("source_policy_preflight_sha256", r.source_policy_preflight_hash@)
        + line_hash("source_target_region_write_readback_sha256",
            r.source_target_region_write_readback_hash@,
        )
        + line_hash("source_authority_denial_gate_sha256", r.source_authority_denial_gate_hash@)
        + line_hash("source_transaction_append_availability_decision_sha256",
            r.source_transaction_append_availability_decision_hash@,
        )
        + line_str("audit_ledger_target_id", layout.audit_append_target_id)
        + line_str("audit_record_schema", layout.audit_append_target_schema)
        + line_str("rollback_store_target_id", layout.rollback_append_target_id)
        + line_str("rollback_transaction_schema", layout.rollback_append_target_schema)
        + line_u64("target_start_lba", r.target_start_lba)
        + line_u64("target_lba_count", r.target_lba_count)
        + line_u64("target_byte_count", r.target_byte_count)
        + line_bool("audit_policy_availability_evidence_verified",
            r.audit_policy_availability_evidence_verified,
        )
        + line_bool("policy_ledger_dry_run_evidence_verified",
            r.policy_ledger_dry_run_evidence_verified,
        )
        + line_bool("policy_ledger_availability_evidence_verified",
            r.policy_ledger_availability_evidence_verified,
        )
        + line_bool("write_authority_evidence_verified", r.write_authority_evidence_verified)
        + line_bool("ledger_evidence_verified", r.ledger_evidence_verified)
        + line_bool("media_write_policy_verified", r.media_write_policy_verified)
        + line_bool("target_region_write_readback_verified",
            r.target_region_write_readback_verified,
        )
        + line_bool("transaction_append_denial_gate_verified",
            r.transaction_append_denial_gate_verified,
        )
        + line_bool("target_span_verified", r.target_span_verified)
        + line_bool("audit_rollback_target_ids_verified", r.audit_rollback_target_ids_verified)
        + line_bool("test_infrastructure_media_write_authority_available",
            r.test_infrastructure_media_write_authority_available,
        )
        + line_bool("write_authority_available", r.write_authority_available)
        + line_bool("durable_policy_ledger_available", r.durable_policy_ledger_available)
        + line_bool("durable_audit_policy_available", r.durable_audit_policy_available)
        + line_bool("durable_append_authority_available", r.durable_append_authority_available)
        + line_bool("transaction_append_available", r.transaction_append_available)
        + line_bool("authorizes_media_write", false)
        + line_bool("authorizes_append", false)
        + line_bool("authorizes_transaction_append", false)
        + line_bool("writes_durable_audit_log", false)
        + line_bool("writes_rollback_store", false)
        + line_bool("appends_rollback_transaction", false)
        + line_bool("write_attempted", false)
        + line_bool("applies_rollback", false)
        + line_bool("installs_rollback_state", false)
}

/// `r` is the durable audit policy availability dry run built from its sources.
pub open spec fn is_audit_policy_dry_run_for(
    r: RollbackDurableAuditPolicyAvailabilityDryRun,
    audit_policy_availability: RollbackDurableAuditPolicyAvailability,
    policy_ledger_dry_run: RollbackDurablePolicyLedgerAvailabilityDryRun,
    authority_denial_gate: RollbackTransactionAppendAuthorityDenialGate,
    target_region_write: RollbackTargetRegionWriteReadbackDryRun,
    layout: StorageLayoutIds,
) -> bool {
    &&& r.source_audit_policy_availability_hash == audit_policy_availability.availability_hash
    &&& r.source_policy_ledger_availability_dry_run_hash == policy_ledger_dry_run.dry_run_hash
    &&& r.source_policy_ledger_availability_hash
        == audit_policy_availability.source_policy_ledger_availability_hash
    &&& r.source_write_authority_availability_hash
        == audit_policy_availability.source_write_authority_availability_hash
    &&& r.source_ledger_aware_acceptance_result_hash
        == audit_policy_availability.source_ledger_aware_acceptance_result_hash
    &&& r.source_ledger_candidate_hash == audit_policy_availability.source_ledger_candidate_hash
    &&& r.source_policy_preflight_hash == audit_policy_availability.source_policy_preflight_hash
    &&& r.source_target_region_write_readback_hash
        == audit_policy_availability.source_target_region_write_readback_hash
    &&& r.source_authority_denial_gate_hash == authority_denial_gate.gate_hash
    &&& r.source_transaction_append_availability_decision_hash
        == authority_denial_gate.source_transaction_append_availability_decision_hash
    &&& r.target_start_lba == audit_policy_availability.target_start_lba
    &&& r.target_lba_count == audit_policy_availability.target_lba_count
    &&& r.target_byte_count == audit_policy_availability.target_byte_count
    &&& r.audit_policy_availability_evidence_verified == (audit_policy_availability.policy_ledger_availability_evidence_verified
        && audit_policy_availability.write_authority_evidence_verified
        && audit_policy_availability.ledger_evidence_verified
        && audit_policy_availability.media_write_policy_verified
        && audit_policy_availability.target_region_write_readback_verified
        && audit_policy_availability.audit_rollback_target_ids_verified
        && !audit_policy_availability.durable_audit_policy_available)
    &&& r.policy_ledger_dry_run_evidence_verified == (policy_ledger_dry_run.policy_ledger_availability_evidence_verified
        && policy_ledger_dry_run.transaction_append_denial_gate_verified
        && !policy_ledger_dry_run.durable_policy_ledger_available
        && !policy_ledger_dry_run.durable_audit_policy_available)
    &&& r.policy_ledger_availability_evidence_verified == (audit_policy_availability.source_policy_ledger_availability_hash@ == policy_ledger_dry_run.source_policy_ledger_availability_hash@
        && audit_policy_availability.policy_ledger_availability_evidence_verified
        && policy_ledger_dry_run.policy_ledger_availability_evidence_verified)
    &&& r.write_authority_evidence_verified == (audit_policy_availability.source_write_authority_availability_hash@ == policy_ledger_dry_run.source_write_authority_availability_hash@
        && audit_policy_availability.write_authority_evidence_verified
        && policy_ledger_dry_run.write_authority_evidence_verified
        && !audit_policy_availability.write_authority_available)
    &&& r.ledger_evidence_verified == (audit_policy_availability.ledger_evidence_verified
        && policy_ledger_dry_run.ledger_evidence_verified
        && audit_policy_availability.source_ledger_aware_acceptance_result_hash@ == policy_ledger_dry_run.source_ledger_aware_acceptance_result_hash@
        && audit_policy_availability.source_ledger_candidate_hash@ == policy_ledger_dry_run.source_ledger_candidate_hash@)
    &&& r.media_write_policy_verified == (audit_policy_availability.media_write_policy_verified
        && policy_ledger_dry_run.media_write_policy_verified
        && audit_policy_availability.source_policy_preflight_hash@ == policy_ledger_dry_run.source_policy_preflight_hash@
        && audit_policy_availability.source_policy_preflight_hash@ == target_region_write.source_policy_preflight_hash@)
    &&& r.target_region_write_readback_verified == (audit_policy_availability.target_region_write_readback_verified
        && policy_ledger_dry_run.target_region_write_readback_verified
        && audit_policy_availability.source_target_region_write_readback_hash@ == policy_ledger_dry_run.source_target_region_write_readback_hash@
        && audit_policy_availability.source_target_region_write_readback_hash@ == target_region_write.dry_run_hash@
        && target_region_write.readback_matches_planned_image
        && target_region_write.write_attempted
        && target_region_write.write_completed
        && target_region_write.readback_completed)
    &&& r.transaction_append_denial_gate_verified == (policy_ledger_dry_run.source_authority_denial_gate_hash@ == authority_denial_gate.gate_hash@
        && policy_ledger_dry_run.source_transaction_append_availability_decision_hash@ == authority_denial_gate.source_transaction_append_availability_decision_hash@
        && policy_ledger_dry_run.transaction_append_denial_gate_verified
        && authority_denial_gate.missing_transaction_append_authority
        && !authority_denial_gate.transaction_append_available)
    &&& r.target_span_verified == (audit_policy_availability.target_span_verified
        && policy_ledger_dry_run.target_span_verified
        && authority_denial_gate.target_span_verified
        && target_region_write.target_range_ready
        && audit_policy_availability.target_start_lba == policy_ledger_dry_run.target_start_lba
        && audit_policy_availability.target_lba_count == policy_ledger_dry_run.target_lba_count
        && audit_policy_availability.target_byte_count == policy_ledger_dry_run.target_byte_count
        && audit_policy_availability.target_start_lba == authority_denial_gate.target_start_lba
        && audit_policy_availability.target_lba_count == authority_denial_gate.target_lba_count
        && audit_policy_availability.target_byte_count == authority_denial_gate.target_byte_count
        && audit_policy_availability.target_start_lba == target_region_write.target_start_lba
        && audit_policy_availability.target_lba_count == target_region_write.target_lba_count
        && audit_policy_availability.target_byte_count == target_region_write.target_byte_count)
    &&& r.audit_rollback_target_ids_verified == (audit_policy_availability.audit_rollback_target_ids_verified
        && policy_ledger_dry_run.audit_rollback_target_ids_verified
        && authority_denial_gate.audit_rollback_target_ids_verified)
    &&& r.test_infrastructure_media_write_authority_available == (audit_policy_availability.test_infrastructure_media_write_authority_available
        && policy_ledger_dry_run.test_infrastructure_media_write_authority_available
        && authority_denial_gate.test_infrastructure_media_write_authority_available
        && target_region_write.test_infrastructure_media_write_authority_available)
    &&& r.write_authority_available == audit_policy_availability.write_authority_available
    &&& r.durable_policy_ledger_available
        == audit_policy_availability.durable_policy_ledger_available
    &&& r.durable_audit_policy_available == audit_policy_availability.durable_audit_policy_available
    &&& r.durable_append_authority_available
        == audit_policy_availability.durable_append_authority_available
    &&& r.transaction_append_available == authority_denial_gate.transaction_append_available
    &&& r.dry_run_hash@ == sha256_digest(audit_policy_dry_run_stream(r, layout))
}

/// The durable audit policy availability dry run: cross-checks the audit
/// policy availability against the ledger dry run, the denial gate and the
/// target region write.
#[verifier::rlimit(60)]
pub fn hello_rollback_durable_audit_policy_availability_dry_run(
    audit_policy_availability: RollbackDurableAuditPolicyAvailability,
    policy_ledger_dry_run: RollbackDurablePolicyLedgerAvailabilityDryRun,
    authority_denial_gate: RollbackTransactionAppendAuthorityDenialGate,
    target_region_write: RollbackTargetRegionWriteReadbackDryRun,
    layout: StorageLayoutIds,
) -> (result: RollbackDurableAuditPolicyAvailabilityDryRun)
    ensures
        is_audit_policy_dry_run_for(
            result,
            audit_policy_availability,
            policy_ledger_dry_run,
            authority_denial_gate,
            target_region_write,
            layout,
        ),
{
    let target_span_verified = audit_policy_availability.target_span_verified
        && policy_ledger_dry_run.target_span_verified
        && authority_denial_gate.target_span_verified
        && target_region_write.target_range_ready
        && audit_policy_availability.target_start_lba == policy_ledger_dry_run.target_start_lba
        && audit_policy_availability.target_lba_count == policy_ledger_dry_run.target_lba_count
        && audit_policy_availability.target_byte_count == policy_ledger_dry_run.target_byte_count
        && audit_policy_availability.target_start_lba == authority_denial_gate.target_start_lba
        && audit_policy_availability.target_lba_count == authority_denial_gate.target_lba_count
        && audit_policy_availability.target_byte_count == authority_denial_gate.target_byte_count
        && audit_policy_availability.target_start_lba == target_region_write.target_start_lba
        && audit_policy_availability.target_lba_count == target_region_write.target_lba_count
        && audit_policy_availability.target_byte_count == target_region_write.target_byte_count;
    let audit_policy_availability_evidence_verified = audit_policy_availability.policy_ledger_availability_evidence_verified
        && audit_policy_availability.write_authority_evidence_verified
        && audit_policy_availability.ledger_evidence_verified
        && audit_policy_availability.media_write_policy_verified
        && audit_policy_availability.target_region_write_readback_verified
        && audit_policy_availability.audit_rollback_target_ids_verified
        && !audit_policy_availability.durable_audit_policy_available;
    let policy_ledger_dry_run_evidence_verified = policy_ledger_dry_run.policy_ledger_availability_evidence_verified
        && policy_ledger_dry_run.transaction_append_denial_gate_verified
        && !policy_ledger_dry_run.durable_policy_ledger_available
        && !policy_ledger_dry_run.durable_audit_policy_available;
    let source_policy_ledger_availability_matches_policy_ledger_dry_run = digest_eq(
        &audit_policy_availability.source_policy_ledger_availability_hash,
        &policy_ledger_dry_run.source_policy_ledger_availability_hash,
    );
    let policy_ledger_availability_evidence_verified = source_policy_ledger_availability_matches_policy_ledger_dry_run
        && audit_policy_availability.policy_ledger_availability_evidence_verified
        && policy_ledger_dry_run.policy_ledger_availability_evidence_verified;
    let source_write_authority_availability_matches_policy_ledger_dry_run = digest_eq(
        &audit_policy_availability.source_write_authority_availability_hash,
        &policy_ledger_dry_run.source_write_authority_availability_hash,
    );
    let write_authority_evidence_verified = source_write_authority_availability_matches_policy_ledger_dry_run
        && audit_policy_availability.write_authority_evidence_verified
        && policy_ledger_dry_run.write_authority_evidence_verified
        && !audit_policy_availability.write_authority_available;
    let source_ledger_aware_acceptance_result_matches_policy_ledger_dry_run = digest_eq(
        &audit_policy_availability.source_ledger_aware_acceptance_result_hash,
        &policy_ledger_dry_run.source_ledger_aware_acceptance_result_hash,
    );
    let source_ledger_candidate_matches_policy_ledger_dry_run = digest_eq(
        &audit_policy_availability.source_ledger_candidate_hash,
        &policy_ledger_dry_run.source_ledger_candidate_hash,
    );
    let ledger_evidence_verified = audit_policy_availability.ledger_evidence_verified
        && policy_ledger_dry_run.ledger_evidence_verified
        && source_ledger_aware_acceptance_result_matches_policy_ledger_dry_run
        && source_ledger_candidate_matches_policy_ledger_dry_run;
    let source_policy_preflight_matches_policy_ledger_dry_run = digest_eq(
        &audit_policy_availability.source_policy_preflight_hash,
        &policy_ledger_dry_run.source_policy_preflight_hash,
    );
    let source_policy_preflight_matches_target_region_write = digest_eq(
        &audit_policy_availability.source_policy_preflight_hash,
        &target_region_write.source_policy_preflight_hash,
    );
    let media_write_policy_verified = audit_policy_availability.media_write_policy_verified
        && policy_ledger_dry_run.media_write_policy_verified
        && source_policy_preflight_matches_policy_ledger_dry_run
        && source_policy_preflight_matches_target_region_write;
    let source_target_region_write_readback_matches_policy_ledger_dry_run = digest_eq(
        &audit_policy_availability.source_target_region_write_readback_hash,
        &policy_ledger_dry_run.source_target_region_write_readback_hash,
    );
    let source_target_region_write_readback_matches_target_region_write = digest_eq(
        &audit_policy_availability.source_target_region_write_readback_hash,
        &target_region_write.dry_run_hash,
    );
    let target_region_write_readback_verified = audit_policy_availability.target_region_write_readback_verified
        && policy_ledger_dry_run.target_region_write_readback_verified
        && source_target_region_write_readback_matches_policy_ledger_dry_run
        && source_target_region_write_readback_matches_target_region_write
        && target_region_write.readback_matches_planned_image
        && target_region_write.write_attempted
        && target_region_write.write_completed
        && target_region_write.readback_completed;
    let source_authority_denial_gate_matches_authority_denial_gate = digest_eq(
        &policy_ledger_dry_run.source_authority_denial_gate_hash,
        &authority_denial_gate.gate_hash,
    );
    let source_transaction_append_availability_decision_matches_authority_denial_gate = digest_eq(
        &policy_ledger_dry_run.source_transaction_append_availability_decision_hash,
        &authority_denial_gate.source_transaction_append_availability_decision_hash,
    );
    let transaction_append_denial_gate_verified = source_authority_denial_gate_matches_authority_denial_gate
        && source_transaction_append_availability_decision_matches_authority_denial_gate
        && policy_ledger_dry_run.transaction_append_denial_gate_verified
        && authority_denial_gate.missing_transaction_append_authority
        && !authority_denial_gate.transaction_append_available;
    let audit_rollback_target_ids_verified = audit_policy_availability.audit_rollback_target_ids_verified
        && policy_ledger_dry_run.audit_rollback_target_ids_verified
        && authority_denial_gate.audit_rollback_target_ids_verified;
    let test_infrastructure_media_write_authority_available = audit_policy_availability.test_infrastructure_media_write_authority_available
        && policy_ledger_dry_run.test_infrastructure_media_write_authority_available
        && authority_denial_gate.test_infrastructure_media_write_authority_available
        && target_region_write.test_infrastructure_media_write_authority_available;
    let mut hash = sha256_new();
    hash_line_str(&mut hash, "schema",
        HELLO_ROLLBACK_DURABLE_AUDIT_POLICY_AVAILABILITY_DRY_RUN_SCHEMA,
    );
    assert(sha256_absorbed(hash) =~= line_str("schema",
        HELLO_ROLLBACK_DURABLE_AUDIT_POLICY_AVAILABILITY_DRY_RUN_SCHEMA));
    hash_line_str(&mut hash, "id", HELLO_ROLLBACK_DURABLE_AUDIT_POLICY_AVAILABILITY_DRY_RUN_ID);
    hash_line_str(&mut hash, "scope", "current_boot");
    hash_line_str(&mut hash, "classification", "local_only");
    hash_line_str(&mut hash, "persistence", "none");
    hash_line_str(&mut hash, "status",
        HELLO_ROLLBACK_DURABLE_AUDIT_POLICY_AVAILABILITY_DRY_RUN_STATUS,
    );
    hash_line_str(&mut hash, "reason",
        HELLO_ROLLBACK_DURABLE_AUDIT_POLICY_AVAILABILITY_DRY_RUN_REASON,
    );
    hash_line_hash(&mut hash, "source_audit_policy_availability_sha256",
        audit_policy_availability.availability_hash,
    );
    hash_line_hash(&mut hash, "source_policy_ledger_availability_dry_run_sha256",
        policy_ledger_dry_run.dry_run_hash,
    );
    hash_line_hash(&mut hash, "source_policy_ledger_availability_sha256",
        audit_policy_availability.source_policy_ledger_availability_hash,
    );
    hash_line_hash(&mut hash, "source_write_authority_availability_sha256",
        audit_policy_availability.source_write_authority_availability_hash,
    );
    hash_line_hash(&mut hash, "source_ledger_aware_acceptance_result_sha256",
        audit_policy_availability.source_ledger_aware_acceptance_result_hash,
    );
    hash_line_hash(&mut hash, "source_ledger_candidate_sha256",
        audit_policy_availability.source_ledger_candidate_hash,
    );
    hash_line_hash(&mut hash, "source_policy_preflight_sha256",
        audit_policy_availability.source_policy_preflight_hash,
    );
    hash_line_hash(&mut hash, "source_target_region_write_readback_sha256",
        audit_policy_availability.source_target_region_write_readback_hash,
    );
    hash_line_hash(&mut hash, "source_authority_denial_gate_sha256",
        authority_denial_gate.gate_hash,
    );
    hash_line_hash(&mut hash, "source_transaction_append_availability_decision_sha256",
        authority_denial_gate.source_transaction_append_availability_decision_hash,
    );
    hash_line_str(&mut hash, "audit_ledger_target_id", layout.audit_append_target_id);
    hash_line_str(&mut hash, "audit_record_schema", layout.audit_append_target_schema);
    hash_line_str(&mut hash, "rollback_store_target_id", layout.rollback_append_target_id);
    hash_line_str(&mut hash, "rollback_transaction_schema", layout.rollback_append_target_schema);
    hash_line_u64(&mut hash, "target_start_lba", audit_policy_availability.target_start_lba);
    hash_line_u64(&mut hash, "target_lba_count", audit_policy_availability.target_lba_count);
    hash_line_u64(&mut hash, "target_byte_count", audit_policy_availability.target_byte_count);
    hash_line_bool(&mut hash, "audit_policy_availability_evidence_verified",
        audit_policy_availability_evidence_verified,
    );
    hash_line_bool(&mut hash, "policy_ledger_dry_run_evidence_verified",
        policy_ledger_dry_run_evidence_verified,
    );
    hash_line_bool(&mut hash, "policy_ledger_availability_evidence_verified",
        policy_ledger_availability_evidence_verified,
    );
    hash_line_bool(&mut hash, "write_authority_evidence_verified",
        write_authority_evidence_verified,
    );
    hash_line_bool(&mut hash, "ledger_evidence_verified", ledger_evidence_verified);
    hash_line_bool(&mut hash, "media_write_policy_verified", media_write_policy_verified);
    hash_line_bool(&mut hash, "target_region_write_readback_verified",
        target_region_write_readback_verified,
    );
    hash_line_bool(&mut hash, "transaction_append_denial_gate_verified",
        transaction_append_denial_gate_verified,
    );
    hash_line_bool(&mut hash, "target_span_verified", target_span_verified);
    hash_line_bool(&mut hash, "audit_rollback_target_ids_verified",
        audit_rollback_target_ids_verified,
    );
    hash_line_bool(&mut hash, "test_infrastructure_media_write_authority_available",
        test_infrastructure_media_write_authority_available,
    );
    hash_line_bool(&mut hash, "write_authority_available",
        audit_policy_availability.write_authority_available,
    );
    hash_line_bool(&mut hash, "durable_policy_ledger_available",
        audit_policy_availability.durable_policy_ledger_available,
    );
    hash_line_bool(&mut hash, "durable_audit_policy_available",
        audit_policy_availability.durable_audit_policy_available,
    );
    hash_line_bool(&mut hash, "durable_append_authority_available",
        audit_policy_availability.durable_append_authority_available,
    );
    hash_line_bool(&mut hash, "transaction_append_available",
        authority_denial_gate.transaction_append_available,
    );
    hash_line_bool(&mut hash, "authorizes_media_write", false);
    hash_line_bool(&mut hash, "authorizes_append", false);
    hash_line_bool(&mut hash, "authorizes_transaction_append", false);
    hash_line_bool(&mut hash, "writes_durable_audit_log", false);
    hash_line_bool(&mut hash, "writes_rollback_store", false);
    hash_line_bool(&mut hash, "appends_rollback_transaction", false);
    hash_line_bool(&mut hash, "write_attempted", false);
    hash_line_bool(&mut hash, "applies_rollback", false);
    hash_line_bool(&mut hash, "installs_rollback_state", false);
    RollbackDurableAuditPolicyAvailabilityDryRun {
        dry_run_hash: finalize_sha256(hash),
        source_audit_policy_availability_hash: audit_policy_availability.availability_hash,
        source_policy_ledger_availability_dry_run_hash: policy_ledger_dry_run.dry_run_hash,
        source_policy_ledger_availability_hash:
            audit_policy_availability.source_policy_ledger_availability_hash,
        source_write_authority_availability_hash:
            audit_policy_availability.source_write_authority_availability_hash,
        source_ledger_aware_acceptance_result_hash:
            audit_policy_availability.source_ledger_aware_acceptance_result_hash,
        source_ledger_candidate_hash: audit_policy_availability.source_ledger_candidate_hash,
        source_policy_preflight_hash: audit_policy_availability.source_policy_preflight_hash,
        source_target_region_write_readback_hash:
            audit_policy_availability.source_target_region_write_readback_hash,
        source_authority_denial_gate_hash: authority_denial_gate.gate_hash,
        source_transaction_append_availability_decision_hash:
            authority_denial_gate.source_transaction_append_availability_decision_hash,
        target_start_lba: audit_policy_availability.target_start_lba,
        target_lba_count: audit_policy_availability.target_lba_count,
        target_byte_count: audit_policy_availability.target_byte_count,
        audit_policy_availability_evidence_verified,
        policy_ledger_dry_run_evidence_verified,
        policy_ledger_availability_evidence_verified,
        write_authority_evidence_verified,
        ledger_evidence_verified,
        media_write_policy_verified,
        target_region_write_readback_verified,
        transaction_append_denial_gate_verified,
        target_span_verified,
        audit_rollback_target_ids_verified,
        test_infrastructure_media_write_authority_available,
        write_authority_available: audit_policy_availability.write_authority_available,
        durable_policy_ledger_available: audit_policy_availability.durable_policy_ledger_available,
        durable_audit_policy_available: audit_policy_availability.durable_audit_policy_available,
        durable_append_authority_available:
            audit_policy_availability.durable_append_authority_available,
        transaction_append_available: authority_denial_gate.transaction_append_available,
    }
}

/// The durable append authority availability dry run.
#[derive(Clone, Copy)]
pub struct RollbackDurableAppendAuthorityAvailabilityDryRun {
    pub dry_run_hash: [u8; 32],
    pub source_append_authority_availability_hash: [u8; 32],
    pub source_audit_policy_availability_dry_run_hash: [u8; 32],
    pub source_audit_policy_availability_hash: [u8; 32],
    pub source_policy_ledger_availability_dry_run_hash: [u8; 32],
    pub source_policy_ledger_availability_hash: [u8; 32],
    pub source_write_authority_availability_hash: [u8; 32],
    pub source_ledger_aware_acceptance_result_hash: [u8; 32],
    pub source_ledger_candidate_hash: [u8; 32],
    pub source_policy_preflight_hash: [u8; 32],
    pub source_target_region_write_readback_hash: [u8; 32],
    pub source_authority_denial_gate_hash: [u8; 32],
    pub source_transaction_append_availability_decision_hash: [u8; 32],
    pub target_start_lba: u64,
    pub target_lba_count: u64,
    pub target_byte_count: u64,
    pub append_authority_availability_evidence_verified: bool,
    pub audit_policy_dry_run_evidence_verified: bool,
    pub audit_policy_availability_evidence_verified: bool,
    pub policy_ledger_dry_run_evidence_verified: bool,
    pub policy_ledger_availability_evidence_verified: bool,
    pub write_authority_evidence_verified: bool,
    pub ledger_evidence_verified: bool,
    pub media_write_policy_verified: bool,
    pub target_region_write_readback_verified: bool,
    pub transaction_append_denial_gate_verified: bool,
    pub target_span_verified: bool,
    pub audit_rollback_target_ids_verified: bool,
    pub test_infrastructure_media_write_authority_available: bool,
    pub write_authority_available: bool,
    pub durable_policy_ledger_available: bool,
    pub durable_audit_policy_available: bool,
    pub durable_append_authority_available: bool,
    pub transaction_append_available: bool,
}

/// The canonical lines of the durable append authority availability dry run.
pub open spec fn append_authority_dry_run_stream(
    r: RollbackDurableAppendAuthorityAvailabilityDryRun,
    layout: StorageLayoutIds,
) -> Seq<u8> {
    line_str("schema", HELLO_ROLLBACK_DURABLE_APPEND_AUTHORITY_AVAILABILITY_DRY_RUN_SCHEMA)
        + line_str("id", HELLO_ROLLBACK_DURABLE_APPEND_AUTHORITY_AVAILABILITY_DRY_RUN_ID)
        + line_str("scope", "current_boot")
        + line_str("classification", "local_only")
        + line_str("persistence", "none")
        + line_str("status", HELLO_ROLLBACK_DURABLE_APPEND_AUTHORITY_AVAILABILITY_DRY_RUN_STATUS)
        + line_str("reason", HELLO_ROLLBACK_DURABLE_APPEND_AUTHORITY_AVAILABILITY_DRY_RUN_REASON)
        + line_hash("source_append_authority_availability_sha256",
            r.source_append_authority_availability_hash@,
        )
        + line_hash("source_audit_policy_availability_dry_run_sha256",
            r.source_audit_policy_availability_dry_run_hash@,
        )
        + line_hash("source_audit_policy_availability_sha256",
            r.source_audit_policy_availability_hash@,
        )
        + line_hash("source_policy_ledger_availability_dry_run_sha256",
            r.source_policy_ledger_availability_dry_run_hash@,
        )
        + line_hash("source_policy_ledger_availability_sha256",
            r.source_policy_ledger_availability_hash@,
        )
        + line_hash("source_write_authority_availability_sha256",
            r.source_write_authority_availability_hash@,
        )
        + line_hash("source_ledger_aware_acceptance_result_sha256",
            r.source_ledger_aware_acceptance_result_hash@,
        )
        + line_hash("source_ledger_candidate_sha256", r.source_ledger_candidate_hash@)
        + line_hash("source_policy_preflight_sha256", r.source_policy_preflight_hash@)
        + line_hash("source_target_region_write_readback_sha256",
            r.source_target_region_write_readback_hash@,
        )
        + line_hash("source_authority_denial_gate_sha256", r.source_authority_denial_gate_hash@)
        + line_hash("source_transaction_append_availability_decision_sha256",
            r.source_transaction_append_availability_decision_hash@,
        )
        + line_str("audit_ledger_target_id", layout.audit_append_target_id)
        + line_str("audit_record_schema", layout.audit_append_target_schema)
        + line_str("rollback_store_target_id", layout.rollback_append_target_id)
        + line_str("rollback_transaction_schema", layout.rollback_append_target_schema)
        + line_u64("target_start_lba", r.target_start_lba)
        + line_u64("target_lba_count", r.target_lba_count)
        + line_u64("target_byte_count", r.target_byte_count)
        + line_bool("append_authority_availability_evidence_verified",
            r.append_authority_availability_evidence_verified,
        )
        + line_bool("audit_policy_dry_run_evidence_verified",
            r.audit_policy_dry_run_evidence_verified,
        )
        + line_bool("audit_policy_availability_evidence_verified",
            r.audit_policy_availability_evidence_verified,
        )
        + line_bool("policy_ledger_dry_run_evidence_verified",
            r.policy_ledger_dry_run_evidence_verified,
        )
        + line_bool("policy_ledger_availability_evidence_verified",
            r.policy_ledger_availability_evidence_verified,
        )
        + line_bool("write_authority_evidence_verified", r.write_authority_evidence_verified)
        + line_bool("ledger_evidence_verified", r.ledger_evidence_verified)
        + line_bool("media_write_policy_verified", r.media_write_policy_verified)
        + line_bool("target_region_write_readback_verified",
            r.target_region_write_readback_verified,
        )
        + line_bool("transaction_append_denial_gate_verified",
            r.transaction_append_denial_gate_verified,
        )
        + line_bool("target_span_verified", r.target_span_verified)
        + line_bool("audit_rollback_target_ids_verified", r.audit_rollback_target_ids_verified)
        + line_bool("test_infrastructure_media_write_authority_available",
            r.test_infrastructure_media_write_authority_available,
        )
        + line_bool("write_authority_available", r.write_authority_available)
        + line_bool("durable_policy_ledger_available", r.durable_policy_ledger_available)
        + line_bool("durable_audit_policy_available", r.durable_audit_policy_available)
        + line_bool("durable_append_authority_available", r.durable_append_authority_available)
        + line_bool("transaction_append_available", r.transaction_append_available)
        + line_bool("authorizes_media_write", false)
        + line_bool("authorizes_append", false)
        + line_bool("authorizes_transaction_append", false)
        + line_bool("writes_durable_audit_log", false)
        + line_bool("writes_rollback_store", false)
        + line_bool("appends_rollback_transaction", false)
        + line_bool("write_attempted", false)
        + line_bool("applies_rollback", false)
        + line_bool("installs_rollback_state", false)
}

/// `r` is the durable append authority availability dry run built from its sources.
pub open spec fn is_append_authority_dry_run_for(
    r: RollbackDurableAppendAuthorityAvailabilityDryRun,
    append_authority_availability: RollbackDurableAppendAuthorityAvailability,
    audit_policy_dry_run: RollbackDurableAuditPolicyAvailabilityDryRun,
    authority_denial_gate: RollbackTransactionAppendAuthorityDenialGate,
    target_region_write: RollbackTargetRegionWriteReadbackDryRun,
    layout: StorageLayoutIds,
) -> bool {
    &&& r.source_append_authority_availability_hash
        == append_authority_availability.availability_hash
    &&& r.source_audit_policy_availability_dry_run_hash == audit_policy_dry_run.dry_run_hash
    &&& r.source_audit_policy_availability_hash
        == append_authority_availability.source_audit_policy_availability_hash
    &&& r.source_policy_ledger_availability_dry_run_hash
        == audit_policy_dry_run.source_policy_ledger_availability_dry_run_hash
    &&& r.source_policy_ledger_availability_hash
        == append_authority_availability.source_policy_ledger_availability_hash
    &&& r.source_write_authority_availability_hash
        == append_authority_availability.source_write_authority_availability_hash
    &&& r.source_ledger_aware_acceptance_result_hash
        == append_authority_availability.source_ledger_aware_acceptance_result_hash
    &&& r.source_ledger_candidate_hash == append_authority_availability.source_ledger_candidate_hash
    &&& r.source_policy_preflight_hash == append_authority_availability.source_policy_preflight_hash
    &&& r.source_target_region_write_readback_hash
        == append_authority_availability.source_target_region_write_readback_hash
    &&& r.source_authority_denial_gate_hash == authority_denial_gate.gate_hash
    &&& r.source_transaction_append_availability_decision_hash
        == authority_denial_gate.source_transaction_append_availability_decision_hash
    &&& r.target_start_lba == append_authority_availability.target_start_lba
    &&& r.target_lba_count == append_authority_availability.target_lba_count
    &&& r.target_byte_count == append_authority_availability.target_byte_count
    &&& r.append_authority_availability_evidence_verified == (append_authority_availability.audit_policy_availability_evidence_verified
        && append_authority_availability.policy_ledger_availability_evidence_verified
        && append_authority_availability.write_authority_evidence_verified
        && append_authority_availability.ledger_evidence_verified
        && append_authority_availability.media_write_policy_verified
        && append_authority_availability.target_region_write_readback_verified
        && append_authority_availability.audit_rollback_target_ids_verified
        && !append_authority_availability.durable_append_authority_available)
    &&& r.audit_policy_dry_run_evidence_verified == (audit_policy_dry_run.audit_policy_availability_evidence_verified
        && audit_policy_dry_run.policy_ledger_dry_run_evidence_verified
        && audit_policy_dry_run.transaction_append_denial_gate_verified
        && !audit_policy_dry_run.durable_audit_policy_available
        && !audit_policy_dry_run.durable_append_authority_available)
    &&& r.audit_policy_availability_evidence_verified == (append_authority_availability.source_audit_policy_availability_hash@ == audit_policy_dry_run.source_audit_policy_availability_hash@
        && append_authority_availability.audit_policy_availability_evidence_verified
        && audit_policy_dry_run.audit_policy_availability_evidence_verified)
    &&& r.policy_ledger_dry_run_evidence_verified
        == audit_policy_dry_run.policy_ledger_dry_run_evidence_verified
    &&& r.policy_ledger_availability_evidence_verified == (append_authority_availability.source_policy_ledger_availability_hash@ == audit_policy_dry_run.source_policy_ledger_availability_hash@
        && append_authority_availability.policy_ledger_availability_evidence_verified
        && audit_policy_dry_run.policy_ledger_availability_evidence_verified)
    &&& r.write_authority_evidence_verified == (append_authority_availability.source_write_authority_availability_hash@ == audit_policy_dry_run.source_write_authority_availability_hash@
        && append_authority_availability.write_authority_evidence_verified
        && audit_policy_dry_run.write_authority_evidence_verified
        && !append_authority_availability.write_authority_available)
    &&& r.ledger_evidence_verified == (append_authority_availability.ledger_evidence_verified
        && audit_policy_dry_run.ledger_evidence_verified
        && append_authority_availability.source_ledger_aware_acceptance_result_hash@ == audit_policy_dry_run.source_ledger_aware_acceptance_result_hash@
        && append_authority_availability.source_ledger_candidate_hash@ == audit_policy_dry_run.source_ledger_candidate_hash@)
    &&& r.media_write_policy_verified == (append_authority_availability.media_write_policy_verified
        && audit_policy_dry_run.media_write_policy_verified
        && append_authority_availability.source_policy_preflight_hash@ == audit_policy_dry_run.source_policy_preflight_hash@
        && append_authority_availability.source_policy_preflight_hash@ == target_region_write.source_policy_preflight_hash@)
    &&& r.target_region_write_readback_verified == (append_authority_availability.target_region_write_readback_verified
        && audit_policy_dry_run.target_region_write_readback_verified
        && append_authority_availability.source_target_region_write_readback_hash@ == audit_policy_dry_run.source_target_region_write_readback_hash@
        && append_authority_availability.source_target_region_write_readback_hash@ == target_region_write.dry_run_hash@
        && target_region_write.readback_matches_planned_image
        && target_region_write.write_attempted
        && target_region_write.write_completed
        && target_region_write.readback_completed)
    &&& r.transaction_append_denial_gate_verified == (audit_policy_dry_run.source_authority_denial_gate_hash@ == authority_denial_gate.gate_hash@
        && audit_policy_dry_run.source_transaction_append_availability_decision_hash@ == authority_denial_gate.source_transaction_append_availability_decision_hash@
        && authority_denial_gate.source_durable_append_authority_availability_hash@ == append_authority_availability.availability_hash@
        && authority_denial_gate.source_audit_policy_availability_hash@ == append_authority_availability.source_audit_policy_availability_hash@
        && authority_denial_gate.missing_transaction_append_authority
        && !authority_denial_gate.transaction_append_available)
    &&& r.target_span_verified == (append_authority_availability.target_span_verified
        && audit_policy_dry_run.target_span_verified
        && authority_denial_gate.target_span_verified
        && target_region_write.target_range_ready
        && append_authority_availability.target_start_lba == audit_policy_dry_run.target_start_lba
        && append_authority_availability.target_lba_count == audit_policy_dry_run.target_lba_count
        && append_authority_availability.target_byte_count == audit_policy_dry_run.target_byte_count
        && append_authority_availability.target_start_lba == authority_denial_gate.target_start_lba
        && append_authority_availability.target_lba_count == authority_denial_gate.target_lba_count
        && append_authority_availability.target_byte_count == authority_denial_gate.target_byte_count
        && append_authority_availability.target_start_lba == target_region_write.target_start_lba
        && append_authority_availability.target_lba_count == target_region_write.target_lba_count
        && append_authority_availability.target_byte_count == target_region_write.target_byte_count)
    &&& r.audit_rollback_target_ids_verified == (append_authority_availability.audit_rollback_target_ids_verified
        && audit_policy_dry_run.audit_rollback_target_ids_verified
        && authority_denial_gate.audit_rollback_target_ids_verified)
    &&& r.test_infrastructure_media_write_authority_available == (append_authority_availability.test_infrastructure_media_write_authority_available
        && audit_policy_dry_run.test_infrastructure_media_write_authority_available
        && authority_denial_gate.test_infrastructure_media_write_authority_available
        && target_region_write.test_infrastructure_media_write_authority_available)
    &&& r.write_authority_available == append_authority_availability.write_authority_available
    &&& r.durable_policy_ledger_available
        == append_authority_availability.durable_policy_ledger_available
    &&& r.durable_audit_policy_available
        == append_authority_availability.durable_audit_policy_available
    &&& r.durable_append_authority_available
        == append_authority_availability.durable_append_authority_available
    &&& r.transaction_append_available == authority_denial_gate.transaction_append_available
    &&& r.dry_run_hash@ == sha256_digest(append_authority_dry_run_stream(r, layout))
}

/// The durable append authority availability dry run: cross-checks the append
/// authority availability against the audit policy dry run, the denial gate
/// and the target region write.
#[verifier::rlimit(100)]
pub fn hello_rollback_durable_append_authority_availability_dry_run(
    append_authority_availability: RollbackDurableAppendAuthorityAvailability,
    audit_policy_dry_run: RollbackDurableAuditPolicyAvailabilityDryRun,
    authority_denial_gate: RollbackTransactionAppendAuthorityDenialGate,
    target_region_write: RollbackTargetRegionWriteReadbackDryRun,
    layout: StorageLayoutIds,
) -> (result: RollbackDurableAppendAuthorityAvailabilityDryRun)
    ensures
        is_append_authority_dry_run_for(
            result,
            append_authority_availability,
            audit_policy_dry_run,
            authority_denial_gate,
            target_region_write,
            layout,
        ),
{
    let target_span_verified = append_authority_availability.target_span_verified
        && audit_policy_dry_run.target_span_verified
        && authority_denial_gate.target_span_verified
        && target_region_write.target_range_ready
        && append_authority_availability.target_start_lba == audit_policy_dry_run.target_start_lba
        && append_authority_availability.target_lba_count == audit_policy_dry_run.target_lba_count
        && append_authority_availability.target_byte_count == audit_policy_dry_run.target_byte_count
        && append_authority_availability.target_start_lba == authority_denial_gate.target_start_lba
        && append_authority_availability.target_lba_count == authority_denial_gate.target_lba_count
        && append_authority_availability.target_byte_count == authority_denial_gate.target_byte_count
        && append_authority_availability.target_start_lba == target_region_write.target_start_lba
        && append_authority_availability.target_lba_count == target_region_write.target_lba_count
        && append_authority_availability.target_byte_count == target_region_write.target_byte_count;
    let append_authority_availability_evidence_verified = append_authority_availability.audit_policy_availability_evidence_verified
        && append_authority_availability.policy_ledger_availability_evidence_verified
        && append_authority_availability.write_authority_evidence_verified
        && append_authority_availability.ledger_evidence_verified
        && append_authority_availability.media_write_policy_verified
        && append_authority_availability.target_region_write_readback_verified
        && append_authority_availability.audit_rollback_target_ids_verified
        && !append_authority_availability.durable_append_authority_available;
    let audit_policy_dry_run_evidence_verified = audit_policy_dry_run.audit_policy_availability_evidence_verified
        && audit_policy_dry_run.policy_ledger_dry_run_evidence_verified
        && audit_policy_dry_run.transaction_append_denial_gate_verified
        && !audit_policy_dry_run.durable_audit_policy_available
        && !audit_policy_dry_run.durable_append_authority_available;
    let source_audit_policy_availability_matches_audit_policy_dry_run = digest_eq(
        &append_authority_availability.source_audit_policy_availability_hash,
        &audit_policy_dry_run.source_audit_policy_availability_hash,
    );
    let audit_policy_availability_evidence_verified = source_audit_policy_availability_matches_audit_policy_dry_run
        && append_authority_availability.audit_policy_availability_evidence_verified
        && audit_policy_dry_run.audit_policy_availability_evidence_verified;
    let policy_ledger_dry_run_evidence_verified =
        audit_policy_dry_run.policy_ledger_dry_run_evidence_verified;
    let source_policy_ledger_availability_matches_audit_policy_dry_run = digest_eq(
        &append_authority_availability.source_policy_ledger_availability_hash,
        &audit_policy_dry_run.source_policy_ledger_availability_hash,
    );
    let policy_ledger_availability_evidence_verified = source_policy_ledger_availability_matches_audit_policy_dry_run
        && append_authority_availability.policy_ledger_availability_evidence_verified
        && audit_policy_dry_run.policy_ledger_availability_evidence_verified;
    let source_write_authority_availability_matches_audit_policy_dry_run = digest_eq(
        &append_authority_availability.source_write_authority_availability_hash,
        &audit_policy_dry_run.source_write_authority_availability_hash,
    );
    let write_authority_evidence_verified = source_write_authority_availability_matches_audit_policy_dry_run
        && append_authority_availability.write_authority_evidence_verified
        && audit_policy_dry_run.write_authority_evidence_verified
        && !append_authority_availability.write_authority_available;
    let source_ledger_aware_acceptance_result_matches_audit_policy_dry_run = digest_eq(
        &append_authority_availability.source_ledger_aware_acceptance_result_hash,
        &audit_policy_dry_run.source_ledger_aware_acceptance_result_hash,
    );
    let source_ledger_candidate_matches_audit_policy_dry_run = digest_eq(
        &append_authority_availability.source_ledger_candidate_hash,
        &audit_policy_dry_run.source_ledger_candidate_hash,
    );
    let ledger_evidence_verified = append_authority_availability.ledger_evidence_verified
        && audit_policy_dry_run.ledger_evidence_verified
        && source_ledger_aware_acceptance_result_matches_audit_policy_dry_run
        && source_ledger_candidate_matches_audit_policy_dry_run;
    let source_policy_preflight_matches_audit_policy_dry_run = digest_eq(
        &append_authority_availability.source_policy_preflight_hash,
        &audit_policy_dry_run.source_policy_preflight_hash,
    );
    let source_policy_preflight_matches_target_region_write = digest_eq(
        &append_authority_availability.source_policy_preflight_hash,
        &target_region_write.source_policy_preflight_hash,
    );
    let media_write_policy_verified = append_authority_availability.media_write_policy_verified
        && audit_policy_dry_run.media_write_policy_verified
        && source_policy_preflight_matches_audit_policy_dry_run
        && source_policy_preflight_matches_target_region_write;
    let source_target_region_write_readback_matches_audit_policy_dry_run = digest_eq(
        &append_authority_availability.source_target_region_write_readback_hash,
        &audit_policy_dry_run.source_target_region_write_readback_hash,
    );
    let source_target_region_write_readback_matches_target_region_write = digest_eq(
        &append_authority_availability.source_target_region_write_readback_hash,
        &target_region_write.dry_run_hash,
    );
    let target_region_write_readback_verified = append_authority_availability.target_region_write_readback_verified
        && audit_policy_dry_run.target_region_write_readback_verified
        && source_target_region_write_readback_matches_audit_policy_dry_run
        && source_target_region_write_readback_matches_target_region_write
        && target_region_write.readback_matches_planned_image
        && target_region_write.write_attempted
        && target_region_write.write_completed
        && target_region_write.readback_completed;
    let source_authority_denial_gate_matches_authority_denial_gate = digest_eq(
        &audit_policy_dry_run.source_authority_denial_gate_hash,
        &authority_denial_gate.gate_hash,
    );
    let source_transaction_append_availability_decision_matches_authority_denial_gate = digest_eq(
        &audit_policy_dry_run.source_transaction_append_availability_decision_hash,
        &authority_denial_gate.source_transaction_append_availability_decision_hash,
    );
    let source_durable_append_authority_availability_matches_append_authority_availability = digest_eq(
        &authority_denial_gate.source_durable_append_authority_availability_hash,
        &append_authority_availability.availability_hash,
    );
    let source_audit_policy_availability_matches_append_authority_availability = digest_eq(
        &authority_denial_gate.source_audit_policy_availability_hash,
        &append_authority_availability.source_audit_policy_availability_hash,
    );
    let transaction_append_denial_gate_verified = source_authority_denial_gate_matches_authority_denial_gate
        && source_transaction_append_availability_decision_matches_authority_denial_gate
        && source_durable_append_authority_availability_matches_append_authority_availability
        && source_audit_policy_availability_matches_append_authority_availability
        && authority_denial_gate.missing_transaction_append_authority
        && !authority_denial_gate.transaction_append_available;
    let audit_rollback_target_ids_verified = append_authority_availability.audit_rollback_target_ids_verified
        && audit_policy_dry_run.audit_rollback_target_ids_verified
        && authority_denial_gate.audit_rollback_target_ids_verified;
    let test_infrastructure_media_write_authority_available = append_authority_availability.test_infrastructure_media_write_authority_available
        && audit_policy_dry_run.test_infrastructure_media_write_authority_available
        && authority_denial_gate.test_infrastructure_media_write_authority_available
        && target_region_write.test_infrastructure_media_write_authority_available;
    let mut hash = sha256_new();
    hash_line_str(&mut hash, "schema",
        HELLO_ROLLBACK_DURABLE_APPEND_AUTHORITY_AVAILABILITY_DRY_RUN_SCHEMA,
    );
    assert(sha256_absorbed(hash) =~= line_str("schema",
        HELLO_ROLLBACK_DURABLE_APPEND_AUTHORITY_AVAILABILITY_DRY_RUN_SCHEMA));
    hash_line_str(&mut hash, "id", HELLO_ROLLBACK_DURABLE_APPEND_AUTHORITY_AVAILABILITY_DRY_RUN_ID);
    hash_line_str(&mut hash, "scope", "current_boot");
    hash_line_str(&mut hash, "classification", "local_only");
    hash_line_str(&mut hash, "persistence", "none");
    hash_line_str(&mut hash, "status",
        HELLO_ROLLBACK_DURABLE_APPEND_AUTHORITY_AVAILABILITY_DRY_RUN_STATUS,
    );
    hash_line_str(&mut hash, "reason",
        HELLO_ROLLBACK_DURABLE_APPEND_AUTHORITY_AVAILABILITY_DRY_RUN_REASON,
    );
    hash_line_hash(&mut hash, "source_append_authority_availability_sha256",
        append_authority_availability.availability_hash,
    );
    hash_line_hash(&mut hash, "source_audit_policy_availability_dry_run_sha256",
        audit_policy_dry_run.dry_run_hash,
    );
    hash_line_hash(&mut hash, "source_audit_policy_availability_sha256",
        append_authority_availability.source_audit_policy_availability_hash,
    );
    hash_line_hash(&mut hash, "source_policy_ledger_availability_dry_run_sha256",
        audit_policy_dry_run.source_policy_ledger_availability_dry_run_hash,
    );
    hash_line_hash(&mut hash, "source_policy_ledger_availability_sha256",
        append_authority_availability.source_policy_ledger_availability_hash,
    );
    hash_line_hash(&mut hash, "source_write_authority_availability_sha256",
        append_authority_availability.source_write_authority_availability_hash,
    );
    hash_line_hash(&mut hash, "source_ledger_aware_acceptance_result_sha256",
        append_authority_availability.source_ledger_aware_acceptance_result_hash,
    );
    hash_line_hash(&mut hash, "source_ledger_candidate_sha256",
        append_authority_availability.source_ledger_candidate_hash,
    );
    hash_line_hash(&mut hash, "source_policy_preflight_sha256",
        append_authority_availability.source_policy_preflight_hash,
    );
    hash_line_hash(&mut hash, "source_target_region_write_readback_sha256",
        append_authority_availability.source_target_region_write_readback_hash,
    );
    hash_line_hash(&mut hash, "source_authority_denial_gate_sha256",
        authority_denial_gate.gate_hash,
    );
    hash_line_hash(&mut hash, "source_transaction_append_availability_decision_sha256",
        authority_denial_gate.source_transaction_append_availability_decision_hash,
    );
    hash_line_str(&mut hash, "audit_ledger_target_id", layout.audit_append_target_id);
    hash_line_str(&mut hash, "audit_record_schema", layout.audit_append_target_schema);
    hash_line_str(&mut hash, "rollback_store_target_id", layout.rollback_append_target_id);
    hash_line_str(&mut hash, "rollback_transaction_schema", layout.rollback_append_target_schema);
    hash_line_u64(&mut hash, "target_start_lba", append_authority_availability.target_start_lba);
    hash_line_u64(&mut hash, "target_lba_count", append_authority_availability.target_lba_count);
    hash_line_u64(&mut hash, "target_byte_count", append_authority_availability.target_byte_count);
    hash_line_bool(&mut hash, "append_authority_availability_evidence_verified",
        append_authority_availability_evidence_verified,
    );
    hash_line_bool(&mut hash, "audit_policy_dry_run_evidence_verified",
        audit_policy_dry_run_evidence_verified,
    );
    hash_line_bool(&mut hash, "audit_policy_availability_evidence_verified",
        audit_policy_availability_evidence_verified,
    );
    hash_line_bool(&mut hash, "policy_ledger_dry_run_evidence_verified",
        policy_ledger_dry_run_evidence_verified,
    );
    hash_line_bool(&mut hash, "policy_ledger_availability_evidence_verified",
        policy_ledger_availability_evidence_verified,
    );
    hash_line_bool(&mut hash, "write_authority_evidence_verified",
        write_authority_evidence_verified,
    );
    hash_line_bool(&mut hash, "ledger_evidence_verified", ledger_evidence_verified);
    hash_line_bool(&mut hash, "media_write_policy_verified", media_write_policy_verified);
    hash_line_bool(&mut hash, "target_region_write_readback_verified",
        target_region_write_readback_verified,
    );
    hash_line_bool(&mut hash, "transaction_append_denial_gate_verified",
        transaction_append_denial_gate_verified,
    );
    hash_line_bool(&mut hash, "target_span_verified", target_span_verified);
    hash_line_bool(&mut hash, "audit_rollback_target_ids_verified",
        audit_rollback_target_ids_verified,
    );
    hash_line_bool(&mut hash, "test_infrastructure_media_write_authority_available",
        test_infrastructure_media_write_authority_available,
    );
    hash_line_bool(&mut hash, "write_authority_available",
        append_authority_availability.write_authority_available,
    );
    hash_line_bool(&mut hash, "durable_policy_ledger_available",
        append_authority_availability.durable_policy_ledger_available,
    );
    hash_line_bool(&mut hash, "durable_audit_policy_available",
        append_authority_availability.durable_audit_policy_available,
    );
    hash_line_bool(&mut hash, "durable_append_authority_available",
        append_authority_availability.durable_append_authority_available,
    );
    hash_line_bool(&mut hash, "transaction_append_available",
        authority_denial_gate.transaction_append_available,
    );
    hash_line_bool(&mut hash, "authorizes_media_write", false);
    hash_line_bool(&mut hash, "authorizes_append", false);
    hash_line_bool(&mut hash, "authorizes_transaction_append", false);
    hash_line_bool(&mut hash, "writes_durable_audit_log", false);
    hash_line_bool(&mut hash, "writes_rollback_store", false);
    hash_line_bool(&mut hash, "appends_rollback_transaction", false);
    hash_line_bool(&mut hash, "write_attempted", false);
    hash_line_bool(&mut hash, "applies_rollback", false);
    hash_line_bool(&mut hash, "installs_rollback_state", false);
    RollbackDurableAppendAuthorityAvailabilityDryRun {
        dry_run_hash: finalize_sha256(hash),
        source_append_authority_availability_hash: append_authority_availability.availability_hash,
        source_audit_policy_availability_dry_run_hash: audit_policy_dry_run.dry_run_hash,
        source_audit_policy_availability_hash:
            append_authority_availability.source_audit_policy_availability_hash,
        source_policy_ledger_availability_dry_run_hash:
            audit_policy_dry_run.source_policy_ledger_availability_dry_run_hash,
        source_policy_ledger_availability_hash:
            append_authority_availability.source_policy_ledger_availability_hash,
        source_write_authority_availability_hash:
            append_authority_availability.source_write_authority_availability_hash,
        source_ledger_aware_acceptance_result_hash:
            append_authority_availability.source_ledger_aware_acceptance_result_hash,
        source_ledger_candidate_hash: append_authority_availability.source_ledger_candidate_hash,
        source_policy_preflight_hash: append_authority_availability.source_policy_preflight_hash,
        source_target_region_write_readback_hash:
            append_authority_availability.source_target_region_write_readback_hash,
        source_authority_denial_gate_hash: authority_denial_gate.gate_hash,
        source_transaction_append_availability_decision_hash:
            authority_denial_gate.source_transaction_append_availability_decision_hash,
        target_start_lba: append_authority_availability.target_start_lba,
        target_lba_count: append_authority_availability.target_lba_count,
        target_byte_count: append_authority_availability.target_byte_count,
        append_authority_availability_evidence_verified,
        audit_policy_dry_run_evidence_verified,
        audit_policy_availability_evidence_verified,
        policy_ledger_dry_run_evidence_verified,
        policy_ledger_availability_evidence_verified,
        write_authority_evidence_verified,
        ledger_evidence_verified,
        media_write_policy_verified,
        target_region_write_readback_verified,
        transaction_append_denial_gate_verified,
        target_span_verified,
        audit_rollback_target_ids_verified,
        test_infrastructure_media_write_authority_available,
        write_authority_available: append_authority_availability.write_authority_available,
        durable_policy_ledger_available:
            append_authority_availability.durable_policy_ledger_available,
        durable_audit_policy_available:
            append_authority_availability.durable_audit_policy_available,
        durable_append_authority_available:
            append_authority_availability.durable_append_authority_available,
        transaction_append_available: authority_denial_gate.transaction_append_available,
    }
}

/// The transaction append dry run.
#[derive(Clone, Copy)]
pub struct RollbackTransactionAppendDryRun {
    pub dry_run_hash: [u8; 32],
    pub source_authority_denial_gate_hash: [u8; 32],
    pub source_transaction_append_availability_decision_hash: [u8; 32],
    pub source_append_record_hash: [u8; 32],
    pub source_sector_plan_hash: [u8; 32],
    pub source_target_region_write_readback_hash: [u8; 32],
    pub planned_sector_image_hash: [u8; 32],
    pub readback_sector_image_hash: [u8; 32],
    pub target_start_lba: u64,
    pub target_lba_count: u64,
    pub target_byte_count: u64,
    pub authority_denial_gate_verified: bool,
    pub target_span_verified: bool,
    pub target_region_write_readback_verified: bool,
    pub append_image_ready: bool,
    pub blocked_by_authority_denial_gate: bool,
    pub test_infrastructure_media_write_authority_available: bool,
    pub transaction_append_available: bool,
}

/// The canonical lines of the transaction append dry run.
pub open spec fn transaction_append_dry_run_stream(
    r: RollbackTransactionAppendDryRun,
    layout: StorageLayoutIds,
) -> Seq<u8> {
    line_str("schema", HELLO_ROLLBACK_TRANSACTION_APPEND_DRY_RUN_SCHEMA)
        + line_str("id", HELLO_ROLLBACK_TRANSACTION_APPEND_DRY_RUN_ID)
        + line_str("scope", "current_boot")
        + line_str("classification", "local_only")
        + line_str("persistence", "none")
        + line_str("status", HELLO_ROLLBACK_TRANSACTION_APPEND_DRY_RUN_STATUS)
        + line_str("reason", HELLO_ROLLBACK_TRANSACTION_APPEND_DRY_RUN_REASON)
        + line_hash("source_authority_denial_gate_sha256", r.source_authority_denial_gate_hash@)
        + line_hash("source_transaction_append_availability_decision_sha256",
            r.source_transaction_append_availability_decision_hash@,
        )
        + line_hash("source_append_record_sha256", r.source_append_record_hash@)
        + line_hash("source_sector_plan_sha256", r.source_sector_plan_hash@)
        + line_hash("source_target_region_write_readback_sha256",
            r.source_target_region_write_readback_hash@,
        )
        + line_hash("planned_sector_image_sha256", r.planned_sector_image_hash@)
        + line_hash("readback_sector_image_sha256", r.readback_sector_image_hash@)
        + line_str("audit_ledger_target_id", layout.audit_append_target_id)
        + line_str("audit_record_schema", layout.audit_append_target_schema)
        + line_str("rollback_store_target_id", layout.rollback_append_target_id)
        + line_str("rollback_transaction_schema", layout.rollback_append_target_schema)
        + line_u64("target_start_lba", r.target_start_lba)
        + line_u64("target_lba_count", r.target_lba_count)
        + line_u64("target_byte_count", r.target_byte_count)
        + line_bool("authority_denial_gate_verified", r.authority_denial_gate_verified)
        + line_bool("target_span_verified", r.target_span_verified)
        + line_bool("target_region_write_readback_verified",
            r.target_region_write_readback_verified,
        )
        + line_bool("append_image_ready", r.append_image_ready)
        + line_bool("blocked_by_authority_denial_gate", r.blocked_by_authority_denial_gate)
        + line_bool("test_infrastructure_media_write_authority_available",
            r.test_infrastructure_media_write_authority_available,
        )
        + line_bool("transaction_append_available", r.transaction_append_available)
        + line_bool("authorizes_media_write", false)
        + line_bool("authorizes_append", false)
        + line_bool("authorizes_transaction_append", false)
        + line_bool("writes_durable_audit_log", false)
        + line_bool("writes_rollback_store", false)
        + line_bool("appends_rollback_transaction", false)
        + line_bool("transaction_append_attempted", false)
}

/// `r` is the transaction append dry run built from its sources.
pub open spec fn is_transaction_append_dry_run_for(
    r: RollbackTransactionAppendDryRun,
    authority_denial_gate: RollbackTransactionAppendAuthorityDenialGate,
    append_record: RollbackAppendRecordDryRun,
    sector_plan: RollbackAppendSectorPlanDryRun,
    target_region_write: RollbackTargetRegionWriteReadbackDryRun,
    layout: StorageLayoutIds,
) -> bool {
    &&& r.source_authority_denial_gate_hash == authority_denial_gate.gate_hash
    &&& r.source_transaction_append_availability_decision_hash
        == authority_denial_gate.source_transaction_append_availability_decision_hash
    &&& r.source_append_record_hash == append_record.dry_run_hash
    &&& r.source_sector_plan_hash == sector_plan.plan_hash
    &&& r.source_target_region_write_readback_hash == target_region_write.dry_run_hash
    &&& r.planned_sector_image_hash == target_region_write.planned_sector_image_hash
    &&& r.readback_sector_image_hash == target_region_write.readback_sector_image_hash
    &&& r.target_start_lba == target_region_write.target_start_lba
    &&& r.target_lba_count == target_region_write.target_lba_count
    &&& r.target_byte_count == target_region_write.target_byte_count
    &&& r.authority_denial_gate_verified == (authority_denial_gate.availability_decision_evidence_verified
        && authority_denial_gate.missing_transaction_append_authority
        && !authority_denial_gate.transaction_append_available)
    &&& r.target_span_verified == (authority_denial_gate.target_span_verified
        && append_record.target_start_lba == sector_plan.target_start_lba
        && append_record.target_lba_count == sector_plan.target_lba_count
        && append_record.target_byte_count == sector_plan.target_byte_count
        && sector_plan.target_start_lba == target_region_write.target_start_lba
        && sector_plan.target_lba_count == target_region_write.target_lba_count
        && sector_plan.target_byte_count == target_region_write.target_byte_count
        && authority_denial_gate.target_start_lba == target_region_write.target_start_lba
        && authority_denial_gate.target_lba_count == target_region_write.target_lba_count
        && authority_denial_gate.target_byte_count == target_region_write.target_byte_count)
    &&& r.target_region_write_readback_verified == (target_region_write.label_found
        && target_region_write.target_range_ready
        && target_region_write.test_infrastructure_media_write_authority_available
        && target_region_write.write_completed
        && target_region_write.readback_completed
        && target_region_write.readback_matches_planned_image)
    &&& r.append_image_ready == ((authority_denial_gate.target_span_verified && append_record.target_start_lba == sector_plan.target_start_lba && append_record.target_lba_count == sector_plan.target_lba_count && append_record.target_byte_count == sector_plan.target_byte_count && sector_plan.target_start_lba == target_region_write.target_start_lba && sector_plan.target_lba_count == target_region_write.target_lba_count && sector_plan.target_byte_count == target_region_write.target_byte_count && authority_denial_gate.target_start_lba == target_region_write.target_start_lba && authority_denial_gate.target_lba_count == target_region_write.target_lba_count && authority_denial_gate.target_byte_count == target_region_write.target_byte_count)
        && sector_plan.target_range_ready
        && append_record.target_range_ready
        && (target_region_write.label_found && target_region_write.target_range_ready && target_region_write.test_infrastructure_media_write_authority_available && target_region_write.write_completed && target_region_write.readback_completed && target_region_write.readback_matches_planned_image)
        && target_region_write.planned_sector_image_hash@ == sector_plan.sector_image_hash@
        && target_region_write.readback_sector_image_hash@ == sector_plan.sector_image_hash@)
    &&& r.blocked_by_authority_denial_gate == ((authority_denial_gate.availability_decision_evidence_verified && authority_denial_gate.missing_transaction_append_authority && !authority_denial_gate.transaction_append_available)
        && authority_denial_gate.missing_transaction_append_authority)
    &&& r.test_infrastructure_media_write_authority_available
        == target_region_write.test_infrastructure_media_write_authority_available
    &&& r.transaction_append_available == authority_denial_gate.transaction_append_available
    &&& r.dry_run_hash@ == sha256_digest(transaction_append_dry_run_stream(r, layout))
}

/// The transaction append dry run: the append image is ready when the spans
/// agree and the target sector was written and read back as planned, and
/// the append stays blocked by the authority denial gate.
pub fn hello_rollback_transaction_append_dry_run(
    authority_denial_gate: RollbackTransactionAppendAuthorityDenialGate,
    append_record: RollbackAppendRecordDryRun,
    sector_plan: RollbackAppendSectorPlanDryRun,
    target_region_write: RollbackTargetRegionWriteReadbackDryRun,
    layout: StorageLayoutIds,
) -> (result: RollbackTransactionAppendDryRun)
    ensures
        is_transaction_append_dry_run_for(
            result,
            authority_denial_gate,
            append_record,
            sector_plan,
            target_region_write,
            layout,
        ),
{
    let target_span_verified = authority_denial_gate.target_span_verified
        && append_record.target_start_lba == sector_plan.target_start_lba
        && append_record.target_lba_count == sector_plan.target_lba_count
        && append_record.target_byte_count == sector_plan.target_byte_count
        && sector_plan.target_start_lba == target_region_write.target_start_lba
        && sector_plan.target_lba_count == target_region_write.target_lba_count
        && sector_plan.target_byte_count == target_region_write.target_byte_count
        && authority_denial_gate.target_start_lba == target_region_write.target_start_lba
        && authority_denial_gate.target_lba_count == target_region_write.target_lba_count
        && authority_denial_gate.target_byte_count == target_region_write.target_byte_count;
    let authority_denial_gate_verified = authority_denial_gate.availability_decision_evidence_verified
        && authority_denial_gate.missing_transaction_append_authority
        && !authority_denial_gate.transaction_append_available;
    let target_region_write_readback_verified = target_region_write.label_found
        && target_region_write.target_range_ready
        && target_region_write.test_infrastructure_media_write_authority_available
        && target_region_write.write_completed
        && target_region_write.readback_completed
        && target_region_write.readback_matches_planned_image;
    let planned_sector_image_matches_sector_plan = digest_eq(
        &target_region_write.planned_sector_image_hash,
        &sector_plan.sector_image_hash,
    );
    let readback_sector_image_matches_sector_plan = digest_eq(
        &target_region_write.readback_sector_image_hash,
        &sector_plan.sector_image_hash,
    );
    let append_image_ready = target_span_verified
        && sector_plan.target_range_ready
        && append_record.target_range_ready
        && target_region_write_readback_verified
        && planned_sector_image_matches_sector_plan
        && readback_sector_image_matches_sector_plan;
    let blocked_by_authority_denial_gate = authority_denial_gate_verified
        && authority_denial_gate.missing_transaction_append_authority;
    let mut hash = sha256_new();
    hash_line_str(&mut hash, "schema", HELLO_ROLLBACK_TRANSACTION_APPEND_DRY_RUN_SCHEMA);
    assert(sha256_absorbed(hash) =~= line_str("schema",
        HELLO_ROLLBACK_TRANSACTION_APPEND_DRY_RUN_SCHEMA));
    hash_line_str(&mut hash, "id", HELLO_ROLLBACK_TRANSACTION_APPEND_DRY_RUN_ID);
    hash_line_str(&mut hash, "scope", "current_boot");
    hash_line_str(&mut hash, "classification", "local_only");
    hash_line_str(&mut hash, "persistence", "none");
    hash_line_str(&mut hash, "status", HELLO_ROLLBACK_TRANSACTION_APPEND_DRY_RUN_STATUS);
    hash_line_str(&mut hash, "reason", HELLO_ROLLBACK_TRANSACTION_APPEND_DRY_RUN_REASON);
    hash_line_hash(&mut hash, "source_authority_denial_gate_sha256",
        authority_denial_gate.gate_hash,
    );
    hash_line_hash(&mut hash, "source_transaction_append_availability_decision_sha256",
        authority_denial_gate.source_transaction_append_availability_decision_hash,
    );
    hash_line_hash(&mut hash, "source_append_record_sha256", append_record.dry_run_hash);
    hash_line_hash(&mut hash, "source_sector_plan_sha256", sector_plan.plan_hash);
    hash_line_hash(&mut hash, "source_target_region_write_readback_sha256",
        target_region_write.dry_run_hash,
    );
    hash_line_hash(&mut hash, "planned_sector_image_sha256",
        target_region_write.planned_sector_image_hash,
    );
    hash_line_hash(&mut hash, "readback_sector_image_sha256",
        target_region_write.readback_sector_image_hash,
    );
    hash_line_str(&mut hash, "audit_ledger_target_id", layout.audit_append_target_id);
    hash_line_str(&mut hash, "audit_record_schema", layout.audit_append_target_schema);
    hash_line_str(&mut hash, "rollback_store_target_id", layout.rollback_append_target_id);
    hash_line_str(&mut hash, "rollback_transaction_schema", layout.rollback_append_target_schema);
    hash_line_u64(&mut hash, "target_start_lba", target_region_write.target_start_lba);
    hash_line_u64(&mut hash, "target_lba_count", target_region_write.target_lba_count);
    hash_line_u64(&mut hash, "target_byte_count", target_region_write.target_byte_count);
    hash_line_bool(&mut hash, "authority_denial_gate_verified", authority_denial_gate_verified);
    hash_line_bool(&mut hash, "target_span_verified", target_span_verified);
    hash_line_bool(&mut hash, "target_region_write_readback_verified",
        target_region_write_readback_verified,
    );
    hash_line_bool(&mut hash, "append_image_ready", append_image_ready);
    hash_line_bool(&mut hash, "blocked_by_authority_denial_gate", blocked_by_authority_denial_gate);
    hash_line_bool(&mut hash, "test_infrastructure_media_write_authority_available",
        target_region_write.test_infrastructure_media_write_authority_available,
    );
    hash_line_bool(&mut hash, "transaction_append_available",
        authority_denial_gate.transaction_append_available,
    );
    hash_line_bool(&mut hash, "authorizes_media_write", false);
    hash_line_bool(&mut hash, "authorizes_append", false);
    hash_line_bool(&mut hash, "authorizes_transaction_append", false);
    hash_line_bool(&mut hash, "writes_durable_audit_log", false);
    hash_line_bool(&mut hash, "writes_rollback_store", false);
    hash_line_bool(&mut hash, "appends_rollback_transaction", false);
    hash_line_bool(&mut hash, "transaction_append_attempted", false);
    RollbackTransactionAppendDryRun {
        dry_run_hash: finalize_sha256(hash),
        source_authority_denial_gate_hash: authority_denial_gate.gate_hash,
        source_transaction_append_availability_decision_hash:
            authority_denial_gate.source_transaction_append_availability_decision_hash,
        source_append_record_hash: append_record.dry_run_hash,
        source_sector_plan_hash: sector_plan.plan_hash,
        source_target_region_write_readback_hash: target_region_write.dry_run_hash,
        planned_sector_image_hash: target_region_write.planned_sector_image_hash,
        readback_sector_image_hash: target_region_write.readback_sector_image_hash,
        target_start_lba: target_region_write.target_start_lba,
        target_lba_count: target_region_write.target_lba_count,
        target_byte_count: target_region_write.target_byte_count,
        authority_denial_gate_verified,
        target_span_verified,
        target_region_write_readback_verified,
        append_image_ready,
        blocked_by_authority_denial_gate,
        test_infrastructure_media_write_authority_available:
            target_region_write.test_infrastructure_media_write_authority_available,
        transaction_append_available: authority_denial_gate.transaction_append_available,
    }
}

/// The durable policy write authority decision.
#[derive(Clone, Copy)]
pub struct RollbackDurablePolicyWriteAuthorityDecision {
    pub decision_hash: [u8; 32],
    pub source_durable_append_authority_availability_dry_run_hash: [u8; 32],
    pub source_transaction_append_dry_run_hash: [u8; 32],
    pub source_target_region_sector_inspection_hash: [u8; 32],
    pub source_write_authority_availability_hash: [u8; 32],
    pub source_audit_policy_availability_hash: [u8; 32],
    pub source_durable_append_authority_availability_hash: [u8; 32],
    pub source_authority_denial_gate_hash: [u8; 32],
    pub source_transaction_append_availability_decision_hash: [u8; 32],
    pub target_start_lba: u64,
    pub target_lba_count: u64,
    pub target_byte_count: u64,
    pub transaction_append_dry_run_verified: bool,
    pub target_region_sector_inspection_verified: bool,
    pub write_authority_evidence_verified: bool,
    pub audit_policy_availability_evidence_verified: bool,
    pub durable_append_authority_availability_evidence_verified: bool,
    pub target_span_verified: bool,
    pub test_infrastructure_media_write_authority_available: bool,
    pub write_authority_available: bool,
    pub durable_policy_ledger_available: bool,
    pub durable_audit_policy_available: bool,
    pub durable_append_authority_available: bool,
    pub transaction_append_available: bool,
}

/// The canonical lines of the durable policy write authority decision.
pub open spec fn policy_write_authority_decision_stream(
    r: RollbackDurablePolicyWriteAuthorityDecision,
    layout: StorageLayoutIds,
) -> Seq<u8> {
    line_str("schema", HELLO_ROLLBACK_DURABLE_POLICY_WRITE_AUTHORITY_DECISION_SCHEMA)
        + line_str("id", HELLO_ROLLBACK_DURABLE_POLICY_WRITE_AUTHORITY_DECISION_ID)
        + line_str("scope", "current_boot")
        + line_str("classification", "local_only")
        + line_str("persistence", "none")
        + line_str("status", HELLO_ROLLBACK_DURABLE_POLICY_WRITE_AUTHORITY_DECISION_STATUS)
        + line_str("reason", HELLO_ROLLBACK_DURABLE_POLICY_WRITE_AUTHORITY_DECISION_REASON)
        + line_hash("source_durable_append_authority_availability_dry_run_sha256",
            r.source_durable_append_authority_availability_dry_run_hash@,
        )
        + line_hash("source_transaction_append_dry_run_sha256",
            r.source_transaction_append_dry_run_hash@,
        )
        + line_hash("source_target_region_sector_inspection_sha256",
            r.source_target_region_sector_inspection_hash@,
        )
        + line_hash("source_write_authority_availability_sha256",
            r.source_write_authority_availability_hash@,
        )
        + line_hash("source_audit_policy_availability_sha256",
            r.source_audit_policy_availability_hash@,
        )
        + line_hash("source_durable_append_authority_availability_sha256",
            r.source_durable_append_authority_availability_hash@,
        )
        + line_hash("source_authority_denial_gate_sha256", r.source_authority_denial_gate_hash@)
        + line_hash("source_transaction_append_availability_decision_sha256",
            r.source_transaction_append_availability_decision_hash@,
        )
        + line_str("audit_ledger_target_id", layout.audit_append_target_id)
        + line_str("audit_record_schema", layout.audit_append_target_schema)
        + line_str("rollback_store_target_id", layout.rollback_append_target_id)
        + line_str("rollback_transaction_schema", layout.rollback_append_target_schema)
        + line_u64("target_start_lba", r.target_start_lba)
        + line_u64("target_lba_count", r.target_lba_count)
        + line_u64("target_byte_count", r.target_byte_count)
        + line_bool("transaction_append_dry_run_verified", r.transaction_append_dry_run_verified)
        + line_bool("target_region_sector_inspection_verified",
            r.target_region_sector_inspection_verified,
        )
        + line_bool("write_authority_evidence_verified", r.write_authority_evidence_verified)
        + line_bool("audit_policy_availability_evidence_verified",
            r.audit_policy_availability_evidence_verified,
        )
        + line_bool("durable_append_authority_availability_evidence_verified",
            r.durable_append_authority_availability_evidence_verified,
        )
        + line_bool("target_span_verified", r.target_span_verified)
        + line_bool("test_infrastructure_media_write_authority_available",
            r.test_infrastructure_media_write_authority_available,
        )
        + line_bool("write_authority_available", r.write_authority_available)
        + line_bool("durable_policy_ledger_available", r.durable_policy_ledger_available)
        + line_bool("durable_audit_policy_available", r.durable_audit_policy_available)
        + line_bool("durable_append_authority_available", r.durable_append_authority_available)
        + line_bool("transaction_append_available", r.transaction_append_available)
        + line_bool("authorizes_media_write", false)
        + line_bool("authorizes_append", false)
        + line_bool("authorizes_transaction_append", false)
        + line_bool("writes_durable_audit_log", false)
        + line_bool("writes_rollback_store", false)
        + line_bool("appends_rollback_transaction", false)
        + line_bool("write_attempted", false)
        + line_bool("applies_rollback", false)
}

/// `r` is the durable policy write authority decision built from its sources.
pub open spec fn is_policy_write_authority_decision_for(
    r: RollbackDurablePolicyWriteAuthorityDecision,
    durable_append_authority_availability_dry_run: RollbackDurableAppendAuthorityAvailabilityDryRun,
    write_authority_availability: RollbackDurableAuditPolicyWriteAuthorityAvailability,
    audit_policy_availability: RollbackDurableAuditPolicyAvailability,
    durable_append_authority_availability: RollbackDurableAppendAuthorityAvailability,
    transaction_append_dry_run: RollbackTransactionAppendDryRun,
    target_region_sector_inspection: RollbackTargetRegionSectorInspection,
    layout: StorageLayoutIds,
) -> bool {
    &&& r.source_durable_append_authority_availability_dry_run_hash
        == durable_append_authority_availability_dry_run.dry_run_hash
    &&& r.source_transaction_append_dry_run_hash == transaction_append_dry_run.dry_run_hash
    &&& r.source_target_region_sector_inspection_hash
        == target_region_sector_inspection.inspection_hash
    &&& r.source_write_authority_availability_hash == write_authority_availability.availability_hash
    &&& r.source_audit_policy_availability_hash == audit_policy_availability.availability_hash
    &&& r.source_durable_append_authority_availability_hash
        == durable_append_authority_availability.availability_hash
    &&& r.source_authority_denial_gate_hash
        == transaction_append_dry_run.source_authority_denial_gate_hash
    &&& r.source_transaction_append_availability_decision_hash
        == transaction_append_dry_run.source_transaction_append_availability_decision_hash
    &&& r.target_start_lba == transaction_append_dry_run.target_start_lba
    &&& r.target_lba_count == transaction_append_dry_run.target_lba_count
    &&& r.target_byte_count == transaction_append_dry_run.target_byte_count
    &&& r.transaction_append_dry_run_verified == (transaction_append_dry_run.authority_denial_gate_verified
        && transaction_append_dry_run.target_region_write_readback_verified
        && transaction_append_dry_run.append_image_ready
        && transaction_append_dry_run.blocked_by_authority_denial_gate
        && transaction_append_dry_run.test_infrastructure_media_write_authority_available
        && !transaction_append_dry_run.transaction_append_available
        && (transaction_append_dry_run.target_span_verified && target_region_sector_inspection.target_span_verified && durable_append_authority_availability_dry_run.target_span_verified && write_authority_availability.target_span_verified && audit_policy_availability.target_span_verified && durable_append_authority_availability.target_span_verified && transaction_append_dry_run.target_start_lba == durable_append_authority_availability_dry_run.target_start_lba && transaction_append_dry_run.target_lba_count == durable_append_authority_availability_dry_run.target_lba_count && transaction_append_dry_run.target_byte_count == durable_append_authority_availability_dry_run.target_byte_count && transaction_append_dry_run.target_start_lba == target_region_sector_inspection.target_start_lba && transaction_append_dry_run.target_lba_count == target_region_sector_inspection.target_lba_count && transaction_append_dry_run.target_byte_count == target_region_sector_inspection.target_byte_count && transaction_append_dry_run.target_start_lba == write_authority_availability.target_start_lba && transaction_append_dry_run.target_lba_count == write_authority_availability.target_lba_count && transaction_append_dry_run.target_byte_count == write_authority_availability.target_byte_count && transaction_append_dry_run.target_start_lba == audit_policy_availability.target_start_lba && transaction_append_dry_run.target_lba_count == audit_policy_availability.target_lba_count && transaction_append_dry_run.target_byte_count == audit_policy_availability.target_byte_count && transaction_append_dry_run.target_start_lba == durable_append_authority_availability.target_start_lba && transaction_append_dry_run.target_lba_count == durable_append_authority_availability.target_lba_count && transaction_append_dry_run.target_byte_count == durable_append_authority_availability.target_byte_count))
    &&& r.target_region_sector_inspection_verified == (target_region_sector_inspection.inspection_verified
        && target_region_sector_inspection.target_region_write_readback_verified
        && target_region_sector_inspection.sector_hash_verified
        && target_region_sector_inspection.audit_record_hash_verified
        && target_region_sector_inspection.rollback_transaction_hash_verified
        && target_region_sector_inspection.offsets_verified
        && target_region_sector_inspection.padding_zeroed
        && (transaction_append_dry_run.target_span_verified && target_region_sector_inspection.target_span_verified && durable_append_authority_availability_dry_run.target_span_verified && write_authority_availability.target_span_verified && audit_policy_availability.target_span_verified && durable_append_authority_availability.target_span_verified && transaction_append_dry_run.target_start_lba == durable_append_authority_availability_dry_run.target_start_lba && transaction_append_dry_run.target_lba_count == durable_append_authority_availability_dry_run.target_lba_count && transaction_append_dry_run.target_byte_count == durable_append_authority_availability_dry_run.target_byte_count && transaction_append_dry_run.target_start_lba == target_region_sector_inspection.target_start_lba && transaction_append_dry_run.target_lba_count == target_region_sector_inspection.target_lba_count && transaction_append_dry_run.target_byte_count == target_region_sector_inspection.target_byte_count && transaction_append_dry_run.target_start_lba == write_authority_availability.target_start_lba && transaction_append_dry_run.target_lba_count == write_authority_availability.target_lba_count && transaction_append_dry_run.target_byte_count == write_authority_availability.target_byte_count && transaction_append_dry_run.target_start_lba == audit_policy_availability.target_start_lba && transaction_append_dry_run.target_lba_count == audit_policy_availability.target_lba_count && transaction_append_dry_run.target_byte_count == audit_policy_availability.target_byte_count && transaction_append_dry_run.target_start_lba == durable_append_authority_availability.target_start_lba && transaction_append_dry_run.target_lba_count == durable_append_authority_availability.target_lba_count && transaction_append_dry_run.target_byte_count == durable_append_authority_availability.target_byte_count))
    &&& r.write_authority_evidence_verified == (write_authority_availability.ledger_evidence_verified
        && write_authority_availability.media_write_policy_verified
        && write_authority_availability.target_region_write_readback_verified
        && write_authority_availability.audit_rollback_target_ids_verified
        && !write_authority_availability.write_authority_available)
    &&& r.audit_policy_availability_evidence_verified == (audit_policy_availability.policy_ledger_availability_evidence_verified
        && audit_policy_availability.write_authority_evidence_verified
        && audit_policy_availability.ledger_evidence_verified
        && audit_policy_availability.media_write_policy_verified
        && audit_policy_availability.target_region_write_readback_verified
        && audit_policy_availability.audit_rollback_target_ids_verified
        && !audit_policy_availability.durable_audit_policy_available)
    &&& r.durable_append_authority_availability_evidence_verified == ((durable_append_authority_availability.audit_policy_availability_evidence_verified && durable_append_authority_availability.write_authority_evidence_verified && durable_append_authority_availability.ledger_evidence_verified && durable_append_authority_availability.media_write_policy_verified && durable_append_authority_availability.target_region_write_readback_verified && durable_append_authority_availability.audit_rollback_target_ids_verified && !durable_append_authority_availability.durable_append_authority_available)
        && (durable_append_authority_availability_dry_run.append_authority_availability_evidence_verified && durable_append_authority_availability_dry_run.transaction_append_denial_gate_verified && durable_append_authority_availability_dry_run.source_append_authority_availability_hash@ == durable_append_authority_availability.availability_hash@ && durable_append_authority_availability_dry_run.source_authority_denial_gate_hash@ == transaction_append_dry_run.source_authority_denial_gate_hash@ && durable_append_authority_availability_dry_run.source_transaction_append_availability_decision_hash@ == transaction_append_dry_run.source_transaction_append_availability_decision_hash@ && !durable_append_authority_availability_dry_run.durable_append_authority_available && !durable_append_authority_availability_dry_run.transaction_append_available))
    &&& r.target_span_verified == (transaction_append_dry_run.target_span_verified
        && target_region_sector_inspection.target_span_verified
        && durable_append_authority_availability_dry_run.target_span_verified
        && write_authority_availability.target_span_verified
        && audit_policy_availability.target_span_verified
        && durable_append_authority_availability.target_span_verified
        && transaction_append_dry_run.target_start_lba == durable_append_authority_availability_dry_run.target_start_lba
        && transaction_append_dry_run.target_lba_count == durable_append_authority_availability_dry_run.target_lba_count
        && transaction_append_dry_run.target_byte_count == durable_append_authority_availability_dry_run.target_byte_count
        && transaction_append_dry_run.target_start_lba == target_region_sector_inspection.target_start_lba
        && transaction_append_dry_run.target_lba_count == target_region_sector_inspection.target_lba_count
        && transaction_append_dry_run.target_byte_count == target_region_sector_inspection.target_byte_count
        && transaction_append_dry_run.target_start_lba == write_authority_availability.target_start_lba
        && transaction_append_dry_run.target_lba_count == write_authority_availability.target_lba_count
        && transaction_append_dry_run.target_byte_count == write_authority_availability.target_byte_count
        && transaction_append_dry_run.target_start_lba == audit_policy_availability.target_start_lba
        && transaction_append_dry_run.target_lba_count == audit_policy_availability.target_lba_count
        && transaction_append_dry_run.target_byte_count == audit_policy_availability.target_byte_count
        && transaction_append_dry_run.target_start_lba == durable_append_authority_availability.target_start_lba
        && transaction_append_dry_run.target_lba_count == durable_append_authority_availability.target_lba_count
        && transaction_append_dry_run.target_byte_count == durable_append_authority_availability.target_byte_count)
    &&& r.test_infrastructure_media_write_authority_available
        == transaction_append_dry_run.test_infrastructure_media_write_authority_available
    &&& r.write_authority_available == write_authority_availability.write_authority_available
    &&& r.durable_policy_ledger_available
        == write_authority_availability.durable_policy_ledger_available
    &&& r.durable_audit_policy_available == audit_policy_availability.durable_audit_policy_available
    &&& r.durable_append_authority_available
        == durable_append_authority_availability.durable_append_authority_available
    &&& r.transaction_append_available == transaction_append_dry_run.transaction_append_available
    &&& r.decision_hash@ == sha256_digest(policy_write_authority_decision_stream(r, layout))
}

/// The durable policy write authority decision: gathers every dry run and
/// availability of the chain, checks that they agree, and leaves write
/// authority missing.
pub fn hello_rollback_durable_policy_write_authority_decision(
    durable_append_authority_availability_dry_run: RollbackDurableAppendAuthorityAvailabilityDryRun,
    write_authority_availability: RollbackDurableAuditPolicyWriteAuthorityAvailability,
    audit_policy_availability: RollbackDurableAuditPolicyAvailability,
    durable_append_authority_availability: RollbackDurableAppendAuthorityAvailability,
    transaction_append_dry_run: RollbackTransactionAppendDryRun,
    target_region_sector_inspection: RollbackTargetRegionSectorInspection,
    layout: StorageLayoutIds,
) -> (result: RollbackDurablePolicyWriteAuthorityDecision)
    ensures
        is_policy_write_authority_decision_for(
            result,
            durable_append_authority_availability_dry_run,
            write_authority_availability,
            audit_policy_availability,
            durable_append_authority_availability,
            transaction_append_dry_run,
            target_region_sector_inspection,
            layout,
        ),
{
    let target_span_verified = transaction_append_dry_run.target_span_verified
        && target_region_sector_inspection.target_span_verified
        && durable_append_authority_availability_dry_run.target_span_verified
        && write_authority_availability.target_span_verified
        && audit_policy_availability.target_span_verified
        && durable_append_authority_availability.target_span_verified
        && transaction_append_dry_run.target_start_lba == durable_append_authority_availability_dry_run.target_start_lba
        && transaction_append_dry_run.target_lba_count == durable_append_authority_availability_dry_run.target_lba_count
        && transaction_append_dry_run.target_byte_count == durable_append_authority_availability_dry_run.target_byte_count
        && transaction_append_dry_run.target_start_lba == target_region_sector_inspection.target_start_lba
        && transaction_append_dry_run.target_lba_count == target_region_sector_inspection.target_lba_count
        && transaction_append_dry_run.target_byte_count == target_region_sector_inspection.target_byte_count
        && transaction_append_dry_run.target_start_lba == write_authority_availability.target_start_lba
        && transaction_append_dry_run.target_lba_count == write_authority_availability.target_lba_count
        && transaction_append_dry_run.target_byte_count == write_authority_availability.target_byte_count
        && transaction_append_dry_run.target_start_lba == audit_policy_availability.target_start_lba
        && transaction_append_dry_run.target_lba_count == audit_policy_availability.target_lba_count
        && transaction_append_dry_run.target_byte_count == audit_policy_availability.target_byte_count
        && transaction_append_dry_run.target_start_lba == durable_append_authority_availability.target_start_lba
        && transaction_append_dry_run.target_lba_count == durable_append_authority_availability.target_lba_count
        && transaction_append_dry_run.target_byte_count == durable_append_authority_availability.target_byte_count;
    let transaction_append_dry_run_verified = transaction_append_dry_run.authority_denial_gate_verified
        && transaction_append_dry_run.target_region_write_readback_verified
        && transaction_append_dry_run.append_image_ready
        && transaction_append_dry_run.blocked_by_authority_denial_gate
        && transaction_append_dry_run.test_infrastructure_media_write_authority_available
        && !transaction_append_dry_run.transaction_append_available
        && target_span_verified;
    let target_region_sector_inspection_verified = target_region_sector_inspection.inspection_verified
        && target_region_sector_inspection.target_region_write_readback_verified
        && target_region_sector_inspection.sector_hash_verified
        && target_region_sector_inspection.audit_record_hash_verified
        && target_region_sector_inspection.rollback_transaction_hash_verified
        && target_region_sector_inspection.offsets_verified
        && target_region_sector_inspection.padding_zeroed
        && target_span_verified;
    let write_authority_evidence_verified = write_authority_availability.ledger_evidence_verified
        && write_authority_availability.media_write_policy_verified
        && write_authority_availability.target_region_write_readback_verified
        && write_authority_availability.audit_rollback_target_ids_verified
        && !write_authority_availability.write_authority_available;
    let audit_policy_availability_evidence_verified = audit_policy_availability.policy_ledger_availability_evidence_verified
        && audit_policy_availability.write_authority_evidence_verified
        && audit_policy_availability.ledger_evidence_verified
        && audit_policy_availability.media_write_policy_verified
        && audit_policy_availability.target_region_write_readback_verified
        && audit_policy_availability.audit_rollback_target_ids_verified
        && !audit_policy_availability.durable_audit_policy_available;
    let durable_append_authority_availability_evidence_verified = durable_append_authority_availability.audit_policy_availability_evidence_verified
        && durable_append_authority_availability.write_authority_evidence_verified
        && durable_append_authority_availability.ledger_evidence_verified
        && durable_append_authority_availability.media_write_policy_verified
        && durable_append_authority_availability.target_region_write_readback_verified
        && durable_append_authority_availability.audit_rollback_target_ids_verified
        && !durable_append_authority_availability.durable_append_authority_available;
    let source_append_authority_availability_matches_durable_append_authority_availability = digest_eq(
        &durable_append_authority_availability_dry_run.source_append_authority_availability_hash,
        &durable_append_authority_availability.availability_hash,
    );
    let source_authority_denial_gate_matches_transaction_append_dry_run = digest_eq(
        &durable_append_authority_availability_dry_run.source_authority_denial_gate_hash,
        &transaction_append_dry_run.source_authority_denial_gate_hash,
    );
    let source_transaction_append_availability_decision_matches_transaction_append_dry_run = digest_eq(
        &durable_append_authority_availability_dry_run.source_transaction_append_availability_decision_hash,
        &transaction_append_dry_run.source_transaction_append_availability_decision_hash,
    );
    let durable_append_authority_availability_dry_run_verified = durable_append_authority_availability_dry_run.append_authority_availability_evidence_verified
        && durable_append_authority_availability_dry_run.transaction_append_denial_gate_verified
        && source_append_authority_availability_matches_durable_append_authority_availability
        && source_authority_denial_gate_matches_transaction_append_dry_run
        && source_transaction_append_availability_decision_matches_transaction_append_dry_run
        && !durable_append_authority_availability_dry_run.durable_append_authority_available
        && !durable_append_authority_availability_dry_run.transaction_append_available;
    let mut hash = sha256_new();
    hash_line_str(&mut hash, "schema",
        HELLO_ROLLBACK_DURABLE_POLICY_WRITE_AUTHORITY_DECISION_SCHEMA,
    );
    assert(sha256_absorbed(hash) =~= line_str("schema",
        HELLO_ROLLBACK_DURABLE_POLICY_WRITE_AUTHORITY_DECISION_SCHEMA));
    hash_line_str(&mut hash, "id", HELLO_ROLLBACK_DURABLE_POLICY_WRITE_AUTHORITY_DECISION_ID);
    hash_line_str(&mut hash, "scope", "current_boot");
    hash_line_str(&mut hash, "classification", "local_only");
    hash_line_str(&mut hash, "persistence", "none");
    hash_line_str(&mut hash, "status",
        HELLO_ROLLBACK_DURABLE_POLICY_WRITE_AUTHORITY_DECISION_STATUS,
    );
    hash_line_str(&mut hash, "reason",
        HELLO_ROLLBACK_DURABLE_POLICY_WRITE_AUTHORITY_DECISION_REASON,
    );
    hash_line_hash(&mut hash, "source_durable_append_authority_availability_dry_run_sha256",
        durable_append_authority_availability_dry_run.dry_run_hash,
    );
    hash_line_hash(&mut hash, "source_transaction_append_dry_run_sha256",
        transaction_append_dry_run.dry_run_hash,
    );
    hash_line_hash(&mut hash, "source_target_region_sector_inspection_sha256",
        target_region_sector_inspection.inspection_hash,
    );
    hash_line_hash(&mut hash, "source_write_authority_availability_sha256",
        write_authority_availability.availability_hash,
    );
    hash_line_hash(&mut hash, "source_audit_policy_availability_sha256",
        audit_policy_availability.availability_hash,
    );
    hash_line_hash(&mut hash, "source_durable_append_authority_availability_sha256",
        durable_append_authority_availability.availability_hash,
    );
    hash_line_hash(&mut hash, "source_authority_denial_gate_sha256",
        transaction_append_dry_run.source_authority_denial_gate_hash,
    );
    hash_line_hash(&mut hash, "source_transaction_append_availability_decision_sha256",
        transaction_append_dry_run.source_transaction_append_availability_decision_hash,
    );
    hash_line_str(&mut hash, "audit_ledger_target_id", layout.audit_append_target_id);
    hash_line_str(&mut hash, "audit_record_schema", layout.audit_append_target_schema);
    hash_line_str(&mut hash, "rollback_store_target_id", layout.rollback_append_target_id);
    hash_line_str(&mut hash, "rollback_transaction_schema", layout.rollback_append_target_schema);
    hash_line_u64(&mut hash, "target_start_lba", transaction_append_dry_run.target_start_lba);
    hash_line_u64(&mut hash, "target_lba_count", transaction_append_dry_run.target_lba_count);
    hash_line_u64(&mut hash, "target_byte_count", transaction_append_dry_run.target_byte_count);
    hash_line_bool(&mut hash, "transaction_append_dry_run_verified",
        transaction_append_dry_run_verified,
    );
    hash_line_bool(&mut hash, "target_region_sector_inspection_verified",
        target_region_sector_inspection_verified,
    );
    hash_line_bool(&mut hash, "write_authority_evidence_verified",
        write_authority_evidence_verified,
    );
    hash_line_bool(&mut hash, "audit_policy_availability_evidence_verified",
        audit_policy_availability_evidence_verified,
    );
    hash_line_bool(&mut hash, "durable_append_authority_availability_evidence_verified",
        durable_append_authority_availability_evidence_verified
            && durable_append_authority_availability_dry_run_verified,
    );
    hash_line_bool(&mut hash, "target_span_verified", target_span_verified);
    hash_line_bool(&mut hash, "test_infrastructure_media_write_authority_available",
        transaction_append_dry_run.test_infrastructure_media_write_authority_available,
    );
    hash_line_bool(&mut hash, "write_authority_available",
        write_authority_availability.write_authority_available,
    );
    hash_line_bool(&mut hash, "durable_policy_ledger_available",
        write_authority_availability.durable_policy_ledger_available,
    );
    hash_line_bool(&mut hash, "durable_audit_policy_available",
        audit_policy_availability.durable_audit_policy_available,
    );
    hash_line_bool(&mut hash, "durable_append_authority_available",
        durable_append_authority_availability.durable_append_authority_available,
    );
    hash_line_bool(&mut hash, "transaction_append_available",
        transaction_append_dry_run.transaction_append_available,
    );
    hash_line_bool(&mut hash, "authorizes_media_write", false);
    hash_line_bool(&mut hash, "authorizes_append", false);
    hash_line_bool(&mut hash, "authorizes_transaction_append", false);
    hash_line_bool(&mut hash, "writes_durable_audit_log", false);
    hash_line_bool(&mut hash, "writes_rollback_store", false);
    hash_line_bool(&mut hash, "appends_rollback_transaction", false);
    hash_line_bool(&mut hash, "write_attempted", false);
    hash_line_bool(&mut hash, "applies_rollback", false);
    RollbackDurablePolicyWriteAuthorityDecision {
        decision_hash: finalize_sha256(hash),
        source_durable_append_authority_availability_dry_run_hash:
            durable_append_authority_availability_dry_run.dry_run_hash,
        source_transaction_append_dry_run_hash: transaction_append_dry_run.dry_run_hash,
        source_target_region_sector_inspection_hash:
            target_region_sector_inspection.inspection_hash,
        source_write_authority_availability_hash: write_authority_availability.availability_hash,
        source_audit_policy_availability_hash: audit_policy_availability.availability_hash,
        source_durable_append_authority_availability_hash:
            durable_append_authority_availability.availability_hash,
        source_authority_denial_gate_hash:
            transaction_append_dry_run.source_authority_denial_gate_hash,
        source_transaction_append_availability_decision_hash:
            transaction_append_dry_run.source_transaction_append_availability_decision_hash,
        target_start_lba: transaction_append_dry_run.target_start_lba,
        target_lba_count: transaction_append_dry_run.target_lba_count,
        target_byte_count: transaction_append_dry_run.target_byte_count,
        transaction_append_dry_run_verified,
        target_region_sector_inspection_verified,
        write_authority_evidence_verified,
        audit_policy_availability_evidence_verified,
        durable_append_authority_availability_evidence_verified:
            durable_append_authority_availability_evidence_verified
                && durable_append_authority_availability_dry_run_verified,
        target_span_verified,
        test_infrastructure_media_write_authority_available:
            transaction_append_dry_run.test_infrastructure_media_write_authority_available,
        write_authority_available: write_authority_availability.write_authority_available,
        durable_policy_ledger_available:
            write_authority_availability.durable_policy_ledger_available,
        durable_audit_policy_available: audit_policy_availability.durable_audit_policy_available,
        durable_append_authority_available:
            durable_append_authority_availability.durable_append_authority_available,
        transaction_append_available: transaction_append_dry_run.transaction_append_available,
    }
}

/// No step of the availability chain makes a transaction append available:
/// durable append authority is unavailable, so the availability decision
/// withholds the append, the denial gate records the missing authority, and
/// the append dry run stays blocked.
pub proof fn lemma_transaction_append_never_available(
    audit_policy_availability: RollbackDurableAuditPolicyAvailability,
    append_authority_availability: RollbackDurableAppendAuthorityAvailability,
    append_engine_readiness: RollbackAppendEngineReadinessDecision,
    writer_policy: RollbackDurableWriterPolicyPreflight,
    decision: RollbackTransactionAppendAvailabilityDecision,
    gate: RollbackTransactionAppendAuthorityDenialGate,
    dry_run: RollbackTransactionAppendDryRun,
    append_record: RollbackAppendRecordDryRun,
    sector_plan: RollbackAppendSectorPlanDryRun,
    target_region_write: RollbackTargetRegionWriteReadbackDryRun,
    layout: StorageLayoutIds,
)
    requires
        is_append_authority_availability_for(
            append_authority_availability,
            audit_policy_availability,
            layout,
        ),
        is_append_availability_decision_for(
            decision,
            append_authority_availability,
            append_engine_readiness,
            writer_policy,
            layout,
        ),
        is_authority_denial_gate_for(gate, decision, layout),
        is_transaction_append_dry_run_for(
            dry_run,
            gate,
            append_record,
            sector_plan,
            target_region_write,
            layout,
        ),
    ensures
        !append_authority_availability.durable_append_authority_available,
        !decision.transaction_append_available,
        !gate.transaction_append_available,
        gate.missing_transaction_append_authority,
        !dry_run.transaction_append_available,
        dry_run.blocked_by_authority_denial_gate == dry_run.authority_denial_gate_verified,
{
}

/// The durable policy write authority decision at the end of the chain
/// grants nothing: write authority, the durable policy ledger, the durable
/// audit policy, durable append authority and the transaction append are
/// all unavailable.
pub proof fn lemma_policy_write_authority_withheld(
    ledger_aware_result: RollbackDurableAuditPolicyLedgerAwareAcceptanceResult,
    ledger_candidate: RollbackDurableAuditPolicyLedgerCandidate,
    policy: TargetRegionMediaWritePolicyPreflight,
    target_region_write: RollbackTargetRegionWriteReadbackDryRun,
    write_authority_availability: RollbackDurableAuditPolicyWriteAuthorityAvailability,
    policy_ledger_availability: RollbackDurablePolicyLedgerAvailability,
    audit_policy_availability: RollbackDurableAuditPolicyAvailability,
    append_authority_availability: RollbackDurableAppendAuthorityAvailability,
    append_engine_readiness: RollbackAppendEngineReadinessDecision,
    writer_policy: RollbackDurableWriterPolicyPreflight,
    decision: RollbackTransactionAppendAvailabilityDecision,
    gate: RollbackTransactionAppendAuthorityDenialGate,
    transaction_append_dry_run: RollbackTransactionAppendDryRun,
    append_record: RollbackAppendRecordDryRun,
    sector_plan: RollbackAppendSectorPlanDryRun,
    append_authority_dry_run: RollbackDurableAppendAuthorityAvailabilityDryRun,
    inspection: RollbackTargetRegionSectorInspection,
    write_decision: RollbackDurablePolicyWriteAuthorityDecision,
    layout: StorageLayoutIds,
)
    requires
        is_ledger_aware_result_for(ledger_aware_result, ledger_candidate, layout),
        is_write_authority_availability_for(
            write_authority_availability,
            ledger_aware_result,
            ledger_candidate,
            policy,
            target_region_write,
            layout,
        ),
        is_policy_ledger_availability_for(
            policy_ledger_availability,
            write_authority_availability,
            layout,
        ),
        is_audit_policy_availability_for(
            audit_policy_availability,
            policy_ledger_availability,
            layout,
        ),
        is_append_authority_availability_for(
            append_authority_availability,
            audit_policy_availability,
            layout,
        ),
        is_append_availability_decision_for(
            decision,
            append_authority_availability,
            append_engine_readiness,
            writer_policy,
            layout,
        ),
        is_authority_denial_gate_for(gate, decision, layout),
        is_transaction_append_dry_run_for(
            transaction_append_dry_run,
            gate,
            append_record,
            sector_plan,
            target_region_write,
            layout,
        ),
        is_policy_write_authority_decision_for(
            write_decision,
            append_authority_dry_run,
            write_authority_availability,
            audit_policy_availability,
            append_authority_availability,
            transaction_append_dry_run,
            inspection,
            layout,
        ),
    ensures
        !write_decision.write_authority_available,
        !write_decision.durable_policy_ledger_available,
        !write_decision.durable_audit_policy_available,
        !write_decision.durable_append_authority_available,
        !write_decision.transaction_append_available,
{
    lemma_transaction_append_never_available(
        audit_policy_availability,
        append_authority_availability,
        append_engine_readiness,
        writer_policy,
        decision,
        gate,
        transaction_append_dry_run,
        append_record,
        sector_plan,
        target_region_write,
        layout,
    );
}

} // verus!
