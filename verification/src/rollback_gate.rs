//! The rollback gates of the hot-swapped hello service: the preview, the
//! denied apply, the transaction preflight, the write authority and append
//! intent gates, the transaction payload and its provenance, and the
//! payload envelope gate. Each is a digest of canonical lines; the later
//! gates bind the digests of the earlier ones.

use vstd::prelude::*;
use crate::audit_policy::RollbackDurablePolicyWriteAuthorityDecision;
use crate::canonical::{
    finalize_sha256, hash_line_bool, hash_line_hash, hash_line_str, hash_line_u64, line_bool,
    line_hash, line_str, line_u64,
};
use crate::constants::{
    HELLO_RECOVERY_ROLLBACK_INSPECT_SOURCE_REFERENCE_ID,
    HELLO_RECOVERY_ROLLBACK_INSPECT_SOURCE_REFERENCE_SCHEMA,
    HELLO_ROLLBACK_APPEND_INTENT_GATE_ID,
    HELLO_ROLLBACK_APPEND_INTENT_GATE_SCHEMA,
    HELLO_ROLLBACK_APPEND_INTENT_GATE_STATUS,
    HELLO_ROLLBACK_APPLY_CAPABILITY,
    HELLO_ROLLBACK_APPLY_ID,
    HELLO_ROLLBACK_APPLY_SCHEMA,
    HELLO_ROLLBACK_APPLY_STATUS,
    HELLO_ROLLBACK_DURABLE_POLICY_WRITE_AUTHORITY_DECISION_ID,
    HELLO_ROLLBACK_DURABLE_POLICY_WRITE_AUTHORITY_DECISION_REASON,
    HELLO_ROLLBACK_DURABLE_POLICY_WRITE_AUTHORITY_DECISION_SCHEMA,
    HELLO_ROLLBACK_DURABLE_POLICY_WRITE_AUTHORITY_DECISION_STATUS,
    HELLO_ROLLBACK_PAYLOAD_ENVELOPE_GATE_ID,
    HELLO_ROLLBACK_PAYLOAD_ENVELOPE_GATE_SCHEMA,
    HELLO_ROLLBACK_PAYLOAD_ENVELOPE_GATE_STATUS,
    HELLO_ROLLBACK_PREVIEW_ID,
    HELLO_ROLLBACK_PREVIEW_SCHEMA,
    HELLO_ROLLBACK_PREVIEW_STATUS,
    HELLO_ROLLBACK_TRANSACTION_PAYLOAD_ID,
    HELLO_ROLLBACK_TRANSACTION_PAYLOAD_SCHEMA,
    HELLO_ROLLBACK_TRANSACTION_PAYLOAD_STATUS,
    HELLO_ROLLBACK_TRANSACTION_PREFLIGHT_ID,
    HELLO_ROLLBACK_TRANSACTION_PREFLIGHT_SCHEMA,
    HELLO_ROLLBACK_TRANSACTION_PREFLIGHT_STATUS,
    HELLO_ROLLBACK_WRITE_AUTHORITY_GATE_ID,
    HELLO_ROLLBACK_WRITE_AUTHORITY_GATE_SCHEMA,
    HELLO_ROLLBACK_WRITE_AUTHORITY_GATE_STATUS,
};
use crate::inspect_source::{
    RecoveryRollbackInspectSourceReference, RecoveryRollbackInspectSourceReferenceState,
};
use crate::sha256::{Sha256, sha256_absorbed, sha256_digest, sha256_new};

verus! {

/// What the rollback gates read of the running service: its identifier,
/// its generation and state counter, and the digest of its current state.
#[derive(Clone, Copy)]
pub struct Snapshot {
    pub service_id: &'static str,
    pub generation: u64,
    pub state_counter: u64,
    pub state_hash: [u8; 32],
}

/// The probation record of a hot swap: the descriptor, artifact identity,
/// generation and state before the swap (the rollback target) and after it.
#[derive(Clone, Copy)]
pub struct HelloHotSwapProbationRecord {
    pub probation_hash: [u8; 32],
    pub previous_descriptor_id: &'static str,
    pub previous_descriptor_source_hash: [u8; 32],
    pub previous_artifact_identity_id: &'static str,
    pub previous_artifact_identity_hash: [u8; 32],
    pub previous_generation: u64,
    pub previous_state_counter: u64,
    pub previous_state_hash: [u8; 32],
    pub new_descriptor_id: &'static str,
    pub new_descriptor_source_hash: [u8; 32],
    pub new_artifact_identity_id: &'static str,
    pub new_artifact_identity_hash: [u8; 32],
    pub new_generation: u64,
    pub new_state_counter: u64,
    pub new_state_hash: [u8; 32],
    pub state_migration_hash: [u8; 32],
}

/// The canonical lines of the rollback preview.
pub open spec fn rollback_preview_stream(
    snapshot: Snapshot,
    probation: HelloHotSwapProbationRecord,
) -> Seq<u8> {
    line_str("schema", HELLO_ROLLBACK_PREVIEW_SCHEMA)
        + line_str("id", HELLO_ROLLBACK_PREVIEW_ID)
        + line_str("scope", "current_boot")
        + line_str("classification", "local_only")
        + line_str("persistence", "none")
        + line_str("status", HELLO_ROLLBACK_PREVIEW_STATUS)
        + line_str("service_id", snapshot.service_id)
        + line_hash("source_probation_sha256", probation.probation_hash@)
        + line_str("rollback_target_descriptor_id", probation.previous_descriptor_id)
        + line_hash("rollback_target_descriptor_source_sha256",
            probation.previous_descriptor_source_hash@,
        )
        + line_str("current_descriptor_id", probation.new_descriptor_id)
        + line_hash("current_descriptor_source_sha256", probation.new_descriptor_source_hash@)
        + line_str("rollback_target_artifact_identity_id", probation.previous_artifact_identity_id)
        + line_hash("rollback_target_artifact_identity_sha256",
            probation.previous_artifact_identity_hash@,
        )
        + line_str("current_artifact_identity_id", probation.new_artifact_identity_id)
        + line_hash("current_artifact_identity_sha256", probation.new_artifact_identity_hash@)
        + line_u64("rollback_target_generation", probation.previous_generation)
        + line_u64("current_generation", snapshot.generation)
        + line_hash("rollback_target_state_sha256", probation.previous_state_hash@)
        + line_hash("current_state_sha256", snapshot.state_hash@)
        + line_u64("rollback_target_state_counter", probation.previous_state_counter)
        + line_u64("current_state_counter", snapshot.state_counter)
        + line_hash("state_migration_sha256", probation.state_migration_hash@)
        + line_bool("read_only", true)
        + line_bool("applies_rollback", false)
        + line_bool("writes_persistent_state", false)
        + line_bool("writes_durable_audit_log", false)
}

/// The digest of the rollback preview.
pub open spec fn rollback_preview_digest(
    snapshot: Snapshot,
    probation: HelloHotSwapProbationRecord,
) -> Seq<u8> {
    sha256_digest(rollback_preview_stream(snapshot, probation))
}

/// The digest of the read-only rollback preview: what a rollback would
/// return to, next to the current state.
pub fn hello_rollback_preview_hash(
    snapshot: Snapshot,
    probation: HelloHotSwapProbationRecord,
) -> (digest: [u8; 32])
    ensures
        digest@ == rollback_preview_digest(snapshot, probation),
{
    let mut hash = sha256_new();
    hash_line_str(&mut hash, "schema", HELLO_ROLLBACK_PREVIEW_SCHEMA);
    assert(sha256_absorbed(hash) =~= line_str("schema", HELLO_ROLLBACK_PREVIEW_SCHEMA));
    hash_line_str(&mut hash, "id", HELLO_ROLLBACK_PREVIEW_ID);
    hash_line_str(&mut hash, "scope", "current_boot");
    hash_line_str(&mut hash, "classification", "local_only");
    hash_line_str(&mut hash, "persistence", "none");
    hash_line_str(&mut hash, "status", HELLO_ROLLBACK_PREVIEW_STATUS);
    hash_line_str(&mut hash, "service_id", snapshot.service_id);
    hash_line_hash(&mut hash, "source_probation_sha256", probation.probation_hash);
    hash_line_str(&mut hash, "rollback_target_descriptor_id", probation.previous_descriptor_id);
    hash_line_hash(&mut hash, "rollback_target_descriptor_source_sha256",
        probation.previous_descriptor_source_hash,
    );
    hash_line_str(&mut hash, "current_descriptor_id", probation.new_descriptor_id);
    hash_line_hash(&mut hash, "current_descriptor_source_sha256",
        probation.new_descriptor_source_hash,
    );
    hash_line_str(&mut hash, "rollback_target_artifact_identity_id",
        probation.previous_artifact_identity_id,
    );
    hash_line_hash(&mut hash, "rollback_target_artifact_identity_sha256",
        probation.previous_artifact_identity_hash,
    );
    hash_line_str(&mut hash, "current_artifact_identity_id", probation.new_artifact_identity_id);
    hash_line_hash(&mut hash, "current_artifact_identity_sha256",
        probation.new_artifact_identity_hash,
    );
    hash_line_u64(&mut hash, "rollback_target_generation", probation.previous_generation);
    hash_line_u64(&mut hash, "current_generation", snapshot.generation);
    hash_line_hash(&mut hash, "rollback_target_state_sha256", probation.previous_state_hash);
    hash_line_hash(&mut hash, "current_state_sha256", snapshot.state_hash);
    hash_line_u64(&mut hash, "rollback_target_state_counter", probation.previous_state_counter);
    hash_line_u64(&mut hash, "current_state_counter", snapshot.state_counter);
    hash_line_hash(&mut hash, "state_migration_sha256", probation.state_migration_hash);
    hash_line_bool(&mut hash, "read_only", true);
    hash_line_bool(&mut hash, "applies_rollback", false);
    hash_line_bool(&mut hash, "writes_persistent_state", false);
    hash_line_bool(&mut hash, "writes_durable_audit_log", false);
    finalize_sha256(hash)
}

/// The leading lines of the denied rollback apply.
pub open spec fn rollback_apply_denial_head(
    snapshot: Snapshot,
    probation: HelloHotSwapProbationRecord,
) -> Seq<u8> {
    line_str("schema", HELLO_ROLLBACK_APPLY_SCHEMA)
        + line_str("id", HELLO_ROLLBACK_APPLY_ID)
        + line_str("scope", "current_boot")
        + line_str("classification", "local_only")
        + line_str("persistence", "none")
        + line_str("status", HELLO_ROLLBACK_APPLY_STATUS)
        + line_str("service_id", snapshot.service_id)
        + line_hash("rollback_preview_sha256", rollback_preview_digest(snapshot, probation))
        + line_hash("source_probation_sha256", probation.probation_hash@)
        + line_hash("current_state_sha256", snapshot.state_hash@)
        + line_u64("current_state_counter", snapshot.state_counter)
        + line_u64("current_generation", snapshot.generation)
        + line_str("rollback_target_descriptor_id", probation.previous_descriptor_id)
        + line_str("current_descriptor_id", probation.new_descriptor_id)
        + line_bool("authorized", false)
        + line_bool("mutates_service_state", false)
        + line_bool("applies_rollback", false)
        + line_bool("writes_persistent_state", false)
        + line_bool("writes_durable_audit_log", false)
}

/// `prefix` followed, when a durable policy write authority decision is
/// given, by the lines that bind it.
pub open spec fn with_decision_source_lines(
    prefix: Seq<u8>,
    decision: Option<RollbackDurablePolicyWriteAuthorityDecision>,
) -> Seq<u8> {
    match decision {
        Some(decision) => prefix
            + line_str("source_durable_policy_write_authority_decision_schema",
                HELLO_ROLLBACK_DURABLE_POLICY_WRITE_AUTHORITY_DECISION_SCHEMA,
            )
            + line_str("source_durable_policy_write_authority_decision_id",
                HELLO_ROLLBACK_DURABLE_POLICY_WRITE_AUTHORITY_DECISION_ID,
            )
            + line_str("source_durable_policy_write_authority_decision_status",
                HELLO_ROLLBACK_DURABLE_POLICY_WRITE_AUTHORITY_DECISION_STATUS,
            )
            + line_str("source_durable_policy_write_authority_decision_reason",
                HELLO_ROLLBACK_DURABLE_POLICY_WRITE_AUTHORITY_DECISION_REASON,
            )
            + line_hash("source_durable_policy_write_authority_decision_sha256",
                decision.decision_hash@,
            )
            + line_hash("source_durable_policy_write_authority_decision_target_region_sector_inspection_sha256",
                decision.source_target_region_sector_inspection_hash@,
            )
            + line_bool("source_durable_policy_write_authority_decision_verified",
                decision.transaction_append_dry_run_verified && decision.target_region_sector_inspection_verified && decision.write_authority_evidence_verified && decision.audit_policy_availability_evidence_verified && decision.durable_append_authority_availability_evidence_verified && decision.target_span_verified,
            )
            + line_bool("source_durable_policy_write_authority_decision_authorizes_rollback_apply",
                false,
            ),
        None => prefix,
    }
}

/// `prefix` followed, when a reference was retained, by the lines that bind
/// it.
pub open spec fn with_inspect_reference_lines(
    prefix: Seq<u8>,
    reference: Option<RecoveryRollbackInspectSourceReference>,
) -> Seq<u8> {
    match reference {
        Some(reference) => prefix
            + line_u64("source_recovery_rollback_inspect_source_reference_event_sequence",
                reference.event_sequence,
            )
            + line_u64("source_recovery_rollback_inspect_source_reference_audit_event_sequence",
                reference.audit_event_sequence,
            )
            + line_hash("source_recovery_rollback_inspect_source_reference_sha256",
                reference.reference_hash@,
            )
            + line_hash("source_recovery_rollback_inspect_source_reference_inspection_sha256",
                reference.inspection_hash@,
            )
            + line_hash("source_recovery_rollback_inspect_source_reference_sector_plan_sha256",
                reference.source_sector_plan_hash@,
            )
            + line_hash("source_recovery_rollback_inspect_source_reference_target_region_write_readback_sha256",
                reference.source_target_region_write_readback_hash@,
            ),
        None => prefix,
    }
}

/// `prefix` followed, when the state of the retained inspect source is
/// given, by the lines that bind it.
pub open spec fn with_inspect_source_lines(
    prefix: Seq<u8>,
    state: Option<RecoveryRollbackInspectSourceReferenceState>,
) -> Seq<u8> {
    match state {
        Some(state) => with_inspect_reference_lines(
            prefix
                + line_str("source_recovery_rollback_inspect_source_reference_schema",
                    HELLO_RECOVERY_ROLLBACK_INSPECT_SOURCE_REFERENCE_SCHEMA,
                )
                + line_str("source_recovery_rollback_inspect_source_reference_id",
                    HELLO_RECOVERY_ROLLBACK_INSPECT_SOURCE_REFERENCE_ID,
                )
                + line_str("source_recovery_rollback_inspect_source_reference_status", state.status)
                + line_str("source_recovery_rollback_inspect_source_reference_reason", state.reason)
                + line_str("source_recovery_rollback_inspect_source_reference_ram_audit_status",
                    state.ram_audit_status,
                )
                + line_str("source_recovery_rollback_inspect_source_reference_ram_audit_reason",
                    state.ram_audit_reason,
                ),
            state.reference,
        )
            + line_bool("source_recovery_rollback_inspect_source_reference_source_event_retained",
                state.source_event_retained,
            )
            + line_bool("source_recovery_rollback_inspect_source_reference_audit_event_retained",
                state.audit_event_retained,
            )
            + line_bool("source_recovery_rollback_inspect_source_reference_ram_audit_validated",
                state.ram_audit_validated,
            )
            + line_bool("source_recovery_rollback_inspect_source_reference_authorizes_rollback_apply",
                false,
            ),
        None => prefix,
    }
}

/// The canonical lines of the denied rollback apply, with the sources that
/// the apply retained.
pub open spec fn rollback_apply_denial_stream(
    snapshot: Snapshot,
    probation: HelloHotSwapProbationRecord,
    decision: Option<RollbackDurablePolicyWriteAuthorityDecision>,
    state: Option<RecoveryRollbackInspectSourceReferenceState>,
) -> Seq<u8> {
    with_inspect_source_lines(
        with_decision_source_lines(rollback_apply_denial_head(snapshot, probation), decision),
        state,
    )
}

/// The digest of the denied rollback apply without retained sources.
pub open spec fn rollback_apply_denial_digest(
    snapshot: Snapshot,
    probation: HelloHotSwapProbationRecord,
) -> Seq<u8> {
    sha256_digest(rollback_apply_denial_stream(snapshot, probation, None, None))
}

fn hash_decision_source_lines(
    hash: &mut Sha256,
    decision: Option<RollbackDurablePolicyWriteAuthorityDecision>,
)
    ensures
        sha256_absorbed(*final(hash)) == with_decision_source_lines(
            sha256_absorbed(*old(hash)),
            decision,
        ),
{
    if let Some(decision) = decision {
        hash_line_str(hash, "source_durable_policy_write_authority_decision_schema",
            HELLO_ROLLBACK_DURABLE_POLICY_WRITE_AUTHORITY_DECISION_SCHEMA,
        );
        hash_line_str(hash, "source_durable_policy_write_authority_decision_id",
            HELLO_ROLLBACK_DURABLE_POLICY_WRITE_AUTHORITY_DECISION_ID,
        );
        hash_line_str(hash, "source_durable_policy_write_authority_decision_status",
            HELLO_ROLLBACK_DURABLE_POLICY_WRITE_AUTHORITY_DECISION_STATUS,
        );
        hash_line_str(hash, "source_durable_policy_write_authority_decision_reason",
            HELLO_ROLLBACK_DURABLE_POLICY_WRITE_AUTHORITY_DECISION_REASON,
        );
        hash_line_hash(hash, "source_durable_policy_write_authority_decision_sha256",
            decision.decision_hash,
        );
        hash_line_hash(hash, "source_durable_policy_write_authority_decision_target_region_sector_inspection_sha256",
            decision.source_target_region_sector_inspection_hash,
        );
        hash_line_bool(hash, "source_durable_policy_write_authority_decision_verified",
            decision.transaction_append_dry_run_verified && decision.target_region_sector_inspection_verified && decision.write_authority_evidence_verified && decision.audit_policy_availability_evidence_verified && decision.durable_append_authority_availability_evidence_verified && decision.target_span_verified,
        );
        hash_line_bool(hash, "source_durable_policy_write_authority_decision_authorizes_rollback_apply",
            false,
        );
    }
}

fn hash_inspect_reference_lines(
    hash: &mut Sha256,
    reference: Option<RecoveryRollbackInspectSourceReference>,
)
    ensures
        sha256_absorbed(*final(hash)) == with_inspect_reference_lines(
            sha256_absorbed(*old(hash)),
            reference,
        ),
{
    if let Some(reference) = reference {
        hash_line_u64(hash, "source_recovery_rollback_inspect_source_reference_event_sequence",
            reference.event_sequence,
        );
        hash_line_u64(hash, "source_recovery_rollback_inspect_source_reference_audit_event_sequence",
            reference.audit_event_sequence,
        );
        hash_line_hash(hash, "source_recovery_rollback_inspect_source_reference_sha256",
            reference.reference_hash,
        );
        hash_line_hash(hash, "source_recovery_rollback_inspect_source_reference_inspection_sha256",
            reference.inspection_hash,
        );
        hash_line_hash(hash, "source_recovery_rollback_inspect_source_reference_sector_plan_sha256",
            reference.source_sector_plan_hash,
        );
        hash_line_hash(hash, "source_recovery_rollback_inspect_source_reference_target_region_write_readback_sha256",
            reference.source_target_region_write_readback_hash,
        );
    }
}

fn hash_inspect_source_lines(
    hash: &mut Sha256,
    state: Option<RecoveryRollbackInspectSourceReferenceState>,
)
    ensures
        sha256_absorbed(*final(hash)) == with_inspect_source_lines(
            sha256_absorbed(*old(hash)),
            state,
        ),
{
    if let Some(state) = state {
        hash_line_str(hash, "source_recovery_rollback_inspect_source_reference_schema",
            HELLO_RECOVERY_ROLLBACK_INSPECT_SOURCE_REFERENCE_SCHEMA,
        );
        hash_line_str(hash, "source_recovery_rollback_inspect_source_reference_id",
            HELLO_RECOVERY_ROLLBACK_INSPECT_SOURCE_REFERENCE_ID,
        );
        hash_line_str(hash, "source_recovery_rollback_inspect_source_reference_status",
            state.status,
        );
        hash_line_str(hash, "source_recovery_rollback_inspect_source_reference_reason",
            state.reason,
        );
        hash_line_str(hash, "source_recovery_rollback_inspect_source_reference_ram_audit_status",
            state.ram_audit_status,
        );
        hash_line_str(hash, "source_recovery_rollback_inspect_source_reference_ram_audit_reason",
            state.ram_audit_reason,
        );
        hash_inspect_reference_lines(hash, state.reference);
        hash_line_bool(hash, "source_recovery_rollback_inspect_source_reference_source_event_retained",
            state.source_event_retained,
        );
        hash_line_bool(hash, "source_recovery_rollback_inspect_source_reference_audit_event_retained",
            state.audit_event_retained,
        );
        hash_line_bool(hash, "source_recovery_rollback_inspect_source_reference_ram_audit_validated",
            state.ram_audit_validated,
        );
        hash_line_bool(hash, "source_recovery_rollback_inspect_source_reference_authorizes_rollback_apply",
            false,
        );
    }
}

/// The digest of the denied rollback apply, binding the durable policy
/// write authority decision and the retained inspect source when they are
/// given. The apply is never authorized.
pub fn hello_rollback_apply_denial_hash_with_retained_sources(
    snapshot: Snapshot,
    probation: HelloHotSwapProbationRecord,
    durable_policy_write_authority_decision: Option<RollbackDurablePolicyWriteAuthorityDecision>,
    recovery_rollback_inspect_source_reference_state:
        Option<RecoveryRollbackInspectSourceReferenceState>,
) -> (digest: [u8; 32])
    ensures
        digest@ == sha256_digest(
            rollback_apply_denial_stream(
                snapshot,
                probation,
                durable_policy_write_authority_decision,
                recovery_rollback_inspect_source_reference_state,
            ),
        ),
{
    let mut hash = sha256_new();
    hash_line_str(&mut hash, "schema", HELLO_ROLLBACK_APPLY_SCHEMA);
    assert(sha256_absorbed(hash) =~= line_str("schema", HELLO_ROLLBACK_APPLY_SCHEMA));
    hash_line_str(&mut hash, "id", HELLO_ROLLBACK_APPLY_ID);
    hash_line_str(&mut hash, "scope", "current_boot");
    hash_line_str(&mut hash, "classification", "local_only");
    hash_line_str(&mut hash, "persistence", "none");
    hash_line_str(&mut hash, "status", HELLO_ROLLBACK_APPLY_STATUS);
    hash_line_str(&mut hash, "service_id", snapshot.service_id);
    hash_line_hash(&mut hash, "rollback_preview_sha256",
        hello_rollback_preview_hash(snapshot, probation),
    );
    hash_line_hash(&mut hash, "source_probation_sha256", probation.probation_hash);
    hash_line_hash(&mut hash, "current_state_sha256", snapshot.state_hash);
    hash_line_u64(&mut hash, "current_state_counter", snapshot.state_counter);
    hash_line_u64(&mut hash, "current_generation", snapshot.generation);
    hash_line_str(&mut hash, "rollback_target_descriptor_id", probation.previous_descriptor_id);
    hash_line_str(&mut hash, "current_descriptor_id", probation.new_descriptor_id);
    hash_line_bool(&mut hash, "authorized", false);
    hash_line_bool(&mut hash, "mutates_service_state", false);
    hash_line_bool(&mut hash, "applies_rollback", false);
    hash_line_bool(&mut hash, "writes_persistent_state", false);
    hash_line_bool(&mut hash, "writes_durable_audit_log", false);
    hash_decision_source_lines(&mut hash, durable_policy_write_authority_decision);
    hash_inspect_source_lines(&mut hash, recovery_rollback_inspect_source_reference_state);
    finalize_sha256(hash)
}

/// The digest of the denied rollback apply without retained sources.
pub fn hello_rollback_apply_denial_hash(
    snapshot: Snapshot,
    probation: HelloHotSwapProbationRecord,
) -> (digest: [u8; 32])
    ensures
        digest@ == rollback_apply_denial_digest(snapshot, probation),
{
    hello_rollback_apply_denial_hash_with_retained_sources(snapshot, probation, None, None)
}

/// The canonical lines of the rollback transaction preflight.
pub open spec fn rollback_transaction_preflight_stream(
    snapshot: Snapshot,
    probation: HelloHotSwapProbationRecord,
) -> Seq<u8> {
    line_str("schema", HELLO_ROLLBACK_TRANSACTION_PREFLIGHT_SCHEMA)
        + line_str("id", HELLO_ROLLBACK_TRANSACTION_PREFLIGHT_ID)
        + line_str("scope", "current_boot")
        + line_str("classification", "local_only")
        + line_str("persistence", "none")
        + line_str("status", HELLO_ROLLBACK_TRANSACTION_PREFLIGHT_STATUS)
        + line_str("service_id", snapshot.service_id)
        + line_str("requested_capability", HELLO_ROLLBACK_APPLY_CAPABILITY)
        + line_hash("rollback_apply_sha256", rollback_apply_denial_digest(snapshot, probation))
        + line_hash("rollback_preview_sha256", rollback_preview_digest(snapshot, probation))
        + line_hash("source_probation_sha256", probation.probation_hash@)
        + line_hash("current_state_sha256", snapshot.state_hash@)
        + line_u64("current_state_counter", snapshot.state_counter)
        + line_u64("current_generation", snapshot.generation)
        + line_str("rollback_target_descriptor_id", probation.previous_descriptor_id)
        + line_hash("rollback_target_descriptor_source_sha256",
            probation.previous_descriptor_source_hash@,
        )
        + line_str("rollback_target_artifact_identity_id", probation.previous_artifact_identity_id)
        + line_hash("rollback_target_artifact_identity_sha256",
            probation.previous_artifact_identity_hash@,
        )
        + line_u64("rollback_target_generation", probation.previous_generation)
        + line_hash("rollback_target_state_sha256", probation.previous_state_hash@)
        + line_u64("rollback_target_state_counter", probation.previous_state_counter)
        + line_str("current_candidate_descriptor_id", probation.new_descriptor_id)
        + line_hash("current_candidate_descriptor_source_sha256",
            probation.new_descriptor_source_hash@,
        )
        + line_str("current_candidate_artifact_identity_id", probation.new_artifact_identity_id)
        + line_hash("current_candidate_artifact_identity_sha256",
            probation.new_artifact_identity_hash@,
        )
        + line_u64("current_candidate_generation", probation.new_generation)
        + line_hash("current_candidate_state_sha256", probation.new_state_hash@)
        + line_u64("current_candidate_state_counter", probation.new_state_counter)
        + line_hash("state_migration_sha256", probation.state_migration_hash@)
        + line_bool("rollback_apply_authority_missing", true)
        + line_bool("rollback_transaction_authority_missing", true)
        + line_bool("durable_audit_write_authority_missing", true)
        + line_bool("persistent_install_authority_missing", true)
        + line_bool("mutates_service_state", false)
        + line_bool("applies_rollback", false)
        + line_bool("writes_persistent_state", false)
        + line_bool("writes_durable_audit_log", false)
        + line_bool("writes_rollback_store", false)
        + line_bool("installs_rollback_plan", false)
        + line_bool("accepts_external_artifact_bytes", false)
        + line_bool("loads_candidate_bytes", false)
        + line_bool("maps_executable_pages", false)
        + line_bool("provider_auto_load", false)
        + line_bool("grants_broad_mutation", false)
}

/// The digest of the rollback transaction preflight.
pub open spec fn rollback_transaction_preflight_digest(
    snapshot: Snapshot,
    probation: HelloHotSwapProbationRecord,
) -> Seq<u8> {
    sha256_digest(rollback_transaction_preflight_stream(snapshot, probation))
}

/// The digest of the rollback transaction preflight: the transaction a
/// rollback apply would need, with no writer to carry it out.
pub fn hello_rollback_transaction_preflight_hash(
    snapshot: Snapshot,
    probation: HelloHotSwapProbationRecord,
) -> (digest: [u8; 32])
    ensures
        digest@ == rollback_transaction_preflight_digest(snapshot, probation),
{
    let mut hash = sha256_new();
    hash_line_str(&mut hash, "schema", HELLO_ROLLBACK_TRANSACTION_PREFLIGHT_SCHEMA);
    assert(sha256_absorbed(hash) =~= line_str("schema",
        HELLO_ROLLBACK_TRANSACTION_PREFLIGHT_SCHEMA));
    hash_line_str(&mut hash, "id", HELLO_ROLLBACK_TRANSACTION_PREFLIGHT_ID);
    hash_line_str(&mut hash, "scope", "current_boot");
    hash_line_str(&mut hash, "classification", "local_only");
    hash_line_str(&mut hash, "persistence", "none");
    hash_line_str(&mut hash, "status", HELLO_ROLLBACK_TRANSACTION_PREFLIGHT_STATUS);
    hash_line_str(&mut hash, "service_id", snapshot.service_id);
    hash_line_str(&mut hash, "requested_capability", HELLO_ROLLBACK_APPLY_CAPABILITY);
    hash_line_hash(&mut hash, "rollback_apply_sha256",
        hello_rollback_apply_denial_hash(snapshot, probation),
    );
    hash_line_hash(&mut hash, "rollback_preview_sha256",
        hello_rollback_preview_hash(snapshot, probation),
    );
    hash_line_hash(&mut hash, "source_probation_sha256", probation.probation_hash);
    hash_line_hash(&mut hash, "current_state_sha256", snapshot.state_hash);
    hash_line_u64(&mut hash, "current_state_counter", snapshot.state_counter);
    hash_line_u64(&mut hash, "current_generation", snapshot.generation);
    hash_line_str(&mut hash, "rollback_target_descriptor_id", probation.previous_descriptor_id);
    hash_line_hash(&mut hash, "rollback_target_descriptor_source_sha256",
        probation.previous_descriptor_source_hash,
    );
    hash_line_str(&mut hash, "rollback_target_artifact_identity_id",
        probation.previous_artifact_identity_id,
    );
    hash_line_hash(&mut hash, "rollback_target_artifact_identity_sha256",
        probation.previous_artifact_identity_hash,
    );
    hash_line_u64(&mut hash, "rollback_target_generation", probation.previous_generation);
    hash_line_hash(&mut hash, "rollback_target_state_sha256", probation.previous_state_hash);
    hash_line_u64(&mut hash, "rollback_target_state_counter", probation.previous_state_counter);
    hash_line_str(&mut hash, "current_candidate_descriptor_id", probation.new_descriptor_id);
    hash_line_hash(&mut hash, "current_candidate_descriptor_source_sha256",
        probation.new_descriptor_source_hash,
    );
    hash_line_str(&mut hash, "current_candidate_artifact_identity_id",
        probation.new_artifact_identity_id,
    );
    hash_line_hash(&mut hash, "current_candidate_artifact_identity_sha256",
        probation.new_artifact_identity_hash,
    );
    hash_line_u64(&mut hash, "current_candidate_generation", probation.new_generation);
    hash_line_hash(&mut hash, "current_candidate_state_sha256", probation.new_state_hash);
    hash_line_u64(&mut hash, "current_candidate_state_counter", probation.new_state_counter);
    hash_line_hash(&mut hash, "state_migration_sha256", probation.state_migration_hash);
    hash_line_bool(&mut hash, "rollback_apply_authority_missing", true);
    hash_line_bool(&mut hash, "rollback_transaction_authority_missing", true);
    hash_line_bool(&mut hash, "durable_audit_write_authority_missing", true);
    hash_line_bool(&mut hash, "persistent_install_authority_missing", true);
    hash_line_bool(&mut hash, "mutates_service_state", false);
    hash_line_bool(&mut hash, "applies_rollback", false);
    hash_line_bool(&mut hash, "writes_persistent_state", false);
    hash_line_bool(&mut hash, "writes_durable_audit_log", false);
    hash_line_bool(&mut hash, "writes_rollback_store", false);
    hash_line_bool(&mut hash, "installs_rollback_plan", false);
    hash_line_bool(&mut hash, "accepts_external_artifact_bytes", false);
    hash_line_bool(&mut hash, "loads_candidate_bytes", false);
    hash_line_bool(&mut hash, "maps_executable_pages", false);
    hash_line_bool(&mut hash, "provider_auto_load", false);
    hash_line_bool(&mut hash, "grants_broad_mutation", false);
    finalize_sha256(hash)
}

/// The canonical lines of the rollback write authority gate.
pub open spec fn rollback_write_authority_gate_stream(
    snapshot: Snapshot,
    probation: HelloHotSwapProbationRecord,
) -> Seq<u8> {
    line_str("schema", HELLO_ROLLBACK_WRITE_AUTHORITY_GATE_SCHEMA)
        + line_str("id", HELLO_ROLLBACK_WRITE_AUTHORITY_GATE_ID)
        + line_str("scope", "current_boot")
        + line_str("classification", "local_only")
        + line_str("persistence", "none")
        + line_str("status", HELLO_ROLLBACK_WRITE_AUTHORITY_GATE_STATUS)
        + line_str("service_id", snapshot.service_id)
        + line_str("requested_capability", HELLO_ROLLBACK_APPLY_CAPABILITY)
        + line_str("required_audit_schema", "raios.audit_record.v0")
        + line_str("required_rollback_schema", "raios.rollback_transaction.v0")
        + line_hash("rollback_transaction_preflight_sha256",
            rollback_transaction_preflight_digest(snapshot, probation),
        )
        + line_hash("rollback_apply_sha256", rollback_apply_denial_digest(snapshot, probation))
        + line_hash("rollback_preview_sha256", rollback_preview_digest(snapshot, probation))
        + line_hash("source_probation_sha256", probation.probation_hash@)
        + line_hash("current_state_sha256", snapshot.state_hash@)
        + line_u64("current_state_counter", snapshot.state_counter)
        + line_hash("rollback_target_descriptor_source_sha256",
            probation.previous_descriptor_source_hash@,
        )
        + line_hash("rollback_target_artifact_identity_sha256",
            probation.previous_artifact_identity_hash@,
        )
        + line_hash("current_candidate_descriptor_source_sha256",
            probation.new_descriptor_source_hash@,
        )
        + line_hash("current_candidate_artifact_identity_sha256",
            probation.new_artifact_identity_hash@,
        )
        + line_hash("state_migration_sha256", probation.state_migration_hash@)
        + line_bool("durable_audit_write_authority_available", false)
        + line_bool("rollback_store_write_authority_available", false)
        + line_bool("rollback_transaction_append_available", false)
        + line_bool("writes_durable_audit_log", false)
        + line_bool("writes_rollback_store", false)
        + line_bool("appends_rollback_transaction", false)
        + line_bool("installs_rollback_plan", false)
        + line_bool("applies_rollback", false)
}

/// The digest of the rollback write authority gate.
pub open spec fn rollback_write_authority_gate_digest(
    snapshot: Snapshot,
    probation: HelloHotSwapProbationRecord,
) -> Seq<u8> {
    sha256_digest(rollback_write_authority_gate_stream(snapshot, probation))
}

/// The digest of the rollback write authority gate, which withholds write
/// authority.
pub fn rollback_write_authority_gate_hash(
    snapshot: Snapshot,
    probation: HelloHotSwapProbationRecord,
) -> (digest: [u8; 32])
    ensures
        digest@ == rollback_write_authority_gate_digest(snapshot, probation),
{
    let mut hash = sha256_new();
    hash_line_str(&mut hash, "schema", HELLO_ROLLBACK_WRITE_AUTHORITY_GATE_SCHEMA);
    assert(sha256_absorbed(hash) =~= line_str("schema",
        HELLO_ROLLBACK_WRITE_AUTHORITY_GATE_SCHEMA));
    hash_line_str(&mut hash, "id", HELLO_ROLLBACK_WRITE_AUTHORITY_GATE_ID);
    hash_line_str(&mut hash, "scope", "current_boot");
    hash_line_str(&mut hash, "classification", "local_only");
    hash_line_str(&mut hash, "persistence", "none");
    hash_line_str(&mut hash, "status", HELLO_ROLLBACK_WRITE_AUTHORITY_GATE_STATUS);
    hash_line_str(&mut hash, "service_id", snapshot.service_id);
    hash_line_str(&mut hash, "requested_capability", HELLO_ROLLBACK_APPLY_CAPABILITY);
    hash_line_str(&mut hash, "required_audit_schema", "raios.audit_record.v0");
    hash_line_str(&mut hash, "required_rollback_schema", "raios.rollback_transaction.v0");
    hash_line_hash(&mut hash, "rollback_transaction_preflight_sha256",
        hello_rollback_transaction_preflight_hash(snapshot, probation),
    );
    hash_line_hash(&mut hash, "rollback_apply_sha256",
        hello_rollback_apply_denial_hash(snapshot, probation),
    );
    hash_line_hash(&mut hash, "rollback_preview_sha256",
        hello_rollback_preview_hash(snapshot, probation),
    );
    hash_line_hash(&mut hash, "source_probation_sha256", probation.probation_hash);
    hash_line_hash(&mut hash, "current_state_sha256", snapshot.state_hash);
    hash_line_u64(&mut hash, "current_state_counter", snapshot.state_counter);
    hash_line_hash(&mut hash, "rollback_target_descriptor_source_sha256",
        probation.previous_descriptor_source_hash,
    );
    hash_line_hash(&mut hash, "rollback_target_artifact_identity_sha256",
        probation.previous_artifact_identity_hash,
    );
    hash_line_hash(&mut hash, "current_candidate_descriptor_source_sha256",
        probation.new_descriptor_source_hash,
    );
    hash_line_hash(&mut hash, "current_candidate_artifact_identity_sha256",
        probation.new_artifact_identity_hash,
    );
    hash_line_hash(&mut hash, "state_migration_sha256", probation.state_migration_hash);
    hash_line_bool(&mut hash, "durable_audit_write_authority_available", false);
    hash_line_bool(&mut hash, "rollback_store_write_authority_available", false);
    hash_line_bool(&mut hash, "rollback_transaction_append_available", false);
    hash_line_bool(&mut hash, "writes_durable_audit_log", false);
    hash_line_bool(&mut hash, "writes_rollback_store", false);
    hash_line_bool(&mut hash, "appends_rollback_transaction", false);
    hash_line_bool(&mut hash, "installs_rollback_plan", false);
    hash_line_bool(&mut hash, "applies_rollback", false);
    finalize_sha256(hash)
}

/// The canonical lines of the rollback append intent gate.
pub open spec fn rollback_append_intent_gate_stream(
    snapshot: Snapshot,
    probation: HelloHotSwapProbationRecord,
) -> Seq<u8> {
    line_str("schema", HELLO_ROLLBACK_APPEND_INTENT_GATE_SCHEMA)
        + line_str("id", HELLO_ROLLBACK_APPEND_INTENT_GATE_ID)
        + line_str("scope", "current_boot")
        + line_str("classification", "local_only")
        + line_str("persistence", "none")
        + line_str("status", HELLO_ROLLBACK_APPEND_INTENT_GATE_STATUS)
        + line_str("service_id", snapshot.service_id)
        + line_str("requested_capability", HELLO_ROLLBACK_APPLY_CAPABILITY)
        + line_str("required_audit_schema", "raios.audit_record.v0")
        + line_str("required_rollback_schema", "raios.rollback_transaction.v0")
        + line_hash("rollback_write_authority_gate_sha256",
            rollback_write_authority_gate_digest(snapshot, probation),
        )
        + line_hash("rollback_transaction_preflight_sha256",
            rollback_transaction_preflight_digest(snapshot, probation),
        )
        + line_hash("rollback_apply_sha256", rollback_apply_denial_digest(snapshot, probation))
        + line_hash("rollback_preview_sha256", rollback_preview_digest(snapshot, probation))
        + line_hash("source_probation_sha256", probation.probation_hash@)
        + line_hash("current_state_sha256", snapshot.state_hash@)
        + line_u64("current_state_counter", snapshot.state_counter)
        + line_hash("rollback_target_descriptor_source_sha256",
            probation.previous_descriptor_source_hash@,
        )
        + line_hash("rollback_target_artifact_identity_sha256",
            probation.previous_artifact_identity_hash@,
        )
        + line_hash("current_candidate_descriptor_source_sha256",
            probation.new_descriptor_source_hash@,
        )
        + line_hash("current_candidate_artifact_identity_sha256",
            probation.new_artifact_identity_hash@,
        )
        + line_hash("state_migration_sha256", probation.state_migration_hash@)
        + line_bool("append_intent_available", false)
        + line_bool("rollback_transaction_append_available", false)
        + line_bool("durable_audit_store_available", false)
        + line_bool("rollback_store_available", false)
        + line_bool("writes_durable_audit_log", false)
        + line_bool("writes_rollback_store", false)
        + line_bool("appends_rollback_transaction", false)
        + line_bool("installs_rollback_plan", false)
        + line_bool("applies_rollback", false)
}

/// The digest of the rollback append intent gate.
pub open spec fn rollback_append_intent_gate_digest(
    snapshot: Snapshot,
    probation: HelloHotSwapProbationRecord,
) -> Seq<u8> {
    sha256_digest(rollback_append_intent_gate_stream(snapshot, probation))
}

/// The digest of the rollback append intent gate, which records the intent
/// to append and appends nothing.
pub fn rollback_append_intent_gate_hash(
    snapshot: Snapshot,
    probation: HelloHotSwapProbationRecord,
) -> (digest: [u8; 32])
    ensures
        digest@ == rollback_append_intent_gate_digest(snapshot, probation),
{
    let mut hash = sha256_new();
    hash_line_str(&mut hash, "schema", HELLO_ROLLBACK_APPEND_INTENT_GATE_SCHEMA);
    assert(sha256_absorbed(hash) =~= line_str("schema", HELLO_ROLLBACK_APPEND_INTENT_GATE_SCHEMA));
    hash_line_str(&mut hash, "id", HELLO_ROLLBACK_APPEND_INTENT_GATE_ID);
    hash_line_str(&mut hash, "scope", "current_boot");
    hash_line_str(&mut hash, "classification", "local_only");
    hash_line_str(&mut hash, "persistence", "none");
    hash_line_str(&mut hash, "status", HELLO_ROLLBACK_APPEND_INTENT_GATE_STATUS);
    hash_line_str(&mut hash, "service_id", snapshot.service_id);
    hash_line_str(&mut hash, "requested_capability", HELLO_ROLLBACK_APPLY_CAPABILITY);
    hash_line_str(&mut hash, "required_audit_schema", "raios.audit_record.v0");
    hash_line_str(&mut hash, "required_rollback_schema", "raios.rollback_transaction.v0");
    hash_line_hash(&mut hash, "rollback_write_authority_gate_sha256",
        rollback_write_authority_gate_hash(snapshot, probation),
    );
    hash_line_hash(&mut hash, "rollback_transaction_preflight_sha256",
        hello_rollback_transaction_preflight_hash(snapshot, probation),
    );
    hash_line_hash(&mut hash, "rollback_apply_sha256",
        hello_rollback_apply_denial_hash(snapshot, probation),
    );
    hash_line_hash(&mut hash, "rollback_preview_sha256",
        hello_rollback_preview_hash(snapshot, probation),
    );
    hash_line_hash(&mut hash, "source_probation_sha256", probation.probation_hash);
    hash_line_hash(&mut hash, "current_state_sha256", snapshot.state_hash);
    hash_line_u64(&mut hash, "current_state_counter", snapshot.state_counter);
    hash_line_hash(&mut hash, "rollback_target_descriptor_source_sha256",
        probation.previous_descriptor_source_hash,
    );
    hash_line_hash(&mut hash, "rollback_target_artifact_identity_sha256",
        probation.previous_artifact_identity_hash,
    );
    hash_line_hash(&mut hash, "current_candidate_descriptor_source_sha256",
        probation.new_descriptor_source_hash,
    );
    hash_line_hash(&mut hash, "current_candidate_artifact_identity_sha256",
        probation.new_artifact_identity_hash,
    );
    hash_line_hash(&mut hash, "state_migration_sha256", probation.state_migration_hash);
    hash_line_bool(&mut hash, "append_intent_available", false);
    hash_line_bool(&mut hash, "rollback_transaction_append_available", false);
    hash_line_bool(&mut hash, "durable_audit_store_available", false);
    hash_line_bool(&mut hash, "rollback_store_available", false);
    hash_line_bool(&mut hash, "writes_durable_audit_log", false);
    hash_line_bool(&mut hash, "writes_rollback_store", false);
    hash_line_bool(&mut hash, "appends_rollback_transaction", false);
    hash_line_bool(&mut hash, "installs_rollback_plan", false);
    hash_line_bool(&mut hash, "applies_rollback", false);
    finalize_sha256(hash)
}

/// The canonical lines of the rollback transaction payload.
pub open spec fn rollback_transaction_payload_stream(
    snapshot: Snapshot,
    probation: HelloHotSwapProbationRecord,
) -> Seq<u8> {
    line_str("schema", HELLO_ROLLBACK_TRANSACTION_PAYLOAD_SCHEMA)
        + line_str("id", HELLO_ROLLBACK_TRANSACTION_PAYLOAD_ID)
        + line_str("scope", "current_boot")
        + line_str("classification", "local_only")
        + line_str("persistence", "none")
        + line_str("status", HELLO_ROLLBACK_TRANSACTION_PAYLOAD_STATUS)
        + line_str("service_id", snapshot.service_id)
        + line_str("requested_capability", HELLO_ROLLBACK_APPLY_CAPABILITY)
        + line_hash("rollback_append_intent_gate_sha256",
            rollback_append_intent_gate_digest(snapshot, probation),
        )
        + line_hash("rollback_write_authority_gate_sha256",
            rollback_write_authority_gate_digest(snapshot, probation),
        )
        + line_hash("rollback_transaction_preflight_sha256",
            rollback_transaction_preflight_digest(snapshot, probation),
        )
        + line_hash("rollback_apply_sha256", rollback_apply_denial_digest(snapshot, probation))
        + line_hash("rollback_preview_sha256", rollback_preview_digest(snapshot, probation))
        + line_hash("source_probation_sha256", probation.probation_hash@)
        + line_hash("current_state_sha256", snapshot.state_hash@)
        + line_u64("current_state_counter", snapshot.state_counter)
        + line_str("rollback_target_descriptor_id", probation.previous_descriptor_id)
        + line_hash("rollback_target_descriptor_source_sha256",
            probation.previous_descriptor_source_hash@,
        )
        + line_str("rollback_target_artifact_identity_id", probation.previous_artifact_identity_id)
        + line_hash("rollback_target_artifact_identity_sha256",
            probation.previous_artifact_identity_hash@,
        )
        + line_u64("rollback_target_generation", probation.previous_generation)
        + line_hash("rollback_target_state_sha256", probation.previous_state_hash@)
        + line_u64("rollback_target_state_counter", probation.previous_state_counter)
        + line_str("current_candidate_descriptor_id", probation.new_descriptor_id)
        + line_hash("current_candidate_descriptor_source_sha256",
            probation.new_descriptor_source_hash@,
        )
        + line_str("current_candidate_artifact_identity_id", probation.new_artifact_identity_id)
        + line_hash("current_candidate_artifact_identity_sha256",
            probation.new_artifact_identity_hash@,
        )
        + line_u64("current_candidate_generation", probation.new_generation)
        + line_hash("current_candidate_state_sha256", probation.new_state_hash@)
        + line_u64("current_candidate_state_counter", probation.new_state_counter)
        + line_hash("state_migration_sha256", probation.state_migration_hash@)
        + line_bool("proposed_only", true)
        + line_bool("appended_to_rollback_log", false)
        + line_bool("writes_durable_audit_log", false)
        + line_bool("writes_rollback_store", false)
        + line_bool("applies_rollback", false)
}

/// The digest of the rollback transaction payload.
pub open spec fn rollback_transaction_payload_digest(
    snapshot: Snapshot,
    probation: HelloHotSwapProbationRecord,
) -> Seq<u8> {
    sha256_digest(rollback_transaction_payload_stream(snapshot, probation))
}

/// The digest of the rollback transaction payload.
pub fn hello_rollback_transaction_payload_hash(
    snapshot: Snapshot,
    probation: HelloHotSwapProbationRecord,
) -> (digest: [u8; 32])
    ensures
        digest@ == rollback_transaction_payload_digest(snapshot, probation),
{
    let mut hash = sha256_new();
    hash_line_str(&mut hash, "schema", HELLO_ROLLBACK_TRANSACTION_PAYLOAD_SCHEMA);
    assert(sha256_absorbed(hash) =~= line_str("schema", HELLO_ROLLBACK_TRANSACTION_PAYLOAD_SCHEMA));
    hash_line_str(&mut hash, "id", HELLO_ROLLBACK_TRANSACTION_PAYLOAD_ID);
    hash_line_str(&mut hash, "scope", "current_boot");
    hash_line_str(&mut hash, "classification", "local_only");
    hash_line_str(&mut hash, "persistence", "none");
    hash_line_str(&mut hash, "status", HELLO_ROLLBACK_TRANSACTION_PAYLOAD_STATUS);
    hash_line_str(&mut hash, "service_id", snapshot.service_id);
    hash_line_str(&mut hash, "requested_capability", HELLO_ROLLBACK_APPLY_CAPABILITY);
    hash_line_hash(&mut hash, "rollback_append_intent_gate_sha256",
        rollback_append_intent_gate_hash(snapshot, probation),
    );
    hash_line_hash(&mut hash, "rollback_write_authority_gate_sha256",
        rollback_write_authority_gate_hash(snapshot, probation),
    );
    hash_line_hash(&mut hash, "rollback_transaction_preflight_sha256",
        hello_rollback_transaction_preflight_hash(snapshot, probation),
    );
    hash_line_hash(&mut hash, "rollback_apply_sha256",
        hello_rollback_apply_denial_hash(snapshot, probation),
    );
    hash_line_hash(&mut hash, "rollback_preview_sha256",
        hello_rollback_preview_hash(snapshot, probation),
    );
    hash_line_hash(&mut hash, "source_probation_sha256", probation.probation_hash);
    hash_line_hash(&mut hash, "current_state_sha256", snapshot.state_hash);
    hash_line_u64(&mut hash, "current_state_counter", snapshot.state_counter);
    hash_line_str(&mut hash, "rollback_target_descriptor_id", probation.previous_descriptor_id);
    hash_line_hash(&mut hash, "rollback_target_descriptor_source_sha256",
        probation.previous_descriptor_source_hash,
    );
    hash_line_str(&mut hash, "rollback_target_artifact_identity_id",
        probation.previous_artifact_identity_id,
    );
    hash_line_hash(&mut hash, "rollback_target_artifact_identity_sha256",
        probation.previous_artifact_identity_hash,
    );
    hash_line_u64(&mut hash, "rollback_target_generation", probation.previous_generation);
    hash_line_hash(&mut hash, "rollback_target_state_sha256", probation.previous_state_hash);
    hash_line_u64(&mut hash, "rollback_target_state_counter", probation.previous_state_counter);
    hash_line_str(&mut hash, "current_candidate_descriptor_id", probation.new_descriptor_id);
    hash_line_hash(&mut hash, "current_candidate_descriptor_source_sha256",
        probation.new_descriptor_source_hash,
    );
    hash_line_str(&mut hash, "current_candidate_artifact_identity_id",
        probation.new_artifact_identity_id,
    );
    hash_line_hash(&mut hash, "current_candidate_artifact_identity_sha256",
        probation.new_artifact_identity_hash,
    );
    hash_line_u64(&mut hash, "current_candidate_generation", probation.new_generation);
    hash_line_hash(&mut hash, "current_candidate_state_sha256", probation.new_state_hash);
    hash_line_u64(&mut hash, "current_candidate_state_counter", probation.new_state_counter);
    hash_line_hash(&mut hash, "state_migration_sha256", probation.state_migration_hash);
    hash_line_bool(&mut hash, "proposed_only", true);
    hash_line_bool(&mut hash, "appended_to_rollback_log", false);
    hash_line_bool(&mut hash, "writes_durable_audit_log", false);
    hash_line_bool(&mut hash, "writes_rollback_store", false);
    hash_line_bool(&mut hash, "applies_rollback", false);
    finalize_sha256(hash)
}

/// The canonical lines of the rollback transaction payload provenance.
pub open spec fn rollback_transaction_payload_provenance_stream(
    snapshot: Snapshot,
    probation: HelloHotSwapProbationRecord,
) -> Seq<u8> {
    line_str("schema", "raios.rollback_transaction_provenance.v0")
        + line_str("id", "rollback_transaction_provenance.current_boot.svc.demo.hello.v0")
        + line_str("source_method", "service.rollback_apply")
        + line_str("scope", "current_boot")
        + line_str("classification", "local_only")
        + line_str("service_id", snapshot.service_id)
        + line_hash("payload_sha256", rollback_transaction_payload_digest(snapshot, probation))
        + line_hash("rollback_append_intent_gate_sha256",
            rollback_append_intent_gate_digest(snapshot, probation),
        )
        + line_hash("rollback_write_authority_gate_sha256",
            rollback_write_authority_gate_digest(snapshot, probation),
        )
        + line_hash("rollback_transaction_preflight_sha256",
            rollback_transaction_preflight_digest(snapshot, probation),
        )
        + line_hash("rollback_preview_sha256", rollback_preview_digest(snapshot, probation))
        + line_hash("source_probation_sha256", probation.probation_hash@)
        + line_hash("current_state_sha256", snapshot.state_hash@)
        + line_bool("derived_from_current_boot_ram_evidence", true)
        + line_bool("durable_record_created", false)
}

/// The digest of the rollback transaction payload provenance.
pub open spec fn rollback_transaction_payload_provenance_digest(
    snapshot: Snapshot,
    probation: HelloHotSwapProbationRecord,
) -> Seq<u8> {
    sha256_digest(rollback_transaction_payload_provenance_stream(snapshot, probation))
}

/// The digest of the rollback transaction payload's provenance.
pub fn hello_rollback_transaction_payload_provenance_hash(
    snapshot: Snapshot,
    probation: HelloHotSwapProbationRecord,
) -> (digest: [u8; 32])
    ensures
        digest@ == rollback_transaction_payload_provenance_digest(snapshot, probation),
{
    let mut hash = sha256_new();
    hash_line_str(&mut hash, "schema", "raios.rollback_transaction_provenance.v0");
    assert(sha256_absorbed(hash) =~= line_str("schema",
        "raios.rollback_transaction_provenance.v0"));
    hash_line_str(&mut hash, "id",
        "rollback_transaction_provenance.current_boot.svc.demo.hello.v0",
    );
    hash_line_str(&mut hash, "source_method", "service.rollback_apply");
    hash_line_str(&mut hash, "scope", "current_boot");
    hash_line_str(&mut hash, "classification", "local_only");
    hash_line_str(&mut hash, "service_id", snapshot.service_id);
    hash_line_hash(&mut hash, "payload_sha256",
        hello_rollback_transaction_payload_hash(snapshot, probation),
    );
    hash_line_hash(&mut hash, "rollback_append_intent_gate_sha256",
        rollback_append_intent_gate_hash(snapshot, probation),
    );
    hash_line_hash(&mut hash, "rollback_write_authority_gate_sha256",
        rollback_write_authority_gate_hash(snapshot, probation),
    );
    hash_line_hash(&mut hash, "rollback_transaction_preflight_sha256",
        hello_rollback_transaction_preflight_hash(snapshot, probation),
    );
    hash_line_hash(&mut hash, "rollback_preview_sha256",
        hello_rollback_preview_hash(snapshot, probation),
    );
    hash_line_hash(&mut hash, "source_probation_sha256", probation.probation_hash);
    hash_line_hash(&mut hash, "current_state_sha256", snapshot.state_hash);
    hash_line_bool(&mut hash, "derived_from_current_boot_ram_evidence", true);
    hash_line_bool(&mut hash, "durable_record_created", false);
    finalize_sha256(hash)
}

/// The canonical lines of the rollback payload envelope gate.
pub open spec fn rollback_payload_envelope_gate_stream(
    snapshot: Snapshot,
    probation: HelloHotSwapProbationRecord,
) -> Seq<u8> {
    line_str("schema", HELLO_ROLLBACK_PAYLOAD_ENVELOPE_GATE_SCHEMA)
        + line_str("id", HELLO_ROLLBACK_PAYLOAD_ENVELOPE_GATE_ID)
        + line_str("scope", "current_boot")
        + line_str("classification", "local_only")
        + line_str("persistence", "none")
        + line_str("status", HELLO_ROLLBACK_PAYLOAD_ENVELOPE_GATE_STATUS)
        + line_str("service_id", snapshot.service_id)
        + line_str("requested_capability", HELLO_ROLLBACK_APPLY_CAPABILITY)
        + line_str("required_audit_schema", "raios.audit_record.v0")
        + line_str("required_rollback_schema", "raios.rollback_transaction.v0")
        + line_str("payload_schema", HELLO_ROLLBACK_TRANSACTION_PAYLOAD_SCHEMA)
        + line_str("payload_id", HELLO_ROLLBACK_TRANSACTION_PAYLOAD_ID)
        + line_hash("payload_sha256", rollback_transaction_payload_digest(snapshot, probation))
        + line_hash("provenance_sha256",
            rollback_transaction_payload_provenance_digest(snapshot, probation),
        )
        + line_hash("rollback_append_intent_gate_sha256",
            rollback_append_intent_gate_digest(snapshot, probation),
        )
        + line_hash("rollback_write_authority_gate_sha256",
            rollback_write_authority_gate_digest(snapshot, probation),
        )
        + line_hash("rollback_transaction_preflight_sha256",
            rollback_transaction_preflight_digest(snapshot, probation),
        )
        + line_hash("rollback_apply_sha256", rollback_apply_denial_digest(snapshot, probation))
        + line_hash("rollback_preview_sha256", rollback_preview_digest(snapshot, probation))
        + line_hash("source_probation_sha256", probation.probation_hash@)
        + line_hash("current_state_sha256", snapshot.state_hash@)
        + line_u64("current_state_counter", snapshot.state_counter)
        + line_hash("rollback_target_descriptor_source_sha256",
            probation.previous_descriptor_source_hash@,
        )
        + line_hash("rollback_target_artifact_identity_sha256",
            probation.previous_artifact_identity_hash@,
        )
        + line_hash("current_candidate_descriptor_source_sha256",
            probation.new_descriptor_source_hash@,
        )
        + line_hash("current_candidate_artifact_identity_sha256",
            probation.new_artifact_identity_hash@,
        )
        + line_hash("state_migration_sha256", probation.state_migration_hash@)
        + line_bool("transaction_writer_available", false)
        + line_bool("durable_audit_store_available", false)
        + line_bool("rollback_store_available", false)
        + line_bool("rollback_transaction_append_available", false)
        + line_bool("writes_durable_audit_log", false)
        + line_bool("writes_rollback_store", false)
        + line_bool("appends_rollback_transaction", false)
        + line_bool("installs_rollback_plan", false)
        + line_bool("applies_rollback", false)
}

/// The digest of the rollback payload envelope gate.
pub open spec fn rollback_payload_envelope_gate_digest(
    snapshot: Snapshot,
    probation: HelloHotSwapProbationRecord,
) -> Seq<u8> {
    sha256_digest(rollback_payload_envelope_gate_stream(snapshot, probation))
}

/// The digest of the rollback payload envelope gate: the payload, its
/// provenance and every gate before it, with nothing written.
pub fn hello_rollback_payload_envelope_gate_hash(
    snapshot: Snapshot,
    probation: HelloHotSwapProbationRecord,
) -> (digest: [u8; 32])
    ensures
        digest@ == rollback_payload_envelope_gate_digest(snapshot, probation),
{
    let mut hash = sha256_new();
    hash_line_str(&mut hash, "schema", HELLO_ROLLBACK_PAYLOAD_ENVELOPE_GATE_SCHEMA);
    assert(sha256_absorbed(hash) =~= line_str("schema",
        HELLO_ROLLBACK_PAYLOAD_ENVELOPE_GATE_SCHEMA));
    hash_line_str(&mut hash, "id", HELLO_ROLLBACK_PAYLOAD_ENVELOPE_GATE_ID);
    hash_line_str(&mut hash, "scope", "current_boot");
    hash_line_str(&mut hash, "classification", "local_only");
    hash_line_str(&mut hash, "persistence", "none");
    hash_line_str(&mut hash, "status", HELLO_ROLLBACK_PAYLOAD_ENVELOPE_GATE_STATUS);
    hash_line_str(&mut hash, "service_id", snapshot.service_id);
    hash_line_str(&mut hash, "requested_capability", HELLO_ROLLBACK_APPLY_CAPABILITY);
    hash_line_str(&mut hash, "required_audit_schema", "raios.audit_record.v0");
    hash_line_str(&mut hash, "required_rollback_schema", "raios.rollback_transaction.v0");
    hash_line_str(&mut hash, "payload_schema", HELLO_ROLLBACK_TRANSACTION_PAYLOAD_SCHEMA);
    hash_line_str(&mut hash, "payload_id", HELLO_ROLLBACK_TRANSACTION_PAYLOAD_ID);
    hash_line_hash(&mut hash, "payload_sha256",
        hello_rollback_transaction_payload_hash(snapshot, probation),
    );
    hash_line_hash(&mut hash, "provenance_sha256",
        hello_rollback_transaction_payload_provenance_hash(snapshot, probation),
    );
    hash_line_hash(&mut hash, "rollback_append_intent_gate_sha256",
        rollback_append_intent_gate_hash(snapshot, probation),
    );
    hash_line_hash(&mut hash, "rollback_write_authority_gate_sha256",
        rollback_write_authority_gate_hash(snapshot, probation),
    );
    hash_line_hash(&mut hash, "rollback_transaction_preflight_sha256",
        hello_rollback_transaction_preflight_hash(snapshot, probation),
    );
    hash_line_hash(&mut hash, "rollback_apply_sha256",
        hello_rollback_apply_denial_hash(snapshot, probation),
    );
    hash_line_hash(&mut hash, "rollback_preview_sha256",
        hello_rollback_preview_hash(snapshot, probation),
    );
    hash_line_hash(&mut hash, "source_probation_sha256", probation.probation_hash);
    hash_line_hash(&mut hash, "current_state_sha256", snapshot.state_hash);
    hash_line_u64(&mut hash, "current_state_counter", snapshot.state_counter);
    hash_line_hash(&mut hash, "rollback_target_descriptor_source_sha256",
        probation.previous_descriptor_source_hash,
    );
    hash_line_hash(&mut hash, "rollback_target_artifact_identity_sha256",
        probation.previous_artifact_identity_hash,
    );
    hash_line_hash(&mut hash, "current_candidate_descriptor_source_sha256",
        probation.new_descriptor_source_hash,
    );
    hash_line_hash(&mut hash, "current_candidate_artifact_identity_sha256",
        probation.new_artifact_identity_hash,
    );
    hash_line_hash(&mut hash, "state_migration_sha256", probation.state_migration_hash);
    hash_line_bool(&mut hash, "transaction_writer_available", false);
    hash_line_bool(&mut hash, "durable_audit_store_available", false);
    hash_line_bool(&mut hash, "rollback_store_available", false);
    hash_line_bool(&mut hash, "rollback_transaction_append_available", false);
    hash_line_bool(&mut hash, "writes_durable_audit_log", false);
    hash_line_bool(&mut hash, "writes_rollback_store", false);
    hash_line_bool(&mut hash, "appends_rollback_transaction", false);
    hash_line_bool(&mut hash, "installs_rollback_plan", false);
    hash_line_bool(&mut hash, "applies_rollback", false);
    finalize_sha256(hash)
}

/// The digest of the rollback write authority gate.
pub fn hello_rollback_write_authority_gate_hash(
    snapshot: Snapshot,
    probation: HelloHotSwapProbationRecord,
) -> (digest: [u8; 32])
    ensures
        digest@ == rollback_write_authority_gate_digest(snapshot, probation),
{
    rollback_write_authority_gate_hash(snapshot, probation)
}

/// The digest of the rollback append intent gate.
pub fn hello_rollback_append_intent_gate_hash(
    snapshot: Snapshot,
    probation: HelloHotSwapProbationRecord,
) -> (digest: [u8; 32])
    ensures
        digest@ == rollback_append_intent_gate_digest(snapshot, probation),
{
    rollback_append_intent_gate_hash(snapshot, probation)
}

} // verus!
