use hello_service::foundation::{
    hello_rollback_writer_storage_foundation, AppendContractEvaluation, AppendContractIds,
    AppendEngineEvaluation, ContractVerdicts, StorageLayoutEvaluation, StorageProbe,
    TargetRegionDiscovery,
};
use hello_service::inspect_source::{
    recovery_rollback_inspect_source_reference_binding,
    recovery_rollback_inspect_source_reference, recovery_rollback_inspect_source_reference_hash,
    recovery_rollback_inspect_source_reference_state, recovery_rollback_inspect_source_retention,
    InspectSourceReferenceCheck, RecoveryRollbackInspectSourceReference,
};
use hello_service::methods::{
    is_artifact_load_plan_preflight_selftest_method, is_artifact_reference_trust_selftest_method,
    is_descriptor_source_trust_selftest_method,
    hello_evidence_classification, is_recovery_rollback_inspect_source_reference_selftest_method,
    method_eq, EvidenceClassification,
};
use hello_service::rollback_gate::{
    hello_rollback_append_intent_gate_hash, hello_rollback_apply_denial_hash,
    hello_rollback_apply_denial_hash_with_retained_sources, hello_rollback_payload_envelope_gate_hash,
    hello_rollback_preview_hash, hello_rollback_transaction_payload_hash,
    hello_rollback_transaction_payload_provenance_hash, hello_rollback_transaction_preflight_hash,
    hello_rollback_write_authority_gate_hash, rollback_append_intent_gate_hash,
    rollback_write_authority_gate_hash, HelloHotSwapProbationRecord, Snapshot,
};
use hello_service::sector_inspection::{
    hello_rollback_target_region_sector_inspection_from_evidence, RollbackTargetRegionSectorInspection,
};
use sha2::{Digest, Sha256};

fn snapshot() -> Snapshot {
    Snapshot { service_id: "svc.demo.hello", generation: 2, state_counter: 7, state_hash: [0x70u8; 32] }
}

fn probation() -> HelloHotSwapProbationRecord {
    HelloHotSwapProbationRecord {
        probation_hash: [0x10u8; 32],
        previous_descriptor_id: "load_descriptor.svc.demo.hello.v1",
        previous_descriptor_source_hash: [0x11u8; 32],
        previous_artifact_identity_id: "artifact_identity.hello.v1",
        previous_artifact_identity_hash: [0x12u8; 32],
        previous_generation: 1,
        previous_state_counter: 3,
        previous_state_hash: [0x13u8; 32],
        new_descriptor_id: "load_descriptor.svc.demo.hello.v2",
        new_descriptor_source_hash: [0x21u8; 32],
        new_artifact_identity_id: "artifact_identity.hello.v2",
        new_artifact_identity_hash: [0x22u8; 32],
        new_generation: 2,
        new_state_counter: 7,
        new_state_hash: [0x70u8; 32],
        state_migration_hash: [0x30u8; 32],
    }
}

fn push(out: &mut Vec<u8>, key: &str, value: &[u8]) {
    out.extend_from_slice(key.as_bytes());
    out.push(b'=');
    out.extend_from_slice(value);
    out.push(b'\n');
}

#[test]
fn rollback_preview_hash_is_the_digest_of_its_lines() {
    let s = snapshot();
    let p = probation();
    let mut out = Vec::new();
    push(&mut out, "schema", b"raios.ram_only_hello_service_rollback_preview.v0");
    push(&mut out, "id", b"hello_rollback_preview.current_boot.svc.demo.hello.v0");
    push(&mut out, "scope", b"current_boot");
    push(&mut out, "classification", b"local_only");
    push(&mut out, "persistence", b"none");
    push(&mut out, "status", b"preview_only_current_boot");
    push(&mut out, "service_id", s.service_id.as_bytes());
    push(&mut out, "source_probation_sha256", &p.probation_hash);
    push(&mut out, "rollback_target_descriptor_id", p.previous_descriptor_id.as_bytes());
    push(&mut out, "rollback_target_descriptor_source_sha256", &p.previous_descriptor_source_hash);
    push(&mut out, "current_descriptor_id", p.new_descriptor_id.as_bytes());
    push(&mut out, "current_descriptor_source_sha256", &p.new_descriptor_source_hash);
    push(&mut out, "rollback_target_artifact_identity_id", p.previous_artifact_identity_id.as_bytes());
    push(&mut out, "rollback_target_artifact_identity_sha256", &p.previous_artifact_identity_hash);
    push(&mut out, "current_artifact_identity_id", p.new_artifact_identity_id.as_bytes());
    push(&mut out, "current_artifact_identity_sha256", &p.new_artifact_identity_hash);
    push(&mut out, "rollback_target_generation", &p.previous_generation.to_le_bytes());
    push(&mut out, "current_generation", &s.generation.to_le_bytes());
    push(&mut out, "rollback_target_state_sha256", &p.previous_state_hash);
    push(&mut out, "current_state_sha256", &s.state_hash);
    push(&mut out, "rollback_target_state_counter", &p.previous_state_counter.to_le_bytes());
    push(&mut out, "current_state_counter", &s.state_counter.to_le_bytes());
    push(&mut out, "state_migration_sha256", &p.state_migration_hash);
    push(&mut out, "read_only", b"true");
    push(&mut out, "applies_rollback", b"false");
    push(&mut out, "writes_persistent_state", b"false");
    push(&mut out, "writes_durable_audit_log", b"false");
    let expected: [u8; 32] = Sha256::digest(&out).into();
    assert_eq!(hello_rollback_preview_hash(s, p), expected);
}

#[test]
fn gate_digests_are_distinct_and_follow_the_state() {
    let s = snapshot();
    let p = probation();
    let all = [
        hello_rollback_preview_hash(s, p),
        hello_rollback_apply_denial_hash(s, p),
        hello_rollback_transaction_preflight_hash(s, p),
        rollback_write_authority_gate_hash(s, p),
        rollback_append_intent_gate_hash(s, p),
        hello_rollback_transaction_payload_hash(s, p),
        hello_rollback_transaction_payload_provenance_hash(s, p),
        hello_rollback_payload_envelope_gate_hash(s, p),
    ];
    for i in 0..all.len() {
        for j in i + 1..all.len() {
            assert_ne!(all[i], all[j]);
        }
    }
    assert_eq!(hello_rollback_write_authority_gate_hash(s, p), all[3]);
    assert_eq!(hello_rollback_append_intent_gate_hash(s, p), all[4]);
    let mut later = s;
    later.state_hash = [0x71u8; 32];
    assert_ne!(hello_rollback_payload_envelope_gate_hash(later, p), all[7]);
}

#[test]
fn apply_denial_without_sources_is_the_plain_denial() {
    let s = snapshot();
    let p = probation();
    assert_eq!(
        hello_rollback_apply_denial_hash_with_retained_sources(s, p, None, None),
        hello_rollback_apply_denial_hash(s, p)
    );
}

fn inspection(verified: bool) -> RollbackTargetRegionSectorInspection {
    let mut r = hello_rollback_target_region_sector_inspection_from_evidence(
        hello_service::append_plan::RollbackAppendRecordDryRun {
            dry_run_hash: [0u8; 32],
            audit_record_image_hash: [0u8; 32],
            rollback_transaction_image_hash: [0u8; 32],
            audit_record_byte_length: 0,
            rollback_transaction_byte_length: 0,
            total_record_byte_length: 0,
            target_start_lba: 0,
            target_lba_count: 0,
            target_byte_count: 0,
            target_range_ready: false,
        },
        plan(),
        target_write(),
        None,
        "recovery_rollback_inspect_missing",
        controller_ids(),
    );
    r.inspection_verified = verified;
    r
}

fn plan() -> hello_service::append_plan::RollbackAppendSectorPlanDryRun {
    hello_service::append_plan::RollbackAppendSectorPlanDryRun {
        plan_hash: [0x41u8; 32],
        sector_image_hash: [0x42u8; 32],
        sector_size_bytes: 512,
        audit_record_offset: 0,
        audit_record_byte_length: 0,
        rollback_transaction_offset: 0,
        rollback_transaction_byte_length: 0,
        padding_offset: 0,
        padding_byte_length: 512,
        target_start_lba: 2048,
        target_lba_count: 1,
        target_byte_count: 512,
        target_range_ready: false,
    }
}

fn target_write() -> hello_service::target_region::RollbackTargetRegionWriteReadbackDryRun {
    hello_service::target_region::RollbackTargetRegionWriteReadbackDryRun {
        dry_run_hash: [0x51u8; 32],
        source_sector_plan_hash: [0x41u8; 32],
        source_policy_preflight_hash: [0x52u8; 32],
        planned_sector_image_hash: [0x42u8; 32],
        readback_sector_image_hash: [0x42u8; 32],
        target_start_lba: 2048,
        target_lba_count: 1,
        target_byte_count: 512,
        label_found: true,
        target_range_ready: true,
        test_infrastructure_media_write_authority_available: true,
        write_attempted: true,
        write_completed: true,
        readback_completed: true,
        readback_matches_planned_image: true,
        status: "verified",
        reason: "written",
    }
}

fn controller_ids() -> hello_service::foundation::ControllerIds {
    hello_service::foundation::ControllerIds {
        scratch_block_region_id: "ahci.scratch_block_region",
        audit_rollback_target_region_id: "ahci.audit_rollback_target_region",
        target_sector_write_readback_id: "ahci.target_sector_write_readback",
        target_sector_inspection_id: "ahci.target_sector_inspection",
    }
}

#[test]
fn inspection_without_evidence_is_missing() {
    let r = inspection(false);
    assert_eq!(r.status, "missing");
    assert_eq!(r.reason, "recovery_rollback_inspect_missing");
    assert_eq!(r.expected_sector_image_hash, [0x42u8; 32]);
    assert_eq!(r.sector_image_hash, [0u8; 32]);
    assert!(!r.inspection_verified);
    assert_eq!(r.padding_byte_length, 512);
}

#[test]
fn inspect_source_reference_hash_is_the_digest_of_its_lines() {
    let i = inspection(true);
    let mut out = Vec::new();
    push(&mut out, "schema", b"raios.recovery_rollback_inspect_source_reference.v0");
    push(&mut out, "id", b"recovery_rollback_inspect_source.current_boot.svc.demo.hello.v0");
    push(&mut out, "scope", b"current_boot");
    push(&mut out, "classification", b"local_only");
    push(&mut out, "persistence", b"none");
    push(&mut out, "source_method", b"recovery.rollback_inspect");
    push(&mut out, "source_event_sequence", &12u64.to_le_bytes());
    push(&mut out, "sector_inspection_sha256", &i.inspection_hash);
    push(&mut out, "source_sector_plan_sha256", &i.source_sector_plan_hash);
    push(
        &mut out,
        "source_target_region_write_readback_sha256",
        &i.source_target_region_write_readback_hash,
    );
    push(&mut out, "sector_inspection_verified", b"true");
    push(&mut out, "authorizes_rollback_apply", b"false");
    let expected: [u8; 32] = Sha256::digest(&out).into();
    assert_eq!(recovery_rollback_inspect_source_reference_hash(12, i), expected);
}

#[test]
fn only_a_verified_inspection_is_retained() {
    assert!(recovery_rollback_inspect_source_retention(5, inspection(false)).is_none());
    let i = inspection(true);
    let binding = recovery_rollback_inspect_source_retention(5, i).unwrap();
    assert_eq!(binding.source_event_sequence, 5);
    assert_eq!(binding.reference_hash, recovery_rollback_inspect_source_reference_hash(5, i));
    assert_eq!(binding.inspection_hash, i.inspection_hash);
    assert!(!binding.authorizes_rollback_apply);
}

fn reference_for(i: &RollbackTargetRegionSectorInspection) -> RecoveryRollbackInspectSourceReference {
    RecoveryRollbackInspectSourceReference {
        audit_event_sequence: 9,
        event_sequence: 8,
        reference_hash: [0x99u8; 32],
        inspection_hash: i.inspection_hash,
        source_sector_plan_hash: i.source_sector_plan_hash,
        source_target_region_write_readback_hash: i.source_target_region_write_readback_hash,
    }
}

fn check(validated: bool) -> InspectSourceReferenceCheck {
    InspectSourceReferenceCheck {
        validated,
        status: if validated { "validated" } else { "rejected" },
        reason: if validated { "ram_audit_entry_matches" } else { "ram_audit_entry_mismatch" },
        source_event_retained: true,
        audit_event_retained: validated,
    }
}

#[test]
fn inspect_source_state_is_missing_without_a_reference() {
    let state = recovery_rollback_inspect_source_reference_state(inspection(true), None, check(true));
    assert!(state.reference.is_none());
    assert_eq!(state.status, "missing");
    assert_eq!(state.reason, "recovery_rollback_inspect_source_missing");
    assert!(!state.ram_audit_validated);
}

#[test]
fn inspect_source_state_rejects_a_mismatched_reference() {
    let i = inspection(true);
    let mut reference = reference_for(&i);
    reference.source_sector_plan_hash = [0u8; 32];
    let state = recovery_rollback_inspect_source_reference_state(i, Some(reference), check(true));
    assert_eq!(state.status, "rejected");
    assert_eq!(state.reason, "recovery_rollback_inspect_source_mismatched_sector_inspection");
    assert!(!state.ram_audit_validated);
    let unverified = inspection(false);
    let state = recovery_rollback_inspect_source_reference_state(
        unverified,
        Some(reference_for(&unverified)),
        check(true),
    );
    assert_eq!(state.status, "rejected");
}

#[test]
fn inspect_source_state_follows_the_audit_check() {
    let i = inspection(true);
    let validated = recovery_rollback_inspect_source_reference_state(i, Some(reference_for(&i)), check(true));
    assert!(validated.ram_audit_validated);
    assert_eq!(validated.status, "retained_sector_inspection_source_reference");
    assert_eq!(validated.ram_audit_reason, "ram_audit_entry_matches");
    let rejected = recovery_rollback_inspect_source_reference_state(i, Some(reference_for(&i)), check(false));
    assert!(!rejected.ram_audit_validated);
    assert_eq!(rejected.status, "rejected");
    assert_eq!(rejected.reason, "ram_audit_entry_mismatch");
    assert!(rejected.source_event_retained);
}

#[test]
fn reference_binding_carries_the_reference() {
    let i = inspection(true);
    let r = reference_for(&i);
    let b = recovery_rollback_inspect_source_reference_binding(r);
    assert_eq!(b.source_event_sequence, 8);
    assert_eq!(b.reference_hash, r.reference_hash);
    assert!(!b.authorizes_rollback_apply);
}

#[test]
fn apply_denial_binds_its_retained_sources() {
    let s = snapshot();
    let p = probation();
    let i = inspection(true);
    let state = recovery_rollback_inspect_source_reference_state(i, Some(reference_for(&i)), check(true));
    let with_state = hello_rollback_apply_denial_hash_with_retained_sources(s, p, None, Some(state));
    assert_ne!(with_state, hello_rollback_apply_denial_hash(s, p));
    let mut other = state;
    other.reference = None;
    assert_ne!(hello_rollback_apply_denial_hash_with_retained_sources(s, p, None, Some(other)), with_state);
}

fn verdicts(ready: bool) -> ContractVerdicts {
    ContractVerdicts {
        target_region_writer_contract_ready: ready,
        scratch_writer_dry_run_ready: ready,
        writer_contract_status_ready: "writer_contract_ready",
        writer_contract_status_not_ready: "writer_contract_missing",
        writer_contract_reason_ready: "target_region_bounded",
        writer_contract_reason_not_ready: "target_region_unbounded",
        scratch_writer_dry_run_status_ready: "scratch_ready",
        scratch_writer_dry_run_status_not_ready: "scratch_missing",
        scratch_writer_dry_run_reason_ready: "scratch_bounded",
        scratch_writer_dry_run_reason_not_ready: "scratch_unbounded",
        block_write_path_gate_status_available: "gate_open",
        block_write_path_gate_status_unavailable: "gate_closed",
        scratch_block_write_authority_id: "ahci.scratch_block_write_authority",
    }
}

fn discovery() -> TargetRegionDiscovery {
    TargetRegionDiscovery {
        schema: "s",
        id: "i",
        status: "st",
        reason: "r",
        source: "mbr",
        partition_inventory_available: true,
        partition_inventory_scheme: "mbr",
        partition_entry_count: 1,
        mbr_signature_valid: true,
        candidate_region_present: true,
        candidate_region_start_lba: 2048,
        candidate_region_lba_count: 1,
        candidate_region_is_scratch: false,
        candidate_overlaps_boot_metadata: false,
        candidate_overlaps_scratch: false,
        scratch_region_id: "ahci.scratch_block_region",
        scratch_rejected_as_durable_authority: true,
        durable_region_available: true,
    }
}

fn append_evaluation(envelope: &'static str, writes_enabled: bool) -> AppendContractEvaluation {
    AppendContractEvaluation {
        status: "evaluated",
        reason: "contract_evaluated",
        rollback_transaction_status: envelope,
        rollback_transaction_reason: "envelope_reason",
        append_target_owner_status: "owner",
        append_target_owner_reason: "owner_reason",
        append_target_owner_available: true,
        transaction_writer_status: "writer",
        transaction_writer_reason: "writer_reason",
        transaction_writer_ready: true,
        block_write_path_available: writes_enabled,
        block_write_path_reason: "block_write_path",
        writes_enabled,
    }
}

fn build(envelope: &'static str, writes_enabled: bool, ready: bool) -> hello_service::foundation::RollbackWriterStorageFoundation {
    hello_rollback_writer_storage_foundation(
        StorageLayoutEvaluation { status: "layout", reason: "layout_reason", storage_layout_available: true },
        AppendEngineEvaluation {
            status: "engine",
            reason: "engine_reason",
            append_engine_available: true,
            audit_engine_available: true,
            rollback_engine_available: false,
        },
        append_evaluation(envelope, writes_enabled),
        StorageProbe {
            block_driver_id: "ahci.read_only",
            block_driver_available: true,
            partition_inventory_available: true,
            partition_inventory_scheme: "mbr",
            scratch_block_write_authority_available: true,
            scratch_region_within_device_bounds: true,
            scratch_region_no_boot_or_partition_metadata_overlap: true,
            scratch_region_id: "ahci.scratch_block_region",
            scratch_region_start_lba: 4096,
            scratch_region_lba_count: 8,
            scratch_region_byte_count: 4096,
        },
        discovery(),
        verdicts(ready),
        AppendContractIds {
            append_target_owner_id: "owner",
            media_write_policy_preflight_schema: "schema",
            media_write_policy_preflight_id: "id",
            writer_contract_schema: "wc_schema",
            writer_contract_id: "wc_id",
            transaction_writer_readiness_id: "readiness",
            media_write_policy_preflight_status_ready: "policy_ready",
            media_write_policy_preflight_status_not_ready: "policy_missing",
            media_write_policy_preflight_reason_ready: "policy_ready_reason",
            media_write_policy_preflight_reason_not_ready: "policy_missing_reason",
        },
    )
}

#[test]
fn foundation_writers_follow_the_envelope_and_enabled_writes() {
    let f = build("available", true, true);
    assert!(f.rollback_transaction_envelope_available);
    assert!(f.transaction_writer_available);
    assert!(f.durable_audit_store_available);
    assert!(!f.rollback_store_available);
    assert!(f.rollback_transaction_append_available);
    assert_eq!(f.block_write_path_gate_status, "gate_open");
    assert_eq!(f.target_region_writer_contract_status, "writer_contract_ready");
    assert_eq!(f.target_region_media_write_policy_preflight_status, "policy_ready");
    assert_eq!(f.scratch_writer_dry_run_reason, "scratch_bounded");
    assert_eq!(f.scratch_region_start_lba, 4096);
}

#[test]
fn foundation_offers_no_writer_while_writes_are_disabled() {
    let f = build("available", false, false);
    assert!(f.rollback_transaction_envelope_available);
    assert!(!f.transaction_writer_available);
    assert!(!f.durable_audit_store_available);
    assert!(!f.rollback_transaction_append_available);
    assert_eq!(f.block_write_path_gate_status, "gate_closed");
    assert_eq!(f.target_region_writer_contract_reason, "target_region_unbounded");
    assert_eq!(f.target_region_media_write_policy_preflight_reason, "policy_missing_reason");
    assert_eq!(f.scratch_writer_dry_run_status, "scratch_missing");
}

#[test]
fn foundation_envelope_needs_the_exact_status_text() {
    let f = build("available_later", true, true);
    assert!(!f.rollback_transaction_envelope_available);
    assert!(!f.transaction_writer_available);
    assert!(!f.rollback_transaction_append_available);
    assert!(f.durable_audit_store_available);
}

#[test]
fn selftest_methods_are_matched_exactly() {
    assert!(is_descriptor_source_trust_selftest_method("service.descriptor_source_trust_selftest"));
    assert!(!is_descriptor_source_trust_selftest_method("service.descriptor_source_trust_selftest "));
    assert!(is_artifact_reference_trust_selftest_method("service.artifact_reference_trust_selftest"));
    assert!(is_artifact_load_plan_preflight_selftest_method(
        "service.artifact_load_plan_preflight_selftest"
    ));
    assert!(is_recovery_rollback_inspect_source_reference_selftest_method(
        "recovery.rollback_inspect_source_reference_selftest"
    ));
    assert!(!is_artifact_load_plan_preflight_selftest_method("SERVICE.artifact_load_plan_preflight_selftest"));
    assert!(method_eq("a", "a"));
    assert!(!method_eq("a", "ab"));
}

#[test]
fn materialized_sector_needs_a_verified_readback() {
    let t = target_write();
    assert!(hello_service::target_region::materialized_target_region_sector_available(t));
    let mut bad = t;
    bad.readback_matches_planned_image = false;
    assert!(!hello_service::target_region::materialized_target_region_sector_available(bad));
}

#[test]
fn a_retained_reference_is_found_again_for_its_inspection() {
    let i = inspection(true);
    let binding = recovery_rollback_inspect_source_retention(21, i).unwrap();
    let reference = recovery_rollback_inspect_source_reference(22, binding);
    assert_eq!(reference.audit_event_sequence, 22);
    assert_eq!(reference.event_sequence, 21);
    assert_eq!(recovery_rollback_inspect_source_reference_binding(reference).reference_hash, binding.reference_hash);
    let found = recovery_rollback_inspect_source_reference_state(i, Some(reference), check(true));
    assert!(found.ram_audit_validated);
    let refused = recovery_rollback_inspect_source_reference_state(i, Some(reference), check(false));
    assert_eq!(refused.status, "rejected");
    assert_eq!(refused.reason, "ram_audit_entry_mismatch");
}

#[test]
fn evidence_classifications_are_named_exactly() {
    assert_eq!(hello_evidence_classification("public"), EvidenceClassification::Public);
    assert_eq!(hello_evidence_classification("local_only"), EvidenceClassification::LocalOnly);
    assert_eq!(hello_evidence_classification("secret"), EvidenceClassification::Secret);
    assert_eq!(hello_evidence_classification("Public"), EvidenceClassification::Unknown);
    assert_eq!(hello_evidence_classification(""), EvidenceClassification::Unknown);
}
