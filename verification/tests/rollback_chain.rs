use hello_service::append_plan::{
    hello_rollback_append_record_dry_run, hello_rollback_append_sector_image,
    hello_rollback_append_sector_plan_dry_run, hello_rollback_append_sector_write_readback_dry_run,
    hello_rollback_audit_append_record_image_byte_length,
    hello_rollback_audit_append_record_image_hash,
    hello_rollback_transaction_append_record_image_byte_length,
    hello_rollback_transaction_append_record_image_hash, AppendRecordSources,
    ScratchSectorWriteReadbackEvidence,
};
use hello_service::audit_policy::{
    hello_rollback_transaction_append_authority_denial_gate,
    hello_rollback_transaction_append_availability_decision,
};
use hello_service::canonical::SECTOR_BYTES;
use hello_service::foundation::{
    AppendContractIds, ControllerIds, RollbackWriterStorageFoundation, StorageLayoutIds,
    TargetRegionDiscovery,
};
use hello_service::inspect_source::{InspectSourceReferenceCheck, RecoveryRollbackInspectSourceReference};
use hello_service::rollback_chain::{
    hello_rollback_append_record_sources, hello_rollback_apply_retained_denial_sources,
    hello_rollback_denial_chain, recovery_rollback_inspection_evidence,
    recovery_rollback_materialization_evidence,
};
use hello_service::rollback_gate::{HelloHotSwapProbationRecord, Snapshot};
use hello_service::sector_inspection::TargetSectorInspectionEvidence;
use hello_service::target_region::TargetSectorWriteReadbackEvidence;
use sha2::{Digest, Sha256};

const START_LBA: u64 = 2048;

fn layout() -> StorageLayoutIds {
    StorageLayoutIds {
        audit_append_target_id: "audit_rollback.audit_ledger",
        audit_append_target_schema: "raios.audit_record.v0",
        rollback_append_target_id: "audit_rollback.rollback_store",
        rollback_append_target_schema: "raios.rollback_transaction.v0",
        storage_authority_id: "audit_rollback.storage_authority",
        transaction_writer_owner: "service.rollback_apply",
    }
}

fn contract() -> AppendContractIds {
    AppendContractIds {
        append_target_owner_id: "audit_rollback.append_target_owner",
        media_write_policy_preflight_schema: "raios.media_write_policy_preflight.v0",
        media_write_policy_preflight_id: "media_write_policy_preflight.target_region",
        writer_contract_schema: "raios.target_region_writer_contract.v0",
        writer_contract_id: "target_region_writer_contract",
        transaction_writer_readiness_id: "transaction_writer_readiness",
        media_write_policy_preflight_status_ready: "policy_preflight_ready",
        media_write_policy_preflight_status_not_ready: "policy_preflight_missing",
        media_write_policy_preflight_reason_ready: "target_range_ready",
        media_write_policy_preflight_reason_not_ready: "target_range_missing",
    }
}

fn ids() -> ControllerIds {
    ControllerIds {
        scratch_block_region_id: "ahci.scratch_block_region",
        audit_rollback_target_region_id: "ahci.audit_rollback_target_region",
        target_sector_write_readback_id: "ahci.target_sector_write_readback",
        target_sector_inspection_id: "ahci.target_sector_inspection",
    }
}

fn discovery() -> TargetRegionDiscovery {
    TargetRegionDiscovery {
        schema: "raios.target_region_discovery.v0",
        id: "target_region_discovery",
        status: "discovered",
        reason: "candidate_region_found",
        source: "mbr",
        partition_inventory_available: true,
        partition_inventory_scheme: "mbr",
        partition_entry_count: 1,
        mbr_signature_valid: true,
        candidate_region_present: true,
        candidate_region_start_lba: START_LBA,
        candidate_region_lba_count: 1,
        candidate_region_is_scratch: false,
        candidate_overlaps_boot_metadata: false,
        candidate_overlaps_scratch: false,
        scratch_region_id: "ahci.scratch_block_region",
        scratch_rejected_as_durable_authority: true,
        durable_region_available: true,
    }
}

fn foundation() -> RollbackWriterStorageFoundation {
    RollbackWriterStorageFoundation {
        storage_layout_status: "available",
        storage_layout_reason: "layout_ready",
        storage_layout_available: true,
        append_engine_status: "available",
        append_engine_reason: "engine_ready",
        append_engine_available: true,
        append_contract_status: "available",
        append_contract_reason: "contract_ready",
        rollback_transaction_envelope_status: "available",
        rollback_transaction_envelope_reason: "envelope_ready",
        rollback_transaction_envelope_available: true,
        append_target_owner_status: "available",
        append_target_owner_reason: "owner_ready",
        append_target_owner_available: true,
        transaction_writer_status: "ready",
        transaction_writer_reason: "writer_ready",
        transaction_writer_ready: true,
        block_write_path_available: true,
        block_write_path_reason: "block_write_path_ready",
        block_write_path_gate_status: "open",
        read_only_block_driver_id: "ahci.read_only",
        read_only_block_driver_available: true,
        partition_inventory_available: true,
        partition_inventory_scheme: "mbr",
        target_region_discovery: discovery(),
        target_region_writer_contract_status: "ready",
        target_region_writer_contract_reason: "target_range_ready",
        target_region_writer_contract_ready: true,
        target_region_media_write_policy_preflight_status: "policy_preflight_ready",
        target_region_media_write_policy_preflight_reason: "target_range_ready",
        scratch_block_write_authority_id: "ahci.scratch_block_write_authority",
        scratch_block_write_authority_available: true,
        scratch_region_within_device_bounds: true,
        scratch_region_no_boot_or_partition_metadata_overlap: true,
        scratch_region_id: "ahci.scratch_block_region",
        scratch_region_start_lba: START_LBA,
        scratch_region_lba_count: 1,
        scratch_region_byte_count: SECTOR_BYTES,
        scratch_writer_dry_run_status: "ready",
        scratch_writer_dry_run_reason: "scratch_ready",
        scratch_writer_dry_run_ready: true,
        transaction_writer_available: false,
        durable_audit_store_available: false,
        rollback_store_available: false,
        rollback_transaction_append_available: false,
    }
}

fn snapshot() -> Snapshot {
    Snapshot {
        service_id: "svc.demo.hello",
        generation: 2,
        state_counter: 7,
        state_hash: [0x70u8; 32],
    }
}

fn probation() -> HelloHotSwapProbationRecord {
    HelloHotSwapProbationRecord {
        probation_hash: [0x10u8; 32],
        previous_descriptor_id: "load_descriptor.svc.demo.hello.v1",
        previous_descriptor_source_hash: [0x11u8; 32],
        previous_artifact_identity_id: "artifact_identity.hello.v1",
        previous_artifact_identity_hash: [0x12u8; 32],
        previous_generation: 1,
        previous_state_counter: 3,
        previous_state_hash: [0x13u8; 32],
        new_descriptor_id: "load_descriptor.svc.demo.hello.v2",
        new_descriptor_source_hash: [0x21u8; 32],
        new_artifact_identity_id: "artifact_identity.hello.v2",
        new_artifact_identity_hash: [0x22u8; 32],
        new_generation: 2,
        new_state_counter: 7,
        new_state_hash: [0x70u8; 32],
        state_migration_hash: [0x30u8; 32],
    }
}

fn sources() -> AppendRecordSources {
    AppendRecordSources {
        payload_hash: [0xa1u8; 32],
        provenance_hash: [0xa2u8; 32],
        rollback_apply_hash: [0xa3u8; 32],
    }
}

fn push_str(out: &mut Vec<u8>, key: &str, value: &str) {
    out.extend_from_slice(key.as_bytes());
    out.push(b'=');
    out.extend_from_slice(value.as_bytes());
    out.push(b'\n');
}

fn push_hash(out: &mut Vec<u8>, key: &str, value: &[u8; 32]) {
    out.extend_from_slice(key.as_bytes());
    out.push(b'=');
    out.extend_from_slice(value);
    out.push(b'\n');
}

fn audit_stream(l: &StorageLayoutIds, s: &AppendRecordSources) -> Vec<u8> {
    let mut out = Vec::new();
    push_str(&mut out, "schema", "raios.audit_record.v0");
    push_str(&mut out, "append_target_id", l.audit_append_target_id);
    push_hash(&mut out, "payload_sha256", &s.payload_hash);
    push_hash(&mut out, "provenance_sha256", &s.provenance_hash);
    push_hash(&mut out, "rollback_apply_sha256", &s.rollback_apply_hash);
    push_str(&mut out, "write_attempted", "false");
    out
}

fn transaction_stream(l: &StorageLayoutIds, s: &AppendRecordSources) -> Vec<u8> {
    let mut out = Vec::new();
    push_str(&mut out, "schema", "raios.rollback_transaction.v0");
    push_str(&mut out, "append_target_id", l.rollback_append_target_id);
    push_hash(&mut out, "payload_sha256", &s.payload_hash);
    push_hash(&mut out, "provenance_sha256", &s.provenance_hash);
    push_str(&mut out, "appended", "false");
    push_str(&mut out, "write_attempted", "false");
    out
}

fn digest(bytes: &[u8]) -> [u8; 32] {
    Sha256::digest(bytes).into()
}

#[test]
fn record_image_lengths_are_the_fixed_lines_and_the_target_ids() {
    let l = layout();
    let audit = hello_rollback_audit_append_record_image_byte_length(l);
    let transaction = hello_rollback_transaction_append_record_image_byte_length(l);
    assert_eq!(audit, 223 + l.audit_append_target_id.len() as u64);
    assert_eq!(transaction, 191 + l.rollback_append_target_id.len() as u64);
    assert_eq!(audit as usize, audit_stream(&l, &sources()).len());
    assert_eq!(transaction as usize, transaction_stream(&l, &sources()).len());
}

#[test]
fn record_image_hashes_are_digests_of_their_lines() {
    let l = layout();
    let s = sources();
    assert_eq!(hello_rollback_audit_append_record_image_hash(l, s), digest(&audit_stream(&l, &s)));
    assert_eq!(
        hello_rollback_transaction_append_record_image_hash(l, s),
        digest(&transaction_stream(&l, &s))
    );
}

#[test]
fn sector_image_holds_both_records_then_zeros() {
    let l = layout();
    let s = sources();
    let image = hello_rollback_append_sector_image(l, s);
    let audit = audit_stream(&l, &s);
    let transaction = transaction_stream(&l, &s);
    assert_eq!(&image[..audit.len()], &audit[..]);
    assert_eq!(&image[audit.len()..audit.len() + transaction.len()], &transaction[..]);
    assert!(image[audit.len() + transaction.len()..].iter().all(|b| *b == 0));
}

#[test]
fn sector_image_is_cut_off_at_the_end_of_the_sector() {
    let long_id: &'static str = Box::leak("x".repeat(400).into_boxed_str());
    let mut l = layout();
    l.rollback_append_target_id = long_id;
    let s = sources();
    let image = hello_rollback_append_sector_image(l, s);
    let mut all = audit_stream(&l, &s);
    all.extend_from_slice(&transaction_stream(&l, &s));
    assert!(all.len() > SECTOR_BYTES);
    assert_eq!(&image[..], &all[..SECTOR_BYTES]);
}

#[test]
fn append_record_dry_run_plans_one_ready_scratch_block() {
    let l = layout();
    let record = hello_rollback_append_record_dry_run(l, sources(), foundation());
    let total = record.audit_record_byte_length + record.rollback_transaction_byte_length;
    assert_eq!(record.total_record_byte_length, total);
    assert!(total <= SECTOR_BYTES as u64);
    assert_eq!(record.target_lba_count, 1);
    assert_eq!(record.target_start_lba, START_LBA);
    assert_eq!(record.target_byte_count, SECTOR_BYTES as u64);
    assert!(record.target_range_ready);
    assert_eq!(record.audit_record_image_hash, hello_rollback_audit_append_record_image_hash(l, sources()));
}

#[test]
fn append_record_dry_run_with_an_empty_scratch_region_plans_no_block() {
    let mut f = foundation();
    f.scratch_region_byte_count = 0;
    let record = hello_rollback_append_record_dry_run(layout(), sources(), f);
    assert_eq!(record.target_lba_count, 0);
    assert!(record.target_range_ready);
    f.scratch_writer_dry_run_ready = false;
    let record = hello_rollback_append_record_dry_run(layout(), sources(), f);
    assert!(!record.target_range_ready);
}

#[test]
fn append_record_dry_run_rounds_blocks_up() {
    let mut f = foundation();
    f.scratch_region_byte_count = 100;
    f.scratch_region_lba_count = 4;
    let record = hello_rollback_append_record_dry_run(layout(), sources(), f);
    let total = record.total_record_byte_length;
    assert_eq!(record.target_lba_count, (total + 99) / 100);
    assert_eq!(record.target_range_ready, record.target_lba_count <= 4);
}

#[test]
fn sector_plan_places_the_records_and_pads_the_rest() {
    let l = layout();
    let record = hello_rollback_append_record_dry_run(l, sources(), foundation());
    let plan = hello_rollback_append_sector_plan_dry_run(l, sources(), record);
    assert_eq!(plan.audit_record_offset, 0);
    assert_eq!(plan.rollback_transaction_offset, record.audit_record_byte_length);
    assert_eq!(plan.padding_offset, record.total_record_byte_length);
    assert_eq!(plan.padding_byte_length, SECTOR_BYTES as u64 - record.total_record_byte_length);
    assert!(plan.target_range_ready);
    assert_eq!(plan.sector_image_hash, digest(&hello_rollback_append_sector_image(l, sources())));
}

#[test]
fn sector_plan_pads_nothing_when_the_records_overflow() {
    let mut f = foundation();
    f.scratch_region_byte_count = 64;
    f.scratch_region_lba_count = 16;
    let record = hello_rollback_append_record_dry_run(layout(), sources(), f);
    let plan = hello_rollback_append_sector_plan_dry_run(layout(), sources(), record);
    assert_eq!(plan.padding_byte_length, 0);
    assert!(!plan.target_range_ready);
}

fn scratch_evidence(plan_hash: [u8; 32]) -> ScratchSectorWriteReadbackEvidence {
    ScratchSectorWriteReadbackEvidence {
        available: true,
        region_id: "ahci.scratch_block_region",
        target_lba: START_LBA,
        byte_count: SECTOR_BYTES,
        region_within_device_bounds: true,
        no_boot_or_partition_metadata_overlap: true,
        label_found: true,
        planned_image_hash: plan_hash,
        readback_image_hash: plan_hash,
        write_attempted: true,
        write_completed: true,
        readback_completed: true,
        readback_matches_planned_image: true,
        reason: "scratch_written",
    }
}

#[test]
fn scratch_write_without_a_controller_is_missing() {
    let l = layout();
    let record = hello_rollback_append_record_dry_run(l, sources(), foundation());
    let plan = hello_rollback_append_sector_plan_dry_run(l, sources(), record);
    let write = hello_rollback_append_sector_write_readback_dry_run(plan, None, ids());
    assert_eq!(write.status, "missing");
    assert_eq!(write.reason, "pci_mass_storage_controller_missing");
    assert_eq!(write.readback_sector_image_hash, [0u8; 32]);
    assert!(!write.target_range_ready);
    assert!(!write.write_attempted);
}

#[test]
fn scratch_write_of_another_region_is_not_ready() {
    let l = layout();
    let record = hello_rollback_append_record_dry_run(l, sources(), foundation());
    let plan = hello_rollback_append_sector_plan_dry_run(l, sources(), record);
    let good = hello_rollback_append_sector_write_readback_dry_run(
        plan,
        Some(scratch_evidence(plan.sector_image_hash)),
        ids(),
    );
    assert!(good.target_range_ready);
    let mut other = scratch_evidence(plan.sector_image_hash);
    other.region_id = "ahci.other_region";
    let bad = hello_rollback_append_sector_write_readback_dry_run(plan, Some(other), ids());
    assert!(!bad.target_range_ready);
    assert_ne!(bad.dry_run_hash, good.dry_run_hash);
}

struct World {
    target_region: TargetSectorWriteReadbackEvidence,
    inspection: TargetSectorInspectionEvidence,
    scratch: ScratchSectorWriteReadbackEvidence,
}

fn world() -> World {
    let l = layout();
    let s = hello_rollback_append_record_sources(snapshot(), probation());
    let record = hello_rollback_append_record_dry_run(l, s, foundation());
    let plan = hello_rollback_append_sector_plan_dry_run(l, s, record);
    World {
        target_region: TargetSectorWriteReadbackEvidence {
            available: true,
            region_id: "ahci.audit_rollback_target_region",
            write_readback_id: "ahci.target_sector_write_readback",
            target_lba: START_LBA,
            byte_count: SECTOR_BYTES,
            region_within_device_bounds: true,
            no_boot_or_partition_metadata_overlap: true,
            scratch_region_overlap: false,
            label_found: true,
            planned_image_hash: plan.sector_image_hash,
            readback_image_hash: plan.sector_image_hash,
            write_attempted: true,
            write_completed: true,
            readback_completed: true,
            readback_matches_planned_image: true,
            reason: "target_written",
        },
        inspection: TargetSectorInspectionEvidence {
            available: true,
            region_id: "ahci.audit_rollback_target_region",
            inspection_id: "ahci.target_sector_inspection",
            target_lba: START_LBA,
            byte_count: SECTOR_BYTES,
            region_within_device_bounds: true,
            no_boot_or_partition_metadata_overlap: true,
            scratch_region_overlap: false,
            label_found: true,
            expected_sector_image_hash: plan.sector_image_hash,
            sector_image_hash: plan.sector_image_hash,
            audit_record_image_hash: record.audit_record_image_hash,
            rollback_transaction_image_hash: record.rollback_transaction_image_hash,
            read_attempted: true,
            read_completed: true,
            read_matches_expected_image: true,
            offsets_within_sector: true,
            padding_zeroed: true,
            reason: "sector_read",
        },
        scratch: scratch_evidence(plan.sector_image_hash),
    }
}

fn no_check() -> InspectSourceReferenceCheck {
    InspectSourceReferenceCheck {
        validated: false,
        status: "missing",
        reason: "no_reference",
        source_event_retained: false,
        audit_event_retained: false,
    }
}

#[test]
fn append_record_sources_come_from_the_rollback_gates() {
    let s = hello_rollback_append_record_sources(snapshot(), probation());
    assert_ne!(s.payload_hash, s.provenance_hash);
    assert_ne!(s.payload_hash, s.rollback_apply_hash);
    let mut later = snapshot();
    later.state_counter = 8;
    assert_ne!(hello_rollback_append_record_sources(later, probation()).payload_hash, s.payload_hash);
}

#[test]
fn verified_writes_make_the_writers_and_engine_ready_but_grant_nothing() {
    let w = world();
    let chain = hello_rollback_denial_chain(
        snapshot(),
        probation(),
        foundation(),
        layout(),
        contract(),
        ids(),
        Some(w.scratch),
        Some(w.target_region),
        Some(w.inspection),
        None,
        no_check(),
    );
    assert!(chain.target_region_write.test_infrastructure_media_write_authority_available);
    assert!(chain.writer_policy.transaction_append_writer_available);
    assert!(chain.engine_readiness.ready);
    assert!(chain.inspection.inspection_verified);
    assert!(!chain.durable_append_decision.durable_append_authority_available);
    assert!(!chain.append_availability_decision.transaction_append_available);
    assert!(chain.authority_denial_gate.missing_transaction_append_authority);
    assert!(chain.transaction_append_dry_run.blocked_by_authority_denial_gate);
    assert!(chain.transaction_append_dry_run.append_image_ready);
    let d = chain.write_decision;
    assert!(d.transaction_append_dry_run_verified);
    assert!(d.target_region_sector_inspection_verified);
    assert!(d.target_span_verified);
    assert!(!d.write_authority_available);
    assert!(!d.durable_policy_ledger_available);
    assert!(!d.durable_audit_policy_available);
    assert!(!d.durable_append_authority_available);
    assert!(!d.transaction_append_available);
    assert_eq!(chain.inspect_source_state.status, "missing");
}

#[test]
fn missing_evidence_leaves_everything_unverified_and_denied() {
    let chain = hello_rollback_denial_chain(
        snapshot(),
        probation(),
        foundation(),
        layout(),
        contract(),
        ids(),
        None,
        None,
        None,
        None,
        no_check(),
    );
    assert_eq!(chain.target_region_write.status, "missing");
    assert_eq!(chain.target_region_write.reason, "recovery_rollback_materialize_dry_run_missing");
    assert!(!chain.writer_policy.durable_audit_writer_available);
    assert!(!chain.engine_readiness.ready);
    assert_eq!(chain.inspection.reason, "recovery_rollback_inspect_missing");
    assert!(!chain.inspection.inspection_verified);
    assert!(!chain.write_decision.transaction_append_dry_run_verified);
    assert!(!chain.write_decision.transaction_append_available);
    assert!(!chain.write_decision.write_authority_available);
}

#[test]
fn retained_denial_sources_are_the_end_of_the_chain() {
    let w = world();
    let chain = hello_rollback_denial_chain(
        snapshot(),
        probation(),
        foundation(),
        layout(),
        contract(),
        ids(),
        Some(w.scratch),
        Some(w.target_region),
        Some(w.inspection),
        None,
        no_check(),
    );
    let reference = RecoveryRollbackInspectSourceReference {
        audit_event_sequence: 41,
        event_sequence: 40,
        reference_hash: [0x99u8; 32],
        inspection_hash: chain.inspection.inspection_hash,
        source_sector_plan_hash: chain.inspection.source_sector_plan_hash,
        source_target_region_write_readback_hash: chain
            .inspection
            .source_target_region_write_readback_hash,
    };
    let check = InspectSourceReferenceCheck {
        validated: true,
        status: "validated",
        reason: "ram_audit_entry_matches",
        source_event_retained: true,
        audit_event_retained: true,
    };
    let (decision, state) = hello_rollback_apply_retained_denial_sources(
        snapshot(),
        probation(),
        foundation(),
        layout(),
        contract(),
        ids(),
        Some(w.scratch),
        Some(w.target_region),
        Some(w.inspection),
        Some(reference),
        check,
    );
    assert_eq!(decision.decision_hash, chain.write_decision.decision_hash);
    assert!(state.ram_audit_validated);
    assert_eq!(state.status, "retained_sector_inspection_source_reference");
    assert_eq!(state.ram_audit_status, "validated");
    assert!(!decision.transaction_append_available);
}

#[test]
fn transaction_append_needs_durable_append_authority() {
    let w = world();
    let chain = hello_rollback_denial_chain(
        snapshot(),
        probation(),
        foundation(),
        layout(),
        contract(),
        ids(),
        Some(w.scratch),
        Some(w.target_region),
        Some(w.inspection),
        None,
        no_check(),
    );
    let mut granted = chain.append_authority_availability;
    granted.durable_append_authority_available = true;
    let decision = hello_rollback_transaction_append_availability_decision(
        granted,
        chain.engine_readiness,
        chain.writer_policy,
        layout(),
    );
    assert!(decision.transaction_append_available);
    let gate = hello_rollback_transaction_append_authority_denial_gate(decision, layout());
    assert!(!gate.missing_transaction_append_authority);
    assert!(chain.authority_denial_gate.missing_transaction_append_authority);
}

#[test]
fn recovery_evidence_needs_a_hot_swap_probation() {
    assert!(recovery_rollback_materialization_evidence(
        snapshot(),
        None,
        foundation(),
        layout(),
        contract(),
        ids(),
        Some(world().target_region),
    )
    .is_none());
    assert!(recovery_rollback_inspection_evidence(
        snapshot(),
        None,
        foundation(),
        layout(),
        contract(),
        ids(),
        None,
        None,
    )
    .is_none());
}

#[test]
fn materialization_without_a_controller_is_missing() {
    let (record, plan, write) = recovery_rollback_materialization_evidence(
        snapshot(),
        Some(probation()),
        foundation(),
        layout(),
        contract(),
        ids(),
        None,
    )
    .unwrap();
    assert_eq!(plan.padding_offset, record.total_record_byte_length);
    assert_eq!(write.status, "missing");
    assert_eq!(write.reason, "pci_mass_storage_controller_missing");
    assert!(!write.test_infrastructure_media_write_authority_available);
}

#[test]
fn inspection_evidence_of_a_materialized_sector_is_verified() {
    let w = world();
    let (write, inspection) = recovery_rollback_inspection_evidence(
        snapshot(),
        Some(probation()),
        foundation(),
        layout(),
        contract(),
        ids(),
        Some(w.target_region),
        Some(w.inspection),
    )
    .unwrap();
    assert!(write.test_infrastructure_media_write_authority_available);
    assert!(inspection.inspection_verified);
    assert_eq!(inspection.status, "target_region_sector_read_parsed_not_durable_authority");
    let mut torn = w.inspection;
    torn.padding_zeroed = false;
    let (_, inspection) = recovery_rollback_inspection_evidence(
        snapshot(),
        Some(probation()),
        foundation(),
        layout(),
        contract(),
        ids(),
        Some(w.target_region),
        Some(torn),
    )
    .unwrap();
    assert!(!inspection.inspection_verified);
    assert_eq!(inspection.status, "missing");
    assert_eq!(inspection.reason, "sector_read");
}
