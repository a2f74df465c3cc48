//! What the rollback writer storage foundation reports: the storage
//! layout, append engine and append contract evaluations, the scratch
//! region and the discovered durable target region.

use vstd::prelude::*;
use vstd::string::StringSliceAdditionalSpecFns;
use crate::compare::text_eq;

verus! {

/// The durable target region that the storage layout discovered on the
/// mass storage device.
#[derive(Clone, Copy)]
pub struct TargetRegionDiscovery {
    pub schema: &'static str,
    pub id: &'static str,
    pub status: &'static str,
    pub reason: &'static str,
    pub source: &'static str,
    pub partition_inventory_available: bool,
    pub partition_inventory_scheme: &'static str,
    pub partition_entry_count: usize,
    pub mbr_signature_valid: bool,
    pub candidate_region_present: bool,
    pub candidate_region_start_lba: u64,
    pub candidate_region_lba_count: u64,
    pub candidate_region_is_scratch: bool,
    pub candidate_overlaps_boot_metadata: bool,
    pub candidate_overlaps_scratch: bool,
    pub scratch_region_id: &'static str,
    pub scratch_rejected_as_durable_authority: bool,
    pub durable_region_available: bool,
}

/// The rollback writer storage foundation.
#[derive(Clone, Copy)]
pub struct RollbackWriterStorageFoundation {
    pub storage_layout_status: &'static str,
    pub storage_layout_reason: &'static str,
    pub storage_layout_available: bool,
    pub append_engine_status: &'static str,
    pub append_engine_reason: &'static str,
    pub append_engine_available: bool,
    pub append_contract_status: &'static str,
    pub append_contract_reason: &'static str,
    pub rollback_transaction_envelope_status: &'static str,
    pub rollback_transaction_envelope_reason: &'static str,
    pub rollback_transaction_envelope_available: bool,
    pub append_target_owner_status: &'static str,
    pub append_target_owner_reason: &'static str,
    pub append_target_owner_available: bool,
    pub transaction_writer_status: &'static str,
    pub transaction_writer_reason: &'static str,
    pub transaction_writer_ready: bool,
    pub block_write_path_available: bool,
    pub block_write_path_reason: &'static str,
    pub block_write_path_gate_status: &'static str,
    pub read_only_block_driver_id: &'static str,
    pub read_only_block_driver_available: bool,
    pub partition_inventory_available: bool,
    pub partition_inventory_scheme: &'static str,
    pub target_region_discovery: TargetRegionDiscovery,
    pub target_region_writer_contract_status: &'static str,
    pub target_region_writer_contract_reason: &'static str,
    pub target_region_writer_contract_ready: bool,
    pub target_region_media_write_policy_preflight_status: &'static str,
    pub target_region_media_write_policy_preflight_reason: &'static str,
    pub scratch_block_write_authority_id: &'static str,
    pub scratch_block_write_authority_available: bool,
    pub scratch_region_within_device_bounds: bool,
    pub scratch_region_no_boot_or_partition_metadata_overlap: bool,
    pub scratch_region_id: &'static str,
    pub scratch_region_start_lba: u64,
    pub scratch_region_lba_count: u64,
    pub scratch_region_byte_count: usize,
    pub scratch_writer_dry_run_status: &'static str,
    pub scratch_writer_dry_run_reason: &'static str,
    pub scratch_writer_dry_run_ready: bool,
    pub transaction_writer_available: bool,
    pub durable_audit_store_available: bool,
    pub rollback_store_available: bool,
    pub rollback_transaction_append_available: bool,
}

/// The identifiers and schemas of the rollback storage layout.
#[derive(Clone, Copy)]
pub struct StorageLayoutIds {
    pub audit_append_target_id: &'static str,
    pub audit_append_target_schema: &'static str,
    pub rollback_append_target_id: &'static str,
    pub rollback_append_target_schema: &'static str,
    pub storage_authority_id: &'static str,
    pub transaction_writer_owner: &'static str,
}

/// The identifiers of the rollback append contract, and the status and
/// reason texts it gives a media write policy preflight whose writer
/// contract target range is, or is not, ready.
#[derive(Clone, Copy)]
pub struct AppendContractIds {
    pub append_target_owner_id: &'static str,
    pub media_write_policy_preflight_schema: &'static str,
    pub media_write_policy_preflight_id: &'static str,
    pub writer_contract_schema: &'static str,
    pub writer_contract_id: &'static str,
    pub transaction_writer_readiness_id: &'static str,
    pub media_write_policy_preflight_status_ready: &'static str,
    pub media_write_policy_preflight_status_not_ready: &'static str,
    pub media_write_policy_preflight_reason_ready: &'static str,
    pub media_write_policy_preflight_reason_not_ready: &'static str,
}

/// The identifiers the storage controller gives the scratch and rollback
/// target regions and their sector operations.
#[derive(Clone, Copy)]
pub struct ControllerIds {
    pub scratch_block_region_id: &'static str,
    pub audit_rollback_target_region_id: &'static str,
    pub target_sector_write_readback_id: &'static str,
    pub target_sector_inspection_id: &'static str,
}

/// What the rollback storage layout evaluation reports.
#[derive(Clone, Copy)]
pub struct StorageLayoutEvaluation {
    pub status: &'static str,
    pub reason: &'static str,
    pub storage_layout_available: bool,
}

/// What the rollback append engine evaluation reports.
#[derive(Clone, Copy)]
pub struct AppendEngineEvaluation {
    pub status: &'static str,
    pub reason: &'static str,
    pub append_engine_available: bool,
    pub audit_engine_available: bool,
    pub rollback_engine_available: bool,
}

/// What the rollback append contract evaluation reports.
#[derive(Clone, Copy)]
pub struct AppendContractEvaluation {
    pub status: &'static str,
    pub reason: &'static str,
    pub rollback_transaction_status: &'static str,
    pub rollback_transaction_reason: &'static str,
    pub append_target_owner_status: &'static str,
    pub append_target_owner_reason: &'static str,
    pub append_target_owner_available: bool,
    pub transaction_writer_status: &'static str,
    pub transaction_writer_reason: &'static str,
    pub transaction_writer_ready: bool,
    pub block_write_path_available: bool,
    pub block_write_path_reason: &'static str,
    pub writes_enabled: bool,
}

/// What the storage controller probe found: the read-only block driver,
/// the partition inventory and the scratch region's write-and-readback.
#[derive(Clone, Copy)]
pub struct StorageProbe {
    pub block_driver_id: &'static str,
    pub block_driver_available: bool,
    pub partition_inventory_available: bool,
    pub partition_inventory_scheme: &'static str,
    pub scratch_block_write_authority_available: bool,
    pub scratch_region_within_device_bounds: bool,
    pub scratch_region_no_boot_or_partition_metadata_overlap: bool,
    pub scratch_region_id: &'static str,
    pub scratch_region_start_lba: u64,
    pub scratch_region_lba_count: u64,
    pub scratch_region_byte_count: usize,
}

/// The append contract's verdicts on the discovered target region and on
/// the scratch region, the status and reason texts it gives each verdict,
/// the status it gives the block write path, and the scratch block write
/// authority's identifier.
#[derive(Clone, Copy)]
pub struct ContractVerdicts {
    pub target_region_writer_contract_ready: bool,
    pub scratch_writer_dry_run_ready: bool,
    pub writer_contract_status_ready: &'static str,
    pub writer_contract_status_not_ready: &'static str,
    pub writer_contract_reason_ready: &'static str,
    pub writer_contract_reason_not_ready: &'static str,
    pub scratch_writer_dry_run_status_ready: &'static str,
    pub scratch_writer_dry_run_status_not_ready: &'static str,
    pub scratch_writer_dry_run_reason_ready: &'static str,
    pub scratch_writer_dry_run_reason_not_ready: &'static str,
    pub block_write_path_gate_status_available: &'static str,
    pub block_write_path_gate_status_unavailable: &'static str,
    pub scratch_block_write_authority_id: &'static str,
}

/// `ready_text` when `ready`, else `not_ready_text`.
pub open spec fn pick_text(ready: bool, ready_text: &'static str, not_ready_text: &'static str) -> &'static str {
    if ready {
        ready_text
    } else {
        not_ready_text
    }
}

/// `f` is the writer storage foundation of the evaluations, the probe, the
/// discovered target region and the append contract's verdicts: every
/// field carried over, each text picked by its verdict, the transaction
/// envelope available exactly when its status reads `available`, and each
/// writer available only when writes are enabled.
pub open spec fn is_foundation_for(
    f: RollbackWriterStorageFoundation,
    storage: StorageLayoutEvaluation,
    engine: AppendEngineEvaluation,
    append: AppendContractEvaluation,
    probe: StorageProbe,
    target_region_discovery: TargetRegionDiscovery,
    verdicts: ContractVerdicts,
    contract: AppendContractIds,
) -> bool {
    let envelope = append.rollback_transaction_status.spec_bytes() == "available".spec_bytes();
    let ready = verdicts.target_region_writer_contract_ready;
    let scratch_ready = verdicts.scratch_writer_dry_run_ready;
    &&& f.storage_layout_status == storage.status
    &&& f.storage_layout_reason == storage.reason
    &&& f.storage_layout_available == storage.storage_layout_available
    &&& f.append_engine_status == engine.status
    &&& f.append_engine_reason == engine.reason
    &&& f.append_engine_available == engine.append_engine_available
    &&& f.append_contract_status == append.status
    &&& f.append_contract_reason == append.reason
    &&& f.rollback_transaction_envelope_status == append.rollback_transaction_status
    &&& f.rollback_transaction_envelope_reason == append.rollback_transaction_reason
    &&& f.rollback_transaction_envelope_available == envelope
    &&& f.append_target_owner_status == append.append_target_owner_status
    &&& f.append_target_owner_reason == append.append_target_owner_reason
    &&& f.append_target_owner_available == append.append_target_owner_available
    &&& f.transaction_writer_status == append.transaction_writer_status
    &&& f.transaction_writer_reason == append.transaction_writer_reason
    &&& f.transaction_writer_ready == append.transaction_writer_ready
    &&& f.block_write_path_available == append.block_write_path_available
    &&& f.block_write_path_reason == append.block_write_path_reason
    &&& f.block_write_path_gate_status == pick_text(
        append.block_write_path_available,
        verdicts.block_write_path_gate_status_available,
        verdicts.block_write_path_gate_status_unavailable,
    )
    &&& f.read_only_block_driver_id == probe.block_driver_id
    &&& f.read_only_block_driver_available == probe.block_driver_available
    &&& f.partition_inventory_available == probe.partition_inventory_available
    &&& f.partition_inventory_scheme == probe.partition_inventory_scheme
    &&& f.target_region_discovery == target_region_discovery
    &&& f.target_region_writer_contract_status == pick_text(
        ready,
        verdicts.writer_contract_status_ready,
        verdicts.writer_contract_status_not_ready,
    )
    &&& f.target_region_writer_contract_reason == pick_text(
        ready,
        verdicts.writer_contract_reason_ready,
        verdicts.writer_contract_reason_not_ready,
    )
    &&& f.target_region_writer_contract_ready == ready
    &&& f.target_region_media_write_policy_preflight_status == pick_text(
        ready,
        contract.media_write_policy_preflight_status_ready,
        contract.media_write_policy_preflight_status_not_ready,
    )
    &&& f.target_region_media_write_policy_preflight_reason == pick_text(
        ready,
        contract.media_write_policy_preflight_reason_ready,
        contract.media_write_policy_preflight_reason_not_ready,
    )
    &&& f.scratch_block_write_authority_id == verdicts.scratch_block_write_authority_id
    &&& f.scratch_block_write_authority_available == probe.scratch_block_write_authority_available
    &&& f.scratch_region_within_device_bounds == probe.scratch_region_within_device_bounds
    &&& f.scratch_region_no_boot_or_partition_metadata_overlap
        == probe.scratch_region_no_boot_or_partition_metadata_overlap
    &&& f.scratch_region_id == probe.scratch_region_id
    &&& f.scratch_region_start_lba == probe.scratch_region_start_lba
    &&& f.scratch_region_lba_count == probe.scratch_region_lba_count
    &&& f.scratch_region_byte_count == probe.scratch_region_byte_count
    &&& f.scratch_writer_dry_run_status == pick_text(
        scratch_ready,
        verdicts.scratch_writer_dry_run_status_ready,
        verdicts.scratch_writer_dry_run_status_not_ready,
    )
    &&& f.scratch_writer_dry_run_reason == pick_text(
        scratch_ready,
        verdicts.scratch_writer_dry_run_reason_ready,
        verdicts.scratch_writer_dry_run_reason_not_ready,
    )
    &&& f.scratch_writer_dry_run_ready == scratch_ready
    &&& f.transaction_writer_available == (envelope && append.transaction_writer_ready
        && append.writes_enabled)
    &&& f.durable_audit_store_available == (storage.storage_layout_available
        && engine.audit_engine_available && append.writes_enabled)
    &&& f.rollback_store_available == (storage.storage_layout_available
        && engine.rollback_engine_available && append.writes_enabled)
    &&& f.rollback_transaction_append_available == (envelope && append.writes_enabled)
}

/// The rollback writer storage foundation: what the storage layout, append
/// engine and append contract evaluations, the storage probe and the
/// discovered target region report, with the append contract's verdicts.
pub fn hello_rollback_writer_storage_foundation(
    storage: StorageLayoutEvaluation,
    engine: AppendEngineEvaluation,
    append: AppendContractEvaluation,
    probe: StorageProbe,
    target_region_discovery: TargetRegionDiscovery,
    verdicts: ContractVerdicts,
    contract: AppendContractIds,
) -> (foundation: RollbackWriterStorageFoundation)
    ensures
        is_foundation_for(
            foundation,
            storage,
            engine,
            append,
            probe,
            target_region_discovery,
            verdicts,
            contract,
        ),
{
    let rollback_transaction_envelope_available = text_eq(
        append.rollback_transaction_status,
        "available",
    );
    let ready = verdicts.target_region_writer_contract_ready;
    let scratch_ready = verdicts.scratch_writer_dry_run_ready;
    RollbackWriterStorageFoundation {
        storage_layout_status: storage.status,
        storage_layout_reason: storage.reason,
        storage_layout_available: storage.storage_layout_available,
        append_engine_status: engine.status,
        append_engine_reason: engine.reason,
        append_engine_available: engine.append_engine_available,
        append_contract_status: append.status,
        append_contract_reason: append.reason,
        rollback_transaction_envelope_status: append.rollback_transaction_status,
        rollback_transaction_envelope_reason: append.rollback_transaction_reason,
        rollback_transaction_envelope_available,
        append_target_owner_status: append.append_target_owner_status,
        append_target_owner_reason: append.append_target_owner_reason,
        append_target_owner_available: append.append_target_owner_available,
        transaction_writer_status: append.transaction_writer_status,
        transaction_writer_reason: append.transaction_writer_reason,
        transaction_writer_ready: append.transaction_writer_ready,
        block_write_path_available: append.block_write_path_available,
        block_write_path_reason: append.block_write_path_reason,
        block_write_path_gate_status: if append.block_write_path_available {
            verdicts.block_write_path_gate_status_available
        } else {
            verdicts.block_write_path_gate_status_unavailable
        },
        read_only_block_driver_id: probe.block_driver_id,
        read_only_block_driver_available: probe.block_driver_available,
        partition_inventory_available: probe.partition_inventory_available,
        partition_inventory_scheme: probe.partition_inventory_scheme,
        target_region_discovery,
        target_region_writer_contract_status: if ready {
            verdicts.writer_contract_status_ready
        } else {
            verdicts.writer_contract_status_not_ready
        },
        target_region_writer_contract_reason: if ready {
            verdicts.writer_contract_reason_ready
        } else {
            verdicts.writer_contract_reason_not_ready
        },
        target_region_writer_contract_ready: ready,
        target_region_media_write_policy_preflight_status: if ready {
            contract.media_write_policy_preflight_status_ready
        } else {
            contract.media_write_policy_preflight_status_not_ready
        },
        target_region_media_write_policy_preflight_reason: if ready {
            contract.media_write_policy_preflight_reason_ready
        } else {
            contract.media_write_policy_preflight_reason_not_ready
        },
        scratch_block_write_authority_id: verdicts.scratch_block_write_authority_id,
        scratch_block_write_authority_available: probe.scratch_block_write_authority_available,
        scratch_region_within_device_bounds: probe.scratch_region_within_device_bounds,
        scratch_region_no_boot_or_partition_metadata_overlap:
            probe.scratch_region_no_boot_or_partition_metadata_overlap,
        scratch_region_id: probe.scratch_region_id,
        scratch_region_start_lba: probe.scratch_region_start_lba,
        scratch_region_lba_count: probe.scratch_region_lba_count,
        scratch_region_byte_count: probe.scratch_region_byte_count,
        scratch_writer_dry_run_status: if scratch_ready {
            verdicts.scratch_writer_dry_run_status_ready
        } else {
            verdicts.scratch_writer_dry_run_status_not_ready
        },
        scratch_writer_dry_run_reason: if scratch_ready {
            verdicts.scratch_writer_dry_run_reason_ready
        } else {
            verdicts.scratch_writer_dry_run_reason_not_ready
        },
        scratch_writer_dry_run_ready: scratch_ready,
        transaction_writer_available: rollback_transaction_envelope_available
            && append.transaction_writer_ready && append.writes_enabled,
        durable_audit_store_available: storage.storage_layout_available
            && engine.audit_engine_available && append.writes_enabled,
        rollback_store_available: storage.storage_layout_available
            && engine.rollback_engine_available && append.writes_enabled,
        rollback_transaction_append_available: rollback_transaction_envelope_available
            && append.writes_enabled,
    }
}

/// Nothing the foundation offers for writing stands while writes are
/// disabled, and a transaction writer needs an available transaction
/// envelope.
pub proof fn lemma_foundation_writers_need_writes_enabled(
    f: RollbackWriterStorageFoundation,
    storage: StorageLayoutEvaluation,
    engine: AppendEngineEvaluation,
    append: AppendContractEvaluation,
    probe: StorageProbe,
    target_region_discovery: TargetRegionDiscovery,
    verdicts: ContractVerdicts,
    contract: AppendContractIds,
)
    requires
        is_foundation_for(f, storage, engine, append, probe, target_region_discovery, verdicts, contract),
    ensures
        !append.writes_enabled ==> {
            &&& !f.transaction_writer_available
            &&& !f.durable_audit_store_available
            &&& !f.rollback_store_available
            &&& !f.rollback_transaction_append_available
        },
        f.transaction_writer_available ==> f.rollback_transaction_envelope_available
            && f.transaction_writer_ready,
        f.rollback_transaction_append_available ==> f.rollback_transaction_envelope_available,
{
}

} // verus!
