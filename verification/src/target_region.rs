//! The rollback target region: its write-and-readback dry run built from
//! the storage controller's evidence, and whether a materialized target
//! sector is available.

use vstd::prelude::*;
use vstd::string::StringSliceAdditionalSpecFns;
use crate::append_plan::RollbackAppendSectorPlanDryRun;
use crate::canonical::{
    SECTOR_BYTES, finalize_sha256, hash_line_bool, hash_line_hash, hash_line_str, hash_line_u64,
    line_bool, line_hash, line_str, line_u64,
};
use crate::compare::text_eq;
use crate::foundation::{
    AppendContractIds, ControllerIds, RollbackWriterStorageFoundation, StorageLayoutIds,
    TargetRegionDiscovery,
};
use crate::constants::{
    HELLO_ROLLBACK_DURABLE_AUDIT_POLICY_MISSING_REASON,
    HELLO_ROLLBACK_MEDIA_WRITE_AUTHORITY_MISSING_REASON,
    HELLO_ROLLBACK_TARGET_REGION_MATERIALIZER_MISSING_REASON,
    HELLO_ROLLBACK_TARGET_REGION_WRITE_READBACK_DRY_RUN_ID,
    HELLO_ROLLBACK_TARGET_REGION_WRITE_READBACK_DRY_RUN_REASON,
    HELLO_ROLLBACK_TARGET_REGION_WRITE_READBACK_DRY_RUN_SCHEMA,
    HELLO_ROLLBACK_TARGET_REGION_WRITE_READBACK_DRY_RUN_STATUS,
};
use crate::sha256::{sha256_absorbed, sha256_digest, sha256_new};

verus! {

/// The target region media write policy preflight.
#[derive(Clone, Copy)]
pub struct TargetRegionMediaWritePolicyPreflight {
    pub preflight_hash: [u8; 32],
    pub source_contract_status: &'static str,
    pub source_contract_reason: &'static str,
    pub source_contract_target_range_ready: bool,
    pub owner_ids_verified: bool,
    pub target_ids_verified: bool,
    pub target_span_verified: bool,
    pub schema_ids_verified: bool,
    pub target_region_start_lba: u64,
    pub target_region_lba_count: u64,
    pub target_byte_count: u64,
    pub media_write_authority_available: bool,
    pub durable_audit_policy_available: bool,
}

/// What the storage controller reports after writing the planned sector
/// image to the target region and reading it back.
#[derive(Clone, Copy)]
pub struct TargetSectorWriteReadbackEvidence {
    pub available: bool,
    pub region_id: &'static str,
    pub write_readback_id: &'static str,
    pub target_lba: u64,
    pub byte_count: usize,
    pub region_within_device_bounds: bool,
    pub no_boot_or_partition_metadata_overlap: bool,
    pub scratch_region_overlap: bool,
    pub label_found: bool,
    pub planned_image_hash: [u8; 32],
    pub readback_image_hash: [u8; 32],
    pub write_attempted: bool,
    pub write_completed: bool,
    pub readback_completed: bool,
    pub readback_matches_planned_image: bool,
    pub reason: &'static str,
}

/// The target region write-and-readback dry run.
#[derive(Clone, Copy)]
pub struct RollbackTargetRegionWriteReadbackDryRun {
    pub dry_run_hash: [u8; 32],
    pub source_sector_plan_hash: [u8; 32],
    pub source_policy_preflight_hash: [u8; 32],
    pub planned_sector_image_hash: [u8; 32],
    pub readback_sector_image_hash: [u8; 32],
    pub target_start_lba: u64,
    pub target_lba_count: u64,
    pub target_byte_count: u64,
    pub label_found: bool,
    pub target_range_ready: bool,
    pub test_infrastructure_media_write_authority_available: bool,
    pub write_attempted: bool,
    pub write_completed: bool,
    pub readback_completed: bool,
    pub readback_matches_planned_image: bool,
    pub status: &'static str,
    pub reason: &'static str,
}

/// The target region write-and-readback dry run's canonical lines.
pub open spec fn target_region_write_stream(
    r: RollbackTargetRegionWriteReadbackDryRun,
    ids: ControllerIds,
) -> Seq<u8> {
    line_str("schema", HELLO_ROLLBACK_TARGET_REGION_WRITE_READBACK_DRY_RUN_SCHEMA)
        + line_str("id", HELLO_ROLLBACK_TARGET_REGION_WRITE_READBACK_DRY_RUN_ID)
        + line_str("scope", "current_boot")
        + line_str("classification", "local_only")
        + line_str("persistence", "none")
        + line_str("status", r.status)
        + line_str("reason", r.reason)
        + line_hash("source_sector_plan_sha256", r.source_sector_plan_hash@)
        + line_hash("source_policy_preflight_sha256", r.source_policy_preflight_hash@)
        + line_hash("planned_sector_image_sha256", r.planned_sector_image_hash@)
        + line_hash("readback_sector_image_sha256", r.readback_sector_image_hash@)
        + line_str("target_region_id", ids.audit_rollback_target_region_id)
        + line_u64("target_start_lba", r.target_start_lba)
        + line_u64("target_lba_count", r.target_lba_count)
        + line_u64("target_byte_count", r.target_byte_count)
        + line_bool("label_found", r.label_found)
        + line_bool("target_range_ready", r.target_range_ready)
        + line_bool("test_infrastructure_media_write_authority_available",
            r.test_infrastructure_media_write_authority_available,
        )
        + line_bool("target_region_write_attempted", r.write_attempted)
        + line_bool("target_region_write_completed", r.write_completed)
        + line_bool("target_region_readback_completed", r.readback_completed)
        + line_bool("readback_matches_planned_image", r.readback_matches_planned_image)
        + line_bool("authorizes_media_write", false)
        + line_bool("authorizes_append", false)
        + line_bool("writes_durable_audit_log", false)
        + line_bool("writes_rollback_store", false)
        + line_bool("appends_rollback_transaction", false)
        + line_bool("installs_rollback_state", false)
}

/// Whether the controller's evidence covers exactly the planned target span.
pub open spec fn evidence_span_ready(
    sector_plan: RollbackAppendSectorPlanDryRun,
    target_region: TargetRegionDiscovery,
    ids: ControllerIds,
    e: TargetSectorWriteReadbackEvidence,
) -> bool {
    &&& sector_plan.target_range_ready
    &&& target_region.durable_region_available
    &&& e.available
    &&& e.region_id.spec_bytes() == ids.audit_rollback_target_region_id.spec_bytes()
    &&& e.write_readback_id.spec_bytes() == ids.target_sector_write_readback_id.spec_bytes()
    &&& e.target_lba == target_region.candidate_region_start_lba
    &&& e.byte_count == target_region.candidate_region_lba_count * SECTOR_BYTES
    &&& e.region_within_device_bounds
    &&& e.no_boot_or_partition_metadata_overlap
    &&& !e.scratch_region_overlap
}

/// `r` is the dry run built from the controller's evidence, or from its
/// absence with `missing_reason`.
pub open spec fn is_target_region_write_for(
    r: RollbackTargetRegionWriteReadbackDryRun,
    sector_plan: RollbackAppendSectorPlanDryRun,
    target_region: TargetRegionDiscovery,
    policy: TargetRegionMediaWritePolicyPreflight,
    evidence: Option<TargetSectorWriteReadbackEvidence>,
    missing_reason: &'static str,
    ids: ControllerIds,
) -> bool {
    &&& match evidence {
        Some(e) => {
            &&& r.planned_sector_image_hash == e.planned_image_hash
            &&& r.readback_sector_image_hash == e.readback_image_hash
            &&& r.label_found == e.label_found
            &&& r.target_range_ready == evidence_span_ready(sector_plan, target_region, ids, e)
            &&& r.write_attempted == e.write_attempted
            &&& r.write_completed == e.write_completed
            &&& r.readback_completed == e.readback_completed
            &&& r.readback_matches_planned_image == e.readback_matches_planned_image
            &&& r.status == (if e.available {
                HELLO_ROLLBACK_TARGET_REGION_WRITE_READBACK_DRY_RUN_STATUS
            } else {
                "missing"
            })
            &&& r.reason == (if e.available {
                HELLO_ROLLBACK_TARGET_REGION_WRITE_READBACK_DRY_RUN_REASON
            } else {
                e.reason
            })
        },
        None => {
            &&& r.planned_sector_image_hash == sector_plan.sector_image_hash
            &&& r.readback_sector_image_hash@ == Seq::new(32, |_i: int| 0u8)
            &&& !r.label_found
            &&& !r.target_range_ready
            &&& !r.write_attempted
            &&& !r.write_completed
            &&& !r.readback_completed
            &&& !r.readback_matches_planned_image
            &&& r.status == "missing"
            &&& r.reason == missing_reason
        },
    }
    &&& r.test_infrastructure_media_write_authority_available == (r.target_range_ready
        && r.write_completed && r.readback_completed && r.readback_matches_planned_image)
    &&& r.source_sector_plan_hash == sector_plan.plan_hash
    &&& r.source_policy_preflight_hash == policy.preflight_hash
    &&& r.target_start_lba == target_region.candidate_region_start_lba
    &&& r.target_lba_count == target_region.candidate_region_lba_count
    &&& r.target_byte_count == target_region.candidate_region_lba_count * SECTOR_BYTES
    &&& r.dry_run_hash@ == sha256_digest(target_region_write_stream(r, ids))
}

/// Builds the target region write-and-readback dry run from what the
/// storage controller reported. Test-infrastructure media write authority
/// stands only when the span is the planned one and the sector was written,
/// read back and found equal to the planned image.
pub fn hello_rollback_target_region_write_readback_dry_run_from_evidence(
    sector_plan: RollbackAppendSectorPlanDryRun,
    target_region: TargetRegionDiscovery,
    policy: TargetRegionMediaWritePolicyPreflight,
    evidence: Option<TargetSectorWriteReadbackEvidence>,
    missing_reason: &'static str,
    ids: ControllerIds,
) -> (record: RollbackTargetRegionWriteReadbackDryRun)
    requires
        target_region.candidate_region_lba_count * SECTOR_BYTES <= u64::MAX,
    ensures
        is_target_region_write_for(
            record,
            sector_plan,
            target_region,
            policy,
            evidence,
            missing_reason,
            ids,
        ),
{
    let target_byte_count = target_region.candidate_region_lba_count * SECTOR_BYTES as u64;
    let (
        planned_sector_image_hash,
        readback_sector_image_hash,
        label_found,
        target_range_ready,
        write_attempted,
        write_completed,
        readback_completed,
        readback_matches_planned_image,
        status,
        reason,
    ) = match evidence {
        Some(evidence) => (
            evidence.planned_image_hash,
            evidence.readback_image_hash,
            evidence.label_found,
            sector_plan.target_range_ready && target_region.durable_region_available
                && evidence.available && text_eq(
                evidence.region_id,
                ids.audit_rollback_target_region_id,
            ) && text_eq(evidence.write_readback_id, ids.target_sector_write_readback_id)
                && evidence.target_lba == target_region.candidate_region_start_lba
                && evidence.byte_count as u64 == target_byte_count
                && evidence.region_within_device_bounds
                && evidence.no_boot_or_partition_metadata_overlap
                && !evidence.scratch_region_overlap,
            evidence.write_attempted,
            evidence.write_completed,
            evidence.readback_completed,
            evidence.readback_matches_planned_image,
            if evidence.available {
                HELLO_ROLLBACK_TARGET_REGION_WRITE_READBACK_DRY_RUN_STATUS
            } else {
                "missing"
            },
            if evidence.available {
                HELLO_ROLLBACK_TARGET_REGION_WRITE_READBACK_DRY_RUN_REASON
            } else {
                evidence.reason
            },
        ),
        None => (
            sector_plan.sector_image_hash,
            [0u8; 32],
            false,
            false,
            false,
            false,
            false,
            false,
            "missing",
            missing_reason,
        ),
    };
    proof {
        if evidence is None {
            assert(readback_sector_image_hash@ =~= Seq::new(32, |_i: int| 0u8));
        }
    }
    let test_infrastructure_media_write_authority_available = target_range_ready
        && write_completed && readback_completed && readback_matches_planned_image;

    let mut hash = sha256_new();
    hash_line_str(&mut hash, "schema", HELLO_ROLLBACK_TARGET_REGION_WRITE_READBACK_DRY_RUN_SCHEMA);
    assert(sha256_absorbed(hash) =~= line_str("schema",
        HELLO_ROLLBACK_TARGET_REGION_WRITE_READBACK_DRY_RUN_SCHEMA));
    hash_line_str(&mut hash, "id", HELLO_ROLLBACK_TARGET_REGION_WRITE_READBACK_DRY_RUN_ID);
    hash_line_str(&mut hash, "scope", "current_boot");
    hash_line_str(&mut hash, "classification", "local_only");
    hash_line_str(&mut hash, "persistence", "none");
    hash_line_str(&mut hash, "status", status);
    hash_line_str(&mut hash, "reason", reason);
    hash_line_hash(&mut hash, "source_sector_plan_sha256", sector_plan.plan_hash);
    hash_line_hash(&mut hash, "source_policy_preflight_sha256", policy.preflight_hash);
    hash_line_hash(&mut hash, "planned_sector_image_sha256", planned_sector_image_hash);
    hash_line_hash(&mut hash, "readback_sector_image_sha256", readback_sector_image_hash);
    hash_line_str(&mut hash, "target_region_id", ids.audit_rollback_target_region_id);
    hash_line_u64(&mut hash, "target_start_lba", target_region.candidate_region_start_lba);
    hash_line_u64(&mut hash, "target_lba_count", target_region.candidate_region_lba_count);
    hash_line_u64(&mut hash, "target_byte_count", target_byte_count);
    hash_line_bool(&mut hash, "label_found", label_found);
    hash_line_bool(&mut hash, "target_range_ready", target_range_ready);
    hash_line_bool(&mut hash, "test_infrastructure_media_write_authority_available",
        test_infrastructure_media_write_authority_available,
    );
    hash_line_bool(&mut hash, "target_region_write_attempted", write_attempted);
    hash_line_bool(&mut hash, "target_region_write_completed", write_completed);
    hash_line_bool(&mut hash, "target_region_readback_completed", readback_completed);
    hash_line_bool(&mut hash, "readback_matches_planned_image", readback_matches_planned_image);
    hash_line_bool(&mut hash, "authorizes_media_write", false);
    hash_line_bool(&mut hash, "authorizes_append", false);
    hash_line_bool(&mut hash, "writes_durable_audit_log", false);
    hash_line_bool(&mut hash, "writes_rollback_store", false);
    hash_line_bool(&mut hash, "appends_rollback_transaction", false);
    hash_line_bool(&mut hash, "installs_rollback_state", false);
    RollbackTargetRegionWriteReadbackDryRun {
        dry_run_hash: finalize_sha256(hash),
        source_sector_plan_hash: sector_plan.plan_hash,
        source_policy_preflight_hash: policy.preflight_hash,
        planned_sector_image_hash,
        readback_sector_image_hash,
        target_start_lba: target_region.candidate_region_start_lba,
        target_lba_count: target_region.candidate_region_lba_count,
        target_byte_count,
        label_found,
        target_range_ready,
        test_infrastructure_media_write_authority_available,
        write_attempted,
        write_completed,
        readback_completed,
        readback_matches_planned_image,
        status,
        reason,
    }
}

/// Whether the materialized target sector is available: test media write
/// authority, a completed write and readback, and a readback equal to the
/// planned image.
pub fn materialized_target_region_sector_available(
    target_region_write: RollbackTargetRegionWriteReadbackDryRun,
) -> (available: bool)
    ensures
        available == (target_region_write.test_infrastructure_media_write_authority_available
            && target_region_write.write_completed && target_region_write.readback_completed
            && target_region_write.readback_matches_planned_image),
{
    target_region_write.test_infrastructure_media_write_authority_available
        && target_region_write.write_completed && target_region_write.readback_completed
        && target_region_write.readback_matches_planned_image
}

/// The media write policy preflight's canonical lines.
pub open spec fn media_write_policy_stream(
    r: TargetRegionMediaWritePolicyPreflight,
    foundation: RollbackWriterStorageFoundation,
    layout: StorageLayoutIds,
    contract: AppendContractIds,
) -> Seq<u8> {
    line_str("schema", contract.media_write_policy_preflight_schema)
        + line_str("id", contract.media_write_policy_preflight_id)
        + line_str("scope", "current_boot")
        + line_str("classification", "local_only")
        + line_str("persistence", "none")
        + line_str("status", foundation.target_region_media_write_policy_preflight_status)
        + line_str("reason", foundation.target_region_media_write_policy_preflight_reason)
        + line_str("source_contract_schema", contract.writer_contract_schema)
        + line_str("source_contract_id", contract.writer_contract_id)
        + line_str("source_contract_status", r.source_contract_status)
        + line_str("source_contract_reason", r.source_contract_reason)
        + line_str("owner_method", layout.transaction_writer_owner)
        + line_str("append_target_owner_id", contract.append_target_owner_id)
        + line_str("storage_authority_id", layout.storage_authority_id)
        + line_str("audit_ledger_target_id", layout.audit_append_target_id)
        + line_str("audit_record_schema", layout.audit_append_target_schema)
        + line_str("rollback_store_target_id", layout.rollback_append_target_id)
        + line_str("rollback_transaction_schema", layout.rollback_append_target_schema)
        + line_u64("target_region_start_lba", r.target_region_start_lba)
        + line_u64("target_region_lba_count", r.target_region_lba_count)
        + line_u64("target_byte_count", r.target_byte_count)
        + line_bool("source_contract_target_range_ready", r.source_contract_target_range_ready)
        + line_bool("owner_ids_verified", true)
        + line_bool("target_ids_verified", true)
        + line_bool("target_span_verified", r.source_contract_target_range_ready)
        + line_bool("schema_ids_verified", true)
        + line_bool("media_write_authority_required", true)
        + line_bool("media_write_authority_available", r.media_write_authority_available)
        + line_str("media_write_authority_reason",
            HELLO_ROLLBACK_MEDIA_WRITE_AUTHORITY_MISSING_REASON,
        )
        + line_bool("durable_audit_policy_required", true)
        + line_bool("durable_audit_policy_available", r.durable_audit_policy_available)
        + line_str("durable_audit_policy_reason",
            HELLO_ROLLBACK_DURABLE_AUDIT_POLICY_MISSING_REASON,
        )
        + line_bool("authorizes_media_write", false)
        + line_bool("authorizes_append", false)
        + line_bool("writes_durable_audit_log", false)
        + line_bool("writes_rollback_store", false)
        + line_bool("appends_rollback_transaction", false)
        + line_bool("write_attempted", false)
}

/// `r` is the media write policy preflight of the foundation's target
/// region: ids and schemas taken as verified, the span verified when the
/// writer contract's target range is ready, and neither media write
/// authority nor a durable audit policy available.
pub open spec fn is_media_write_policy_for(
    r: TargetRegionMediaWritePolicyPreflight,
    foundation: RollbackWriterStorageFoundation,
    layout: StorageLayoutIds,
    contract: AppendContractIds,
) -> bool {
    &&& r.source_contract_status == foundation.target_region_writer_contract_status
    &&& r.source_contract_reason == foundation.target_region_writer_contract_reason
    &&& r.source_contract_target_range_ready == foundation.target_region_writer_contract_ready
    &&& r.owner_ids_verified
    &&& r.target_ids_verified
    &&& r.target_span_verified == foundation.target_region_writer_contract_ready
    &&& r.schema_ids_verified
    &&& r.target_region_start_lba == foundation.target_region_discovery.candidate_region_start_lba
    &&& r.target_region_lba_count == foundation.target_region_discovery.candidate_region_lba_count
    &&& r.target_byte_count == foundation.target_region_discovery.candidate_region_lba_count * SECTOR_BYTES
    &&& !r.media_write_authority_available
    &&& !r.durable_audit_policy_available
    &&& r.preflight_hash@ == sha256_digest(media_write_policy_stream(r, foundation, layout, contract))
}

/// The target region media write policy preflight: media write authority
/// and a durable audit policy are required and both missing.
pub fn hello_target_region_media_write_policy_preflight(
    foundation: RollbackWriterStorageFoundation,
    layout: StorageLayoutIds,
    contract: AppendContractIds,
) -> (preflight: TargetRegionMediaWritePolicyPreflight)
    requires
        foundation.target_region_discovery.candidate_region_lba_count * SECTOR_BYTES <= u64::MAX,
    ensures
        is_media_write_policy_for(preflight, foundation, layout, contract),
{
    let target_region = foundation.target_region_discovery;
    let target_byte_count = target_region.candidate_region_lba_count * SECTOR_BYTES as u64;
    let media_write_authority_available = false;
    let durable_audit_policy_available = false;
    let mut hash = sha256_new();
    hash_line_str(&mut hash, "schema", contract.media_write_policy_preflight_schema);
    assert(sha256_absorbed(hash) =~= line_str("schema",
        contract.media_write_policy_preflight_schema));
    hash_line_str(&mut hash, "id", contract.media_write_policy_preflight_id);
    hash_line_str(&mut hash, "scope", "current_boot");
    hash_line_str(&mut hash, "classification", "local_only");
    hash_line_str(&mut hash, "persistence", "none");
    hash_line_str(&mut hash, "status",
        foundation.target_region_media_write_policy_preflight_status,
    );
    hash_line_str(&mut hash, "reason",
        foundation.target_region_media_write_policy_preflight_reason,
    );
    hash_line_str(&mut hash, "source_contract_schema", contract.writer_contract_schema);
    hash_line_str(&mut hash, "source_contract_id", contract.writer_contract_id);
    hash_line_str(&mut hash, "source_contract_status",
        foundation.target_region_writer_contract_status,
    );
    hash_line_str(&mut hash, "source_contract_reason",
        foundation.target_region_writer_contract_reason,
    );
    hash_line_str(&mut hash, "owner_method", layout.transaction_writer_owner);
    hash_line_str(&mut hash, "append_target_owner_id", contract.append_target_owner_id);
    hash_line_str(&mut hash, "storage_authority_id", layout.storage_authority_id);
    hash_line_str(&mut hash, "audit_ledger_target_id", layout.audit_append_target_id);
    hash_line_str(&mut hash, "audit_record_schema", layout.audit_append_target_schema);
    hash_line_str(&mut hash, "rollback_store_target_id", layout.rollback_append_target_id);
    hash_line_str(&mut hash, "rollback_transaction_schema", layout.rollback_append_target_schema);
    hash_line_u64(&mut hash, "target_region_start_lba", target_region.candidate_region_start_lba);
    hash_line_u64(&mut hash, "target_region_lba_count", target_region.candidate_region_lba_count);
    hash_line_u64(&mut hash, "target_byte_count", target_byte_count);
    hash_line_bool(&mut hash, "source_contract_target_range_ready",
        foundation.target_region_writer_contract_ready,
    );
    hash_line_bool(&mut hash, "owner_ids_verified", true);
    hash_line_bool(&mut hash, "target_ids_verified", true);
    hash_line_bool(&mut hash, "target_span_verified",
        foundation.target_region_writer_contract_ready,
    );
    hash_line_bool(&mut hash, "schema_ids_verified", true);
    hash_line_bool(&mut hash, "media_write_authority_required", true);
    hash_line_bool(&mut hash, "media_write_authority_available", media_write_authority_available);
    hash_line_str(&mut hash, "media_write_authority_reason",
        HELLO_ROLLBACK_MEDIA_WRITE_AUTHORITY_MISSING_REASON,
    );
    hash_line_bool(&mut hash, "durable_audit_policy_required", true);
    hash_line_bool(&mut hash, "durable_audit_policy_available", durable_audit_policy_available);
    hash_line_str(&mut hash, "durable_audit_policy_reason",
        HELLO_ROLLBACK_DURABLE_AUDIT_POLICY_MISSING_REASON,
    );
    hash_line_bool(&mut hash, "authorizes_media_write", false);
    hash_line_bool(&mut hash, "authorizes_append", false);
    hash_line_bool(&mut hash, "writes_durable_audit_log", false);
    hash_line_bool(&mut hash, "writes_rollback_store", false);
    hash_line_bool(&mut hash, "appends_rollback_transaction", false);
    hash_line_bool(&mut hash, "write_attempted", false);
    TargetRegionMediaWritePolicyPreflight {
        preflight_hash: finalize_sha256(hash),
        source_contract_status: foundation.target_region_writer_contract_status,
        source_contract_reason: foundation.target_region_writer_contract_reason,
        source_contract_target_range_ready: foundation.target_region_writer_contract_ready,
        owner_ids_verified: true,
        target_ids_verified: true,
        target_span_verified: foundation.target_region_writer_contract_ready,
        schema_ids_verified: true,
        target_region_start_lba: target_region.candidate_region_start_lba,
        target_region_lba_count: target_region.candidate_region_lba_count,
        target_byte_count,
        media_write_authority_available,
        durable_audit_policy_available,
    }
}

/// The target region write-and-readback dry run from the evidence that the
/// recovery materializer left: missing, with the materializer's reason,
/// when it left none.
pub fn hello_rollback_target_region_write_readback_dry_run_from_materializer(
    sector_plan: RollbackAppendSectorPlanDryRun,
    target_region: TargetRegionDiscovery,
    policy: TargetRegionMediaWritePolicyPreflight,
    materialized: Option<TargetSectorWriteReadbackEvidence>,
    ids: ControllerIds,
) -> (record: RollbackTargetRegionWriteReadbackDryRun)
    requires
        target_region.candidate_region_lba_count * SECTOR_BYTES <= u64::MAX,
    ensures
        is_target_region_write_for(
            record,
            sector_plan,
            target_region,
            policy,
            materialized,
            HELLO_ROLLBACK_TARGET_REGION_MATERIALIZER_MISSING_REASON,
            ids,
        ),
{
    hello_rollback_target_region_write_readback_dry_run_from_evidence(
        sector_plan,
        target_region,
        policy,
        materialized,
        HELLO_ROLLBACK_TARGET_REGION_MATERIALIZER_MISSING_REASON,
        ids,
    )
}


/// The target region dry run reports its range ready, and grants test
/// media write authority, only for available evidence of the discovered
/// durable region's span that lies inside the device and clear of boot and
/// partition metadata and of the scratch region, under a ready plan; the
/// authority further needs a completed write and a matching readback.
pub proof fn lemma_target_range_ready_needs_clean_evidence(
    r: RollbackTargetRegionWriteReadbackDryRun,
    sector_plan: RollbackAppendSectorPlanDryRun,
    target_region: TargetRegionDiscovery,
    policy: TargetRegionMediaWritePolicyPreflight,
    evidence: Option<TargetSectorWriteReadbackEvidence>,
    missing_reason: &'static str,
    ids: ControllerIds,
)
    requires
        is_target_region_write_for(r, sector_plan, target_region, policy, evidence, missing_reason, ids),
    ensures
        r.test_infrastructure_media_write_authority_available ==> r.target_range_ready
            && r.write_completed && r.readback_completed && r.readback_matches_planned_image,
        r.target_range_ready ==> {
            &&& evidence matches Some(e)
            &&& e.available
            &&& e.no_boot_or_partition_metadata_overlap
            &&& !e.scratch_region_overlap
            &&& e.region_within_device_bounds
            &&& e.region_id.spec_bytes() == ids.audit_rollback_target_region_id.spec_bytes()
            &&& e.write_readback_id.spec_bytes() == ids.target_sector_write_readback_id.spec_bytes()
            &&& e.target_lba == target_region.candidate_region_start_lba
            &&& sector_plan.target_range_ready
            &&& target_region.durable_region_available
        },
        evidence matches Some(e) && !e.no_boot_or_partition_metadata_overlap ==> {
            &&& !r.target_range_ready
            &&& !r.test_infrastructure_media_write_authority_available
        },
{
}

} // verus!
