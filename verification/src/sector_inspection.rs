//! The rollback target sector inspection: what the storage controller read
//! back from the durable target sector, checked against the planned sector
//! image, the two record images and the planned offsets.

use vstd::prelude::*;
use vstd::string::StringSliceAdditionalSpecFns;
use crate::append_plan::{
    AppendRecordSources, RollbackAppendRecordDryRun, RollbackAppendSectorPlanDryRun,
    append_sector_stream, audit_record_stream, is_append_record_dry_run_for, is_sector_plan_for,
    transaction_record_stream, zero_sector,
};
use crate::canonical::{
    lay_bytes, finalize_sha256, hash_line_bool, hash_line_hash, hash_line_str, hash_line_u64, line_bool,
    line_hash, line_str, line_u64,
};
use crate::compare::{digest_eq, text_eq};
use crate::constants::{
    HELLO_ROLLBACK_TARGET_REGION_INSPECTION_MISSING_REASON,
    HELLO_ROLLBACK_TARGET_REGION_SECTOR_INSPECTION_ID,
    HELLO_ROLLBACK_TARGET_REGION_SECTOR_INSPECTION_REASON,
    HELLO_ROLLBACK_TARGET_REGION_SECTOR_INSPECTION_SCHEMA,
    HELLO_ROLLBACK_TARGET_REGION_SECTOR_INSPECTION_STATUS,
};
use crate::foundation::{ControllerIds, RollbackWriterStorageFoundation, StorageLayoutIds};
use crate::sha256::{sha256_absorbed, sha256_digest, sha256_new};
use crate::target_region::RollbackTargetRegionWriteReadbackDryRun;

verus! {

/// What the storage controller reports after reading the durable target
/// sector back.
#[derive(Clone, Copy)]
pub struct TargetSectorInspectionEvidence {
    pub available: bool,
    pub region_id: &'static str,
    pub inspection_id: &'static str,
    pub target_lba: u64,
    pub byte_count: usize,
    pub region_within_device_bounds: bool,
    pub no_boot_or_partition_metadata_overlap: bool,
    pub scratch_region_overlap: bool,
    pub label_found: bool,
    pub expected_sector_image_hash: [u8; 32],
    pub sector_image_hash: [u8; 32],
    pub audit_record_image_hash: [u8; 32],
    pub rollback_transaction_image_hash: [u8; 32],
    pub read_attempted: bool,
    pub read_completed: bool,
    pub read_matches_expected_image: bool,
    pub offsets_within_sector: bool,
    pub padding_zeroed: bool,
    pub reason: &'static str,
}

/// The target sector inspection.
#[derive(Clone, Copy)]
pub struct RollbackTargetRegionSectorInspection {
    pub inspection_hash: [u8; 32],
    pub source_sector_plan_hash: [u8; 32],
    pub source_target_region_write_readback_hash: [u8; 32],
    pub expected_sector_image_hash: [u8; 32],
    pub sector_image_hash: [u8; 32],
    pub audit_record_image_hash: [u8; 32],
    pub rollback_transaction_image_hash: [u8; 32],
    pub target_start_lba: u64,
    pub target_lba_count: u64,
    pub target_byte_count: u64,
    pub audit_record_offset: u64,
    pub audit_record_byte_length: u64,
    pub rollback_transaction_offset: u64,
    pub rollback_transaction_byte_length: u64,
    pub padding_offset: u64,
    pub padding_byte_length: u64,
    pub label_found: bool,
    pub read_attempted: bool,
    pub read_completed: bool,
    pub sector_hash_verified: bool,
    pub audit_record_hash_verified: bool,
    pub rollback_transaction_hash_verified: bool,
    pub offsets_verified: bool,
    pub padding_zeroed: bool,
    pub target_span_verified: bool,
    pub target_region_write_readback_verified: bool,
    pub inspection_verified: bool,
    pub status: &'static str,
    pub reason: &'static str,
}

/// The inspected span is the planned target span of the rollback target
/// region, inside the device and clear of boot metadata and scratch.
pub open spec fn inspected_span_verified(
    sector_plan: RollbackAppendSectorPlanDryRun,
    target_region_write: RollbackTargetRegionWriteReadbackDryRun,
    ids: ControllerIds,
    e: TargetSectorInspectionEvidence,
) -> bool {
    &&& sector_plan.target_range_ready
    &&& e.region_id.spec_bytes() == ids.audit_rollback_target_region_id.spec_bytes()
    &&& e.inspection_id.spec_bytes() == ids.target_sector_inspection_id.spec_bytes()
    &&& e.target_lba == target_region_write.target_start_lba
    &&& e.byte_count == target_region_write.target_byte_count
    &&& e.region_within_device_bounds
    &&& e.no_boot_or_partition_metadata_overlap
    &&& !e.scratch_region_overlap
}

/// The sector read back is the planned sector image.
pub open spec fn inspected_sector_hash_verified(
    sector_plan: RollbackAppendSectorPlanDryRun,
    e: TargetSectorInspectionEvidence,
) -> bool {
    &&& e.read_matches_expected_image
    &&& e.expected_sector_image_hash@ == sector_plan.sector_image_hash@
    &&& e.sector_image_hash@ == sector_plan.sector_image_hash@
}

/// The planned offsets put the audit record first, the rollback
/// transaction record right after it and the padding after both, filling
/// the target span.
pub open spec fn inspected_offsets_verified(
    append_record: RollbackAppendRecordDryRun,
    sector_plan: RollbackAppendSectorPlanDryRun,
    e: TargetSectorInspectionEvidence,
) -> bool {
    &&& e.offsets_within_sector
    &&& sector_plan.audit_record_offset == 0
    &&& sector_plan.audit_record_byte_length == append_record.audit_record_byte_length
    &&& sector_plan.rollback_transaction_offset == append_record.audit_record_byte_length
    &&& sector_plan.rollback_transaction_byte_length == append_record.rollback_transaction_byte_length
    &&& sector_plan.padding_offset == append_record.total_record_byte_length
    &&& sector_plan.padding_byte_length == (if sector_plan.target_byte_count
        >= append_record.total_record_byte_length {
        sector_plan.target_byte_count - append_record.total_record_byte_length
    } else {
        0
    })
}

/// The earlier target region write was read back equal to its plan, and
/// the inspection saw the same planned and read-back images.
pub open spec fn inspected_write_readback_verified(
    target_region_write: RollbackTargetRegionWriteReadbackDryRun,
    e: TargetSectorInspectionEvidence,
) -> bool {
    &&& target_region_write.test_infrastructure_media_write_authority_available
    &&& target_region_write.readback_matches_planned_image
    &&& target_region_write.readback_sector_image_hash@ == e.sector_image_hash@
    &&& target_region_write.planned_sector_image_hash@ == e.expected_sector_image_hash@
}

/// The target sector inspection's canonical lines.
pub open spec fn sector_inspection_stream(r: RollbackTargetRegionSectorInspection) -> Seq<u8> {
    line_str("schema", HELLO_ROLLBACK_TARGET_REGION_SECTOR_INSPECTION_SCHEMA)
        + line_str("id", HELLO_ROLLBACK_TARGET_REGION_SECTOR_INSPECTION_ID)
        + line_str("scope", "current_boot")
        + line_str("classification", "local_only")
        + line_str("persistence", "none")
        + line_str("status", r.status)
        + line_str("reason", r.reason)
        + line_hash("source_sector_plan_sha256", r.source_sector_plan_hash@)
        + line_hash("source_target_region_write_readback_sha256",
            r.source_target_region_write_readback_hash@,
        )
        + line_hash("expected_sector_image_sha256", r.expected_sector_image_hash@)
        + line_hash("sector_image_sha256", r.sector_image_hash@)
        + line_hash("audit_record_image_sha256", r.audit_record_image_hash@)
        + line_hash("rollback_transaction_image_sha256", r.rollback_transaction_image_hash@)
        + line_u64("target_start_lba", r.target_start_lba)
        + line_u64("target_lba_count", r.target_lba_count)
        + line_u64("target_byte_count", r.target_byte_count)
        + line_u64("audit_record_offset", r.audit_record_offset)
        + line_u64("audit_record_byte_length", r.audit_record_byte_length)
        + line_u64("rollback_transaction_offset", r.rollback_transaction_offset)
        + line_u64("rollback_transaction_byte_length", r.rollback_transaction_byte_length)
        + line_u64("padding_offset", r.padding_offset)
        + line_u64("padding_byte_length", r.padding_byte_length)
        + line_bool("label_found", r.label_found)
        + line_bool("target_region_read_attempted", r.read_attempted)
        + line_bool("target_region_read_completed", r.read_completed)
        + line_bool("sector_hash_verified", r.sector_hash_verified)
        + line_bool("audit_record_hash_verified", r.audit_record_hash_verified)
        + line_bool("rollback_transaction_hash_verified", r.rollback_transaction_hash_verified)
        + line_bool("offsets_verified", r.offsets_verified)
        + line_bool("padding_zeroed", r.padding_zeroed)
        + line_bool("target_span_verified", r.target_span_verified)
        + line_bool("target_region_write_readback_verified",
            r.target_region_write_readback_verified,
        )
        + line_bool("inspection_verified", r.inspection_verified)
        + line_bool("authorizes_media_write", false)
        + line_bool("authorizes_append", false)
        + line_bool("writes_durable_audit_log", false)
        + line_bool("writes_rollback_store", false)
        + line_bool("appends_rollback_transaction", false)
        + line_bool("installs_rollback_state", false)
}

/// `r` is the inspection built from the controller's evidence, or from its
/// absence with `missing_reason`.
pub open spec fn is_sector_inspection_for(
    r: RollbackTargetRegionSectorInspection,
    append_record: RollbackAppendRecordDryRun,
    sector_plan: RollbackAppendSectorPlanDryRun,
    target_region_write: RollbackTargetRegionWriteReadbackDryRun,
    evidence: Option<TargetSectorInspectionEvidence>,
    missing_reason: &'static str,
    ids: ControllerIds,
) -> bool {
    &&& match evidence {
        Some(e) => {
            &&& r.expected_sector_image_hash@ == e.expected_sector_image_hash@
            &&& r.sector_image_hash@ == e.sector_image_hash@
            &&& r.audit_record_image_hash@ == e.audit_record_image_hash@
            &&& r.rollback_transaction_image_hash@ == e.rollback_transaction_image_hash@
            &&& r.label_found == e.label_found
            &&& r.read_attempted == e.read_attempted
            &&& r.read_completed == e.read_completed
            &&& r.sector_hash_verified == inspected_sector_hash_verified(sector_plan, e)
            &&& r.audit_record_hash_verified == (e.audit_record_image_hash@
                == append_record.audit_record_image_hash@)
            &&& r.rollback_transaction_hash_verified == (e.rollback_transaction_image_hash@
                == append_record.rollback_transaction_image_hash@)
            &&& r.offsets_verified == inspected_offsets_verified(append_record, sector_plan, e)
            &&& r.padding_zeroed == e.padding_zeroed
            &&& r.target_span_verified == inspected_span_verified(
                sector_plan,
                target_region_write,
                ids,
                e,
            )
            &&& r.target_region_write_readback_verified == inspected_write_readback_verified(
                target_region_write,
                e,
            )
            &&& r.inspection_verified == (e.available && r.target_span_verified
                && r.target_region_write_readback_verified && r.sector_hash_verified
                && r.audit_record_hash_verified && r.rollback_transaction_hash_verified
                && r.offsets_verified && e.padding_zeroed)
            &&& r.status == (if r.inspection_verified {
                HELLO_ROLLBACK_TARGET_REGION_SECTOR_INSPECTION_STATUS
            } else {
                "missing"
            })
            &&& r.reason == (if r.inspection_verified {
                HELLO_ROLLBACK_TARGET_REGION_SECTOR_INSPECTION_REASON
            } else {
                e.reason
            })
        },
        None => {
            &&& r.expected_sector_image_hash@ == sector_plan.sector_image_hash@
            &&& r.sector_image_hash@ == Seq::new(32, |_i: int| 0u8)
            &&& r.audit_record_image_hash@ == Seq::new(32, |_i: int| 0u8)
            &&& r.rollback_transaction_image_hash@ == Seq::new(32, |_i: int| 0u8)
            &&& !r.label_found
            &&& !r.read_attempted
            &&& !r.read_completed
            &&& !r.sector_hash_verified
            &&& !r.audit_record_hash_verified
            &&& !r.rollback_transaction_hash_verified
            &&& !r.offsets_verified
            &&& !r.padding_zeroed
            &&& !r.target_span_verified
            &&& !r.target_region_write_readback_verified
            &&& !r.inspection_verified
            &&& r.status == "missing"
            &&& r.reason == missing_reason
        },
    }
    &&& r.source_sector_plan_hash@ == sector_plan.plan_hash@
    &&& r.source_target_region_write_readback_hash@ == target_region_write.dry_run_hash@
    &&& r.target_start_lba == target_region_write.target_start_lba
    &&& r.target_lba_count == target_region_write.target_lba_count
    &&& r.target_byte_count == target_region_write.target_byte_count
    &&& r.audit_record_offset == sector_plan.audit_record_offset
    &&& r.audit_record_byte_length == sector_plan.audit_record_byte_length
    &&& r.rollback_transaction_offset == sector_plan.rollback_transaction_offset
    &&& r.rollback_transaction_byte_length == sector_plan.rollback_transaction_byte_length
    &&& r.padding_offset == sector_plan.padding_offset
    &&& r.padding_byte_length == sector_plan.padding_byte_length
    &&& r.inspection_hash@ == sha256_digest(sector_inspection_stream(r))
}

/// Builds the target sector inspection from what the storage controller
/// read back. The inspection is verified only when the span, the earlier
/// write, the sector and record digests and the offsets all check out and
/// the padding is zero.
pub fn hello_rollback_target_region_sector_inspection_from_evidence(
    append_record: RollbackAppendRecordDryRun,
    sector_plan: RollbackAppendSectorPlanDryRun,
    target_region_write: RollbackTargetRegionWriteReadbackDryRun,
    evidence: Option<TargetSectorInspectionEvidence>,
    missing_reason: &'static str,
    ids: ControllerIds,
) -> (inspection: RollbackTargetRegionSectorInspection)
    ensures
        is_sector_inspection_for(
            inspection,
            append_record,
            sector_plan,
            target_region_write,
            evidence,
            missing_reason,
            ids,
        ),
{
    let (
        expected_sector_image_hash,
        sector_image_hash,
        audit_record_image_hash,
        rollback_transaction_image_hash,
        label_found,
        read_attempted,
        read_completed,
        sector_hash_verified,
        audit_record_hash_verified,
        rollback_transaction_hash_verified,
        offsets_verified,
        padding_zeroed,
        target_span_verified,
        target_region_write_readback_verified,
        inspection_verified,
        status,
        reason,
    ) = match evidence {
        Some(evidence) => {
            let target_span_verified = sector_plan.target_range_ready && text_eq(
                evidence.region_id,
                ids.audit_rollback_target_region_id,
            ) && text_eq(evidence.inspection_id, ids.target_sector_inspection_id)
                && evidence.target_lba == target_region_write.target_start_lba
                && evidence.byte_count as u64 == target_region_write.target_byte_count
                && evidence.region_within_device_bounds
                && evidence.no_boot_or_partition_metadata_overlap
                && !evidence.scratch_region_overlap;
            let sector_hash_verified = evidence.read_matches_expected_image && digest_eq(
                &evidence.expected_sector_image_hash,
                &sector_plan.sector_image_hash,
            ) && digest_eq(&evidence.sector_image_hash, &sector_plan.sector_image_hash);
            let audit_record_hash_verified = digest_eq(
                &evidence.audit_record_image_hash,
                &append_record.audit_record_image_hash,
            );
            let rollback_transaction_hash_verified = digest_eq(
                &evidence.rollback_transaction_image_hash,
                &append_record.rollback_transaction_image_hash,
            );
            let offsets_verified = evidence.offsets_within_sector && sector_plan.audit_record_offset
                == 0 && sector_plan.audit_record_byte_length
                == append_record.audit_record_byte_length && sector_plan.rollback_transaction_offset
                == append_record.audit_record_byte_length
                && sector_plan.rollback_transaction_byte_length
                == append_record.rollback_transaction_byte_length && sector_plan.padding_offset
                == append_record.total_record_byte_length && sector_plan.padding_byte_length
                == sector_plan.target_byte_count.saturating_sub(
                append_record.total_record_byte_length,
            );
            let target_region_write_readback_verified =
                target_region_write.test_infrastructure_media_write_authority_available
                && target_region_write.readback_matches_planned_image && digest_eq(
                &target_region_write.readback_sector_image_hash,
                &evidence.sector_image_hash,
            ) && digest_eq(
                &target_region_write.planned_sector_image_hash,
                &evidence.expected_sector_image_hash,
            );
            let inspection_verified = evidence.available && target_span_verified
                && target_region_write_readback_verified && sector_hash_verified
                && audit_record_hash_verified && rollback_transaction_hash_verified
                && offsets_verified && evidence.padding_zeroed;
            (
                evidence.expected_sector_image_hash,
                evidence.sector_image_hash,
                evidence.audit_record_image_hash,
                evidence.rollback_transaction_image_hash,
                evidence.label_found,
                evidence.read_attempted,
                evidence.read_completed,
                sector_hash_verified,
                audit_record_hash_verified,
                rollback_transaction_hash_verified,
                offsets_verified,
                evidence.padding_zeroed,
                target_span_verified,
                target_region_write_readback_verified,
                inspection_verified,
                if inspection_verified {
                    HELLO_ROLLBACK_TARGET_REGION_SECTOR_INSPECTION_STATUS
                } else {
                    "missing"
                },
                if inspection_verified {
                    HELLO_ROLLBACK_TARGET_REGION_SECTOR_INSPECTION_REASON
                } else {
                    evidence.reason
                },
            )
        },
        None => (
            sector_plan.sector_image_hash,
            [0u8; 32],
            [0u8; 32],
            [0u8; 32],
            false,
            false,
            false,
            false,
            false,
            false,
            false,
            false,
            false,
            false,
            false,
            "missing",
            missing_reason,
        ),
    };
    proof {
        if evidence is None {
            assert(sector_image_hash@ =~= Seq::new(32, |_i: int| 0u8));
            assert(audit_record_image_hash@ =~= Seq::new(32, |_i: int| 0u8));
            assert(rollback_transaction_image_hash@ =~= Seq::new(32, |_i: int| 0u8));
        }
    }
    let mut hash = sha256_new();
    hash_line_str(&mut hash, "schema", HELLO_ROLLBACK_TARGET_REGION_SECTOR_INSPECTION_SCHEMA);
    assert(sha256_absorbed(hash) =~= line_str("schema",
        HELLO_ROLLBACK_TARGET_REGION_SECTOR_INSPECTION_SCHEMA));
    hash_line_str(&mut hash, "id", HELLO_ROLLBACK_TARGET_REGION_SECTOR_INSPECTION_ID);
    hash_line_str(&mut hash, "scope", "current_boot");
    hash_line_str(&mut hash, "classification", "local_only");
    hash_line_str(&mut hash, "persistence", "none");
    hash_line_str(&mut hash, "status", status);
    hash_line_str(&mut hash, "reason", reason);
    hash_line_hash(&mut hash, "source_sector_plan_sha256", sector_plan.plan_hash);
    hash_line_hash(&mut hash, "source_target_region_write_readback_sha256",
        target_region_write.dry_run_hash,
    );
    hash_line_hash(&mut hash, "expected_sector_image_sha256", expected_sector_image_hash);
    hash_line_hash(&mut hash, "sector_image_sha256", sector_image_hash);
    hash_line_hash(&mut hash, "audit_record_image_sha256", audit_record_image_hash);
    hash_line_hash(&mut hash, "rollback_transaction_image_sha256", rollback_transaction_image_hash);
    hash_line_u64(&mut hash, "target_start_lba", target_region_write.target_start_lba);
    hash_line_u64(&mut hash, "target_lba_count", target_region_write.target_lba_count);
    hash_line_u64(&mut hash, "target_byte_count", target_region_write.target_byte_count);
    hash_line_u64(&mut hash, "audit_record_offset", sector_plan.audit_record_offset);
    hash_line_u64(&mut hash, "audit_record_byte_length", sector_plan.audit_record_byte_length);
    hash_line_u64(&mut hash, "rollback_transaction_offset",
        sector_plan.rollback_transaction_offset,
    );
    hash_line_u64(&mut hash, "rollback_transaction_byte_length",
        sector_plan.rollback_transaction_byte_length,
    );
    hash_line_u64(&mut hash, "padding_offset", sector_plan.padding_offset);
    hash_line_u64(&mut hash, "padding_byte_length", sector_plan.padding_byte_length);
    hash_line_bool(&mut hash, "label_found", label_found);
    hash_line_bool(&mut hash, "target_region_read_attempted", read_attempted);
    hash_line_bool(&mut hash, "target_region_read_completed", read_completed);
    hash_line_bool(&mut hash, "sector_hash_verified", sector_hash_verified);
    hash_line_bool(&mut hash, "audit_record_hash_verified", audit_record_hash_verified);
    hash_line_bool(&mut hash, "rollback_transaction_hash_verified",
        rollback_transaction_hash_verified,
    );
    hash_line_bool(&mut hash, "offsets_verified", offsets_verified);
    hash_line_bool(&mut hash, "padding_zeroed", padding_zeroed);
    hash_line_bool(&mut hash, "target_span_verified", target_span_verified);
    hash_line_bool(&mut hash, "target_region_write_readback_verified",
        target_region_write_readback_verified,
    );
    hash_line_bool(&mut hash, "inspection_verified", inspection_verified);
    hash_line_bool(&mut hash, "authorizes_media_write", false);
    hash_line_bool(&mut hash, "authorizes_append", false);
    hash_line_bool(&mut hash, "writes_durable_audit_log", false);
    hash_line_bool(&mut hash, "writes_rollback_store", false);
    hash_line_bool(&mut hash, "appends_rollback_transaction", false);
    hash_line_bool(&mut hash, "installs_rollback_state", false);
    RollbackTargetRegionSectorInspection {
        inspection_hash: finalize_sha256(hash),
        source_sector_plan_hash: sector_plan.plan_hash,
        source_target_region_write_readback_hash: target_region_write.dry_run_hash,
        expected_sector_image_hash,
        sector_image_hash,
        audit_record_image_hash,
        rollback_transaction_image_hash,
        target_start_lba: target_region_write.target_start_lba,
        target_lba_count: target_region_write.target_lba_count,
        target_byte_count: target_region_write.target_byte_count,
        audit_record_offset: sector_plan.audit_record_offset,
        audit_record_byte_length: sector_plan.audit_record_byte_length,
        rollback_transaction_offset: sector_plan.rollback_transaction_offset,
        rollback_transaction_byte_length: sector_plan.rollback_transaction_byte_length,
        padding_offset: sector_plan.padding_offset,
        padding_byte_length: sector_plan.padding_byte_length,
        label_found,
        read_attempted,
        read_completed,
        sector_hash_verified,
        audit_record_hash_verified,
        rollback_transaction_hash_verified,
        offsets_verified,
        padding_zeroed,
        target_span_verified,
        target_region_write_readback_verified,
        inspection_verified,
        status,
        reason,
    }
}

/// The target sector inspection from the inspection that a recovery
/// inspect left: missing, with the inspect's reason, when it left none.
pub fn hello_rollback_target_region_sector_inspection_from_retained_inspect(
    append_record: RollbackAppendRecordDryRun,
    sector_plan: RollbackAppendSectorPlanDryRun,
    target_region_write: RollbackTargetRegionWriteReadbackDryRun,
    retained: Option<TargetSectorInspectionEvidence>,
    ids: ControllerIds,
) -> (inspection: RollbackTargetRegionSectorInspection)
    ensures
        is_sector_inspection_for(
            inspection,
            append_record,
            sector_plan,
            target_region_write,
            retained,
            HELLO_ROLLBACK_TARGET_REGION_INSPECTION_MISSING_REASON,
            ids,
        ),
{
    hello_rollback_target_region_sector_inspection_from_evidence(
        append_record,
        sector_plan,
        target_region_write,
        retained,
        HELLO_ROLLBACK_TARGET_REGION_INSPECTION_MISSING_REASON,
        ids,
    )
}

/// A verified inspection read back the sector the plan laid out: the sector
/// whose digest it saw is the zeroed sector with both record images laid in
/// from its start, and the two record digests it saw are those of the audit
/// record image and of the rollback transaction record image.
pub proof fn lemma_verified_inspection_reads_the_planned_sector(
    inspection: RollbackTargetRegionSectorInspection,
    layout: StorageLayoutIds,
    sources: AppendRecordSources,
    foundation: RollbackWriterStorageFoundation,
    append_record: RollbackAppendRecordDryRun,
    sector_plan: RollbackAppendSectorPlanDryRun,
    target_region_write: RollbackTargetRegionWriteReadbackDryRun,
    evidence: Option<TargetSectorInspectionEvidence>,
    missing_reason: &'static str,
    ids: ControllerIds,
)
    requires
        is_append_record_dry_run_for(append_record, layout, sources, foundation),
        is_sector_plan_for(sector_plan, layout, sources, append_record),
        is_sector_inspection_for(
            inspection,
            append_record,
            sector_plan,
            target_region_write,
            evidence,
            missing_reason,
            ids,
        ),
        inspection.inspection_verified,
    ensures
        evidence is Some,
        inspection.sector_image_hash@ == sha256_digest(
            lay_bytes(zero_sector(), 0, append_sector_stream(layout, sources)),
        ),
        inspection.audit_record_image_hash@ == sha256_digest(audit_record_stream(layout, sources)),
        inspection.rollback_transaction_image_hash@ == sha256_digest(
            transaction_record_stream(layout, sources),
        ),
        inspection.audit_record_offset == 0,
        inspection.rollback_transaction_offset == append_record.audit_record_byte_length,
        inspection.padding_offset == append_record.total_record_byte_length,
{
}


/// A sector inspection's span is verified only for evidence of the planned
/// target span inside the device and clear of boot and partition metadata
/// and of the scratch region; the inspection is verified only when, beyond
/// that, the evidence is available, the sector and both records read back
/// as planned, the offsets fit and the padding is zero. Evidence reporting a
/// scratch overlap is never verified.
pub proof fn lemma_inspection_verified_needs_clean_evidence(
    r: RollbackTargetRegionSectorInspection,
    append_record: RollbackAppendRecordDryRun,
    sector_plan: RollbackAppendSectorPlanDryRun,
    target_region_write: RollbackTargetRegionWriteReadbackDryRun,
    evidence: Option<TargetSectorInspectionEvidence>,
    missing_reason: &'static str,
    ids: ControllerIds,
)
    requires
        is_sector_inspection_for(
            r,
            append_record,
            sector_plan,
            target_region_write,
            evidence,
            missing_reason,
            ids,
        ),
    ensures
        r.target_span_verified ==> {
            &&& evidence matches Some(e)
            &&& !e.scratch_region_overlap
            &&& e.no_boot_or_partition_metadata_overlap
            &&& e.region_within_device_bounds
            &&& e.region_id.spec_bytes() == ids.audit_rollback_target_region_id.spec_bytes()
            &&& e.inspection_id.spec_bytes() == ids.target_sector_inspection_id.spec_bytes()
            &&& e.target_lba == target_region_write.target_start_lba
            &&& e.byte_count == target_region_write.target_byte_count
            &&& sector_plan.target_range_ready
        },
        r.inspection_verified ==> {
            &&& r.target_span_verified
            &&& evidence matches Some(e)
            &&& e.available
            &&& e.padding_zeroed
            &&& e.read_matches_expected_image
            &&& e.sector_image_hash@ == sector_plan.sector_image_hash@
            &&& e.audit_record_image_hash@ == append_record.audit_record_image_hash@
            &&& e.rollback_transaction_image_hash@ == append_record.rollback_transaction_image_hash@
            &&& target_region_write.readback_matches_planned_image
        },
        evidence matches Some(e) ==> (e.scratch_region_overlap ==> {
            &&& !r.target_span_verified
            &&& !r.inspection_verified
            &&& r.status == "missing"
            &&& r.reason == e.reason
        }),
        evidence is None ==> !r.inspection_verified && r.status == "missing" && r.reason
            == missing_reason,
{
}

} // verus!
