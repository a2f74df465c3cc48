//! The retained recovery rollback inspect source: a reference to a verified
//! target sector inspection that the RAM audit log recorded, and the state
//! in which a later rollback apply finds it.

use vstd::prelude::*;
use crate::canonical::{
    finalize_sha256, hash_line_bool, hash_line_hash, hash_line_str, hash_line_u64, line_bool,
    line_hash, line_str, line_u64,
};
use crate::compare::digest_eq;
use crate::constants::{
    HELLO_RECOVERY_ROLLBACK_INSPECT_SOURCE_REFERENCE_ID,
    HELLO_RECOVERY_ROLLBACK_INSPECT_SOURCE_REFERENCE_MISSING_REASON,
    HELLO_RECOVERY_ROLLBACK_INSPECT_SOURCE_REFERENCE_REASON,
    HELLO_RECOVERY_ROLLBACK_INSPECT_SOURCE_REFERENCE_SCHEMA,
    HELLO_RECOVERY_ROLLBACK_INSPECT_SOURCE_REFERENCE_STATUS,
};
use crate::sector_inspection::RollbackTargetRegionSectorInspection;
use crate::sha256::{sha256_absorbed, sha256_digest, sha256_new};

verus! {

/// A retained reference to a verified target sector inspection. Event log
/// entries are named by their sequence numbers.
#[derive(Clone, Copy)]
pub struct RecoveryRollbackInspectSourceReference {
    pub audit_event_sequence: u64,
    pub event_sequence: u64,
    pub reference_hash: [u8; 32],
    pub inspection_hash: [u8; 32],
    pub source_sector_plan_hash: [u8; 32],
    pub source_target_region_write_readback_hash: [u8; 32],
}

/// What the RAM audit log records of a retained reference, and checks it
/// against later.
#[derive(Clone, Copy)]
pub struct InspectSourceReferenceBinding {
    pub source_event_sequence: u64,
    pub reference_hash: [u8; 32],
    pub inspection_hash: [u8; 32],
    pub source_sector_plan_hash: [u8; 32],
    pub source_target_region_write_readback_hash: [u8; 32],
    pub authorizes_rollback_apply: bool,
}

/// What the RAM audit log reports when it checks a binding.
#[derive(Clone, Copy)]
pub struct InspectSourceReferenceCheck {
    pub validated: bool,
    pub status: &'static str,
    pub reason: &'static str,
    pub source_event_retained: bool,
    pub audit_event_retained: bool,
}

/// The state of the retained inspect source as a rollback apply sees it.
#[derive(Clone, Copy)]
pub struct RecoveryRollbackInspectSourceReferenceState {
    pub reference: Option<RecoveryRollbackInspectSourceReference>,
    pub status: &'static str,
    pub reason: &'static str,
    pub ram_audit_status: &'static str,
    pub ram_audit_reason: &'static str,
    pub source_event_retained: bool,
    pub audit_event_retained: bool,
    pub ram_audit_validated: bool,
}

/// The canonical lines of an inspect source reference.
pub open spec fn inspect_source_reference_stream(
    event_sequence: u64,
    inspection: RollbackTargetRegionSectorInspection,
) -> Seq<u8> {
    line_str("schema", HELLO_RECOVERY_ROLLBACK_INSPECT_SOURCE_REFERENCE_SCHEMA)
        + line_str("id", HELLO_RECOVERY_ROLLBACK_INSPECT_SOURCE_REFERENCE_ID)
        + line_str("scope", "current_boot")
        + line_str("classification", "local_only")
        + line_str("persistence", "none")
        + line_str("source_method", "recovery.rollback_inspect")
        + line_u64("source_event_sequence", event_sequence)
        + line_hash("sector_inspection_sha256", inspection.inspection_hash@)
        + line_hash("source_sector_plan_sha256", inspection.source_sector_plan_hash@)
        + line_hash(
            "source_target_region_write_readback_sha256",
            inspection.source_target_region_write_readback_hash@,
        )
        + line_bool("sector_inspection_verified", inspection.inspection_verified)
        + line_bool("authorizes_rollback_apply", false)
}

/// The digest of the reference that the inspect event `event_sequence`
/// leaves for `inspection`.
pub fn recovery_rollback_inspect_source_reference_hash(
    event_sequence: u64,
    inspection: RollbackTargetRegionSectorInspection,
) -> (digest: [u8; 32])
    ensures
        digest@ == sha256_digest(inspect_source_reference_stream(event_sequence, inspection)),
{
    let mut hash = sha256_new();
    hash_line_str(&mut hash, "schema", HELLO_RECOVERY_ROLLBACK_INSPECT_SOURCE_REFERENCE_SCHEMA);
    assert(sha256_absorbed(hash) =~= line_str(
        "schema",
        HELLO_RECOVERY_ROLLBACK_INSPECT_SOURCE_REFERENCE_SCHEMA,
    ));
    hash_line_str(&mut hash, "id", HELLO_RECOVERY_ROLLBACK_INSPECT_SOURCE_REFERENCE_ID);
    hash_line_str(&mut hash, "scope", "current_boot");
    hash_line_str(&mut hash, "classification", "local_only");
    hash_line_str(&mut hash, "persistence", "none");
    hash_line_str(&mut hash, "source_method", "recovery.rollback_inspect");
    hash_line_u64(&mut hash, "source_event_sequence", event_sequence);
    hash_line_hash(&mut hash, "sector_inspection_sha256", inspection.inspection_hash);
    hash_line_hash(&mut hash, "source_sector_plan_sha256", inspection.source_sector_plan_hash);
    hash_line_hash(
        &mut hash,
        "source_target_region_write_readback_sha256",
        inspection.source_target_region_write_readback_hash,
    );
    hash_line_bool(&mut hash, "sector_inspection_verified", inspection.inspection_verified);
    hash_line_bool(&mut hash, "authorizes_rollback_apply", false);
    finalize_sha256(hash)
}

/// What the RAM audit log is to record when the inspect event
/// `event_sequence` produced `inspection`: nothing unless the inspection was
/// verified, and else the reference digest with the digests it binds. The
/// binding never authorizes a rollback apply.
pub fn recovery_rollback_inspect_source_retention(
    event_sequence: u64,
    inspection: RollbackTargetRegionSectorInspection,
) -> (binding: Option<InspectSourceReferenceBinding>)
    ensures
        binding is None <==> !inspection.inspection_verified,
        binding matches Some(b) ==> {
            &&& b.source_event_sequence == event_sequence
            &&& b.reference_hash@ == sha256_digest(
                inspect_source_reference_stream(event_sequence, inspection),
            )
            &&& b.inspection_hash == inspection.inspection_hash
            &&& b.source_sector_plan_hash == inspection.source_sector_plan_hash
            &&& b.source_target_region_write_readback_hash
                == inspection.source_target_region_write_readback_hash
            &&& !b.authorizes_rollback_apply
        },
{
    if !inspection.inspection_verified {
        return None;
    }
    let reference_hash = recovery_rollback_inspect_source_reference_hash(event_sequence, inspection);
    Some(
        InspectSourceReferenceBinding {
            source_event_sequence: event_sequence,
            reference_hash,
            inspection_hash: inspection.inspection_hash,
            source_sector_plan_hash: inspection.source_sector_plan_hash,
            source_target_region_write_readback_hash: inspection.source_target_region_write_readback_hash,
            authorizes_rollback_apply: false,
        },
    )
}

/// The retained reference still names `inspection`, and the inspection is
/// verified.
pub open spec fn reference_matches_inspection(
    reference: RecoveryRollbackInspectSourceReference,
    inspection: RollbackTargetRegionSectorInspection,
) -> bool {
    &&& inspection.inspection_verified
    &&& reference.inspection_hash@ == inspection.inspection_hash@
    &&& reference.source_sector_plan_hash@ == inspection.source_sector_plan_hash@
    &&& reference.source_target_region_write_readback_hash@
        == inspection.source_target_region_write_readback_hash@
}

/// The state of the retained inspect source: missing when nothing was
/// retained; rejected when the retained reference no longer names the
/// verified inspection; otherwise as the RAM audit log's `check` of the
/// reference reports, validated only when the check validated it.
pub open spec fn inspect_source_state(
    inspection: RollbackTargetRegionSectorInspection,
    retained: Option<RecoveryRollbackInspectSourceReference>,
    check: InspectSourceReferenceCheck,
) -> RecoveryRollbackInspectSourceReferenceState {
    match retained {
        None => RecoveryRollbackInspectSourceReferenceState {
            reference: None,
            status: "missing",
            reason: HELLO_RECOVERY_ROLLBACK_INSPECT_SOURCE_REFERENCE_MISSING_REASON,
            ram_audit_status: "missing",
            ram_audit_reason: HELLO_RECOVERY_ROLLBACK_INSPECT_SOURCE_REFERENCE_MISSING_REASON,
            source_event_retained: false,
            audit_event_retained: false,
            ram_audit_validated: false,
        },
        Some(reference) => if !reference_matches_inspection(reference, inspection) {
            RecoveryRollbackInspectSourceReferenceState {
                reference: Some(reference),
                status: "rejected",
                reason: "recovery_rollback_inspect_source_mismatched_sector_inspection",
                ram_audit_status: "rejected",
                ram_audit_reason: "recovery_rollback_inspect_source_mismatched_sector_inspection",
                source_event_retained: false,
                audit_event_retained: false,
                ram_audit_validated: false,
            }
        } else if check.validated {
            RecoveryRollbackInspectSourceReferenceState {
                reference: Some(reference),
                status: HELLO_RECOVERY_ROLLBACK_INSPECT_SOURCE_REFERENCE_STATUS,
                reason: HELLO_RECOVERY_ROLLBACK_INSPECT_SOURCE_REFERENCE_REASON,
                ram_audit_status: check.status,
                ram_audit_reason: check.reason,
                source_event_retained: check.source_event_retained,
                audit_event_retained: check.audit_event_retained,
                ram_audit_validated: true,
            }
        } else {
            RecoveryRollbackInspectSourceReferenceState {
                reference: Some(reference),
                status: "rejected",
                reason: check.reason,
                ram_audit_status: check.status,
                ram_audit_reason: check.reason,
                source_event_retained: check.source_event_retained,
                audit_event_retained: check.audit_event_retained,
                ram_audit_validated: false,
            }
        },
    }
}

/// What the RAM audit log is asked to check of a retained reference.
pub open spec fn reference_binding(
    reference: RecoveryRollbackInspectSourceReference,
) -> InspectSourceReferenceBinding {
    InspectSourceReferenceBinding {
        source_event_sequence: reference.event_sequence,
        reference_hash: reference.reference_hash,
        inspection_hash: reference.inspection_hash,
        source_sector_plan_hash: reference.source_sector_plan_hash,
        source_target_region_write_readback_hash: reference.source_target_region_write_readback_hash,
        authorizes_rollback_apply: false,
    }
}

/// The binding under which the RAM audit log recorded `reference`, to be
/// checked against its entry.
pub fn recovery_rollback_inspect_source_reference_binding(
    reference: RecoveryRollbackInspectSourceReference,
) -> (binding: InspectSourceReferenceBinding)
    ensures
        binding == reference_binding(reference),
{
    InspectSourceReferenceBinding {
        source_event_sequence: reference.event_sequence,
        reference_hash: reference.reference_hash,
        inspection_hash: reference.inspection_hash,
        source_sector_plan_hash: reference.source_sector_plan_hash,
        source_target_region_write_readback_hash: reference.source_target_region_write_readback_hash,
        authorizes_rollback_apply: false,
    }
}

/// The state of the retained inspect source for `inspection`. `check` is
/// what the RAM audit log reported for the retained reference's binding; it
/// is read only when a reference was retained and still names the verified
/// inspection.
pub fn recovery_rollback_inspect_source_reference_state(
    inspection: RollbackTargetRegionSectorInspection,
    retained: Option<RecoveryRollbackInspectSourceReference>,
    check: InspectSourceReferenceCheck,
) -> (state: RecoveryRollbackInspectSourceReferenceState)
    ensures
        state == inspect_source_state(inspection, retained, check),
{
    let reference = match retained {
        None => {
            return RecoveryRollbackInspectSourceReferenceState {
                reference: None,
                status: "missing",
                reason: HELLO_RECOVERY_ROLLBACK_INSPECT_SOURCE_REFERENCE_MISSING_REASON,
                ram_audit_status: "missing",
                ram_audit_reason: HELLO_RECOVERY_ROLLBACK_INSPECT_SOURCE_REFERENCE_MISSING_REASON,
                source_event_retained: false,
                audit_event_retained: false,
                ram_audit_validated: false,
            };
        },
        Some(reference) => reference,
    };
    if !inspection.inspection_verified || !digest_eq(
        &reference.inspection_hash,
        &inspection.inspection_hash,
    ) || !digest_eq(&reference.source_sector_plan_hash, &inspection.source_sector_plan_hash)
        || !digest_eq(
        &reference.source_target_region_write_readback_hash,
        &inspection.source_target_region_write_readback_hash,
    ) {
        return RecoveryRollbackInspectSourceReferenceState {
            reference: Some(reference),
            status: "rejected",
            reason: "recovery_rollback_inspect_source_mismatched_sector_inspection",
            ram_audit_status: "rejected",
            ram_audit_reason: "recovery_rollback_inspect_source_mismatched_sector_inspection",
            source_event_retained: false,
            audit_event_retained: false,
            ram_audit_validated: false,
        };
    }
    if check.validated {
        RecoveryRollbackInspectSourceReferenceState {
            reference: Some(reference),
            status: HELLO_RECOVERY_ROLLBACK_INSPECT_SOURCE_REFERENCE_STATUS,
            reason: HELLO_RECOVERY_ROLLBACK_INSPECT_SOURCE_REFERENCE_REASON,
            ram_audit_status: check.status,
            ram_audit_reason: check.reason,
            source_event_retained: check.source_event_retained,
            audit_event_retained: check.audit_event_retained,
            ram_audit_validated: true,
        }
    } else {
        RecoveryRollbackInspectSourceReferenceState {
            reference: Some(reference),
            status: "rejected",
            reason: check.reason,
            ram_audit_status: check.status,
            ram_audit_reason: check.reason,
            source_event_retained: check.source_event_retained,
            audit_event_retained: check.audit_event_retained,
            ram_audit_validated: false,
        }
    }
}

/// A retained inspect source is validated only for a verified inspection
/// that it still names, and only when the RAM audit log validated it.
pub proof fn lemma_validated_source_matches_inspection(
    inspection: RollbackTargetRegionSectorInspection,
    retained: Option<RecoveryRollbackInspectSourceReference>,
    check: InspectSourceReferenceCheck,
)
    ensures
        inspect_source_state(inspection, retained, check).ram_audit_validated ==> {
            &&& retained matches Some(reference)
            &&& reference_matches_inspection(reference, inspection)
            &&& check.validated
        },
        inspect_source_state(inspection, retained, check).reference == retained,
{
}

/// The reference that is retained once the RAM audit log recorded
/// `binding` as its entry `audit_event_sequence`.
pub open spec fn retained_reference(
    audit_event_sequence: u64,
    binding: InspectSourceReferenceBinding,
) -> RecoveryRollbackInspectSourceReference {
    RecoveryRollbackInspectSourceReference {
        audit_event_sequence,
        event_sequence: binding.source_event_sequence,
        reference_hash: binding.reference_hash,
        inspection_hash: binding.inspection_hash,
        source_sector_plan_hash: binding.source_sector_plan_hash,
        source_target_region_write_readback_hash: binding.source_target_region_write_readback_hash,
    }
}

/// The reference to retain once the RAM audit log recorded `binding` as its
/// entry `audit_event_sequence`.
pub fn recovery_rollback_inspect_source_reference(
    audit_event_sequence: u64,
    binding: InspectSourceReferenceBinding,
) -> (reference: RecoveryRollbackInspectSourceReference)
    ensures
        reference == retained_reference(audit_event_sequence, binding),
{
    RecoveryRollbackInspectSourceReference {
        audit_event_sequence,
        event_sequence: binding.source_event_sequence,
        reference_hash: binding.reference_hash,
        inspection_hash: binding.inspection_hash,
        source_sector_plan_hash: binding.source_sector_plan_hash,
        source_target_region_write_readback_hash: binding.source_target_region_write_readback_hash,
    }
}

/// What is retained for a verified inspection is found again for that
/// inspection: looked up later, it is never rejected as naming another
/// inspection, the binding checked against the RAM audit log is the one
/// that was recorded, and the state is validated exactly when the log's
/// check validates it.
pub proof fn lemma_retained_reference_round_trip(
    event_sequence: u64,
    audit_event_sequence: u64,
    inspection: RollbackTargetRegionSectorInspection,
    binding: InspectSourceReferenceBinding,
    check: InspectSourceReferenceCheck,
)
    requires
        inspection.inspection_verified,
        binding.source_event_sequence == event_sequence,
        binding.inspection_hash == inspection.inspection_hash,
        binding.source_sector_plan_hash == inspection.source_sector_plan_hash,
        binding.source_target_region_write_readback_hash
            == inspection.source_target_region_write_readback_hash,
        !binding.authorizes_rollback_apply,
    ensures
        reference_matches_inspection(retained_reference(audit_event_sequence, binding), inspection),
        reference_binding(retained_reference(audit_event_sequence, binding)) == binding,
        inspect_source_state(
            inspection,
            Some(retained_reference(audit_event_sequence, binding)),
            check,
        ).ram_audit_validated == check.validated,
        inspect_source_state(
            inspection,
            Some(retained_reference(audit_event_sequence, binding)),
            check,
        ).status == (if check.validated {
            HELLO_RECOVERY_ROLLBACK_INSPECT_SOURCE_REFERENCE_STATUS
        } else {
            "rejected"
        }),
{
}


/// A retained inspect source is validated only when the retained reference
/// names exactly the current verified inspection (its inspection digest,
/// sector plan digest and target write digest all equal the inspection's)
/// and the RAM audit log validated it; a reference naming another
/// inspection digest is rejected as mismatched, whatever the log says.
pub proof fn lemma_validated_source_names_the_inspection(
    inspection: RollbackTargetRegionSectorInspection,
    retained: Option<RecoveryRollbackInspectSourceReference>,
    check: InspectSourceReferenceCheck,
)
    ensures
        inspect_source_state(inspection, retained, check).ram_audit_validated ==> {
            &&& retained matches Some(reference)
            &&& inspection.inspection_verified
            &&& reference.inspection_hash@ == inspection.inspection_hash@
            &&& reference.source_sector_plan_hash@ == inspection.source_sector_plan_hash@
            &&& reference.source_target_region_write_readback_hash@
                == inspection.source_target_region_write_readback_hash@
            &&& check.validated
        },
        retained matches Some(reference) && reference.inspection_hash@ != inspection.inspection_hash@
            ==> {
            &&& !inspect_source_state(inspection, retained, check).ram_audit_validated
            &&& inspect_source_state(inspection, retained, check).status == "rejected"
            &&& inspect_source_state(inspection, retained, check).reason
                == "recovery_rollback_inspect_source_mismatched_sector_inspection"
        },
{
}

} // verus!
