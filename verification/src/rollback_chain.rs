//! The whole denial chain behind a rollback apply: from the append record
//! dry run through the writer policy, the durable append authority and the
//! durable audit policy availability steps to the durable policy write
//! authority decision and the state of the retained inspect source.

use vstd::prelude::*;
use crate::append_plan::{
    AppendRecordSources, RollbackAppendRecordDryRun, RollbackAppendSectorPlanDryRun,
    RollbackAppendSectorWriteReadbackDryRun, ScratchSectorWriteReadbackEvidence,
    audit_record_length, hello_rollback_append_record_dry_run,
    hello_rollback_append_sector_plan_dry_run, hello_rollback_append_sector_write_readback_dry_run,
    is_append_record_dry_run_for, is_sector_plan_for, is_sector_write_for, record_lengths_fit,
    transaction_record_length,
};
use crate::audit_policy::{
    RollbackDurableAppendAuthorityAvailability, RollbackDurableAppendAuthorityAvailabilityDryRun,
    RollbackDurableAuditPolicyAcceptanceGate, RollbackDurableAuditPolicyAvailability,
    RollbackDurableAuditPolicyAvailabilityDryRun, RollbackDurableAuditPolicyCandidate,
    RollbackDurableAuditPolicyLedgerAwareAcceptanceResult, RollbackDurableAuditPolicyLedgerCandidate,
    RollbackDurableAuditPolicyWriteAuthorityAvailability, RollbackDurablePolicyLedgerAvailability,
    RollbackDurablePolicyLedgerAvailabilityDryRun, RollbackDurablePolicyWriteAuthorityDecision,
    RollbackTransactionAppendAuthorityDenialGate, RollbackTransactionAppendAvailabilityDecision,
    RollbackTransactionAppendDryRun, hello_rollback_durable_append_authority_availability,
    hello_rollback_durable_append_authority_availability_dry_run,
    hello_rollback_durable_audit_policy_acceptance_gate,
    hello_rollback_durable_audit_policy_availability,
    hello_rollback_durable_audit_policy_availability_dry_run,
    hello_rollback_durable_audit_policy_candidate,
    hello_rollback_durable_audit_policy_ledger_aware_acceptance_result,
    hello_rollback_durable_audit_policy_ledger_candidate,
    hello_rollback_durable_audit_policy_write_authority_availability,
    hello_rollback_durable_policy_ledger_availability,
    hello_rollback_durable_policy_ledger_availability_dry_run,
    hello_rollback_durable_policy_write_authority_decision,
    hello_rollback_transaction_append_authority_denial_gate,
    hello_rollback_transaction_append_availability_decision,
    hello_rollback_transaction_append_dry_run, is_append_authority_availability_for,
    is_append_authority_dry_run_for, is_append_availability_decision_for,
    is_audit_policy_acceptance_gate_for, is_audit_policy_availability_for,
    is_audit_policy_candidate_for, is_audit_policy_dry_run_for, is_authority_denial_gate_for,
    is_ledger_aware_result_for, is_ledger_candidate_for, is_policy_ledger_availability_for,
    is_policy_ledger_dry_run_for, is_policy_write_authority_decision_for,
    is_transaction_append_dry_run_for, is_write_authority_availability_for,
    lemma_policy_write_authority_withheld, lemma_transaction_append_never_available,
};
use crate::canonical::SECTOR_BYTES;
use crate::constants::{
    HELLO_ROLLBACK_TARGET_REGION_INSPECTION_MISSING_REASON,
    HELLO_ROLLBACK_TARGET_REGION_MATERIALIZER_MISSING_REASON,
};
use crate::foundation::{
    AppendContractIds, ControllerIds, RollbackWriterStorageFoundation, StorageLayoutIds,
};
use crate::inspect_source::{
    InspectSourceReferenceCheck, RecoveryRollbackInspectSourceReference,
    RecoveryRollbackInspectSourceReferenceState, inspect_source_state,
    recovery_rollback_inspect_source_reference_state,
};
use crate::rollback_gate::{
    HelloHotSwapProbationRecord, Snapshot, hello_rollback_apply_denial_hash,
    hello_rollback_transaction_payload_hash, hello_rollback_transaction_payload_provenance_hash,
    rollback_apply_denial_digest, rollback_transaction_payload_digest,
    rollback_transaction_payload_provenance_digest,
};
use crate::sector_inspection::{
    RollbackTargetRegionSectorInspection, TargetSectorInspectionEvidence,
    hello_rollback_target_region_sector_inspection_from_evidence,
    hello_rollback_target_region_sector_inspection_from_retained_inspect, is_sector_inspection_for,
};
use crate::target_region::{
    RollbackTargetRegionWriteReadbackDryRun, TargetRegionMediaWritePolicyPreflight,
    TargetSectorWriteReadbackEvidence, hello_rollback_target_region_write_readback_dry_run_from_evidence,
    hello_rollback_target_region_write_readback_dry_run_from_materializer,
    hello_target_region_media_write_policy_preflight, is_media_write_policy_for,
    is_target_region_write_for,
};
use crate::writer_gate::{
    RollbackAppendEngineReadinessDecision, RollbackDurableAppendAuthorityDecision,
    RollbackDurableAppendAuthorityPreflight, RollbackDurableAppendTransactionAuthorizationGate,
    RollbackDurableAuditPolicyDecision, RollbackDurableWriterPolicyPreflight,
    RollbackMediaWriteAuthorityGate, hello_rollback_append_engine_readiness_decision,
    hello_rollback_durable_append_authority_decision,
    hello_rollback_durable_append_authority_preflight,
    hello_rollback_durable_append_transaction_authorization_gate,
    hello_rollback_durable_audit_policy_decision, hello_rollback_durable_writer_policy_preflight,
    hello_rollback_media_write_authority_gate, is_audit_policy_decision_for,
    is_authorization_gate_for, is_durable_append_decision_for, is_durable_append_preflight_for,
    is_engine_readiness_for, is_media_write_gate_for, is_writer_policy_for,
};

verus! {

/// The digests that a rollback's append records carry, taken from the
/// rollback gates of the hot swap.
pub fn hello_rollback_append_record_sources(
    snapshot: Snapshot,
    probation: HelloHotSwapProbationRecord,
) -> (sources: AppendRecordSources)
    ensures
        sources.payload_hash@ == rollback_transaction_payload_digest(snapshot, probation),
        sources.provenance_hash@ == rollback_transaction_payload_provenance_digest(
            snapshot,
            probation,
        ),
        sources.rollback_apply_hash@ == rollback_apply_denial_digest(snapshot, probation),
{
    AppendRecordSources {
        payload_hash: hello_rollback_transaction_payload_hash(snapshot, probation),
        provenance_hash: hello_rollback_transaction_payload_provenance_hash(snapshot, probation),
        rollback_apply_hash: hello_rollback_apply_denial_hash(snapshot, probation),
    }
}

/// Every record of the denial chain behind a rollback apply.
#[derive(Clone, Copy)]
pub struct RollbackDenialChain {
    pub sources: AppendRecordSources,
    pub append_record: RollbackAppendRecordDryRun,
    pub sector_plan: RollbackAppendSectorPlanDryRun,
    pub sector_write: RollbackAppendSectorWriteReadbackDryRun,
    pub media_write_policy: TargetRegionMediaWritePolicyPreflight,
    pub target_region_write: RollbackTargetRegionWriteReadbackDryRun,
    pub writer_policy: RollbackDurableWriterPolicyPreflight,
    pub durable_append_preflight: RollbackDurableAppendAuthorityPreflight,
    pub media_write_gate: RollbackMediaWriteAuthorityGate,
    pub authorization_gate: RollbackDurableAppendTransactionAuthorizationGate,
    pub engine_readiness: RollbackAppendEngineReadinessDecision,
    pub durable_append_decision: RollbackDurableAppendAuthorityDecision,
    pub audit_policy_decision: RollbackDurableAuditPolicyDecision,
    pub audit_policy_candidate: RollbackDurableAuditPolicyCandidate,
    pub acceptance_gate: RollbackDurableAuditPolicyAcceptanceGate,
    pub ledger_candidate: RollbackDurableAuditPolicyLedgerCandidate,
    pub ledger_aware_result: RollbackDurableAuditPolicyLedgerAwareAcceptanceResult,
    pub write_authority_availability: RollbackDurableAuditPolicyWriteAuthorityAvailability,
    pub policy_ledger_availability: RollbackDurablePolicyLedgerAvailability,
    pub audit_policy_availability: RollbackDurableAuditPolicyAvailability,
    pub append_authority_availability: RollbackDurableAppendAuthorityAvailability,
    pub append_availability_decision: RollbackTransactionAppendAvailabilityDecision,
    pub authority_denial_gate: RollbackTransactionAppendAuthorityDenialGate,
    pub policy_ledger_dry_run: RollbackDurablePolicyLedgerAvailabilityDryRun,
    pub audit_policy_dry_run: RollbackDurableAuditPolicyAvailabilityDryRun,
    pub append_authority_dry_run: RollbackDurableAppendAuthorityAvailabilityDryRun,
    pub transaction_append_dry_run: RollbackTransactionAppendDryRun,
    pub inspection: RollbackTargetRegionSectorInspection,
    pub inspect_source_state: RecoveryRollbackInspectSourceReferenceState,
    pub write_decision: RollbackDurablePolicyWriteAuthorityDecision,
}

/// `c` is the denial chain of the hot swap `snapshot`/`probation` over the
/// writer storage foundation, with the storage controller's evidence of the
/// scratch write, of the target region write and of the target sector
/// inspection, and with the retained inspect source and its audit check.
#[verifier::opaque]
pub open spec fn is_denial_chain_for(
    c: RollbackDenialChain,
    snapshot: Snapshot,
    probation: HelloHotSwapProbationRecord,
    foundation: RollbackWriterStorageFoundation,
    layout: StorageLayoutIds,
    contract: AppendContractIds,
    ids: ControllerIds,
    scratch_evidence: Option<ScratchSectorWriteReadbackEvidence>,
    target_region_evidence: Option<TargetSectorWriteReadbackEvidence>,
    inspection_evidence: Option<TargetSectorInspectionEvidence>,
    retained: Option<RecoveryRollbackInspectSourceReference>,
    check: InspectSourceReferenceCheck,
) -> bool {
    &&& c.sources.payload_hash@ == rollback_transaction_payload_digest(snapshot, probation)
    &&& c.sources.provenance_hash@ == rollback_transaction_payload_provenance_digest(
        snapshot,
        probation,
    )
    &&& c.sources.rollback_apply_hash@ == rollback_apply_denial_digest(snapshot, probation)
    &&& is_append_record_dry_run_for(c.append_record, layout, c.sources, foundation)
    &&& is_sector_plan_for(c.sector_plan, layout, c.sources, c.append_record)
    &&& is_sector_write_for(c.sector_write, c.sector_plan, scratch_evidence, ids)
    &&& is_media_write_policy_for(c.media_write_policy, foundation, layout, contract)
    &&& is_target_region_write_for(
        c.target_region_write,
        c.sector_plan,
        foundation.target_region_discovery,
        c.media_write_policy,
        target_region_evidence,
        HELLO_ROLLBACK_TARGET_REGION_MATERIALIZER_MISSING_REASON,
        ids,
    )
    &&& is_writer_policy_for(
        c.writer_policy,
        c.append_record,
        c.sector_plan,
        c.target_region_write,
        layout,
    )
    &&& is_durable_append_preflight_for(
        c.durable_append_preflight,
        foundation,
        c.append_record,
        c.sector_plan,
        c.sector_write,
        c.media_write_policy,
        c.target_region_write,
        c.writer_policy,
        layout,
        contract,
    )
    &&& is_media_write_gate_for(
        c.media_write_gate,
        c.durable_append_preflight,
        c.target_region_write,
        contract,
    )
    &&& is_authorization_gate_for(
        c.authorization_gate,
        c.writer_policy,
        c.append_record,
        c.sector_plan,
        c.target_region_write,
        layout,
    )
    &&& is_engine_readiness_for(c.engine_readiness, c.authorization_gate)
    &&& is_durable_append_decision_for(
        c.durable_append_decision,
        c.durable_append_preflight,
        c.media_write_gate,
        c.engine_readiness,
    )
    &&& is_audit_policy_decision_for(c.audit_policy_decision, c.durable_append_decision)
    &&& is_audit_policy_candidate_for(
        c.audit_policy_candidate,
        c.audit_policy_decision,
        c.append_record,
        layout,
    )
    &&& is_audit_policy_acceptance_gate_for(c.acceptance_gate, c.audit_policy_candidate, layout)
    &&& is_ledger_candidate_for(c.ledger_candidate, c.acceptance_gate, layout)
    &&& is_ledger_aware_result_for(c.ledger_aware_result, c.ledger_candidate, layout)
    &&& is_write_authority_availability_for(
        c.write_authority_availability,
        c.ledger_aware_result,
        c.ledger_candidate,
        c.media_write_policy,
        c.target_region_write,
        layout,
    )
    &&& is_policy_ledger_availability_for(
        c.policy_ledger_availability,
        c.write_authority_availability,
        layout,
    )
    &&& is_audit_policy_availability_for(
        c.audit_policy_availability,
        c.policy_ledger_availability,
        layout,
    )
    &&& is_append_authority_availability_for(
        c.append_authority_availability,
        c.audit_policy_availability,
        layout,
    )
    &&& is_append_availability_decision_for(
        c.append_availability_decision,
        c.append_authority_availability,
        c.engine_readiness,
        c.writer_policy,
        layout,
    )
    &&& is_authority_denial_gate_for(c.authority_denial_gate, c.append_availability_decision, layout)
    &&& is_policy_ledger_dry_run_for(
        c.policy_ledger_dry_run,
        c.policy_ledger_availability,
        c.write_authority_availability,
        c.authority_denial_gate,
        c.target_region_write,
        layout,
    )
    &&& is_audit_policy_dry_run_for(
        c.audit_policy_dry_run,
        c.audit_policy_availability,
        c.policy_ledger_dry_run,
        c.authority_denial_gate,
        c.target_region_write,
        layout,
    )
    &&& is_append_authority_dry_run_for(
        c.append_authority_dry_run,
        c.append_authority_availability,
        c.audit_policy_dry_run,
        c.authority_denial_gate,
        c.target_region_write,
        layout,
    )
    &&& is_transaction_append_dry_run_for(
        c.transaction_append_dry_run,
        c.authority_denial_gate,
        c.append_record,
        c.sector_plan,
        c.target_region_write,
        layout,
    )
    &&& is_sector_inspection_for(
        c.inspection,
        c.append_record,
        c.sector_plan,
        c.target_region_write,
        inspection_evidence,
        HELLO_ROLLBACK_TARGET_REGION_INSPECTION_MISSING_REASON,
        ids,
    )
    &&& c.inspect_source_state == inspect_source_state(c.inspection, retained, check)
    &&& is_policy_write_authority_decision_for(
        c.write_decision,
        c.append_authority_dry_run,
        c.write_authority_availability,
        c.audit_policy_availability,
        c.append_authority_availability,
        c.transaction_append_dry_run,
        c.inspection,
        layout,
    )
}

/// The sizes the chain works with fit their machine integers: both record
/// images with the scratch region, and the discovered target region in
/// bytes.
pub open spec fn denial_chain_sizes_fit(
    foundation: RollbackWriterStorageFoundation,
    layout: StorageLayoutIds,
) -> bool {
    &&& record_lengths_fit(layout)
    &&& audit_record_length(layout) + transaction_record_length(layout)
        + foundation.scratch_region_byte_count <= u64::MAX
    &&& foundation.target_region_discovery.candidate_region_lba_count * SECTOR_BYTES <= u64::MAX
}

/// Runs the whole denial chain behind a rollback apply and returns every
/// record of it.
pub fn hello_rollback_denial_chain(
    snapshot: Snapshot,
    probation: HelloHotSwapProbationRecord,
    foundation: RollbackWriterStorageFoundation,
    layout: StorageLayoutIds,
    contract: AppendContractIds,
    ids: ControllerIds,
    scratch_evidence: Option<ScratchSectorWriteReadbackEvidence>,
    target_region_evidence: Option<TargetSectorWriteReadbackEvidence>,
    inspection_evidence: Option<TargetSectorInspectionEvidence>,
    retained: Option<RecoveryRollbackInspectSourceReference>,
    check: InspectSourceReferenceCheck,
) -> (chain: RollbackDenialChain)
    requires
        denial_chain_sizes_fit(foundation, layout),
    ensures
        is_denial_chain_for(
            chain,
            snapshot,
            probation,
            foundation,
            layout,
            contract,
            ids,
            scratch_evidence,
            target_region_evidence,
            inspection_evidence,
            retained,
            check,
        ),
{
    proof {
        reveal(is_denial_chain_for);
    }
    let sources = hello_rollback_append_record_sources(snapshot, probation);
    let append_record = hello_rollback_append_record_dry_run(layout, sources, foundation);
    let sector_plan = hello_rollback_append_sector_plan_dry_run(layout, sources, append_record);
    let sector_write = hello_rollback_append_sector_write_readback_dry_run(
        sector_plan,
        scratch_evidence,
        ids,
    );
    let media_write_policy = hello_target_region_media_write_policy_preflight(
        foundation,
        layout,
        contract,
    );
    let target_region_write = hello_rollback_target_region_write_readback_dry_run_from_materializer(
        sector_plan,
        foundation.target_region_discovery,
        media_write_policy,
        target_region_evidence,
        ids,
    );
    let writer_policy = hello_rollback_durable_writer_policy_preflight(
        append_record,
        sector_plan,
        target_region_write,
        layout,
    );
    let durable_append_preflight = hello_rollback_durable_append_authority_preflight(
        foundation,
        append_record,
        sector_plan,
        sector_write,
        media_write_policy,
        target_region_write,
        writer_policy,
        layout,
        contract,
    );
    let media_write_gate = hello_rollback_media_write_authority_gate(
        durable_append_preflight,
        target_region_write,
        contract,
    );
    let authorization_gate = hello_rollback_durable_append_transaction_authorization_gate(
        writer_policy,
        append_record,
        sector_plan,
        target_region_write,
        layout,
    );
    let engine_readiness = hello_rollback_append_engine_readiness_decision(authorization_gate);
    let durable_append_decision = hello_rollback_durable_append_authority_decision(
        durable_append_preflight,
        media_write_gate,
        engine_readiness,
    );
    let audit_policy_decision = hello_rollback_durable_audit_policy_decision(durable_append_decision);
    let audit_policy_candidate = hello_rollback_durable_audit_policy_candidate(
        audit_policy_decision,
        append_record,
        layout,
    );
    let acceptance_gate = hello_rollback_durable_audit_policy_acceptance_gate(
        audit_policy_candidate,
        layout,
    );
    let ledger_candidate = hello_rollback_durable_audit_policy_ledger_candidate(
        acceptance_gate,
        layout,
    );
    let ledger_aware_result = hello_rollback_durable_audit_policy_ledger_aware_acceptance_result(
        ledger_candidate,
        layout,
    );
    let write_authority_availability =
        hello_rollback_durable_audit_policy_write_authority_availability(
        ledger_aware_result,
        ledger_candidate,
        media_write_policy,
        target_region_write,
        layout,
    );
    let policy_ledger_availability = hello_rollback_durable_policy_ledger_availability(
        write_authority_availability,
        layout,
    );
    let audit_policy_availability = hello_rollback_durable_audit_policy_availability(
        policy_ledger_availability,
        layout,
    );
    let append_authority_availability = hello_rollback_durable_append_authority_availability(
        audit_policy_availability,
        layout,
    );
    let append_availability_decision = hello_rollback_transaction_append_availability_decision(
        append_authority_availability,
        engine_readiness,
        writer_policy,
        layout,
    );
    let authority_denial_gate = hello_rollback_transaction_append_authority_denial_gate(
        append_availability_decision,
        layout,
    );
    let policy_ledger_dry_run = hello_rollback_durable_policy_ledger_availability_dry_run(
        policy_ledger_availability,
        write_authority_availability,
        authority_denial_gate,
        target_region_write,
        layout,
    );
    let audit_policy_dry_run = hello_rollback_durable_audit_policy_availability_dry_run(
        audit_policy_availability,
        policy_ledger_dry_run,
        authority_denial_gate,
        target_region_write,
        layout,
    );
    let append_authority_dry_run = hello_rollback_durable_append_authority_availability_dry_run(
        append_authority_availability,
        audit_policy_dry_run,
        authority_denial_gate,
        target_region_write,
        layout,
    );
    let transaction_append_dry_run = hello_rollback_transaction_append_dry_run(
        authority_denial_gate,
        append_record,
        sector_plan,
        target_region_write,
        layout,
    );
    let inspection = hello_rollback_target_region_sector_inspection_from_retained_inspect(
        append_record,
        sector_plan,
        target_region_write,
        inspection_evidence,
        ids,
    );
    let inspect_source_state = recovery_rollback_inspect_source_reference_state(
        inspection,
        retained,
        check,
    );
    let write_decision = hello_rollback_durable_policy_write_authority_decision(
        append_authority_dry_run,
        write_authority_availability,
        audit_policy_availability,
        append_authority_availability,
        transaction_append_dry_run,
        inspection,
        layout,
    );
    RollbackDenialChain {
        sources,
        append_record,
        sector_plan,
        sector_write,
        media_write_policy,
        target_region_write,
        writer_policy,
        durable_append_preflight,
        media_write_gate,
        authorization_gate,
        engine_readiness,
        durable_append_decision,
        audit_policy_decision,
        audit_policy_candidate,
        acceptance_gate,
        ledger_candidate,
        ledger_aware_result,
        write_authority_availability,
        policy_ledger_availability,
        audit_policy_availability,
        append_authority_availability,
        append_availability_decision,
        authority_denial_gate,
        policy_ledger_dry_run,
        audit_policy_dry_run,
        append_authority_dry_run,
        transaction_append_dry_run,
        inspection,
        inspect_source_state,
        write_decision,
    }
}

/// The sources that a rollback apply retains for its denial: the durable
/// policy write authority decision at the end of the denial chain and the
/// state of the retained inspect source.
pub fn hello_rollback_apply_retained_denial_sources(
    snapshot: Snapshot,
    probation: HelloHotSwapProbationRecord,
    foundation: RollbackWriterStorageFoundation,
    layout: StorageLayoutIds,
    contract: AppendContractIds,
    ids: ControllerIds,
    scratch_evidence: Option<ScratchSectorWriteReadbackEvidence>,
    target_region_evidence: Option<TargetSectorWriteReadbackEvidence>,
    inspection_evidence: Option<TargetSectorInspectionEvidence>,
    retained: Option<RecoveryRollbackInspectSourceReference>,
    check: InspectSourceReferenceCheck,
) -> (result: (RollbackDurablePolicyWriteAuthorityDecision, RecoveryRollbackInspectSourceReferenceState))
    requires
        denial_chain_sizes_fit(foundation, layout),
    ensures
        exists|c: RollbackDenialChain|
            {
                &&& #[trigger] is_denial_chain_for(
                    c,
                    snapshot,
                    probation,
                    foundation,
                    layout,
                    contract,
                    ids,
                    scratch_evidence,
                    target_region_evidence,
                    inspection_evidence,
                    retained,
                    check,
                )
                &&& result.0 == c.write_decision
                &&& result.1 == c.inspect_source_state
            },
        !result.0.write_authority_available,
        !result.0.durable_policy_ledger_available,
        !result.0.durable_audit_policy_available,
        !result.0.durable_append_authority_available,
        !result.0.transaction_append_available,
{
    let chain = hello_rollback_denial_chain(
        snapshot,
        probation,
        foundation,
        layout,
        contract,
        ids,
        scratch_evidence,
        target_region_evidence,
        inspection_evidence,
        retained,
        check,
    );
    proof {
        lemma_denial_chain_grants_nothing(
            chain,
            snapshot,
            probation,
            foundation,
            layout,
            contract,
            ids,
            scratch_evidence,
            target_region_evidence,
            inspection_evidence,
            retained,
            check,
        );
    }
    (chain.write_decision, chain.inspect_source_state)
}

/// Whatever the storage controller reported and whatever was retained, the
/// denial chain behind a rollback apply grants nothing: its durable policy
/// write authority decision has no write authority, no durable policy
/// ledger, no durable audit policy, no durable append authority and no
/// transaction append, and the durable append authority decision of its
/// writer side withholds durable append authority too.
pub proof fn lemma_denial_chain_grants_nothing(
    c: RollbackDenialChain,
    snapshot: Snapshot,
    probation: HelloHotSwapProbationRecord,
    foundation: RollbackWriterStorageFoundation,
    layout: StorageLayoutIds,
    contract: AppendContractIds,
    ids: ControllerIds,
    scratch_evidence: Option<ScratchSectorWriteReadbackEvidence>,
    target_region_evidence: Option<TargetSectorWriteReadbackEvidence>,
    inspection_evidence: Option<TargetSectorInspectionEvidence>,
    retained: Option<RecoveryRollbackInspectSourceReference>,
    check: InspectSourceReferenceCheck,
)
    requires
        is_denial_chain_for(
            c,
            snapshot,
            probation,
            foundation,
            layout,
            contract,
            ids,
            scratch_evidence,
            target_region_evidence,
            inspection_evidence,
            retained,
            check,
        ),
    ensures
        !c.write_decision.write_authority_available,
        !c.write_decision.durable_policy_ledger_available,
        !c.write_decision.durable_audit_policy_available,
        !c.write_decision.durable_append_authority_available,
        !c.write_decision.transaction_append_available,
        !c.durable_append_decision.durable_append_authority_available,
        c.authority_denial_gate.missing_transaction_append_authority,
{
    reveal(is_denial_chain_for);
    lemma_policy_write_authority_withheld(
        c.ledger_aware_result,
        c.ledger_candidate,
        c.media_write_policy,
        c.target_region_write,
        c.write_authority_availability,
        c.policy_ledger_availability,
        c.audit_policy_availability,
        c.append_authority_availability,
        c.engine_readiness,
        c.writer_policy,
        c.append_availability_decision,
        c.authority_denial_gate,
        c.transaction_append_dry_run,
        c.append_record,
        c.sector_plan,
        c.append_authority_dry_run,
        c.inspection,
        c.write_decision,
        layout,
    );
    lemma_transaction_append_never_available(
        c.audit_policy_availability,
        c.append_authority_availability,
        c.engine_readiness,
        c.writer_policy,
        c.append_availability_decision,
        c.authority_denial_gate,
        c.transaction_append_dry_run,
        c.append_record,
        c.sector_plan,
        c.target_region_write,
        layout,
    );
}

/// `(a, p, t)` is what a recovery materialize dry run leaves for the hot
/// swap `snapshot`/`probation`: the append record and sector plan dry runs
/// of the swap's rollback sources and the target region write dry run that
/// the storage controller's `written` evidence gives for that plan.
pub open spec fn is_materialization_for(
    a: RollbackAppendRecordDryRun,
    p: RollbackAppendSectorPlanDryRun,
    t: RollbackTargetRegionWriteReadbackDryRun,
    snapshot: Snapshot,
    probation: HelloHotSwapProbationRecord,
    foundation: RollbackWriterStorageFoundation,
    layout: StorageLayoutIds,
    contract: AppendContractIds,
    ids: ControllerIds,
    written: Option<TargetSectorWriteReadbackEvidence>,
) -> bool {
    exists|sources: AppendRecordSources, policy: TargetRegionMediaWritePolicyPreflight|
        #![trigger is_append_record_dry_run_for(a, layout, sources, foundation), is_media_write_policy_for(policy, foundation, layout, contract)]
        {
            &&& sources.payload_hash@ == rollback_transaction_payload_digest(snapshot, probation)
            &&& sources.provenance_hash@ == rollback_transaction_payload_provenance_digest(
                snapshot,
                probation,
            )
            &&& sources.rollback_apply_hash@ == rollback_apply_denial_digest(snapshot, probation)
            &&& is_append_record_dry_run_for(a, layout, sources, foundation)
            &&& is_sector_plan_for(p, layout, sources, a)
            &&& is_media_write_policy_for(policy, foundation, layout, contract)
            &&& is_target_region_write_for(
                t,
                p,
                foundation.target_region_discovery,
                policy,
                written,
                "pci_mass_storage_controller_missing",
                ids,
            )
        }
}

/// What a recovery materialize dry run leaves: nothing without a hot swap
/// probation; otherwise the append record and sector plan dry runs and the
/// target region write dry run that the storage controller's `written`
/// evidence gives.
pub fn recovery_rollback_materialization_evidence(
    snapshot: Snapshot,
    probation: Option<HelloHotSwapProbationRecord>,
    foundation: RollbackWriterStorageFoundation,
    layout: StorageLayoutIds,
    contract: AppendContractIds,
    ids: ControllerIds,
    written: Option<TargetSectorWriteReadbackEvidence>,
) -> (evidence: Option<
    (RollbackAppendRecordDryRun, RollbackAppendSectorPlanDryRun, RollbackTargetRegionWriteReadbackDryRun),
>)
    requires
        denial_chain_sizes_fit(foundation, layout),
    ensures
        evidence is None <==> probation is None,
        evidence matches Some((a, p, t)) ==> is_materialization_for(
            a,
            p,
            t,
            snapshot,
            probation->0,
            foundation,
            layout,
            contract,
            ids,
            written,
        ),
{
    let probation = match probation {
        Some(probation) => probation,
        None => return None,
    };
    let sources = hello_rollback_append_record_sources(snapshot, probation);
    let append_record = hello_rollback_append_record_dry_run(layout, sources, foundation);
    let sector_plan = hello_rollback_append_sector_plan_dry_run(layout, sources, append_record);
    let policy = hello_target_region_media_write_policy_preflight(foundation, layout, contract);
    let target_region_write = hello_rollback_target_region_write_readback_dry_run_from_evidence(
        sector_plan,
        foundation.target_region_discovery,
        policy,
        written,
        "pci_mass_storage_controller_missing",
        ids,
    );
    Some((append_record, sector_plan, target_region_write))
}

/// `(t, i)` is what a recovery inspect finds for the hot swap
/// `snapshot`/`probation`: the target region write dry run from the
/// materializer's evidence and the sector inspection that the storage
/// controller's `inspected` evidence gives.
pub open spec fn is_inspection_evidence_for(
    t: RollbackTargetRegionWriteReadbackDryRun,
    i: RollbackTargetRegionSectorInspection,
    snapshot: Snapshot,
    probation: HelloHotSwapProbationRecord,
    foundation: RollbackWriterStorageFoundation,
    layout: StorageLayoutIds,
    contract: AppendContractIds,
    ids: ControllerIds,
    materialized: Option<TargetSectorWriteReadbackEvidence>,
    inspected: Option<TargetSectorInspectionEvidence>,
) -> bool {
    exists|
        sources: AppendRecordSources,
        a: RollbackAppendRecordDryRun,
        p: RollbackAppendSectorPlanDryRun,
        policy: TargetRegionMediaWritePolicyPreflight,
    |
        #![trigger is_append_record_dry_run_for(a, layout, sources, foundation), is_sector_plan_for(p, layout, sources, a), is_media_write_policy_for(policy, foundation, layout, contract)]
        {
            &&& sources.payload_hash@ == rollback_transaction_payload_digest(snapshot, probation)
            &&& sources.provenance_hash@ == rollback_transaction_payload_provenance_digest(
                snapshot,
                probation,
            )
            &&& sources.rollback_apply_hash@ == rollback_apply_denial_digest(snapshot, probation)
            &&& is_append_record_dry_run_for(a, layout, sources, foundation)
            &&& is_sector_plan_for(p, layout, sources, a)
            &&& is_media_write_policy_for(policy, foundation, layout, contract)
            &&& is_target_region_write_for(
                t,
                p,
                foundation.target_region_discovery,
                policy,
                materialized,
                HELLO_ROLLBACK_TARGET_REGION_MATERIALIZER_MISSING_REASON,
                ids,
            )
            &&& is_sector_inspection_for(
                i,
                a,
                p,
                t,
                inspected,
                "pci_mass_storage_controller_missing",
                ids,
            )
        }
}

/// What a recovery inspect finds: nothing without a hot swap probation;
/// otherwise the target region write dry run from the materializer's
/// evidence and the sector inspection from the storage controller's
/// `inspected` evidence.
pub fn recovery_rollback_inspection_evidence(
    snapshot: Snapshot,
    probation: Option<HelloHotSwapProbationRecord>,
    foundation: RollbackWriterStorageFoundation,
    layout: StorageLayoutIds,
    contract: AppendContractIds,
    ids: ControllerIds,
    materialized: Option<TargetSectorWriteReadbackEvidence>,
    inspected: Option<TargetSectorInspectionEvidence>,
) -> (evidence: Option<(RollbackTargetRegionWriteReadbackDryRun, RollbackTargetRegionSectorInspection)>)
    requires
        denial_chain_sizes_fit(foundation, layout),
    ensures
        evidence is None <==> probation is None,
        evidence matches Some((t, i)) ==> is_inspection_evidence_for(
            t,
            i,
            snapshot,
            probation->0,
            foundation,
            layout,
            contract,
            ids,
            materialized,
            inspected,
        ),
{
    let probation = match probation {
        Some(probation) => probation,
        None => return None,
    };
    let sources = hello_rollback_append_record_sources(snapshot, probation);
    let append_record = hello_rollback_append_record_dry_run(layout, sources, foundation);
    let sector_plan = hello_rollback_append_sector_plan_dry_run(layout, sources, append_record);
    let policy = hello_target_region_media_write_policy_preflight(foundation, layout, contract);
    let target_region_write = hello_rollback_target_region_write_readback_dry_run_from_materializer(
        sector_plan,
        foundation.target_region_discovery,
        policy,
        materialized,
        ids,
    );
    let inspection = hello_rollback_target_region_sector_inspection_from_evidence(
        append_record,
        sector_plan,
        target_region_write,
        inspected,
        "pci_mass_storage_controller_missing",
        ids,
    );
    Some((target_region_write, inspection))
}

} // verus!
