//! Schema, identifier and status texts of the hello service's records.

use vstd::prelude::*;

verus! {

pub const ARTIFACT_LOAD_PLAN_PREFLIGHT_SCHEMA: &'static str =
    "raios.current_boot_artifact_load_plan_preflight.v0";
pub const ARTIFACT_LOAD_PLAN_PREFLIGHT_ID: &'static str =
    "artifact_load_plan_preflight.current_boot.svc.demo.hello.v0";
pub const ARTIFACT_LOAD_PLAN_PREFLIGHT_STATUS: &'static str = "accepted_builtin_current_boot_only";
pub const SERVICE_SLOT_INTENT_SCHEMA: &'static str = "raios.ram_only_service_slot_intent.v0";
pub const SERVICE_SLOT_INTENT_ID: &'static str =
    "service_slot_intent.current_boot.svc.demo.hello.v0";
pub const RAM_ONLY_SERVICE_SLOT_ID: &'static str = "ram_only:svc.demo.hello";
pub const SERVICE_SLOT_ACTIVATION_SCHEMA: &'static str = "raios.ram_only_service_slot_activation.v0";
pub const SERVICE_SLOT_ACTIVATION_ID: &'static str =
    "service_slot_activation.current_boot.svc.demo.hello.v0";
pub const SERVICE_SLOT_ACTIVATION_ACTIVE_STATUS: &'static str = "active_current_boot";
pub const SERVICE_SLOT_ACTIVATION_STOPPED_STATUS: &'static str = "stopped_current_boot";
pub const SERVICE_SLOT_ACTIVATION_CLEARED_STATUS: &'static str = "cleared_current_boot";
pub const SERVICE_SLOT_ACTIVATION_MISSING_STATUS: &'static str = "missing_current_boot";
pub const ARTIFACT_LOAD_PLAN_PREFLIGHT_SELFTEST_CASES: usize = 8;

pub const HELLO_ROLLBACK_PREVIEW_SCHEMA: &'static str =
    "raios.ram_only_hello_service_rollback_preview.v0";
pub const HELLO_ROLLBACK_PREVIEW_ID: &'static str =
    "hello_rollback_preview.current_boot.svc.demo.hello.v0";
pub const HELLO_ROLLBACK_PREVIEW_STATUS: &'static str =
    "preview_only_current_boot";
pub const HELLO_ROLLBACK_APPLY_SCHEMA: &'static str =
    "raios.ram_only_hello_service_rollback_apply.v0";
pub const HELLO_ROLLBACK_APPLY_ID: &'static str =
    "hello_rollback_apply.current_boot.svc.demo.hello.v0";
pub const HELLO_ROLLBACK_APPLY_STATUS: &'static str =
    "denied_missing_rollback_apply_authority";
pub const HELLO_ROLLBACK_TRANSACTION_PREFLIGHT_SCHEMA: &'static str =
    "raios.ram_only_hello_service_rollback_transaction_preflight.v0";
pub const HELLO_ROLLBACK_TRANSACTION_PREFLIGHT_ID: &'static str =
    "hello_rollback_transaction_preflight.current_boot.svc.demo.hello.v0";
pub const HELLO_ROLLBACK_TRANSACTION_PREFLIGHT_STATUS: &'static str =
    "denied_missing_write_authorities";
pub const HELLO_ROLLBACK_WRITE_AUTHORITY_GATE_SCHEMA: &'static str =
    "raios.ram_only_hello_service_rollback_write_authority_gate.v0";
pub const HELLO_ROLLBACK_WRITE_AUTHORITY_GATE_ID: &'static str =
    "hello_rollback_write_authority_gate.current_boot.svc.demo.hello.v0";
pub const HELLO_ROLLBACK_WRITE_AUTHORITY_GATE_STATUS: &'static str =
    "denied_missing_durable_write_authority";
pub const HELLO_ROLLBACK_APPEND_INTENT_GATE_SCHEMA: &'static str =
    "raios.ram_only_hello_service_rollback_append_intent_gate.v0";
pub const HELLO_ROLLBACK_APPEND_INTENT_GATE_ID: &'static str =
    "hello_rollback_append_intent_gate.current_boot.svc.demo.hello.v0";
pub const HELLO_ROLLBACK_APPEND_INTENT_GATE_STATUS: &'static str =
    "denied_missing_rollback_transaction_append_authority";
pub const HELLO_ROLLBACK_TRANSACTION_PAYLOAD_SCHEMA: &'static str =
    "raios.rollback_transaction.v0";
pub const HELLO_ROLLBACK_TRANSACTION_PAYLOAD_ID: &'static str =
    "rollback_transaction.proposed.current_boot.svc.demo.hello.v0";
pub const HELLO_ROLLBACK_TRANSACTION_PAYLOAD_STATUS: &'static str =
    "proposed_not_appended_current_boot";
pub const HELLO_ROLLBACK_PAYLOAD_ENVELOPE_GATE_SCHEMA: &'static str =
    "raios.ram_only_hello_service_rollback_payload_envelope_gate.v0";
pub const HELLO_ROLLBACK_PAYLOAD_ENVELOPE_GATE_ID: &'static str =
    "hello_rollback_payload_envelope_gate.current_boot.svc.demo.hello.v0";
pub const HELLO_ROLLBACK_PAYLOAD_ENVELOPE_GATE_STATUS: &'static str =
    "denied_missing_rollback_transaction_writer";
pub const HELLO_ROLLBACK_TRANSACTION_WRITER_STORAGE_AUTHORITY_GATE_SCHEMA: &'static str =
    "raios.ram_only_hello_service_rollback_transaction_writer_storage_authority_gate.v0";
pub const HELLO_ROLLBACK_TRANSACTION_WRITER_STORAGE_AUTHORITY_GATE_ID: &'static str =
    "hello_rollback_transaction_writer_storage_authority_gate.current_boot.svc.demo.hello.v0";
pub const HELLO_ROLLBACK_TRANSACTION_WRITER_STORAGE_AUTHORITY_GATE_STATUS: &'static str =
    "denied_missing_transaction_writer_storage_authority";
pub const HELLO_ROLLBACK_APPEND_RECORD_DRY_RUN_SCHEMA: &'static str =
    "raios.ram_only_hello_service_rollback_append_record_dry_run.v0";
pub const HELLO_ROLLBACK_APPEND_RECORD_DRY_RUN_ID: &'static str =
    "hello_rollback_append_record_dry_run.current_boot.svc.demo.hello.v0";
pub const HELLO_ROLLBACK_APPEND_RECORD_DRY_RUN_STATUS: &'static str =
    "scratch_record_image_ready_not_durable_authority";
pub const HELLO_ROLLBACK_APPEND_RECORD_DRY_RUN_REASON: &'static str =
    "scratch_writer_dry_run_verified_no_append_authority";
pub const HELLO_ROLLBACK_APPEND_RECORD_CANONICALIZATION: &'static str =
    "raios.rollback_append_record_image.canonical.v0";
pub const HELLO_ROLLBACK_APPEND_SECTOR_PLAN_DRY_RUN_SCHEMA: &'static str =
    "raios.ram_only_hello_service_rollback_append_sector_plan_dry_run.v0";
pub const HELLO_ROLLBACK_APPEND_SECTOR_PLAN_DRY_RUN_ID: &'static str =
    "hello_rollback_append_sector_plan_dry_run.current_boot.svc.demo.hello.v0";
pub const HELLO_ROLLBACK_APPEND_SECTOR_PLAN_DRY_RUN_STATUS: &'static str =
    "scratch_sector_image_ready_not_durable_authority";
pub const HELLO_ROLLBACK_APPEND_SECTOR_PLAN_DRY_RUN_REASON: &'static str =
    "append_record_images_fit_scratch_sector_without_write_authority";
pub const HELLO_ROLLBACK_APPEND_SECTOR_PLAN_CANONICALIZATION: &'static str =
    "raios.rollback_append_sector_plan.canonical.v0";
pub const HELLO_ROLLBACK_APPEND_SECTOR_PADDING_POLICY: &'static str =
    "zero_pad_to_logical_sector";
pub const HELLO_ROLLBACK_APPEND_SECTOR_WRITE_READBACK_DRY_RUN_SCHEMA: &'static str =
    "raios.ram_only_hello_service_rollback_append_sector_write_readback_dry_run.v0";
pub const HELLO_ROLLBACK_APPEND_SECTOR_WRITE_READBACK_DRY_RUN_ID: &'static str =
    "hello_rollback_append_sector_write_readback_dry_run.current_boot.svc.demo.hello.v0";
pub const HELLO_ROLLBACK_APPEND_SECTOR_WRITE_READBACK_DRY_RUN_STATUS: &'static str =
    "scratch_sector_image_readback_verified_not_durable_authority";
pub const HELLO_ROLLBACK_APPEND_SECTOR_WRITE_READBACK_DRY_RUN_REASON: &'static str =
    "planned_sector_image_written_and_read_back_on_scratch_only";
pub const HELLO_ROLLBACK_DURABLE_APPEND_AUTHORITY_PREFLIGHT_SCHEMA: &'static str =
    "raios.ram_only_hello_service_rollback_durable_append_authority_preflight.v0";
pub const HELLO_ROLLBACK_DURABLE_APPEND_AUTHORITY_PREFLIGHT_ID: &'static str =
    "hello_rollback_durable_append_authority_preflight.current_boot.svc.demo.hello.v0";
pub const HELLO_ROLLBACK_DURABLE_APPEND_AUTHORITY_PREFLIGHT_STATUS: &'static str =
    "denied_missing_durable_append_authority";
pub const HELLO_ROLLBACK_DURABLE_APPEND_AUTHORITY_PREFLIGHT_REASON: &'static str =
    "durable_append_authority_not_granted";
pub const HELLO_ROLLBACK_DURABLE_APPEND_AUTHORITY_REMAINING_DENIAL_REASON: &'static str =
    "durable_append_authority_missing";
pub const HELLO_ROLLBACK_DURABLE_WRITER_POLICY_PREFLIGHT_SCHEMA: &'static str =
    "raios.ram_only_hello_service_rollback_durable_writer_policy_preflight.v0";
pub const HELLO_ROLLBACK_DURABLE_WRITER_POLICY_PREFLIGHT_ID: &'static str =
    "hello_rollback_durable_writer_policy_preflight.current_boot.svc.demo.hello.v0";
pub const HELLO_ROLLBACK_DURABLE_WRITER_POLICY_PREFLIGHT_STATUS: &'static str =
    "candidate_ready_not_append_authority";
pub const HELLO_ROLLBACK_DURABLE_WRITER_POLICY_PREFLIGHT_REASON: &'static str =
    "writer_candidates_verified_without_append_authority";
pub const HELLO_ROLLBACK_DURABLE_APPEND_TRANSACTION_AUTHORIZATION_GATE_SCHEMA: &'static str =
    "raios.ram_only_hello_service_rollback_durable_append_transaction_authorization_gate.v0";
pub const HELLO_ROLLBACK_DURABLE_APPEND_TRANSACTION_AUTHORIZATION_GATE_ID: &'static str =
    "hello_rollback_durable_append_transaction_authorization_gate.current_boot.svc.demo.hello.v0";
pub const HELLO_ROLLBACK_DURABLE_APPEND_TRANSACTION_AUTHORIZATION_GATE_STATUS: &'static str =
    "denied_missing_durable_append_transaction_authority";
pub const HELLO_ROLLBACK_DURABLE_APPEND_TRANSACTION_AUTHORIZATION_GATE_REASON: &'static str =
    "writer_policy_ready_durable_append_authority_missing";
pub const HELLO_ROLLBACK_APPEND_ENGINE_READINESS_DECISION_SCHEMA: &'static str =
    "raios.ram_only_hello_service_rollback_append_engine_readiness_decision.v0";
pub const HELLO_ROLLBACK_APPEND_ENGINE_READINESS_DECISION_ID: &'static str =
    "hello_rollback_append_engine_readiness_decision.current_boot.svc.demo.hello.v0";
pub const HELLO_ROLLBACK_MEDIA_WRITE_AUTHORITY_GATE_SCHEMA: &'static str =
    "raios.ram_only_hello_service_rollback_media_write_authority_gate.v0";
pub const HELLO_ROLLBACK_MEDIA_WRITE_AUTHORITY_GATE_ID: &'static str =
    "hello_rollback_media_write_authority_gate.current_boot.svc.demo.hello.v0";
pub const HELLO_ROLLBACK_MEDIA_WRITE_AUTHORITY_GATE_STATUS: &'static str =
    "denied_missing_durable_audit_policy";
pub const HELLO_ROLLBACK_MEDIA_WRITE_AUTHORITY_GATE_REASON: &'static str =
    "target_region_test_media_write_verified_durable_audit_policy_missing";
pub const HELLO_ROLLBACK_DURABLE_APPEND_AUTHORITY_DECISION_SCHEMA: &'static str =
    "raios.ram_only_hello_service_rollback_durable_append_authority_decision.v0";
pub const HELLO_ROLLBACK_DURABLE_APPEND_AUTHORITY_DECISION_ID: &'static str =
    "hello_rollback_durable_append_authority_decision.current_boot.svc.demo.hello.v0";
pub const HELLO_ROLLBACK_DURABLE_APPEND_AUTHORITY_DECISION_STATUS: &'static str =
    "denied_missing_durable_append_authority";
pub const HELLO_ROLLBACK_DURABLE_APPEND_AUTHORITY_DECISION_REASON: &'static str =
    "append_engine_ready_durable_audit_policy_missing";
pub const HELLO_ROLLBACK_DURABLE_AUDIT_POLICY_DECISION_SCHEMA: &'static str =
    "raios.ram_only_hello_service_rollback_durable_audit_policy_decision.v0";
pub const HELLO_ROLLBACK_DURABLE_AUDIT_POLICY_DECISION_ID: &'static str =
    "hello_rollback_durable_audit_policy_decision.current_boot.svc.demo.hello.v0";
pub const HELLO_ROLLBACK_DURABLE_AUDIT_POLICY_DECISION_STATUS: &'static str =
    "denied_missing_durable_audit_policy";
pub const HELLO_ROLLBACK_DURABLE_AUDIT_POLICY_DECISION_REASON: &'static str =
    "durable_append_authority_blocked_by_missing_durable_audit_policy";
pub const HELLO_ROLLBACK_DURABLE_AUDIT_POLICY_CANDIDATE_SCHEMA: &'static str =
    "raios.ram_only_hello_service_rollback_durable_audit_policy_candidate.v0";
pub const HELLO_ROLLBACK_DURABLE_AUDIT_POLICY_CANDIDATE_ID: &'static str =
    "hello_rollback_durable_audit_policy_candidate.current_boot.svc.demo.hello.v0";
pub const HELLO_ROLLBACK_DURABLE_AUDIT_POLICY_CANDIDATE_STATUS: &'static str =
    "candidate_ready_not_durable_authority";
pub const HELLO_ROLLBACK_DURABLE_AUDIT_POLICY_CANDIDATE_REASON: &'static str =
    "audit_record_image_and_media_policy_verified_without_write_authority";
pub const HELLO_ROLLBACK_DURABLE_AUDIT_POLICY_ACCEPTANCE_GATE_SCHEMA: &'static str =
    "raios.ram_only_hello_service_rollback_durable_audit_policy_acceptance_gate.v0";
pub const HELLO_ROLLBACK_DURABLE_AUDIT_POLICY_ACCEPTANCE_GATE_ID: &'static str =
    "hello_rollback_durable_audit_policy_acceptance_gate.current_boot.svc.demo.hello.v0";
pub const HELLO_ROLLBACK_DURABLE_AUDIT_POLICY_ACCEPTANCE_GATE_STATUS: &'static str =
    "denied_missing_durable_policy_ledger_or_write_authority";
pub const HELLO_ROLLBACK_DURABLE_AUDIT_POLICY_ACCEPTANCE_GATE_REASON: &'static str =
    "candidate_verified_without_durable_policy_ledger_or_write_authority";
pub const HELLO_ROLLBACK_DURABLE_AUDIT_POLICY_LEDGER_CANDIDATE_SCHEMA: &'static str =
    "raios.ram_only_hello_service_rollback_durable_audit_policy_ledger_candidate.v0";
pub const HELLO_ROLLBACK_DURABLE_AUDIT_POLICY_LEDGER_CANDIDATE_ID: &'static str =
    "hello_rollback_durable_audit_policy_ledger_candidate.current_boot.svc.demo.hello.v0";
pub const HELLO_ROLLBACK_DURABLE_AUDIT_POLICY_LEDGER_CANDIDATE_STATUS: &'static str =
    "candidate_ready_read_only_not_write_authority";
pub const HELLO_ROLLBACK_DURABLE_AUDIT_POLICY_LEDGER_CANDIDATE_REASON: &'static str =
    "acceptance_gate_bound_without_durable_write_authority";
pub const HELLO_ROLLBACK_DURABLE_AUDIT_POLICY_LEDGER_AWARE_ACCEPTANCE_RESULT_SCHEMA: &'static str =
    "raios.ram_only_hello_service_rollback_durable_audit_policy_ledger_aware_acceptance_result.v0";
pub const HELLO_ROLLBACK_DURABLE_AUDIT_POLICY_LEDGER_AWARE_ACCEPTANCE_RESULT_ID: &'static str =
    "hello_rollback_durable_audit_policy_ledger_aware_acceptance_result.current_boot.svc.demo.hello.v0";
pub const HELLO_ROLLBACK_DURABLE_AUDIT_POLICY_LEDGER_AWARE_ACCEPTANCE_RESULT_STATUS: &'static str =
    "denied_missing_write_authority";
pub const HELLO_ROLLBACK_DURABLE_AUDIT_POLICY_LEDGER_AWARE_ACCEPTANCE_RESULT_REASON: &'static str =
    "read_only_ledger_candidate_without_durable_write_authority";
pub const HELLO_ROLLBACK_DURABLE_AUDIT_POLICY_WRITE_AUTHORITY_AVAILABILITY_SCHEMA: &'static str =
    "raios.ram_only_hello_service_rollback_durable_audit_policy_write_authority_availability.v0";
pub const HELLO_ROLLBACK_DURABLE_AUDIT_POLICY_WRITE_AUTHORITY_AVAILABILITY_ID: &'static str =
    "hello_rollback_durable_audit_policy_write_authority_availability.current_boot.svc.demo.hello.v0";
pub const HELLO_ROLLBACK_DURABLE_AUDIT_POLICY_WRITE_AUTHORITY_AVAILABILITY_STATUS: &'static str =
    "denied_missing_durable_write_authority";
pub const HELLO_ROLLBACK_DURABLE_AUDIT_POLICY_WRITE_AUTHORITY_AVAILABILITY_REASON: &'static str =
    "ledger_aware_acceptance_result_without_durable_write_authority";
pub const HELLO_ROLLBACK_DURABLE_POLICY_LEDGER_AVAILABILITY_SCHEMA: &'static str =
    "raios.ram_only_hello_service_rollback_durable_policy_ledger_availability.v0";
pub const HELLO_ROLLBACK_DURABLE_POLICY_LEDGER_AVAILABILITY_ID: &'static str =
    "hello_rollback_durable_policy_ledger_availability.current_boot.svc.demo.hello.v0";
pub const HELLO_ROLLBACK_DURABLE_POLICY_LEDGER_AVAILABILITY_STATUS: &'static str =
    "denied_missing_durable_policy_ledger";
pub const HELLO_ROLLBACK_DURABLE_POLICY_LEDGER_AVAILABILITY_REASON: &'static str =
    "write_authority_availability_without_durable_policy_ledger";
pub const HELLO_ROLLBACK_DURABLE_POLICY_LEDGER_AVAILABILITY_DRY_RUN_SCHEMA: &'static str =
    "raios.ram_only_hello_service_rollback_durable_policy_ledger_availability_dry_run.v0";
pub const HELLO_ROLLBACK_DURABLE_POLICY_LEDGER_AVAILABILITY_DRY_RUN_ID: &'static str =
    "hello_rollback_durable_policy_ledger_availability_dry_run.current_boot.svc.demo.hello.v0";
pub const HELLO_ROLLBACK_DURABLE_POLICY_LEDGER_AVAILABILITY_DRY_RUN_STATUS: &'static str =
    "test_media_policy_ledger_availability_verified_not_durable_authority";
pub const HELLO_ROLLBACK_DURABLE_POLICY_LEDGER_AVAILABILITY_DRY_RUN_REASON: &'static str =
    "policy_ledger_availability_bound_to_transaction_denial_current_boot";
pub const HELLO_ROLLBACK_DURABLE_AUDIT_POLICY_AVAILABILITY_SCHEMA: &'static str =
    "raios.ram_only_hello_service_rollback_durable_audit_policy_availability.v0";
pub const HELLO_ROLLBACK_DURABLE_AUDIT_POLICY_AVAILABILITY_ID: &'static str =
    "hello_rollback_durable_audit_policy_availability.current_boot.svc.demo.hello.v0";
pub const HELLO_ROLLBACK_DURABLE_AUDIT_POLICY_AVAILABILITY_STATUS: &'static str =
    "denied_missing_durable_audit_policy";
pub const HELLO_ROLLBACK_DURABLE_AUDIT_POLICY_AVAILABILITY_REASON: &'static str =
    "durable_policy_ledger_availability_without_durable_audit_policy";
pub const HELLO_ROLLBACK_DURABLE_AUDIT_POLICY_AVAILABILITY_DRY_RUN_SCHEMA: &'static str =
    "raios.ram_only_hello_service_rollback_durable_audit_policy_availability_dry_run.v0";
pub const HELLO_ROLLBACK_DURABLE_AUDIT_POLICY_AVAILABILITY_DRY_RUN_ID: &'static str =
    "hello_rollback_durable_audit_policy_availability_dry_run.current_boot.svc.demo.hello.v0";
pub const HELLO_ROLLBACK_DURABLE_AUDIT_POLICY_AVAILABILITY_DRY_RUN_STATUS: &'static str =
    "test_media_audit_policy_availability_verified_not_durable_authority";
pub const HELLO_ROLLBACK_DURABLE_AUDIT_POLICY_AVAILABILITY_DRY_RUN_REASON: &'static str =
    "audit_policy_availability_bound_to_transaction_denial_current_boot";
pub const HELLO_ROLLBACK_DURABLE_APPEND_AUTHORITY_AVAILABILITY_SCHEMA: &'static str =
    "raios.ram_only_hello_service_rollback_durable_append_authority_availability.v0";
pub const HELLO_ROLLBACK_DURABLE_APPEND_AUTHORITY_AVAILABILITY_ID: &'static str =
    "hello_rollback_durable_append_authority_availability.current_boot.svc.demo.hello.v0";
pub const HELLO_ROLLBACK_DURABLE_APPEND_AUTHORITY_AVAILABILITY_STATUS: &'static str =
    "denied_missing_durable_append_authority";
pub const HELLO_ROLLBACK_DURABLE_APPEND_AUTHORITY_AVAILABILITY_REASON: &'static str =
    "durable_audit_policy_availability_without_durable_append_authority";
pub const HELLO_ROLLBACK_DURABLE_APPEND_AUTHORITY_AVAILABILITY_DRY_RUN_SCHEMA: &'static str =
    "raios.ram_only_hello_service_rollback_durable_append_authority_availability_dry_run.v0";
pub const HELLO_ROLLBACK_DURABLE_APPEND_AUTHORITY_AVAILABILITY_DRY_RUN_ID: &'static str =
    "hello_rollback_durable_append_authority_availability_dry_run.current_boot.svc.demo.hello.v0";
pub const HELLO_ROLLBACK_DURABLE_APPEND_AUTHORITY_AVAILABILITY_DRY_RUN_STATUS: &'static str =
    "test_media_append_authority_availability_verified_not_durable_authority";
pub const HELLO_ROLLBACK_DURABLE_APPEND_AUTHORITY_AVAILABILITY_DRY_RUN_REASON: &'static str =
    "append_authority_availability_bound_to_transaction_denial_current_boot";
pub const HELLO_ROLLBACK_TRANSACTION_APPEND_AVAILABILITY_DECISION_SCHEMA: &'static str =
    "raios.ram_only_hello_service_rollback_transaction_append_availability_decision.v0";
pub const HELLO_ROLLBACK_TRANSACTION_APPEND_AVAILABILITY_DECISION_ID: &'static str =
    "hello_rollback_transaction_append_availability_decision.current_boot.svc.demo.hello.v0";
pub const HELLO_ROLLBACK_TRANSACTION_APPEND_AVAILABILITY_DECISION_STATUS: &'static str =
    "denied_missing_rollback_transaction_append_authority";
pub const HELLO_ROLLBACK_TRANSACTION_APPEND_AVAILABILITY_DECISION_REASON: &'static str =
    "durable_append_authority_availability_without_transaction_append_authority";
pub const HELLO_ROLLBACK_TRANSACTION_APPEND_AUTHORITY_DENIAL_GATE_SCHEMA: &'static str =
    "raios.ram_only_hello_service_rollback_transaction_append_authority_denial_gate.v0";
pub const HELLO_ROLLBACK_TRANSACTION_APPEND_AUTHORITY_DENIAL_GATE_ID: &'static str =
    "hello_rollback_transaction_append_authority_denial_gate.current_boot.svc.demo.hello.v0";
pub const HELLO_ROLLBACK_TRANSACTION_APPEND_AUTHORITY_DENIAL_GATE_STATUS: &'static str =
    "denied_missing_rollback_transaction_append_authority";
pub const HELLO_ROLLBACK_TRANSACTION_APPEND_AUTHORITY_DENIAL_GATE_REASON: &'static str =
    "transaction_append_availability_decision_without_append_authority";
pub const HELLO_ROLLBACK_TRANSACTION_APPEND_DRY_RUN_SCHEMA: &'static str =
    "raios.ram_only_hello_service_rollback_transaction_append_dry_run.v0";
pub const HELLO_ROLLBACK_TRANSACTION_APPEND_DRY_RUN_ID: &'static str =
    "hello_rollback_transaction_append_dry_run.current_boot.svc.demo.hello.v0";
pub const HELLO_ROLLBACK_TRANSACTION_APPEND_DRY_RUN_STATUS: &'static str =
    "blocked_by_transaction_append_authority_denial_gate";
pub const HELLO_ROLLBACK_TRANSACTION_APPEND_DRY_RUN_REASON: &'static str =
    "missing_transaction_append_authority";
pub const HELLO_ROLLBACK_DURABLE_POLICY_WRITE_AUTHORITY_DECISION_SCHEMA: &'static str =
    "raios.ram_only_hello_service_rollback_durable_policy_write_authority_decision.v0";
pub const HELLO_ROLLBACK_DURABLE_POLICY_WRITE_AUTHORITY_DECISION_ID: &'static str =
    "hello_rollback_durable_policy_write_authority_decision.current_boot.svc.demo.hello.v0";
pub const HELLO_ROLLBACK_DURABLE_POLICY_WRITE_AUTHORITY_DECISION_STATUS: &'static str =
    "denied_missing_durable_policy_write_authority";
pub const HELLO_ROLLBACK_DURABLE_POLICY_WRITE_AUTHORITY_DECISION_REASON: &'static str =
    "transaction_append_dry_run_verified_without_durable_policy_write_authority";
pub const HELLO_ROLLBACK_MEDIA_WRITE_AUTHORITY_MISSING_REASON: &'static str =
    "media_write_authority_missing";
pub const HELLO_ROLLBACK_TEST_MEDIA_WRITE_AUTHORITY_REASON: &'static str =
    "test_infrastructure_media_write_authority_verified_current_boot";
pub const HELLO_ROLLBACK_DURABLE_AUDIT_POLICY_MISSING_REASON: &'static str =
    "durable_audit_policy_missing";
pub const HELLO_ROLLBACK_TARGET_REGION_WRITE_READBACK_DRY_RUN_SCHEMA: &'static str =
    "raios.ram_only_hello_service_rollback_target_region_write_readback_dry_run.v0";
pub const HELLO_ROLLBACK_TARGET_REGION_WRITE_READBACK_DRY_RUN_ID: &'static str =
    "hello_rollback_target_region_write_readback_dry_run.current_boot.svc.demo.hello.v0";
pub const HELLO_ROLLBACK_TARGET_REGION_WRITE_READBACK_DRY_RUN_STATUS: &'static str =
    "target_region_sector_image_readback_verified_not_durable_authority";
pub const HELLO_ROLLBACK_TARGET_REGION_WRITE_READBACK_DRY_RUN_REASON: &'static str =
    "planned_sector_image_written_and_read_back_on_target_region_current_boot";
pub const HELLO_ROLLBACK_TARGET_REGION_MATERIALIZER_MISSING_REASON: &'static str =
    "recovery_rollback_materialize_dry_run_missing";
pub const HELLO_ROLLBACK_TARGET_REGION_SECTOR_INSPECTION_SCHEMA: &'static str =
    "raios.ram_only_hello_service_rollback_target_region_sector_inspection.v0";
pub const HELLO_ROLLBACK_TARGET_REGION_SECTOR_INSPECTION_ID: &'static str =
    "hello_rollback_target_region_sector_inspection.current_boot.svc.demo.hello.v0";
pub const HELLO_ROLLBACK_TARGET_REGION_SECTOR_INSPECTION_STATUS: &'static str =
    "target_region_sector_read_parsed_not_durable_authority";
pub const HELLO_ROLLBACK_TARGET_REGION_SECTOR_INSPECTION_REASON: &'static str =
    "target_region_sector_read_and_append_offsets_verified_current_boot";
pub const HELLO_ROLLBACK_TARGET_REGION_INSPECTION_MISSING_REASON: &'static str =
    "recovery_rollback_inspect_missing";
pub const HELLO_ROLLBACK_TRANSACTION_WRITER_STORAGE_FOUNDATION_SCHEMA: &'static str =
    "raios.module_audit_rollback_append_contract.v0";

pub const HELLO_RECOVERY_ROLLBACK_INSPECT_SOURCE_REFERENCE_SCHEMA: &'static str =
    "raios.recovery_rollback_inspect_source_reference.v0";
pub const HELLO_RECOVERY_ROLLBACK_INSPECT_SOURCE_REFERENCE_ID: &'static str =
    "recovery_rollback_inspect_source.current_boot.svc.demo.hello.v0";
pub const HELLO_RECOVERY_ROLLBACK_INSPECT_SOURCE_REFERENCE_STATUS: &'static str =
    "retained_sector_inspection_source_reference";
pub const HELLO_RECOVERY_ROLLBACK_INSPECT_SOURCE_REFERENCE_REASON: &'static str =
    "retained_recovery_rollback_inspect_source_matches_sector_inspection";
pub const HELLO_RECOVERY_ROLLBACK_INSPECT_SOURCE_REFERENCE_MISSING_REASON: &'static str =
    "recovery_rollback_inspect_source_missing";
pub const HELLO_ROLLBACK_APPLY_CAPABILITY: &'static str = "cap.service.rollback_apply.current_boot";

} // verus!
