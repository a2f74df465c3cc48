//! The current-boot artifact load plan preflight and the RAM-only service
//! slot activation record: how they are built, hashed and validated, and
//! the preflight self-test.

use vstd::prelude::*;
use vstd::string::StringSliceAdditionalSpecFns;
use crate::canonical::{finalize_sha256, hash_line_bool, hash_line_hash, hash_line_str, line_bool, line_hash, line_str, sha256_bytes};
use crate::compare::{digest_eq, text_eq};
use crate::constants::{
    ARTIFACT_LOAD_PLAN_PREFLIGHT_ID, ARTIFACT_LOAD_PLAN_PREFLIGHT_SCHEMA,
    ARTIFACT_LOAD_PLAN_PREFLIGHT_SELFTEST_CASES, ARTIFACT_LOAD_PLAN_PREFLIGHT_STATUS,
    RAM_ONLY_SERVICE_SLOT_ID, SERVICE_SLOT_ACTIVATION_ID, SERVICE_SLOT_ACTIVATION_SCHEMA,
    SERVICE_SLOT_INTENT_ID, SERVICE_SLOT_INTENT_SCHEMA,
};
use crate::sha256::{sha256_absorbed, sha256_digest, sha256_new};

verus! {

/// The identity of the built-in artifact a load descriptor names.
#[derive(Clone, Copy)]
pub struct ArtifactIdentity {
    pub id: &'static str,
    pub artifact_id: &'static str,
    pub artifact_reference_id: &'static str,
}

/// A load descriptor selected from a descriptor source.
#[derive(Clone, Copy)]
pub struct LoadDescriptor {
    pub schema: &'static str,
    pub id: &'static str,
    pub canonicalization: &'static str,
    pub source_locator: &'static str,
    pub source_kind: &'static str,
    pub artifact_identity: ArtifactIdentity,
    pub service_id: &'static str,
    pub artifact_id: &'static str,
    pub artifact_kind: &'static str,
    pub scope: &'static str,
    pub classification: &'static str,
    pub persistence: &'static str,
}

/// The digests that the descriptor-source registry computes for a load
/// descriptor: of its source, of its artifact identity, of the identity's
/// content binding, of the artifact reference and of the artifact bytes.
#[derive(Clone, Copy)]
pub struct DescriptorDigests {
    pub descriptor_source_hash: [u8; 32],
    pub artifact_identity_hash: [u8; 32],
    pub artifact_content_binding_hash: [u8; 32],
    pub artifact_reference_hash: [u8; 32],
    pub artifact_bytes_sha256: [u8; 32],
}

/// The preflight that binds a load descriptor to the RAM-only service slot.
#[derive(Clone, Copy)]
pub struct ArtifactLoadPlanPreflightRecord {
    pub schema: &'static str,
    pub id: &'static str,
    pub scope: &'static str,
    pub classification: &'static str,
    pub status: &'static str,
    pub preflight_hash: [u8; 32],
    pub service_id: &'static str,
    pub artifact_id: &'static str,
    pub load_descriptor_id: &'static str,
    pub descriptor_source_locator: &'static str,
    pub descriptor_source_hash: [u8; 32],
    pub artifact_identity_id: &'static str,
    pub artifact_identity_hash: [u8; 32],
    pub artifact_content_binding_hash: [u8; 32],
    pub artifact_reference_id: &'static str,
    pub artifact_reference_hash: [u8; 32],
    pub artifact_bytes_sha256: [u8; 32],
    pub service_slot_intent_schema: &'static str,
    pub service_slot_intent_id: &'static str,
    pub ram_only_service_slot_id: &'static str,
    pub accepted: bool,
    pub authorizes_builtin_current_boot_start: bool,
    pub authorizes_candidate_artifact_execution: bool,
    pub accepts_external_artifact_bytes: bool,
    pub loads_candidate_bytes: bool,
    pub maps_executable_pages: bool,
    pub writes_persistent_state: bool,
    pub writes_durable_audit_log: bool,
    pub installs_rollback_plan: bool,
    pub grants_broad_mutation: bool,
}

/// The RAM-only service slot activation bound to a preflight.
#[derive(Clone, Copy)]
pub struct ServiceSlotActivationRecord {
    pub schema: &'static str,
    pub id: &'static str,
    pub scope: &'static str,
    pub classification: &'static str,
    pub persistence: &'static str,
    pub status: &'static str,
    pub activation_hash: [u8; 32],
    pub service_id: &'static str,
    pub artifact_id: &'static str,
    pub load_descriptor_id: &'static str,
    pub descriptor_source_hash: [u8; 32],
    pub artifact_load_plan_preflight_id: &'static str,
    pub artifact_load_plan_preflight_hash: [u8; 32],
    pub artifact_load_plan_preflight_status: &'static str,
    pub service_slot_intent_id: &'static str,
    pub ram_only_service_slot_id: &'static str,
    pub active: bool,
    pub accepted_preflight: bool,
    pub authorizes_builtin_current_boot_start: bool,
    pub authorizes_candidate_artifact_execution: bool,
    pub writes_persistent_state: bool,
}

/// One case of the preflight self-test.
#[derive(Clone, Copy)]
pub struct ArtifactLoadPlanPreflightSelftestCase {
    pub name: &'static str,
    pub expected_accept: bool,
    pub actual_accept: bool,
    pub passed: bool,
    pub reason: &'static str,
}

/// The canonical lines whose SHA-256 is a preflight's hash.
pub open spec fn preflight_record_stream(r: ArtifactLoadPlanPreflightRecord) -> Seq<u8> {
    line_str("schema", r.schema) + line_str("id", r.id) + line_str("scope", r.scope) + line_str(
        "classification",
        r.classification,
    ) + line_str("status", r.status) + line_str("service_id", r.service_id) + line_str(
        "artifact_id",
        r.artifact_id,
    ) + line_str("load_descriptor_id", r.load_descriptor_id) + line_str(
        "descriptor_source_locator",
        r.descriptor_source_locator,
    ) + line_hash("descriptor_source_sha256", r.descriptor_source_hash@) + line_str(
        "artifact_identity_id",
        r.artifact_identity_id,
    ) + line_hash("artifact_identity_sha256", r.artifact_identity_hash@) + line_hash(
        "artifact_content_binding_sha256",
        r.artifact_content_binding_hash@,
    ) + line_str("artifact_reference_id", r.artifact_reference_id) + line_hash(
        "artifact_reference_sha256",
        r.artifact_reference_hash@,
    ) + line_hash("artifact_bytes_sha256", r.artifact_bytes_sha256@) + line_str(
        "service_slot_intent_id",
        r.service_slot_intent_id,
    ) + line_str("ram_only_service_slot_id", r.ram_only_service_slot_id) + line_bool(
        "accepted",
        r.accepted,
    ) + line_bool(
        "authorizes_builtin_current_boot_start",
        r.authorizes_builtin_current_boot_start,
    ) + line_bool(
        "authorizes_candidate_artifact_execution",
        r.authorizes_candidate_artifact_execution,
    ) + line_bool("accepts_external_artifact_bytes", r.accepts_external_artifact_bytes)
        + line_bool("loads_candidate_bytes", r.loads_candidate_bytes) + line_bool(
        "maps_executable_pages",
        r.maps_executable_pages,
    ) + line_bool("writes_persistent_state", r.writes_persistent_state) + line_bool(
        "writes_durable_audit_log",
        r.writes_durable_audit_log,
    ) + line_bool("installs_rollback_plan", r.installs_rollback_plan) + line_bool(
        "grants_broad_mutation",
        r.grants_broad_mutation,
    )
}

/// The canonical lines whose SHA-256 is an activation record's hash.
pub open spec fn activation_record_stream(r: ServiceSlotActivationRecord) -> Seq<u8> {
    line_str("schema", r.schema) + line_str("id", r.id) + line_str("scope", r.scope) + line_str(
        "classification",
        r.classification,
    ) + line_str("persistence", r.persistence) + line_str("service_id", r.service_id) + line_str(
        "artifact_id",
        r.artifact_id,
    ) + line_str("load_descriptor_id", r.load_descriptor_id) + line_hash(
        "descriptor_source_sha256",
        r.descriptor_source_hash@,
    ) + line_str("artifact_load_plan_preflight_id", r.artifact_load_plan_preflight_id)
        + line_hash("artifact_load_plan_preflight_sha256", r.artifact_load_plan_preflight_hash@)
        + line_str("artifact_load_plan_preflight_status", r.artifact_load_plan_preflight_status)
        + line_str("service_slot_intent_id", r.service_slot_intent_id) + line_str(
        "ram_only_service_slot_id",
        r.ram_only_service_slot_id,
    ) + line_bool("accepted_preflight", r.accepted_preflight) + line_bool(
        "authorizes_builtin_current_boot_start",
        r.authorizes_builtin_current_boot_start,
    ) + line_bool(
        "authorizes_candidate_artifact_execution",
        r.authorizes_candidate_artifact_execution,
    ) + line_bool("writes_persistent_state", r.writes_persistent_state)
}

/// `r` is the preflight that the library builds for `descriptor`: every
/// field is the constant or the descriptor's value, and the hash is that of
/// its canonical lines.
pub open spec fn is_preflight_record_for(
    r: ArtifactLoadPlanPreflightRecord,
    descriptor: LoadDescriptor,
    digests: DescriptorDigests,
) -> bool {
    &&& r.schema == ARTIFACT_LOAD_PLAN_PREFLIGHT_SCHEMA
    &&& r.id == ARTIFACT_LOAD_PLAN_PREFLIGHT_ID
    &&& r.scope == "current_boot"
    &&& r.classification == "local_only"
    &&& r.status == ARTIFACT_LOAD_PLAN_PREFLIGHT_STATUS
    &&& r.preflight_hash@ == sha256_digest(preflight_record_stream(r))
    &&& r.service_id == descriptor.service_id
    &&& r.artifact_id == descriptor.artifact_id
    &&& r.load_descriptor_id == descriptor.id
    &&& r.descriptor_source_locator == descriptor.source_locator
    &&& r.descriptor_source_hash == digests.descriptor_source_hash
    &&& r.artifact_identity_id == descriptor.artifact_identity.id
    &&& r.artifact_identity_hash == digests.artifact_identity_hash
    &&& r.artifact_content_binding_hash == digests.artifact_content_binding_hash
    &&& r.artifact_reference_id == descriptor.artifact_identity.artifact_reference_id
    &&& r.artifact_reference_hash == digests.artifact_reference_hash
    &&& r.artifact_bytes_sha256 == digests.artifact_bytes_sha256
    &&& r.service_slot_intent_schema == SERVICE_SLOT_INTENT_SCHEMA
    &&& r.service_slot_intent_id == SERVICE_SLOT_INTENT_ID
    &&& r.ram_only_service_slot_id == RAM_ONLY_SERVICE_SLOT_ID
    &&& r.accepted
    &&& r.authorizes_builtin_current_boot_start
    &&& !r.authorizes_candidate_artifact_execution
    &&& !r.accepts_external_artifact_bytes
    &&& !r.loads_candidate_bytes
    &&& !r.maps_executable_pages
    &&& !r.writes_persistent_state
    &&& !r.writes_durable_audit_log
    &&& !r.installs_rollback_plan
    &&& !r.grants_broad_mutation
}

/// Whether the validator accepts `r` as the preflight of `descriptor`:
/// texts compared byte for byte, the hash recomputed, the digests bound and
/// every denial flag kept.
pub open spec fn preflight_record_accepted(
    r: ArtifactLoadPlanPreflightRecord,
    descriptor: LoadDescriptor,
    digests: DescriptorDigests,
) -> bool {
    &&& r.schema.spec_bytes() == ARTIFACT_LOAD_PLAN_PREFLIGHT_SCHEMA.spec_bytes()
    &&& r.id.spec_bytes() == ARTIFACT_LOAD_PLAN_PREFLIGHT_ID.spec_bytes()
    &&& r.scope.spec_bytes() == "current_boot".spec_bytes()
    &&& r.classification.spec_bytes() == "local_only".spec_bytes()
    &&& r.status.spec_bytes() == ARTIFACT_LOAD_PLAN_PREFLIGHT_STATUS.spec_bytes()
    &&& r.preflight_hash@ == sha256_digest(preflight_record_stream(r))
    &&& r.service_id.spec_bytes() == descriptor.service_id.spec_bytes()
    &&& r.artifact_id.spec_bytes() == descriptor.artifact_id.spec_bytes()
    &&& r.load_descriptor_id.spec_bytes() == descriptor.id.spec_bytes()
    &&& r.descriptor_source_locator.spec_bytes() == descriptor.source_locator.spec_bytes()
    &&& r.descriptor_source_hash@ == digests.descriptor_source_hash@
    &&& r.artifact_identity_id.spec_bytes() == descriptor.artifact_identity.id.spec_bytes()
    &&& r.artifact_identity_hash@ == digests.artifact_identity_hash@
    &&& r.artifact_content_binding_hash@ == digests.artifact_content_binding_hash@
    &&& r.artifact_reference_id.spec_bytes()
        == descriptor.artifact_identity.artifact_reference_id.spec_bytes()
    &&& r.artifact_reference_hash@ == digests.artifact_reference_hash@
    &&& r.artifact_bytes_sha256@ == digests.artifact_bytes_sha256@
    &&& r.service_slot_intent_schema.spec_bytes() == SERVICE_SLOT_INTENT_SCHEMA.spec_bytes()
    &&& r.service_slot_intent_id.spec_bytes() == SERVICE_SLOT_INTENT_ID.spec_bytes()
    &&& r.ram_only_service_slot_id.spec_bytes() == RAM_ONLY_SERVICE_SLOT_ID.spec_bytes()
    &&& r.accepted
    &&& r.authorizes_builtin_current_boot_start
    &&& !r.authorizes_candidate_artifact_execution
    &&& !r.accepts_external_artifact_bytes
    &&& !r.loads_candidate_bytes
    &&& !r.maps_executable_pages
    &&& !r.writes_persistent_state
    &&& !r.writes_durable_audit_log
    &&& !r.installs_rollback_plan
    &&& !r.grants_broad_mutation
}

/// `out` is `r` with its hash recomputed from its canonical lines.
pub open spec fn is_rehash_of(out: ArtifactLoadPlanPreflightRecord, r: ArtifactLoadPlanPreflightRecord) -> bool {
    &&& out == (ArtifactLoadPlanPreflightRecord { preflight_hash: out.preflight_hash, ..r })
    &&& out.preflight_hash@ == sha256_digest(preflight_record_stream(r))
}

/// Builds the preflight for `descriptor`, bound to its digests.
pub fn artifact_load_plan_preflight_record(
    descriptor: LoadDescriptor,
    digests: DescriptorDigests,
) -> (record: ArtifactLoadPlanPreflightRecord)
    ensures
        is_preflight_record_for(record, descriptor, digests),
{
    let mut record = ArtifactLoadPlanPreflightRecord {
        schema: ARTIFACT_LOAD_PLAN_PREFLIGHT_SCHEMA,
        id: ARTIFACT_LOAD_PLAN_PREFLIGHT_ID,
        scope: "current_boot",
        classification: "local_only",
        status: ARTIFACT_LOAD_PLAN_PREFLIGHT_STATUS,
        preflight_hash: [0; 32],
        service_id: descriptor.service_id,
        artifact_id: descriptor.artifact_id,
        load_descriptor_id: descriptor.id,
        descriptor_source_locator: descriptor.source_locator,
        descriptor_source_hash: digests.descriptor_source_hash,
        artifact_identity_id: descriptor.artifact_identity.id,
        artifact_identity_hash: digests.artifact_identity_hash,
        artifact_content_binding_hash: digests.artifact_content_binding_hash,
        artifact_reference_id: descriptor.artifact_identity.artifact_reference_id,
        artifact_reference_hash: digests.artifact_reference_hash,
        artifact_bytes_sha256: digests.artifact_bytes_sha256,
        service_slot_intent_schema: SERVICE_SLOT_INTENT_SCHEMA,
        service_slot_intent_id: SERVICE_SLOT_INTENT_ID,
        ram_only_service_slot_id: RAM_ONLY_SERVICE_SLOT_ID,
        accepted: true,
        authorizes_builtin_current_boot_start: true,
        authorizes_candidate_artifact_execution: false,
        accepts_external_artifact_bytes: false,
        loads_candidate_bytes: false,
        maps_executable_pages: false,
        writes_persistent_state: false,
        writes_durable_audit_log: false,
        installs_rollback_plan: false,
        grants_broad_mutation: false,
    };
    record.preflight_hash = artifact_load_plan_preflight_record_hash(record);
    record
}

/// The SHA-256 of a preflight's canonical lines.
pub fn artifact_load_plan_preflight_record_hash(record: ArtifactLoadPlanPreflightRecord) -> (digest: [u8; 32])
    ensures
        digest@ == sha256_digest(preflight_record_stream(record)),
{
    let mut hash = sha256_new();
    hash_line_str(&mut hash, "schema", record.schema);
    assert(sha256_absorbed(hash) =~= line_str("schema", record.schema));
    hash_line_str(&mut hash, "id", record.id);
    hash_line_str(&mut hash, "scope", record.scope);
    hash_line_str(&mut hash, "classification", record.classification);
    hash_line_str(&mut hash, "status", record.status);
    hash_line_str(&mut hash, "service_id", record.service_id);
    hash_line_str(&mut hash, "artifact_id", record.artifact_id);
    hash_line_str(&mut hash, "load_descriptor_id", record.load_descriptor_id);
    hash_line_str(&mut hash, "descriptor_source_locator", record.descriptor_source_locator);
    hash_line_hash(&mut hash, "descriptor_source_sha256", record.descriptor_source_hash);
    hash_line_str(&mut hash, "artifact_identity_id", record.artifact_identity_id);
    hash_line_hash(&mut hash, "artifact_identity_sha256", record.artifact_identity_hash);
    hash_line_hash(
        &mut hash,
        "artifact_content_binding_sha256",
        record.artifact_content_binding_hash,
    );
    hash_line_str(&mut hash, "artifact_reference_id", record.artifact_reference_id);
    hash_line_hash(&mut hash, "artifact_reference_sha256", record.artifact_reference_hash);
    hash_line_hash(&mut hash, "artifact_bytes_sha256", record.artifact_bytes_sha256);
    hash_line_str(&mut hash, "service_slot_intent_id", record.service_slot_intent_id);
    hash_line_str(&mut hash, "ram_only_service_slot_id", record.ram_only_service_slot_id);
    hash_line_bool(&mut hash, "accepted", record.accepted);
    hash_line_bool(
        &mut hash,
        "authorizes_builtin_current_boot_start",
        record.authorizes_builtin_current_boot_start,
    );
    hash_line_bool(
        &mut hash,
        "authorizes_candidate_artifact_execution",
        record.authorizes_candidate_artifact_execution,
    );
    hash_line_bool(
        &mut hash,
        "accepts_external_artifact_bytes",
        record.accepts_external_artifact_bytes,
    );
    hash_line_bool(&mut hash, "loads_candidate_bytes", record.loads_candidate_bytes);
    hash_line_bool(&mut hash, "maps_executable_pages", record.maps_executable_pages);
    hash_line_bool(&mut hash, "writes_persistent_state", record.writes_persistent_state);
    hash_line_bool(&mut hash, "writes_durable_audit_log", record.writes_durable_audit_log);
    hash_line_bool(&mut hash, "installs_rollback_plan", record.installs_rollback_plan);
    hash_line_bool(&mut hash, "grants_broad_mutation", record.grants_broad_mutation);
    finalize_sha256(hash)
}

/// `r` is the activation record the library builds for `descriptor` with
/// the given status and activity.
pub open spec fn is_activation_record_for(
    r: ServiceSlotActivationRecord,
    descriptor: LoadDescriptor,
    digests: DescriptorDigests,
    status: &'static str,
    active: bool,
) -> bool {
    &&& r.schema == SERVICE_SLOT_ACTIVATION_SCHEMA
    &&& r.id == SERVICE_SLOT_ACTIVATION_ID
    &&& r.scope == "current_boot"
    &&& r.classification == "local_only"
    &&& r.persistence == "none"
    &&& r.status == status
    &&& r.activation_hash@ == sha256_digest(activation_record_stream(r))
    &&& r.service_id == descriptor.service_id
    &&& r.artifact_id == descriptor.artifact_id
    &&& r.load_descriptor_id == descriptor.id
    &&& r.descriptor_source_hash == digests.descriptor_source_hash
    &&& r.artifact_load_plan_preflight_id == ARTIFACT_LOAD_PLAN_PREFLIGHT_ID
    &&& exists|p: ArtifactLoadPlanPreflightRecord|
        #[trigger] is_preflight_record_for(p, descriptor, digests)
            && r.artifact_load_plan_preflight_hash == p.preflight_hash
    &&& r.artifact_load_plan_preflight_status == ARTIFACT_LOAD_PLAN_PREFLIGHT_STATUS
    &&& r.service_slot_intent_id == SERVICE_SLOT_INTENT_ID
    &&& r.ram_only_service_slot_id == RAM_ONLY_SERVICE_SLOT_ID
    &&& r.active == active
    &&& r.accepted_preflight
    &&& r.authorizes_builtin_current_boot_start
    &&& !r.authorizes_candidate_artifact_execution
    &&& !r.writes_persistent_state
}

/// Builds the service slot activation record for `descriptor`, carrying
/// the hash of the descriptor's preflight.
pub fn service_slot_activation_record(
    descriptor: LoadDescriptor,
    digests: DescriptorDigests,
    status: &'static str,
    active: bool,
) -> (record: ServiceSlotActivationRecord)
    ensures
        is_activation_record_for(record, descriptor, digests, status, active),
{
    let preflight = artifact_load_plan_preflight_record(descriptor, digests);
    let mut record = ServiceSlotActivationRecord {
        schema: SERVICE_SLOT_ACTIVATION_SCHEMA,
        id: SERVICE_SLOT_ACTIVATION_ID,
        scope: "current_boot",
        classification: "local_only",
        persistence: "none",
        status,
        activation_hash: [0; 32],
        service_id: descriptor.service_id,
        artifact_id: descriptor.artifact_id,
        load_descriptor_id: descriptor.id,
        descriptor_source_hash: digests.descriptor_source_hash,
        artifact_load_plan_preflight_id: preflight.id,
        artifact_load_plan_preflight_hash: preflight.preflight_hash,
        artifact_load_plan_preflight_status: preflight.status,
        service_slot_intent_id: preflight.service_slot_intent_id,
        ram_only_service_slot_id: preflight.ram_only_service_slot_id,
        active,
        accepted_preflight: preflight.accepted,
        authorizes_builtin_current_boot_start: preflight.authorizes_builtin_current_boot_start,
        authorizes_candidate_artifact_execution: preflight.authorizes_candidate_artifact_execution,
        writes_persistent_state: preflight.writes_persistent_state,
    };
    record.activation_hash = service_slot_activation_record_hash(record);
    assert(is_preflight_record_for(preflight, descriptor, digests));
    record
}

/// The SHA-256 of an activation record's canonical lines.
pub fn service_slot_activation_record_hash(record: ServiceSlotActivationRecord) -> (digest: [u8; 32])
    ensures
        digest@ == sha256_digest(activation_record_stream(record)),
{
    let mut hash = sha256_new();
    hash_line_str(&mut hash, "schema", record.schema);
    assert(sha256_absorbed(hash) =~= line_str("schema", record.schema));
    hash_line_str(&mut hash, "id", record.id);
    hash_line_str(&mut hash, "scope", record.scope);
    hash_line_str(&mut hash, "classification", record.classification);
    hash_line_str(&mut hash, "persistence", record.persistence);
    hash_line_str(&mut hash, "service_id", record.service_id);
    hash_line_str(&mut hash, "artifact_id", record.artifact_id);
    hash_line_str(&mut hash, "load_descriptor_id", record.load_descriptor_id);
    hash_line_hash(&mut hash, "descriptor_source_sha256", record.descriptor_source_hash);
    hash_line_str(
        &mut hash,
        "artifact_load_plan_preflight_id",
        record.artifact_load_plan_preflight_id,
    );
    hash_line_hash(
        &mut hash,
        "artifact_load_plan_preflight_sha256",
        record.artifact_load_plan_preflight_hash,
    );
    hash_line_str(
        &mut hash,
        "artifact_load_plan_preflight_status",
        record.artifact_load_plan_preflight_status,
    );
    hash_line_str(&mut hash, "service_slot_intent_id", record.service_slot_intent_id);
    hash_line_str(&mut hash, "ram_only_service_slot_id", record.ram_only_service_slot_id);
    hash_line_bool(&mut hash, "accepted_preflight", record.accepted_preflight);
    hash_line_bool(
        &mut hash,
        "authorizes_builtin_current_boot_start",
        record.authorizes_builtin_current_boot_start,
    );
    hash_line_bool(
        &mut hash,
        "authorizes_candidate_artifact_execution",
        record.authorizes_candidate_artifact_execution,
    );
    hash_line_bool(&mut hash, "writes_persistent_state", record.writes_persistent_state);
    finalize_sha256(hash)
}

/// Checks that `record` is the preflight of `descriptor`: its texts, its
/// hash, the descriptor's digests and its denial flags.
pub fn validate_artifact_load_plan_preflight_record(
    record: ArtifactLoadPlanPreflightRecord,
    descriptor: LoadDescriptor,
    digests: DescriptorDigests,
) -> (accepted: bool)
    ensures
        accepted == preflight_record_accepted(record, descriptor, digests),
{
    let rehashed = artifact_load_plan_preflight_record_hash(record);
    text_eq(record.schema, ARTIFACT_LOAD_PLAN_PREFLIGHT_SCHEMA)
        && text_eq(record.id, ARTIFACT_LOAD_PLAN_PREFLIGHT_ID)
        && text_eq(record.scope, "current_boot")
        && text_eq(record.classification, "local_only")
        && text_eq(record.status, ARTIFACT_LOAD_PLAN_PREFLIGHT_STATUS)
        && digest_eq(&record.preflight_hash, &rehashed)
        && text_eq(record.service_id, descriptor.service_id)
        && text_eq(record.artifact_id, descriptor.artifact_id)
        && text_eq(record.load_descriptor_id, descriptor.id)
        && text_eq(record.descriptor_source_locator, descriptor.source_locator)
        && digest_eq(&record.descriptor_source_hash, &digests.descriptor_source_hash)
        && text_eq(record.artifact_identity_id, descriptor.artifact_identity.id)
        && digest_eq(&record.artifact_identity_hash, &digests.artifact_identity_hash)
        && digest_eq(
            &record.artifact_content_binding_hash,
            &digests.artifact_content_binding_hash,
        ) && text_eq(
            record.artifact_reference_id,
            descriptor.artifact_identity.artifact_reference_id,
        ) && digest_eq(&record.artifact_reference_hash, &digests.artifact_reference_hash)
        && digest_eq(&record.artifact_bytes_sha256, &digests.artifact_bytes_sha256)
        && text_eq(record.service_slot_intent_schema, SERVICE_SLOT_INTENT_SCHEMA)
        && text_eq(record.service_slot_intent_id, SERVICE_SLOT_INTENT_ID)
        && text_eq(record.ram_only_service_slot_id, RAM_ONLY_SERVICE_SLOT_ID)
        && record.accepted && record.authorizes_builtin_current_boot_start
        && !record.authorizes_candidate_artifact_execution
        && !record.accepts_external_artifact_bytes && !record.loads_candidate_bytes
        && !record.maps_executable_pages && !record.writes_persistent_state
        && !record.writes_durable_audit_log && !record.installs_rollback_plan
        && !record.grants_broad_mutation
}

/// `record` with its hash recomputed from its canonical lines.
pub fn rehash_preflight_record(record: ArtifactLoadPlanPreflightRecord) -> (out: ArtifactLoadPlanPreflightRecord)
    ensures
        is_rehash_of(out, record),
{
    let mut record = record;
    record.preflight_hash = artifact_load_plan_preflight_record_hash(record);
    record
}

/// A self-test case: it passes when the validator's verdict is the expected one.
pub fn preflight_case(
    name: &'static str,
    expected_accept: bool,
    actual_accept: bool,
    reason: &'static str,
) -> (case: ArtifactLoadPlanPreflightSelftestCase)
    ensures
        case == (ArtifactLoadPlanPreflightSelftestCase {
            name,
            expected_accept,
            actual_accept,
            passed: expected_accept == actual_accept,
            reason,
        }),
{
    ArtifactLoadPlanPreflightSelftestCase {
        name,
        expected_accept,
        actual_accept,
        passed: expected_accept == actual_accept,
        reason,
    }
}

/// The version a descriptor's artifact carries: `v2` when its artifact
/// identity is the replacement identity `v2_identity_id`, else `v1`.
pub fn service_version(descriptor: LoadDescriptor, v2_identity_id: &str) -> (version: &'static str)
    ensures
        version == (if descriptor.artifact_identity.id.spec_bytes() == v2_identity_id.spec_bytes() {
            "v2"
        } else {
            "v1"
        }),
{
    if text_eq(descriptor.artifact_identity.id, v2_identity_id) {
        "v2"
    } else {
        "v1"
    }
}

/// The preflight of `descriptor` for its digests: the hash of the record
/// that `artifact_load_plan_preflight_record` builds.
pub fn artifact_load_plan_preflight_hash(descriptor: LoadDescriptor, digests: DescriptorDigests) -> (digest: [u8; 32])
    ensures
        exists|p: ArtifactLoadPlanPreflightRecord|
            #[trigger] is_preflight_record_for(p, descriptor, digests) && digest == p.preflight_hash,
{
    let record = artifact_load_plan_preflight_record(descriptor, digests);
    assert(is_preflight_record_for(record, descriptor, digests));
    record.preflight_hash
}

/// The hash of the active service slot activation record of `descriptor`.
pub fn service_slot_activation_hash(descriptor: LoadDescriptor, digests: DescriptorDigests) -> (digest: [u8; 32])
    ensures
        exists|r: ServiceSlotActivationRecord|
            #[trigger] is_activation_record_for(
                r,
                descriptor,
                digests,
                crate::constants::SERVICE_SLOT_ACTIVATION_ACTIVE_STATUS,
                true,
            ) && digest == r.activation_hash,
{
    let record = service_slot_activation_record(
        descriptor,
        digests,
        crate::constants::SERVICE_SLOT_ACTIVATION_ACTIVE_STATUS,
        true,
    );
    record.activation_hash
}

/// The text whose SHA-256 is the preflight self-test's diagnostic hash.
pub const ARTIFACT_LOAD_PLAN_PREFLIGHT_SELFTEST_TEXT: &'static str = "schema=raios.current_boot_artifact_load_plan_preflight_selftest.v0\n\
id=artifact_load_plan_preflight_selftest.current_boot.svc.demo.hello.v0\n\
cases=valid_preflight,tampered_descriptor_source_hash,tampered_artifact_identity_hash,tampered_content_binding_hash,tampered_artifact_reference_hash,tampered_artifact_bytes_hash,tampered_service_slot_intent,tampered_denial_flags";

/// The text whose SHA-256 is the inspect source reference self-test's
/// diagnostic hash.
pub const RECOVERY_ROLLBACK_INSPECT_SOURCE_REFERENCE_SELFTEST_TEXT: &'static str = "schema=raios.recovery_rollback_inspect_source_reference_selftest.v0\n\
id=recovery_rollback_inspect_source_reference_selftest.current_boot.svc.demo.hello.v0\n\
cases=valid_source_reference,missing_or_unretained_source_event_id,wrong_source_read_binding,missing_or_unretained_audit_event_id,wrong_audit_event_variant,substituted_hashes_denied,authorizing_source_reference_denied";

/// The diagnostic hash of the preflight self-test.
pub fn artifact_load_plan_preflight_selftest_hash() -> (digest: [u8; 32])
    ensures
        digest@ == sha256_digest(ARTIFACT_LOAD_PLAN_PREFLIGHT_SELFTEST_TEXT.spec_bytes()),
{
    sha256_bytes(ARTIFACT_LOAD_PLAN_PREFLIGHT_SELFTEST_TEXT.as_bytes())
}

/// The diagnostic hash of the inspect source reference self-test.
pub fn recovery_rollback_inspect_source_reference_selftest_hash() -> (digest: [u8; 32])
    ensures
        digest@ == sha256_digest(RECOVERY_ROLLBACK_INSPECT_SOURCE_REFERENCE_SELFTEST_TEXT.spec_bytes()),
{
    sha256_bytes(RECOVERY_ROLLBACK_INSPECT_SOURCE_REFERENCE_SELFTEST_TEXT.as_bytes())
}

/// Thirty-two copies of `b`.
pub open spec fn filled(b: u8) -> Seq<u8> {
    Seq::new(32, |_i: int| b)
}

/// `case` has the given name, expectation, verdict and reason, and passes
/// exactly when the verdict is the expectation.
pub open spec fn is_selftest_case(
    case: ArtifactLoadPlanPreflightSelftestCase,
    name: &'static str,
    expected_accept: bool,
    actual_accept: bool,
    reason: &'static str,
) -> bool {
    case == (ArtifactLoadPlanPreflightSelftestCase {
        name,
        expected_accept,
        actual_accept,
        passed: expected_accept == actual_accept,
        reason,
    })
}

proof fn lemma_fill_view(a: [u8; 32], b: u8)
    requires
        forall|i: int| 0 <= i < 32 ==> a@[i] == b,
    ensures
        a@ == filled(b),
{
    assert(a@ =~= filled(b));
}

proof fn lemma_bad_slot_ids_differ()
    ensures
        "service_slot_intent.current_boot.svc.demo.bad.v0".spec_bytes()
            != SERVICE_SLOT_INTENT_ID.spec_bytes(),
{
    reveal_strlit("service_slot_intent.current_boot.svc.demo.bad.v0");
    reveal_strlit("service_slot_intent.current_boot.svc.demo.hello.v0");
    vstd::utf8::encode_utf8_decode_utf8("service_slot_intent.current_boot.svc.demo.bad.v0"@);
    vstd::utf8::encode_utf8_decode_utf8(SERVICE_SLOT_INTENT_ID@);
}

/// Runs the preflight self-test on `descriptor`: the genuine preflight and
/// seven tampered and rehashed copies of it, each against the validator.
/// A tampered digest is caught unless the descriptor's own digest happens
/// to be the filler the test writes.
#[verifier::rlimit(40)]
pub fn artifact_load_plan_preflight_selftest_cases(
    descriptor: LoadDescriptor,
    digests: DescriptorDigests,
) -> (cases: [ArtifactLoadPlanPreflightSelftestCase; ARTIFACT_LOAD_PLAN_PREFLIGHT_SELFTEST_CASES])
    ensures
        is_selftest_case(
            cases@[0],
            "valid_current_boot_load_plan_preflight",
            true,
            true,
            "accepted_current_boot_load_plan_preflight",
        ),
        is_selftest_case(
            cases@[1],
            "tampered_descriptor_source_hash_denied",
            false,
            filled(0x11) == digests.descriptor_source_hash@,
            "preflight_must_bind_selected_descriptor_source_hash",
        ),
        is_selftest_case(
            cases@[2],
            "tampered_artifact_identity_hash_denied",
            false,
            filled(0x22) == digests.artifact_identity_hash@,
            "preflight_must_bind_artifact_identity_hash",
        ),
        is_selftest_case(
            cases@[3],
            "tampered_content_binding_hash_denied",
            false,
            filled(0x33) == digests.artifact_content_binding_hash@,
            "preflight_must_bind_content_binding_hash",
        ),
        is_selftest_case(
            cases@[4],
            "tampered_artifact_reference_hash_denied",
            false,
            filled(0x44) == digests.artifact_reference_hash@,
            "preflight_must_bind_artifact_reference_hash",
        ),
        is_selftest_case(
            cases@[5],
            "tampered_artifact_bytes_hash_denied",
            false,
            filled(0x55) == digests.artifact_bytes_sha256@,
            "preflight_must_bind_artifact_bytes_hash",
        ),
        is_selftest_case(
            cases@[6],
            "tampered_service_slot_intent_denied",
            false,
            false,
            "preflight_must_bind_ram_only_service_slot_intent",
        ),
        is_selftest_case(
            cases@[7],
            "tampered_denial_flags_denied",
            false,
            false,
            "preflight_must_keep_candidate_execution_and_mapping_denied",
        ),
{
    let valid = artifact_load_plan_preflight_record(descriptor, digests);
    proof {
        lemma_built_preflight_is_accepted(valid, descriptor, digests);
        lemma_bad_slot_ids_differ();
    }
    let mut bad_descriptor_source = valid;
    bad_descriptor_source.descriptor_source_hash = [0x11; 32];
    proof { lemma_fill_view(bad_descriptor_source.descriptor_source_hash, 0x11); }
    let mut bad_artifact_identity = valid;
    bad_artifact_identity.artifact_identity_hash = [0x22; 32];
    proof { lemma_fill_view(bad_artifact_identity.artifact_identity_hash, 0x22); }
    let mut bad_content_binding = valid;
    bad_content_binding.artifact_content_binding_hash = [0x33; 32];
    proof { lemma_fill_view(bad_content_binding.artifact_content_binding_hash, 0x33); }
    let mut bad_artifact_reference = valid;
    bad_artifact_reference.artifact_reference_hash = [0x44; 32];
    proof { lemma_fill_view(bad_artifact_reference.artifact_reference_hash, 0x44); }
    let mut bad_artifact_bytes = valid;
    bad_artifact_bytes.artifact_bytes_sha256 = [0x55; 32];
    proof { lemma_fill_view(bad_artifact_bytes.artifact_bytes_sha256, 0x55); }
    let mut bad_service_slot = valid;
    bad_service_slot.service_slot_intent_id = "service_slot_intent.current_boot.svc.demo.bad.v0";
    bad_service_slot.ram_only_service_slot_id = "ram_only:svc.demo.bad";
    let mut bad_denial_flags = valid;
    bad_denial_flags.authorizes_candidate_artifact_execution = true;
    bad_denial_flags.maps_executable_pages = true;

    let valid_accepted = validate_artifact_load_plan_preflight_record(valid, descriptor, digests);
    let r1 = rehash_preflight_record(bad_descriptor_source);
    let a1 = validate_artifact_load_plan_preflight_record(r1, descriptor, digests);
    proof {
        lemma_preflight_accepted_iff_built_content(r1, valid, descriptor, digests);
        assert(a1 == (filled(0x11) == digests.descriptor_source_hash@));
    }
    let r2 = rehash_preflight_record(bad_artifact_identity);
    let a2 = validate_artifact_load_plan_preflight_record(r2, descriptor, digests);
    proof {
        lemma_preflight_accepted_iff_built_content(r2, valid, descriptor, digests);
        assert(a2 == (filled(0x22) == digests.artifact_identity_hash@));
    }
    let r3 = rehash_preflight_record(bad_content_binding);
    let a3 = validate_artifact_load_plan_preflight_record(r3, descriptor, digests);
    proof {
        lemma_preflight_accepted_iff_built_content(r3, valid, descriptor, digests);
        assert(a3 == (filled(0x33) == digests.artifact_content_binding_hash@));
    }
    let r4 = rehash_preflight_record(bad_artifact_reference);
    let a4 = validate_artifact_load_plan_preflight_record(r4, descriptor, digests);
    proof {
        lemma_preflight_accepted_iff_built_content(r4, valid, descriptor, digests);
        assert(a4 == (filled(0x44) == digests.artifact_reference_hash@));
    }
    let r5 = rehash_preflight_record(bad_artifact_bytes);
    let a5 = validate_artifact_load_plan_preflight_record(r5, descriptor, digests);
    proof {
        lemma_preflight_accepted_iff_built_content(r5, valid, descriptor, digests);
        assert(a5 == (filled(0x55) == digests.artifact_bytes_sha256@));
    }
    let r6 = rehash_preflight_record(bad_service_slot);
    let a6 = validate_artifact_load_plan_preflight_record(r6, descriptor, digests);
    assert(!a6);
    let r7 = rehash_preflight_record(bad_denial_flags);
    let a7 = validate_artifact_load_plan_preflight_record(r7, descriptor, digests);
    assert(!a7);
    [
        preflight_case(
            "valid_current_boot_load_plan_preflight",
            true,
            valid_accepted,
            "accepted_current_boot_load_plan_preflight",
        ),
        preflight_case(
            "tampered_descriptor_source_hash_denied",
            false,
            a1,
            "preflight_must_bind_selected_descriptor_source_hash",
        ),
        preflight_case(
            "tampered_artifact_identity_hash_denied",
            false,
            a2,
            "preflight_must_bind_artifact_identity_hash",
        ),
        preflight_case(
            "tampered_content_binding_hash_denied",
            false,
            a3,
            "preflight_must_bind_content_binding_hash",
        ),
        preflight_case(
            "tampered_artifact_reference_hash_denied",
            false,
            a4,
            "preflight_must_bind_artifact_reference_hash",
        ),
        preflight_case(
            "tampered_artifact_bytes_hash_denied",
            false,
            a5,
            "preflight_must_bind_artifact_bytes_hash",
        ),
        preflight_case(
            "tampered_service_slot_intent_denied",
            false,
            a6,
            "preflight_must_bind_ram_only_service_slot_intent",
        ),
        preflight_case(
            "tampered_denial_flags_denied",
            false,
            a7,
            "preflight_must_keep_candidate_execution_and_mapping_denied",
        ),
    ]
}

/// Two preflights with the same bytes in every text, the same digests and
/// the same flags (the stored hash aside).
pub open spec fn same_preflight_content(a: ArtifactLoadPlanPreflightRecord, b: ArtifactLoadPlanPreflightRecord) -> bool {
    &&& a.schema.spec_bytes() == b.schema.spec_bytes()
    &&& a.id.spec_bytes() == b.id.spec_bytes()
    &&& a.scope.spec_bytes() == b.scope.spec_bytes()
    &&& a.classification.spec_bytes() == b.classification.spec_bytes()
    &&& a.status.spec_bytes() == b.status.spec_bytes()
    &&& a.service_id.spec_bytes() == b.service_id.spec_bytes()
    &&& a.artifact_id.spec_bytes() == b.artifact_id.spec_bytes()
    &&& a.load_descriptor_id.spec_bytes() == b.load_descriptor_id.spec_bytes()
    &&& a.descriptor_source_locator.spec_bytes() == b.descriptor_source_locator.spec_bytes()
    &&& a.descriptor_source_hash@ == b.descriptor_source_hash@
    &&& a.artifact_identity_id.spec_bytes() == b.artifact_identity_id.spec_bytes()
    &&& a.artifact_identity_hash@ == b.artifact_identity_hash@
    &&& a.artifact_content_binding_hash@ == b.artifact_content_binding_hash@
    &&& a.artifact_reference_id.spec_bytes() == b.artifact_reference_id.spec_bytes()
    &&& a.artifact_reference_hash@ == b.artifact_reference_hash@
    &&& a.artifact_bytes_sha256@ == b.artifact_bytes_sha256@
    &&& a.service_slot_intent_schema.spec_bytes() == b.service_slot_intent_schema.spec_bytes()
    &&& a.service_slot_intent_id.spec_bytes() == b.service_slot_intent_id.spec_bytes()
    &&& a.ram_only_service_slot_id.spec_bytes() == b.ram_only_service_slot_id.spec_bytes()
    &&& a.accepted == b.accepted
    &&& a.authorizes_builtin_current_boot_start == b.authorizes_builtin_current_boot_start
    &&& a.authorizes_candidate_artifact_execution == b.authorizes_candidate_artifact_execution
    &&& a.accepts_external_artifact_bytes == b.accepts_external_artifact_bytes
    &&& a.loads_candidate_bytes == b.loads_candidate_bytes
    &&& a.maps_executable_pages == b.maps_executable_pages
    &&& a.writes_persistent_state == b.writes_persistent_state
    &&& a.writes_durable_audit_log == b.writes_durable_audit_log
    &&& a.installs_rollback_plan == b.installs_rollback_plan
    &&& a.grants_broad_mutation == b.grants_broad_mutation
}

/// The preflight that the builder makes for a descriptor is accepted by
/// the validator for that descriptor.
pub proof fn lemma_built_preflight_is_accepted(
    record: ArtifactLoadPlanPreflightRecord,
    descriptor: LoadDescriptor,
    digests: DescriptorDigests,
)
    requires
        is_preflight_record_for(record, descriptor, digests),
    ensures
        preflight_record_accepted(record, descriptor, digests),
{
}

/// The validator accepts exactly the records that carry the built
/// preflight's content and the hash of their own canonical lines; a record
/// that differs from it in any bound text, digest or flag is refused, even
/// when its hash has been recomputed.
pub proof fn lemma_preflight_accepted_iff_built_content(
    record: ArtifactLoadPlanPreflightRecord,
    built: ArtifactLoadPlanPreflightRecord,
    descriptor: LoadDescriptor,
    digests: DescriptorDigests,
)
    requires
        is_preflight_record_for(built, descriptor, digests),
    ensures
        preflight_record_accepted(record, descriptor, digests) <==> (same_preflight_content(
            record,
            built,
        ) && record.preflight_hash@ == sha256_digest(preflight_record_stream(record))),
        same_preflight_content(record, built) ==> preflight_record_stream(record)
            == preflight_record_stream(built),
{
    reveal(line_str);
    reveal(line_hash);
    reveal(line_bool);
}

/// Recomputing the hash of a rehashed preflight changes nothing.
pub proof fn lemma_rehash_is_stable(
    record: ArtifactLoadPlanPreflightRecord,
    once: ArtifactLoadPlanPreflightRecord,
    twice: ArtifactLoadPlanPreflightRecord,
)
    requires
        is_rehash_of(once, record),
        is_rehash_of(twice, once),
    ensures
        twice == once,
{
    reveal(line_str);
    reveal(line_hash);
    reveal(line_bool);
    assert(preflight_record_stream(once) == preflight_record_stream(record));
    assert(twice.preflight_hash@ == once.preflight_hash@);
    assert(twice.preflight_hash =~= once.preflight_hash);
}

/// How many of `cases` passed.
pub open spec fn passed_count_of(cases: Seq<ArtifactLoadPlanPreflightSelftestCase>) -> nat
    decreases cases.len(),
{
    if cases.len() == 0 {
        0
    } else {
        passed_count_of(cases.drop_last()) + if cases.last().passed {
            1nat
        } else {
            0nat
        }
    }
}

/// How many of the self-test `cases` passed, as the self-test reports it.
pub fn artifact_load_plan_preflight_selftest_passed_count(
    cases: &[ArtifactLoadPlanPreflightSelftestCase],
) -> (count: usize)
    ensures
        count == passed_count_of(cases@),
        count <= cases@.len(),
{
    let mut count: usize = 0;
    let mut idx: usize = 0;
    while idx < cases.len()
        invariant
            0 <= idx <= cases@.len(),
            count == passed_count_of(cases@.subrange(0, idx as int)),
            count <= idx,
        decreases cases@.len() - idx,
    {
        assert(cases@.subrange(0, idx as int + 1).drop_last() =~= cases@.subrange(0, idx as int));
        if cases[idx].passed {
            count = count + 1;
        }
        idx = idx + 1;
    }
    assert(cases@.subrange(0, cases@.len() as int) =~= cases@);
    count
}

/// The preflight self-test passes entirely exactly when none of the
/// descriptor's five digests happens to be the filler that the test writes
/// over it.
pub proof fn lemma_selftest_passes_unless_a_digest_is_its_filler(
    cases: Seq<ArtifactLoadPlanPreflightSelftestCase>,
    digests: DescriptorDigests,
)
    requires
        cases.len() == ARTIFACT_LOAD_PLAN_PREFLIGHT_SELFTEST_CASES,
        is_selftest_case(
            cases[0],
            "valid_current_boot_load_plan_preflight",
            true,
            true,
            "accepted_current_boot_load_plan_preflight",
        ),
        is_selftest_case(
            cases[1],
            "tampered_descriptor_source_hash_denied",
            false,
            filled(0x11) == digests.descriptor_source_hash@,
            "preflight_must_bind_selected_descriptor_source_hash",
        ),
        is_selftest_case(
            cases[2],
            "tampered_artifact_identity_hash_denied",
            false,
            filled(0x22) == digests.artifact_identity_hash@,
            "preflight_must_bind_artifact_identity_hash",
        ),
        is_selftest_case(
            cases[3],
            "tampered_content_binding_hash_denied",
            false,
            filled(0x33) == digests.artifact_content_binding_hash@,
            "preflight_must_bind_content_binding_hash",
        ),
        is_selftest_case(
            cases[4],
            "tampered_artifact_reference_hash_denied",
            false,
            filled(0x44) == digests.artifact_reference_hash@,
            "preflight_must_bind_artifact_reference_hash",
        ),
        is_selftest_case(
            cases[5],
            "tampered_artifact_bytes_hash_denied",
            false,
            filled(0x55) == digests.artifact_bytes_sha256@,
            "preflight_must_bind_artifact_bytes_hash",
        ),
        is_selftest_case(
            cases[6],
            "tampered_service_slot_intent_denied",
            false,
            false,
            "preflight_must_bind_ram_only_service_slot_intent",
        ),
        is_selftest_case(
            cases[7],
            "tampered_denial_flags_denied",
            false,
            false,
            "preflight_must_keep_candidate_execution_and_mapping_denied",
        ),
    ensures
        (passed_count_of(cases) == 8) == (filled(0x11) != digests.descriptor_source_hash@
            && filled(0x22) != digests.artifact_identity_hash@
            && filled(0x33) != digests.artifact_content_binding_hash@
            && filled(0x44) != digests.artifact_reference_hash@
            && filled(0x55) != digests.artifact_bytes_sha256@),
{
    reveal_with_fuel(passed_count_of, 9);
    assert(cases.drop_last().drop_last().drop_last().drop_last().drop_last().drop_last().drop_last().drop_last().len() == 0);
}

} // verus!
