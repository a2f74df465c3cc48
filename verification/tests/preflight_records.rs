use hello_service::preflight::{
    artifact_load_plan_preflight_hash, artifact_load_plan_preflight_record,
    artifact_load_plan_preflight_record_hash, artifact_load_plan_preflight_selftest_cases,
    artifact_load_plan_preflight_selftest_hash, artifact_load_plan_preflight_selftest_passed_count,
    preflight_case,
    recovery_rollback_inspect_source_reference_selftest_hash, rehash_preflight_record,
    service_slot_activation_hash, service_slot_activation_record, service_version,
    validate_artifact_load_plan_preflight_record, ArtifactIdentity, DescriptorDigests,
    LoadDescriptor, ARTIFACT_LOAD_PLAN_PREFLIGHT_SELFTEST_TEXT,
    RECOVERY_ROLLBACK_INSPECT_SOURCE_REFERENCE_SELFTEST_TEXT,
};
use sha2::{Digest, Sha256};

fn descriptor(identity_id: &'static str) -> LoadDescriptor {
    LoadDescriptor {
        schema: "raios.load_descriptor.v0",
        id: "load_descriptor.svc.demo.hello",
        canonicalization: "key_value_lines.v0",
        source_locator: "current_image:svc.demo.hello",
        source_kind: "current_image",
        artifact_identity: ArtifactIdentity {
            id: identity_id,
            artifact_id: "artifact.builtin.hello",
            artifact_reference_id: "artifact_reference.builtin.hello",
        },
        service_id: "svc.demo.hello",
        artifact_id: "artifact.builtin.hello",
        artifact_kind: "builtin_stage0_test_service",
        scope: "current_boot",
        classification: "local_only",
        persistence: "none",
    }
}

fn digests() -> DescriptorDigests {
    DescriptorDigests {
        descriptor_source_hash: [1u8; 32],
        artifact_identity_hash: [2u8; 32],
        artifact_content_binding_hash: [3u8; 32],
        artifact_reference_hash: [4u8; 32],
        artifact_bytes_sha256: [5u8; 32],
    }
}

fn line_str(out: &mut Vec<u8>, key: &str, value: &str) {
    out.extend_from_slice(key.as_bytes());
    out.push(b'=');
    out.extend_from_slice(value.as_bytes());
    out.push(b'\n');
}

fn line_hash(out: &mut Vec<u8>, key: &str, value: &[u8; 32]) {
    out.extend_from_slice(key.as_bytes());
    out.push(b'=');
    out.extend_from_slice(value);
    out.push(b'\n');
}

fn line_bool(out: &mut Vec<u8>, key: &str, value: bool) {
    line_str(out, key, if value { "true" } else { "false" });
}

fn expected_preflight_hash(d: &LoadDescriptor, g: &DescriptorDigests) -> [u8; 32] {
    let mut s = Vec::new();
    line_str(&mut s, "schema", "raios.current_boot_artifact_load_plan_preflight.v0");
    line_str(&mut s, "id", "artifact_load_plan_preflight.current_boot.svc.demo.hello.v0");
    line_str(&mut s, "scope", d.scope);
    line_str(&mut s, "classification", d.classification);
    line_str(&mut s, "status", "accepted_builtin_current_boot_only");
    line_str(&mut s, "service_id", d.service_id);
    line_str(&mut s, "artifact_id", d.artifact_id);
    line_str(&mut s, "load_descriptor_id", d.id);
    line_str(&mut s, "descriptor_source_locator", d.source_locator);
    line_hash(&mut s, "descriptor_source_sha256", &g.descriptor_source_hash);
    line_str(&mut s, "artifact_identity_id", d.artifact_identity.id);
    line_hash(&mut s, "artifact_identity_sha256", &g.artifact_identity_hash);
    line_hash(&mut s, "artifact_content_binding_sha256", &g.artifact_content_binding_hash);
    line_str(&mut s, "artifact_reference_id", d.artifact_identity.artifact_reference_id);
    line_hash(&mut s, "artifact_reference_sha256", &g.artifact_reference_hash);
    line_hash(&mut s, "artifact_bytes_sha256", &g.artifact_bytes_sha256);
    line_str(&mut s, "service_slot_intent_id", "service_slot_intent.current_boot.svc.demo.hello.v0");
    line_str(&mut s, "ram_only_service_slot_id", "ram_only:svc.demo.hello");
    line_bool(&mut s, "accepted", true);
    line_bool(&mut s, "authorizes_builtin_current_boot_start", true);
    for key in [
        "authorizes_candidate_artifact_execution",
        "accepts_external_artifact_bytes",
        "loads_candidate_bytes",
        "maps_executable_pages",
        "writes_persistent_state",
        "writes_durable_audit_log",
        "installs_rollback_plan",
        "grants_broad_mutation",
    ] {
        line_bool(&mut s, key, false);
    }
    Sha256::digest(&s).into()
}

#[test]
fn preflight_record_binds_the_descriptor_and_its_digests() {
    let d = descriptor("artifact_identity.builtin.hello.v1");
    let g = digests();
    let record = artifact_load_plan_preflight_record(d, g);
    assert_eq!(record.service_id, "svc.demo.hello");
    assert_eq!(record.load_descriptor_id, d.id);
    assert_eq!(record.descriptor_source_hash, g.descriptor_source_hash);
    assert_eq!(record.artifact_bytes_sha256, g.artifact_bytes_sha256);
    assert!(record.accepted);
    assert!(record.authorizes_builtin_current_boot_start);
    assert!(!record.authorizes_candidate_artifact_execution);
    assert!(!record.maps_executable_pages);
    assert_eq!(record.preflight_hash, expected_preflight_hash(&d, &g));
    assert_eq!(artifact_load_plan_preflight_record_hash(record), record.preflight_hash);
    assert_eq!(artifact_load_plan_preflight_hash(d, g), record.preflight_hash);
}

#[test]
fn built_preflight_is_accepted() {
    let d = descriptor("artifact_identity.builtin.hello.v1");
    let g = digests();
    let record = artifact_load_plan_preflight_record(d, g);
    assert!(validate_artifact_load_plan_preflight_record(record, d, g));
}

#[test]
fn tampered_preflight_without_rehash_is_denied() {
    let d = descriptor("artifact_identity.builtin.hello.v1");
    let g = digests();
    let mut record = artifact_load_plan_preflight_record(d, g);
    record.loads_candidate_bytes = true;
    assert!(!validate_artifact_load_plan_preflight_record(record, d, g));
}

#[test]
fn tampered_and_rehashed_digest_is_denied() {
    let d = descriptor("artifact_identity.builtin.hello.v1");
    let g = digests();
    let mut record = artifact_load_plan_preflight_record(d, g);
    record.artifact_reference_hash = [9u8; 32];
    let rehashed = rehash_preflight_record(record);
    assert_eq!(rehashed.preflight_hash, artifact_load_plan_preflight_record_hash(record));
    assert_ne!(rehashed.preflight_hash, artifact_load_plan_preflight_record(d, g).preflight_hash);
    assert!(!validate_artifact_load_plan_preflight_record(rehashed, d, g));
}

#[test]
fn preflight_for_other_digests_is_denied() {
    let d = descriptor("artifact_identity.builtin.hello.v1");
    let record = artifact_load_plan_preflight_record(d, digests());
    let mut other = digests();
    other.artifact_identity_hash = [7u8; 32];
    assert!(!validate_artifact_load_plan_preflight_record(record, d, other));
}

#[test]
fn rehash_of_an_untouched_record_changes_nothing() {
    let d = descriptor("artifact_identity.builtin.hello.v1");
    let record = artifact_load_plan_preflight_record(d, digests());
    let rehashed = rehash_preflight_record(record);
    assert_eq!(rehashed.preflight_hash, record.preflight_hash);
    assert!(validate_artifact_load_plan_preflight_record(rehashed, d, digests()));
}

#[test]
fn selftest_cases_all_pass_for_ordinary_digests() {
    let cases = artifact_load_plan_preflight_selftest_cases(
        descriptor("artifact_identity.builtin.hello.v1"),
        digests(),
    );
    assert_eq!(cases.len(), 8);
    assert_eq!(cases[0].name, "valid_current_boot_load_plan_preflight");
    assert!(cases[0].expected_accept && cases[0].actual_accept);
    for case in cases.iter() {
        assert!(case.passed, "{}", case.name);
    }
    assert!(cases[1..].iter().all(|c| !c.expected_accept && !c.actual_accept));
    assert_eq!(cases[7].reason, "preflight_must_keep_candidate_execution_and_mapping_denied");
}

#[test]
fn selftest_misses_a_tamper_that_writes_the_descriptors_own_digest() {
    let mut g = digests();
    g.descriptor_source_hash = [0x11u8; 32];
    let cases =
        artifact_load_plan_preflight_selftest_cases(descriptor("artifact_identity.builtin.hello.v1"), g);
    assert!(cases[1].actual_accept);
    assert!(!cases[1].passed);
    assert!(cases[2].passed);
}

#[test]
fn preflight_case_passes_when_verdict_meets_expectation() {
    let ok = preflight_case("n", false, false, "r");
    assert!(ok.passed);
    let bad = preflight_case("n", false, true, "r");
    assert!(!bad.passed);
    assert_eq!(bad.reason, "r");
}

#[test]
fn activation_record_binds_the_preflight() {
    let d = descriptor("artifact_identity.builtin.hello.v1");
    let g = digests();
    let preflight = artifact_load_plan_preflight_record(d, g);
    let record = service_slot_activation_record(d, g, "active_current_boot", true);
    assert_eq!(record.artifact_load_plan_preflight_hash, preflight.preflight_hash);
    assert_eq!(record.status, "active_current_boot");
    assert!(record.active);
    assert!(record.accepted_preflight);
    assert!(!record.authorizes_candidate_artifact_execution);
    assert!(!record.writes_persistent_state);
    let stopped = service_slot_activation_record(d, g, "stopped_current_boot", false);
    assert!(!stopped.active);
    // The activation hash covers the slot's bindings, not its status.
    assert_eq!(stopped.activation_hash, record.activation_hash);
    assert_eq!(service_slot_activation_hash(d, g), record.activation_hash);
}

#[test]
fn service_version_follows_the_artifact_identity() {
    let v2 = "artifact_identity.builtin.hello.v2";
    assert_eq!(service_version(descriptor(v2), v2), "v2");
    assert_eq!(service_version(descriptor("artifact_identity.builtin.hello.v1"), v2), "v1");
}

#[test]
fn selftest_digests_are_digests_of_their_texts() {
    let a: [u8; 32] = Sha256::digest(ARTIFACT_LOAD_PLAN_PREFLIGHT_SELFTEST_TEXT.as_bytes()).into();
    assert_eq!(artifact_load_plan_preflight_selftest_hash(), a);
    let b: [u8; 32] =
        Sha256::digest(RECOVERY_ROLLBACK_INSPECT_SOURCE_REFERENCE_SELFTEST_TEXT.as_bytes()).into();
    assert_eq!(recovery_rollback_inspect_source_reference_selftest_hash(), b);
    assert_ne!(a, b);
}

#[test]
fn selftest_passed_count_counts_the_passing_cases() {
    let d = descriptor("artifact_identity.builtin.hello.v1");
    let cases = artifact_load_plan_preflight_selftest_cases(d, digests());
    assert_eq!(artifact_load_plan_preflight_selftest_passed_count(&cases), 8);
    let mut g = digests();
    g.artifact_bytes_sha256 = [0x55u8; 32];
    let cases = artifact_load_plan_preflight_selftest_cases(d, g);
    assert_eq!(artifact_load_plan_preflight_selftest_passed_count(&cases), 7);
    assert_eq!(artifact_load_plan_preflight_selftest_passed_count(&[]), 0);
}
