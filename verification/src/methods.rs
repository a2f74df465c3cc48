//! Recognising the hello service's self-test methods, and the evidence
//! classifications, by name.

use vstd::prelude::*;
use vstd::string::StringSliceAdditionalSpecFns;
use crate::compare::text_eq;

verus! {

/// Whether `method` is exactly the method name `name`.
pub fn method_eq(method: &str, name: &str) -> (same: bool)
    ensures
        same == (method.spec_bytes() == name.spec_bytes()),
{
    text_eq(method, name)
}

/// Whether `method` asks for the recovery rollback inspect source
/// reference self-test.
pub fn is_recovery_rollback_inspect_source_reference_selftest_method(method: &str) -> (matches: bool)
    ensures
        matches == (method.spec_bytes()
            == "recovery.rollback_inspect_source_reference_selftest".spec_bytes()),
{
    method_eq(method, "recovery.rollback_inspect_source_reference_selftest")
}

/// Whether `method` asks for the descriptor source trust self-test.
pub fn is_descriptor_source_trust_selftest_method(method: &str) -> (matches: bool)
    ensures
        matches == (method.spec_bytes() == "service.descriptor_source_trust_selftest".spec_bytes()),
{
    method_eq(method, "service.descriptor_source_trust_selftest")
}

/// Whether `method` asks for the artifact reference trust self-test.
pub fn is_artifact_reference_trust_selftest_method(method: &str) -> (matches: bool)
    ensures
        matches == (method.spec_bytes() == "service.artifact_reference_trust_selftest".spec_bytes()),
{
    method_eq(method, "service.artifact_reference_trust_selftest")
}

/// Whether `method` asks for the artifact load plan preflight self-test.
pub fn is_artifact_load_plan_preflight_selftest_method(method: &str) -> (matches: bool)
    ensures
        matches == (method.spec_bytes()
            == "service.artifact_load_plan_preflight_selftest".spec_bytes()),
{
    method_eq(method, "service.artifact_load_plan_preflight_selftest")
}

/// How widely a piece of evidence may be shared.
#[derive(Clone, Copy, PartialEq, Eq, Structural, Debug)]
pub enum EvidenceClassification {
    Public,
    LocalOnly,
    Secret,
    Unknown,
}

/// The classification that `value` names: `public`, `local_only` or
/// `secret`, and `Unknown` for any other text.
pub open spec fn classification_named(value: Seq<u8>) -> EvidenceClassification {
    if value == "public".spec_bytes() {
        EvidenceClassification::Public
    } else if value == "local_only".spec_bytes() {
        EvidenceClassification::LocalOnly
    } else if value == "secret".spec_bytes() {
        EvidenceClassification::Secret
    } else {
        EvidenceClassification::Unknown
    }
}

/// The evidence classification that `value` names.
pub fn hello_evidence_classification(value: &str) -> (classification: EvidenceClassification)
    ensures
        classification == classification_named(value.spec_bytes()),
{
    if text_eq(value, "public") {
        EvidenceClassification::Public
    } else if text_eq(value, "local_only") {
        EvidenceClassification::LocalOnly
    } else if text_eq(value, "secret") {
        EvidenceClassification::Secret
    } else {
        EvidenceClassification::Unknown
    }
}

} // verus!
