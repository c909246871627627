//! The two OCI runtime-spec values that cross this library's boundary: an
//! exec-process spec and a resource-update spec, each serialized to JSON for
//! the runtime binary to read from a file.

use vstd::prelude::*;

verus! {

#[verifier::external_type_specification]
#[verifier::external_body]
pub struct ExLinux(oci_spec::runtime::Linux);

#[verifier::external_type_specification]
#[verifier::external_body]
pub struct ExProcess(oci_spec::runtime::Process);

/// Relies on `serde_json::to_string` over `oci_spec::runtime::Linux`: the
/// JSON text of the resource spec. The value holds maps and sets whose
/// iteration order each process seeds, so the text is not a function of the
/// value alone and nothing is promised of it.
#[verifier::external_body]
pub(crate) fn serialize_linux(l: &oci_spec::runtime::Linux) -> (r: Result<
    String,
    serde_json::Error,
>) {
    serde_json::to_string(l)
}

/// Relies on `serde_json::to_string` over `oci_spec::runtime::Process`: the
/// JSON text of the process spec. As with the resource spec, the value holds
/// set members with per-process iteration order, so nothing is promised of
/// the text.
#[verifier::external_body]
pub(crate) fn serialize_process(p: &oci_spec::runtime::Process) -> (r: Result<
    String,
    serde_json::Error,
>) {
    serde_json::to_string(p)
}

} // verus!
