//! The few points where the library touches the file system and the clock:
//! locating the runtime binary and writing spec files for it to read.

use vstd::prelude::*;
use vstd::string::StringExecFns;

use crate::error::RuncError;
use crate::text::{dec_seq, u64_to_string};

verus! {

/// Relies on `tokio::fs::try_exists`: whether something exists at `path` on
/// disk right now; an error (permission, broken link) counts as absent.
#[verifier::external_body]
fn exists_on(rt: &tokio::runtime::Runtime, path: &String) -> bool {
    rt.block_on(tokio::fs::try_exists(path)).unwrap_or(false)
}

/// Relies on `tokio::fs::write`: creates or truncates the file at `path` and
/// writes `contents` to it whole; on `Ok` the file holds exactly `contents`.
#[verifier::external_body]
fn write_on(rt: &tokio::runtime::Runtime, path: &String, contents: &String) -> (r: Result<
    (),
    std::io::Error,
>) {
    rt.block_on(tokio::fs::write(path, contents.as_bytes()))
}

/// Whether something exists at `path` on disk right now; a runtime that
/// cannot be brought up counts as absent.
pub(crate) fn file_exists(path: &String) -> bool {
    match crate::launch::new_runtime() {
        Ok(rt) => exists_on(&rt, path),
        Err(_) => false,
    }
}

/// Writes `contents` whole to the file at `path`, creating or truncating it.
fn write_file(path: &String, contents: &String) -> Result<(), std::io::Error> {
    match crate::launch::new_runtime() {
        Ok(rt) => write_on(&rt, path, contents),
        Err(e) => Err(e),
    }
}

/// Relies on `std::time::SystemTime`: nanoseconds since the Unix epoch,
/// truncated to 64 bits; 0 when the clock reads before the epoch. The result
/// depends on the clock, so nothing is promised of it.
#[verifier::external_body]
fn unix_nanos() -> u64 {
    match std::time::SystemTime::now().duration_since(std::time::SystemTime::UNIX_EPOCH) {
        Ok(d) => d.as_nanos() as u64,
        Err(_) => 0,
    }
}

/// The path of the temporary file carrying one serialized spec, made unique
/// by the `stamp`.
pub fn spec_file_path(stamp: u64) -> (r: String)
    ensures
        r@ == "/tmp/runc-spec-"@ + dec_seq(stamp as nat) + ".json"@,
{
    let s = u64_to_string(stamp);
    let mut path = String::new();
    path.append("/tmp/runc-spec-");
    path.append(s.as_str());
    path.append(".json");
    path
}

/// Writes `contents` to a freshly named temporary file and returns that
/// file's path; on success the file exists and holds `contents` from the
/// moment this returns until something removes it. Blocks on a private
/// runtime: call it outside any asynchronous execution context.
pub fn write_temp_spec_file(contents: &String) -> (r: Result<String, RuncError>)
    ensures
        r matches Ok(p) ==> exists|stamp: u64|
            p@ == "/tmp/runc-spec-"@ + #[trigger] dec_seq(stamp as nat) + ".json"@,
        r matches Err(e) ==> e matches RuncError::SpecFileCreationFailed(_),
{
    let stamp = unix_nanos();
    let path = spec_file_path(stamp);
    proof {
        assert(path@ == "/tmp/runc-spec-"@ + dec_seq(stamp as nat) + ".json"@);
    }
    match write_file(&path, contents) {
        Ok(_) => Ok(path),
        Err(e) => Err(RuncError::SpecFileCreationFailed(e)),
    }
}

} // verus!
