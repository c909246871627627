//! The error taxonomy of the library, and the exit-status model.

use vstd::prelude::*;

verus! {

/// How a launched process ended: `Some(code)` for a numeric exit code,
/// `None` when the process was terminated by a signal. Which signal it was
/// is not carried: reading it would need the Unix extension of the standard
/// process API, which this library does not touch.
#[derive(Debug, Clone, Copy)]
pub struct ExitStatus {
    pub code: Option<i32>,
}

impl ExitStatus {
    /// True exactly when the process exited with code 0.
    pub open spec fn spec_success(&self) -> bool {
        self.code == Some(0i32)
    }

    pub fn from_code(code: Option<i32>) -> (r: ExitStatus)
        ensures
            r.code == code,
    {
        ExitStatus { code }
    }

    /// The numeric exit code, if the process exited normally.
    pub fn code(&self) -> (r: Option<i32>)
        ensures
            r == self.code,
    {
        self.code
    }

    /// True exactly when the process exited with code 0; termination by
    /// signal counts as failure.
    pub fn success(&self) -> (r: bool)
        ensures
            r == self.spec_success(),
    {
        match self.code {
            Some(c) => c == 0,
            None => false,
        }
    }
}

#[verifier::external_type_specification]
#[verifier::external_body]
pub struct ExIoError(std::io::Error);

#[verifier::external_type_specification]
#[verifier::external_body]
pub struct ExJsonError(serde_json::Error);

/// Everything that a lifecycle call can fail with.
#[derive(Debug)]
pub enum RuncError {
    /// The runtime binary could not be located.
    NotFound,
    /// The named operation has no single-command mapping.
    Unimplemented(String),
    /// The process ran and exited with a non-zero status or was killed by a
    /// signal; both captured streams are carried verbatim.
    CommandFailed { status: ExitStatus, stdout: String, stderr: String },
    /// The operating system refused to create the process.
    ProcessSpawnFailed(std::io::Error),
    /// The process was created but could not be awaited or its output could
    /// not be collected.
    InvalidCommand(std::io::Error),
    /// Request or response JSON could not be serialized or deserialized.
    JsonDeserializationFailed(serde_json::Error),
    /// The temporary file holding a serialized spec could not be written.
    SpecFileCreationFailed(std::io::Error),
    /// The caller-supplied stdio wiring could not be attached to the command
    /// before the spawn.
    UnavailableIO(std::io::Error),
    /// A stats query answered without a statistics payload.
    MissingContainerStats,
    /// The one-shot completion channel was closed before a notice arrived.
    ChannelClosed,
}

} // verus!
