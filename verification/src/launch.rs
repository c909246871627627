//! The synchronous launcher: spawn one command, wait for it to exit, and
//! classify the completed process.

use vstd::prelude::*;
use vstd::string::StringExecFns;

use crate::error::{ExitStatus, RuncError};
use crate::Response;

verus! {

/// The immutable outcome of one completed process: its id, how it ended,
/// and both captured output streams.
pub struct Completion {
    pub pid: u32,
    pub code: Option<i32>,
    pub stdout: String,
    pub stderr: String,
}

/// Why a launch produced no completion record: the operating system refused
/// to create the process, or the created process could not be awaited.
pub enum LaunchFailure {
    Spawn(std::io::Error),
    Wait(std::io::Error),
}

/// The environment variable removed before every spawn: it triggers
/// service-manager behavior in the runtime binary when inherited.
pub fn scrubbed_env_var() -> (r: &'static str)
    ensures
        r@ == "NOTIFY_SOCKET"@,
{
    "NOTIFY_SOCKET"
}

#[verifier::external_type_specification]
#[verifier::external_body]
pub struct ExRuntime(tokio::runtime::Runtime);

/// Relies on `tokio::runtime::Builder`: a fresh single-threaded runtime to
/// drive one of this library's blocking calls.
#[verifier::external_body]
pub(crate) fn new_runtime() -> (r: Result<tokio::runtime::Runtime, std::io::Error>) {
    tokio::runtime::Builder::new_current_thread().enable_all().build()
}

/// Relies on `tokio::process::Command::spawn` and
/// `tokio::process::Child::wait_with_output`: runs `program` with `args`,
/// the variable `drop_env` removed from its environment, waits for it to
/// exit and collects what both output streams carried. This path gives the
/// caller no way to wire pipes, so the child's streams stay inherited from
/// the parent and the collected text is empty; were a stream piped,
/// non-UTF-8 output would be replaced, not dropped.
#[verifier::external_body]
fn run_on(rt: &tokio::runtime::Runtime, program: &String, args: &Vec<String>, drop_env: &str) -> (r:
    Result<Completion, LaunchFailure>) {
    let mut cmd = tokio::process::Command::new(program);
    cmd.args(args).env_remove(drop_env);
    let guard = rt.enter();
    let spawned = cmd.spawn().map_err(|e| LaunchFailure::Spawn(e));
    drop(guard);
    let child = spawned?;
    let pid = child.id().unwrap_or(0);
    let out = rt.block_on(child.wait_with_output()).map_err(|e| LaunchFailure::Wait(e))?;
    let stdout = String::from_utf8_lossy(&out.stdout).into_owned();
    let stderr = String::from_utf8_lossy(&out.stderr).into_owned();
    Ok(Completion { pid, code: out.status.code(), stdout, stderr })
}

/// Spawns `program` with `args` under a fresh runtime and waits for its
/// completion record; a runtime that cannot be brought up counts as the
/// operating system refusing the spawn.
fn run_command(program: &String, args: &Vec<String>, drop_env: &str) -> Result<
    Completion,
    LaunchFailure,
> {
    match new_runtime() {
        Ok(rt) => run_on(&rt, program, args, drop_env),
        Err(e) => Err(LaunchFailure::Spawn(e)),
    }
}

/// Classifies one completion record: exit code 0 yields a response carrying
/// the process id and the captured output (both streams or stdout only);
/// any other outcome yields a command-failed error carrying the status and
/// both streams verbatim.
pub fn classify(c: Completion, combined_output: bool) -> (r: Result<Response, RuncError>)
    ensures
        c.code == Some(0i32) ==> (r matches Ok(resp) && resp.pid == c.pid && resp.status.code
            == Some(0i32) && resp.output@ == (if combined_output {
            c.stdout@ + c.stderr@
        } else {
            c.stdout@
        })),
        c.code != Some(0i32) ==> (r matches Err(e) && e matches RuncError::CommandFailed {
            status,
            stdout,
            stderr,
        } && status.code == c.code && stdout == c.stdout && stderr == c.stderr),
{
    let Completion { pid, code, stdout, stderr } = c;
    let status = ExitStatus::from_code(code);
    if status.success() {
        let output = if combined_output {
            stdout.concat(stderr.as_str())
        } else {
            stdout
        };
        Ok(Response { pid, status, output })
    } else {
        Err(RuncError::CommandFailed { status, stdout, stderr })
    }
}

/// Spawns `program` with `args`, blocks until it exits, and classifies the
/// outcome. The exact shape of the result for each completion record is
/// stated on [`classify`]; what that record holds depends on the launched
/// process alone. Blocks on a private runtime: call it outside any
/// asynchronous execution context, where that bridge would panic.
pub fn launch(program: &String, args: &Vec<String>, combined_output: bool) -> (r: Result<
    Response,
    RuncError,
>)
    ensures
        r matches Ok(resp) ==> resp.status.spec_success(),
        r matches Err(e) ==> (e matches RuncError::ProcessSpawnFailed(_) || e
            matches RuncError::InvalidCommand(_) || e matches RuncError::CommandFailed { .. }),
{
    match run_command(program, args, scrubbed_env_var()) {
        Ok(c) => classify(c, combined_output),
        Err(LaunchFailure::Spawn(e)) => Err(RuncError::ProcessSpawnFailed(e)),
        Err(LaunchFailure::Wait(e)) => Err(RuncError::InvalidCommand(e)),
    }
}

} // verus!
