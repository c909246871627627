//! A client library for driving an external OCI container runtime binary.
//!
//! The library assembles the argument list for each container-lifecycle verb,
//! launches the runtime binary, and classifies the completed process into a
//! success response or a structured failure carrying the captured output.
//! The synchronous client blocks for the full process lifetime; the
//! concurrent monitor decouples spawning a process from observing its
//! completion.

pub mod argv;
pub mod error;
pub mod fsio;
pub mod json;
pub mod launch;
pub mod monitor;
pub mod oci;
pub mod options;
pub mod text;

use vstd::prelude::*;

use crate::argv::{
    append_args, bool_flag, opt_flag_arg, opt_view, push_str, push_string, str_views,
};
use crate::error::{ExitStatus, RuncError};
use crate::fsio::write_temp_spec_file;
use crate::json::{decode_container_list, decode_state};
use crate::launch::launch;
use crate::oci::{serialize_linux, serialize_process};
use crate::options::{CreateOpts, DeleteOpts, ExecOpts, KillOpts};
use crate::text::{dec_seq, u64_to_string};

verus! {

/// The public result of one completed invocation: the process id, how the
/// process ended, and the requested slice of its captured output.
#[derive(Debug, Clone)]
pub struct Response {
    pub pid: u32,
    pub status: ExitStatus,
    pub output: String,
}

/// Log format accepted by the runtime binary's `--log-format` flag.
#[derive(Debug, Clone)]
pub enum LogFormat {
    Json,
    Text,
}

impl LogFormat {
    /// The flag value handed to the runtime binary.
    pub fn to_str(&self) -> (r: &'static str)
        ensures
            r@ == self.spec_str(),
    {
        match self {
            LogFormat::Json => "json",
            LogFormat::Text => "text",
        }
    }

    /// The characters of the flag value for this format.
    pub open spec fn spec_str(&self) -> Seq<char> {
        match self {
            LogFormat::Json => "json"@,
            LogFormat::Text => "text"@,
        }
    }
}

impl Default for LogFormat {
    fn default() -> (r: Self)
        ensures
            r is Text,
    {
        LogFormat::Text
    }
}

/// Version information reported by the runtime binary.
#[derive(Debug, Clone)]
pub struct Version {
    pub runc_version: Option<String>,
    pub spec_version: Option<String>,
    pub commit: Option<String>,
}

/// Global options for the runtime binary, passed before every verb.
///
/// Path options (command, root, log, and the bundle paths handed to the
/// verbs) are passed to the runtime binary verbatim; they are not resolved
/// against the working directory.
#[derive(Debug)]
pub struct ConfigBuilder {
    /// Name or path of the runtime binary; `runc` when unset.
    pub command: Option<String>,
    /// Root directory for the runtime's container state.
    pub root: Option<String>,
    /// Emit debug-level logs.
    pub debug: bool,
    /// Log destination path; the runtime logs to stderr when unset.
    pub log: Option<String>,
    /// Log format, text unless set otherwise.
    pub log_format: LogFormat,
    /// Put each launched process in its own process group.
    pub set_pgid: bool,
    /// Use systemd cgroups.
    pub systemd_cgroup: bool,
    /// Rootless mode; unset means the runtime auto-detects it.
    pub rootless: Option<bool>,
    /// Timeout in milliseconds for the concurrent client style.
    pub timeout_ms: u64,
}

/// A shortcut to create a global options builder.
pub fn builder() -> (r: ConfigBuilder)
    ensures
        r.command is None,
        r.root is None,
        !r.debug,
        r.log is None,
        r.log_format is Text,
        !r.set_pgid,
        !r.systemd_cgroup,
        r.rootless is None,
        r.timeout_ms == 5000,
{
    ConfigBuilder::new()
}

impl Default for ConfigBuilder {
    /// No overrides, text logs, and the default five-second timeout.
    fn default() -> (r: Self)
        ensures
            r.command is None,
            r.root is None,
            !r.debug,
            r.log is None,
            r.log_format is Text,
            !r.set_pgid,
            !r.systemd_cgroup,
            r.rootless is None,
            r.timeout_ms == 5000,
    {
        ConfigBuilder {
            command: None,
            root: None,
            debug: false,
            log: None,
            log_format: LogFormat::Text,
            set_pgid: false,
            systemd_cgroup: false,
            rootless: None,
            timeout_ms: 5000,
        }
    }
}

impl ConfigBuilder {
    /// Create a new builder with no options set.
    pub fn new() -> (r: Self)
        ensures
            r.command is None,
            r.root is None,
            !r.debug,
            r.log is None,
            r.log_format is Text,
            !r.set_pgid,
            !r.systemd_cgroup,
            r.rootless is None,
            r.timeout_ms == 5000,
    {
        Default::default()
    }

    /// Override the name or path of the runtime binary.
    pub fn command(self, command: &str) -> (r: Self)
        ensures
            r.command matches Some(c) && c@ == command@,
            r.root == self.root,
            r.debug == self.debug,
            r.log == self.log,
            r.log_format == self.log_format,
            r.set_pgid == self.set_pgid,
            r.systemd_cgroup == self.systemd_cgroup,
            r.rootless == self.rootless,
            r.timeout_ms == self.timeout_ms,
    {
        Self { command: Some(command.to_owned()), ..self }
    }

    /// Set the root directory to store containers' state.
    pub fn root(self, root: &str) -> (r: Self)
        ensures
            r.root matches Some(c) && c@ == root@,
            r.command == self.command,
            r.debug == self.debug,
            r.log == self.log,
            r.log_format == self.log_format,
            r.set_pgid == self.set_pgid,
            r.systemd_cgroup == self.systemd_cgroup,
            r.rootless == self.rootless,
            r.timeout_ms == self.timeout_ms,
    {
        Self { root: Some(root.to_owned()), ..self }
    }

    /// Enable or disable debug logging.
    pub fn debug(self, debug: bool) -> (r: Self)
        ensures
            r.debug == debug,
            r == (Self { debug, ..self }),
    {
        Self { debug, ..self }
    }

    /// Set the log destination to a path; the default is to log to stderr.
    pub fn log(self, log: &str) -> (r: Self)
        ensures
            r.log matches Some(c) && c@ == log@,
            r.command == self.command,
            r.root == self.root,
            r.debug == self.debug,
            r.log_format == self.log_format,
            r.set_pgid == self.set_pgid,
            r.systemd_cgroup == self.systemd_cgroup,
            r.rootless == self.rootless,
            r.timeout_ms == self.timeout_ms,
    {
        Self { log: Some(log.to_owned()), ..self }
    }

    /// Set the log format; the default is text.
    pub fn log_format(self, log_format: LogFormat) -> (r: Self)
        ensures
            r == (Self { log_format, ..self }),
    {
        Self { log_format, ..self }
    }

    /// Set the log format to JSON.
    pub fn log_json(self) -> (r: Self)
        ensures
            r == (Self { log_format: LogFormat::Json, ..self }),
    {
        self.log_format(LogFormat::Json)
    }

    /// Set the log format to text.
    pub fn log_text(self) -> (r: Self)
        ensures
            r == (Self { log_format: LogFormat::Text, ..self }),
    {
        self.log_format(LogFormat::Text)
    }

    /// Enable systemd cgroup support.
    pub fn systemd_cgroup(self, systemd_cgroup: bool) -> (r: Self)
        ensures
            r == (Self { systemd_cgroup, ..self }),
    {
        Self { systemd_cgroup, ..self }
    }

    /// Enable or disable rootless mode explicitly.
    pub fn rootless(self, rootless: bool) -> (r: Self)
        ensures
            r == (Self { rootless: Some(rootless), ..self }),
    {
        Self { rootless: Some(rootless), ..self }
    }

    /// Let the runtime auto-detect rootless mode.
    pub fn rootless_auto(self) -> (r: Self)
        ensures
            r == (Self { rootless: None, ..self }),
    {
        Self { rootless: None, ..self }
    }

    /// Put each launched process in its own process group.
    pub fn set_pgid(self, set_pgid: bool) -> (r: Self)
        ensures
            r == (Self { set_pgid, ..self }),
    {
        Self { set_pgid, ..self }
    }

    /// Set the timeout for the concurrent client style, in milliseconds.
    pub fn timeout(self, millis: u64) -> (r: Self)
        ensures
            r == (Self { timeout_ms: millis, ..self }),
    {
        Self { timeout_ms: millis, ..self }
    }

    /// The name or path of the runtime binary this configuration launches.
    pub open spec fn spec_command(&self) -> Seq<char> {
        match self.command {
            Some(c) => c@,
            None => "runc"@,
        }
    }

    /// The global arguments prepended to every verb's argument list.
    pub open spec fn global_args(&self) -> Seq<Seq<char>> {
        opt_flag_arg("--root"@, opt_view(self.root)) + bool_flag("--debug"@, self.debug)
            + opt_flag_arg("--log"@, opt_view(self.log)) + seq![
            "--log-format"@,
            self.log_format.spec_str(),
        ] + bool_flag("--systemd-cgroup"@, self.systemd_cgroup) + (match self.rootless {
            Some(true) => seq!["--rootless=true"@],
            Some(false) => seq!["--rootless=false"@],
            None => Seq::<Seq<char>>::empty(),
        })
    }

    /// Assembles the command descriptor. Fails with a configuration error
    /// only when the binary is named by a path (it holds a `/`) and nothing
    /// exists there; a bare name always builds and is left for the operating
    /// system's search path at spawn time.
    #[verifier::rlimit(50)]
    fn build_runc(self) -> (r: Result<Runc, RuncError>)
        ensures
            r matches Ok(rc) ==> rc.command@ == self.spec_command() && str_views(rc.args@)
                == self.global_args(),
            r matches Err(e) ==> e is NotFound,
            r is Err ==> self.spec_command().contains('/'),
    {
        let command = match self.command {
            Some(c) => c,
            None => {
                let c: String = "runc".to_owned();
                c
            },
        };
        if crate::text::contains_char(command.as_str(), '/') && !crate::fsio::file_exists(
            &command,
        ) {
            return Err(RuncError::NotFound);
        }
        let mut args: Vec<String> = Vec::new();
        if let Some(root) = self.root {
            push_str(&mut args, "--root");
            push_string(&mut args, root);
        }
        proof {
            assert(str_views(args@) =~= opt_flag_arg("--root"@, opt_view(self.root)));
        }
        if self.debug {
            push_str(&mut args, "--debug");
        }
        proof {
            assert(str_views(args@) =~= opt_flag_arg("--root"@, opt_view(self.root)) + bool_flag(
                "--debug"@,
                self.debug,
            ));
        }
        if let Some(log) = self.log {
            push_str(&mut args, "--log");
            push_string(&mut args, log);
        }
        push_str(&mut args, "--log-format");
        push_str(&mut args, self.log_format.to_str());
        proof {
            assert(str_views(args@) =~= opt_flag_arg("--root"@, opt_view(self.root)) + bool_flag(
                "--debug"@,
                self.debug,
            ) + opt_flag_arg("--log"@, opt_view(self.log)) + seq![
                "--log-format"@,
                self.log_format.spec_str(),
            ]);
        }
        let ghost mid = str_views(args@);
        if self.systemd_cgroup {
            push_str(&mut args, "--systemd-cgroup");
        }
        proof {
            assert(str_views(args@) =~= mid + bool_flag("--systemd-cgroup"@, self.systemd_cgroup));
        }
        let ghost mid2 = str_views(args@);
        match self.rootless {
            Some(true) => push_str(&mut args, "--rootless=true"),
            Some(false) => push_str(&mut args, "--rootless=false"),
            None => (),
        }
        proof {
            assert(str_views(args@) =~= mid2 + (match self.rootless {
                Some(true) => seq!["--rootless=true"@],
                Some(false) => seq!["--rootless=false"@],
                None => Seq::<Seq<char>>::empty(),
            }));
            assert(str_views(args@) =~= self.global_args());
        }
        Ok(Runc { command, args })
    }

    /// Build a synchronous client from this configuration.
    pub fn build(self) -> (r: Result<Client, RuncError>)
        ensures
            r matches Ok(c) ==> c.0.command@ == self.spec_command() && str_views(c.0.args@)
                == self.global_args(),
            r matches Err(e) ==> e is NotFound,
            r is Err ==> self.spec_command().contains('/'),
    {
        match self.build_runc() {
            Ok(runc) => Ok(Client(runc)),
            Err(e) => Err(e),
        }
    }

    /// Build a concurrent-style client from this configuration.
    pub fn build_async(self) -> (r: Result<AsyncClient, RuncError>)
        ensures
            r matches Ok(c) ==> c.runc.command@ == self.spec_command() && str_views(c.runc.args@)
                == self.global_args() && c.timeout_ms == self.timeout_ms,
            r matches Err(e) ==> e is NotFound,
            r is Err ==> self.spec_command().contains('/'),
    {
        let timeout_ms = self.timeout_ms;
        match self.build_runc() {
            Ok(runc) => Ok(AsyncClient { runc, timeout_ms }),
            Err(e) => Err(e),
        }
    }
}

/// A fully assembled command descriptor: the runtime binary and the global
/// arguments prepended to every verb.
#[derive(Debug, Clone)]
pub struct Runc {
    pub command: String,
    pub args: Vec<String>,
}

impl Runc {
    /// The full argument list for one verb: the global arguments followed by
    /// the verb's own.
    pub fn full_args(&self, verb_args: Vec<String>) -> (r: Vec<String>)
        ensures
            r@ == self.args@ + verb_args@,
    {
        let mut out: Vec<String> = Vec::new();
        let mut i: usize = 0;
        while i < self.args.len()
            invariant
                0 <= i <= self.args@.len(),
                out@ == self.args@.subrange(0, i as int),
            decreases self.args@.len() - i,
        {
            let s = self.args[i].clone();
            out.push(s);
            proof {
                assert(out@ =~= self.args@.subrange(0, i as int + 1));
            }
            i = i + 1;
        }
        proof {
            assert(self.args@.subrange(0, self.args@.len() as int) =~= self.args@);
        }
        let mut tail = verb_args;
        out.append(&mut tail);
        out
    }
}

/// The argument list for a verb that takes only the container id.
pub fn verb_with_id(verb: &str, id: &str) -> (r: Vec<String>)
    ensures
        str_views(r@) == seq![verb@, id@],
{
    let mut v: Vec<String> = Vec::new();
    push_str(&mut v, verb);
    push_str(&mut v, id);
    proof {
        assert(str_views(v@) =~= seq![verb@, id@]);
    }
    v
}

/// The exact argument list of the create verb.
pub open spec fn create_args_spec(id: Seq<char>, bundle: Seq<char>, opts: Seq<Seq<char>>) -> Seq<
    Seq<char>,
> {
    seq!["create"@, "--bundle"@, bundle] + opts + seq![id]
}

/// The argument list for creating container `id` from `bundle`.
pub fn create_args(id: &str, bundle: &str, opts: Option<&CreateOpts>) -> (r: Vec<String>)
    ensures
        str_views(r@) == create_args_spec(
            id@,
            bundle@,
            match opts {
                Some(o) => o.spec_args(),
                None => Seq::<Seq<char>>::empty(),
            },
        ),
{
    let mut v: Vec<String> = Vec::new();
    push_str(&mut v, "create");
    push_str(&mut v, "--bundle");
    push_str(&mut v, bundle);
    if let Some(o) = opts {
        append_args(&mut v, o.args());
    }
    push_str(&mut v, id);
    proof {
        assert(str_views(v@) =~= create_args_spec(
            id@,
            bundle@,
            match opts {
                Some(o) => o.spec_args(),
                None => Seq::<Seq<char>>::empty(),
            },
        ));
    }
    v
}

/// The exact argument list of the run verb: the bundle path stands directly
/// after its flag, so the flag binds its value; the option arguments follow.
pub open spec fn run_args_spec(id: Seq<char>, bundle: Seq<char>, opts: Seq<Seq<char>>) -> Seq<
    Seq<char>,
> {
    seq!["run"@, "--bundle"@, bundle] + opts + seq![id]
}

/// The argument list for running container `id` from `bundle`.
pub fn run_args(id: &str, bundle: &str, opts: Option<&CreateOpts>) -> (r: Vec<String>)
    ensures
        str_views(r@) == run_args_spec(
            id@,
            bundle@,
            match opts {
                Some(o) => o.spec_args(),
                None => Seq::<Seq<char>>::empty(),
            },
        ),
{
    let mut v: Vec<String> = Vec::new();
    push_str(&mut v, "run");
    push_str(&mut v, "--bundle");
    push_str(&mut v, bundle);
    if let Some(o) = opts {
        append_args(&mut v, o.args());
    }
    push_str(&mut v, id);
    proof {
        assert(str_views(v@) =~= run_args_spec(
            id@,
            bundle@,
            match opts {
                Some(o) => o.spec_args(),
                None => Seq::<Seq<char>>::empty(),
            },
        ));
    }
    v
}

/// The exact argument list of the delete verb.
pub open spec fn delete_args_spec(id: Seq<char>, opts: Seq<Seq<char>>) -> Seq<Seq<char>> {
    seq!["delete"@] + opts + seq![id]
}

/// The argument list for deleting container `id`.
pub fn delete_args(id: &str, opts: Option<&DeleteOpts>) -> (r: Vec<String>)
    ensures
        str_views(r@) == delete_args_spec(
            id@,
            match opts {
                Some(o) => o.spec_args(),
                None => Seq::<Seq<char>>::empty(),
            },
        ),
{
    let mut v: Vec<String> = Vec::new();
    push_str(&mut v, "delete");
    if let Some(o) = opts {
        append_args(&mut v, o.args());
    }
    push_str(&mut v, id);
    proof {
        assert(str_views(v@) =~= delete_args_spec(
            id@,
            match opts {
                Some(o) => o.spec_args(),
                None => Seq::<Seq<char>>::empty(),
            },
        ));
    }
    v
}

/// The exact argument list of the kill verb: the signal number is written
/// in decimal after the container id.
pub open spec fn kill_args_spec(id: Seq<char>, sig: nat, opts: Seq<Seq<char>>) -> Seq<Seq<char>> {
    seq!["kill"@] + opts + seq![id, dec_seq(sig)]
}

/// The argument list for sending signal `sig` to container `id`.
pub fn kill_args(id: &str, sig: u32, opts: Option<&KillOpts>) -> (r: Vec<String>)
    ensures
        str_views(r@) == kill_args_spec(
            id@,
            sig as nat,
            match opts {
                Some(o) => o.spec_args(),
                None => Seq::<Seq<char>>::empty(),
            },
        ),
{
    let mut v: Vec<String> = Vec::new();
    push_str(&mut v, "kill");
    if let Some(o) = opts {
        append_args(&mut v, o.args());
    }
    push_str(&mut v, id);
    push_string(&mut v, u64_to_string(sig as u64));
    proof {
        assert(str_views(v@) =~= kill_args_spec(
            id@,
            sig as nat,
            match opts {
                Some(o) => o.spec_args(),
                None => Seq::<Seq<char>>::empty(),
            },
        ));
    }
    v
}

/// The argument list of the list verb.
pub fn list_args() -> (r: Vec<String>)
    ensures
        str_views(r@) == seq!["list"@, "--format-json"@],
{
    let mut v: Vec<String> = Vec::new();
    push_str(&mut v, "list");
    push_str(&mut v, "--format-json");
    proof {
        assert(str_views(v@) =~= seq!["list"@, "--format-json"@]);
    }
    v
}

/// The argument list of the ps verb.
pub fn ps_args(id: &str) -> (r: Vec<String>)
    ensures
        str_views(r@) == seq!["ps"@, "--format-json"@, id@],
{
    let mut v: Vec<String> = Vec::new();
    push_str(&mut v, "ps");
    push_str(&mut v, "--format-json");
    push_str(&mut v, id);
    proof {
        assert(str_views(v@) =~= seq!["ps"@, "--format-json"@, id@]);
    }
    v
}

/// The argument list of the stats query: the events verb asked for one
/// statistics snapshot.
pub fn stats_args(id: &str) -> (r: Vec<String>)
    ensures
        str_views(r@) == seq!["events"@, "--stats"@, id@],
{
    let mut v: Vec<String> = Vec::new();
    push_str(&mut v, "events");
    push_str(&mut v, "--stats");
    push_str(&mut v, id);
    proof {
        assert(str_views(v@) =~= seq!["events"@, "--stats"@, id@]);
    }
    v
}

/// The argument list of the update verb: the resource spec is referenced by
/// the path of the temporary file holding its JSON text.
pub fn update_args(spec_path: &String, id: &str) -> (r: Vec<String>)
    ensures
        str_views(r@) == seq!["update"@, "--resources"@, spec_path@, id@],
{
    let mut v: Vec<String> = Vec::new();
    push_str(&mut v, "update");
    push_str(&mut v, "--resources");
    push_string(&mut v, spec_path.clone());
    push_str(&mut v, id);
    proof {
        assert(str_views(v@) =~= seq!["update"@, "--resources"@, spec_path@, id@]);
    }
    v
}

/// The exact argument list of the exec verb: the process spec is referenced
/// by the path of the temporary file holding its JSON text.
pub open spec fn exec_args_spec(id: Seq<char>, spec_path: Seq<char>, opts: Seq<Seq<char>>) -> Seq<
    Seq<char>,
> {
    seq!["exec"@, "process"@, spec_path] + opts + seq![id]
}

/// The argument list for executing an additional process inside container
/// `id`.
pub fn exec_args(id: &str, spec_path: &String, opts: Option<&ExecOpts>) -> (r: Vec<String>)
    ensures
        str_views(r@) == exec_args_spec(
            id@,
            spec_path@,
            match opts {
                Some(o) => o.spec_args(),
                None => Seq::<Seq<char>>::empty(),
            },
        ),
{
    let mut v: Vec<String> = Vec::new();
    push_str(&mut v, "exec");
    push_str(&mut v, "process");
    push_string(&mut v, spec_path.clone());
    if let Some(o) = opts {
        append_args(&mut v, o.args());
    }
    push_str(&mut v, id);
    proof {
        assert(str_views(v@) =~= exec_args_spec(
            id@,
            spec_path@,
            match opts {
                Some(o) => o.spec_args(),
                None => Seq::<Seq<char>>::empty(),
            },
        ));
    }
    v
}

/// The synchronous client: every verb spawns the runtime binary, blocks the
/// calling thread until it exits, and classifies the outcome.
///
/// Every verb (and the existence check in `build`) blocks on a private tokio
/// runtime: call it outside any asynchronous execution context, where that
/// bridge would panic.
#[derive(Debug, Clone)]
pub struct Client(pub Runc);

impl Client {
    /// Launches the runtime binary with the global arguments followed by
    /// `verb_args`, and classifies the completion record as
    /// [`launch::classify`](crate::launch::classify) states.
    fn launch_verb(&self, verb_args: Vec<String>, combined_output: bool) -> (r: Result<
        Response,
        RuncError,
    >)
        ensures
            r matches Ok(resp) ==> resp.status.spec_success(),
            r matches Err(e) ==> (e matches RuncError::ProcessSpawnFailed(_) || e
                matches RuncError::InvalidCommand(_) || e matches RuncError::CommandFailed { .. }),
    {
        let args = self.0.full_args(verb_args);
        launch(&self.0.command, &args, combined_output)
    }

    /// Checkpointing has no single-command mapping here.
    pub fn checkpoint(&self) -> (r: Result<(), RuncError>)
        ensures
            r matches Err(e) && e matches RuncError::Unimplemented(s) && s@ == "checkpoint"@,
    {
        Err(RuncError::Unimplemented("checkpoint".to_owned()))
    }

    /// Restoring has no single-command mapping here.
    pub fn restore(&self) -> (r: Result<(), RuncError>)
        ensures
            r matches Err(e) && e matches RuncError::Unimplemented(s) && s@ == "restore"@,
    {
        Err(RuncError::Unimplemented("restore".to_owned()))
    }

    /// Create a new container. On exit code 0 the response carries the
    /// process id and both captured streams.
    pub fn create(&self, id: &str, bundle: &str, opts: Option<&CreateOpts>) -> (r: Result<
        Response,
        RuncError,
    >)
        ensures
            r matches Ok(resp) ==> resp.status.spec_success(),
            r matches Err(e) ==> (e matches RuncError::ProcessSpawnFailed(_) || e
                matches RuncError::InvalidCommand(_) || e matches RuncError::CommandFailed { .. }),
    {
        self.launch_verb(create_args(id, bundle, opts), true)
    }

    /// Run the create, start, delete lifecycle of a container.
    pub fn run(&self, id: &str, bundle: &str, opts: Option<&CreateOpts>) -> (r: Result<
        Response,
        RuncError,
    >)
        ensures
            r matches Ok(resp) ==> resp.status.spec_success(),
            r matches Err(e) ==> (e matches RuncError::ProcessSpawnFailed(_) || e
                matches RuncError::InvalidCommand(_) || e matches RuncError::CommandFailed { .. }),
    {
        self.launch_verb(run_args(id, bundle, opts), true)
    }

    /// Start an already created container.
    pub fn start(&self, id: &str) -> (r: Result<Response, RuncError>)
        ensures
            r matches Ok(resp) ==> resp.status.spec_success(),
            r matches Err(e) ==> (e matches RuncError::ProcessSpawnFailed(_) || e
                matches RuncError::InvalidCommand(_) || e matches RuncError::CommandFailed { .. }),
    {
        self.launch_verb(verb_with_id("start", id), true)
    }

    /// Delete a container.
    pub fn delete(&self, id: &str, opts: Option<&DeleteOpts>) -> (r: Result<(), RuncError>)
        ensures
            r matches Err(e) ==> (e matches RuncError::ProcessSpawnFailed(_) || e
                matches RuncError::InvalidCommand(_) || e matches RuncError::CommandFailed { .. }),
    {
        match self.launch_verb(delete_args(id, opts), true) {
            Ok(_) => Ok(()),
            Err(e) => Err(e),
        }
    }

    /// Send the given signal to the container's processes.
    pub fn kill(&self, id: &str, sig: u32, opts: Option<&KillOpts>) -> (r: Result<(), RuncError>)
        ensures
            r matches Err(e) ==> (e matches RuncError::ProcessSpawnFailed(_) || e
                matches RuncError::InvalidCommand(_) || e matches RuncError::CommandFailed { .. }),
    {
        match self.launch_verb(kill_args(id, sig, opts), true) {
            Ok(_) => Ok(()),
            Err(e) => Err(e),
        }
    }

    /// Pause a container.
    pub fn pause(&self, id: &str) -> (r: Result<(), RuncError>)
        ensures
            r matches Err(e) ==> (e matches RuncError::ProcessSpawnFailed(_) || e
                matches RuncError::InvalidCommand(_) || e matches RuncError::CommandFailed { .. }),
    {
        match self.launch_verb(verb_with_id("pause", id), true) {
            Ok(_) => Ok(()),
            Err(e) => Err(e),
        }
    }

    /// List all containers associated with this runtime instance; each
    /// record is one decoded JSON document. The decoding contract is stated
    /// on [`json::decode_container_list`](crate::json::decode_container_list).
    pub fn list(&self) -> (r: Result<Vec<serde_json::Value>, RuncError>)
        ensures
            r matches Err(e) ==> (e matches RuncError::ProcessSpawnFailed(_) || e
                matches RuncError::InvalidCommand(_) || e matches RuncError::CommandFailed { .. }
                || e matches RuncError::JsonDeserializationFailed(_)),
    {
        match self.launch_verb(list_args(), true) {
            Ok(resp) => decode_container_list(resp.output.as_str()),
            Err(e) => Err(e),
        }
    }

    /// Return the state of a container as one decoded JSON document. The
    /// decoding contract is stated on
    /// [`json::decode_state`](crate::json::decode_state).
    pub fn state(&self, id: &str) -> (r: Result<serde_json::Value, RuncError>)
        ensures
            r matches Err(e) ==> (e matches RuncError::ProcessSpawnFailed(_) || e
                matches RuncError::InvalidCommand(_) || e matches RuncError::CommandFailed { .. }
                || e matches RuncError::JsonDeserializationFailed(_)),
    {
        match self.launch_verb(verb_with_id("state", id), true) {
            Ok(resp) => decode_state(resp.output.as_str()),
            Err(e) => Err(e),
        }
    }

    /// Update a container with the given resource spec: the spec's JSON text
    /// is written to a temporary file before the spawn, and the update verb
    /// references that file by path.
    pub fn update(&self, id: &str, resources: &oci_spec::runtime::Linux) -> (r: Result<
        (),
        RuncError,
    >)
        ensures
            r matches Err(e) ==> (e matches RuncError::ProcessSpawnFailed(_) || e
                matches RuncError::InvalidCommand(_) || e matches RuncError::CommandFailed { .. }
                || e matches RuncError::JsonDeserializationFailed(_) || e
                matches RuncError::SpecFileCreationFailed(_)),
    {
        let json = match serialize_linux(resources) {
            Ok(s) => s,
            Err(e) => return Err(RuncError::JsonDeserializationFailed(e)),
        };
        let path = match write_temp_spec_file(&json) {
            Ok(p) => p,
            Err(e) => return Err(e),
        };
        match self.launch_verb(update_args(&path, id), true) {
            Ok(_) => Ok(()),
            Err(e) => Err(e),
        }
    }

    /// Execute an additional process inside the container: the process
    /// spec's JSON text is written to a temporary file before the spawn, and
    /// the exec verb references that file by path.
    pub fn exec(&self, id: &str, spec: &oci_spec::runtime::Process, opts: Option<&ExecOpts>) -> (r:
        Result<(), RuncError>)
        ensures
            r matches Err(e) ==> (e matches RuncError::ProcessSpawnFailed(_) || e
                matches RuncError::InvalidCommand(_) || e matches RuncError::CommandFailed { .. }
                || e matches RuncError::JsonDeserializationFailed(_) || e
                matches RuncError::SpecFileCreationFailed(_)),
    {
        let json = match serialize_process(spec) {
            Ok(s) => s,
            Err(e) => return Err(RuncError::JsonDeserializationFailed(e)),
        };
        let path = match write_temp_spec_file(&json) {
            Ok(p) => p,
            Err(e) => return Err(e),
        };
        match self.launch_verb(exec_args(id, &path, opts), true) {
            Ok(_) => Ok(()),
            Err(e) => Err(e),
        }
    }

    /// Resume a paused container.
    pub fn resume(&self, id: &str) -> (r: Result<(), RuncError>)
        ensures
            r matches Err(e) ==> (e matches RuncError::ProcessSpawnFailed(_) || e
                matches RuncError::InvalidCommand(_) || e matches RuncError::CommandFailed { .. }),
    {
        match self.launch_verb(verb_with_id("resume", id), true) {
            Ok(_) => Ok(()),
            Err(e) => Err(e),
        }
    }
}

/// The concurrent-style client configuration; its verbs are driven through
/// the process monitor by an asynchronous shell around this library, which
/// races each invocation against the configured timeout.
#[derive(Debug, Clone)]
pub struct AsyncClient {
    pub runc: Runc,
    /// Timeout in milliseconds that the concurrent style applies to each
    /// invocation.
    pub timeout_ms: u64,
}

} // verus!
