//! Per-verb option sets and the argument lists they contribute.

use vstd::prelude::*;

use crate::argv::{bool_flag, opt_flag_arg, opt_view, push_str, push_string, str_views};

verus! {

/// Options for creating or running a container.
#[derive(Debug, Default)]
pub struct CreateOpts {
    /// File to write the new container process's id to.
    pub pid_file: Option<String>,
    /// Console socket to hand the container's terminal to.
    pub console_socket: Option<String>,
    /// Do not use pivot_root to jail the process.
    pub no_pivot: bool,
    /// Do not create a new session keyring.
    pub no_new_keyring: bool,
    /// Detach from the container's process.
    pub detach: bool,
}

impl CreateOpts {
    /// The arguments this option set contributes to the verb.
    pub open spec fn spec_args(&self) -> Seq<Seq<char>> {
        opt_flag_arg("--pid-file"@, opt_view(self.pid_file)) + opt_flag_arg(
            "--console-socket"@,
            opt_view(self.console_socket),
        ) + bool_flag("--no-pivot"@, self.no_pivot) + bool_flag(
            "--no-new-keyring"@,
            self.no_new_keyring,
        ) + bool_flag("--detach"@, self.detach)
    }

    pub fn new() -> (r: Self)
        ensures
            r.pid_file is None,
            r.console_socket is None,
            !r.no_pivot,
            !r.no_new_keyring,
            !r.detach,
    {
        CreateOpts {
            pid_file: None,
            console_socket: None,
            no_pivot: false,
            no_new_keyring: false,
            detach: false,
        }
    }

    pub fn args(&self) -> (r: Vec<String>)
        ensures
            str_views(r@) == self.spec_args(),
    {
        let mut v: Vec<String> = Vec::new();
        if let Some(pid_file) = &self.pid_file {
            push_str(&mut v, "--pid-file");
            push_string(&mut v, pid_file.clone());
        }
        if let Some(console_socket) = &self.console_socket {
            push_str(&mut v, "--console-socket");
            push_string(&mut v, console_socket.clone());
        }
        if self.no_pivot {
            push_str(&mut v, "--no-pivot");
        }
        if self.no_new_keyring {
            push_str(&mut v, "--no-new-keyring");
        }
        if self.detach {
            push_str(&mut v, "--detach");
        }
        proof {
            assert(str_views(v@) =~= self.spec_args());
        }
        v
    }
}

/// Options for executing an additional process inside a container.
#[derive(Debug, Default)]
pub struct ExecOpts {
    /// File to write the executed process's id to.
    pub pid_file: Option<String>,
    /// Console socket to hand the process's terminal to.
    pub console_socket: Option<String>,
    /// Detach from the executed process.
    pub detach: bool,
}

impl ExecOpts {
    /// The arguments this option set contributes to the verb.
    pub open spec fn spec_args(&self) -> Seq<Seq<char>> {
        opt_flag_arg("--pid-file"@, opt_view(self.pid_file)) + opt_flag_arg(
            "--console-socket"@,
            opt_view(self.console_socket),
        ) + bool_flag("--detach"@, self.detach)
    }

    pub fn new() -> (r: Self)
        ensures
            r.pid_file is None,
            r.console_socket is None,
            !r.detach,
    {
        ExecOpts { pid_file: None, console_socket: None, detach: false }
    }

    pub fn args(&self) -> (r: Vec<String>)
        ensures
            str_views(r@) == self.spec_args(),
    {
        let mut v: Vec<String> = Vec::new();
        if let Some(pid_file) = &self.pid_file {
            push_str(&mut v, "--pid-file");
            push_string(&mut v, pid_file.clone());
        }
        if let Some(console_socket) = &self.console_socket {
            push_str(&mut v, "--console-socket");
            push_string(&mut v, console_socket.clone());
        }
        if self.detach {
            push_str(&mut v, "--detach");
        }
        proof {
            assert(str_views(v@) =~= self.spec_args());
        }
        v
    }
}

/// Options for deleting a container.
#[derive(Debug, Default)]
pub struct DeleteOpts {
    /// Delete the container even if it is still running.
    pub force: bool,
}

impl DeleteOpts {
    /// The arguments this option set contributes to the verb.
    pub open spec fn spec_args(&self) -> Seq<Seq<char>> {
        bool_flag("--force"@, self.force)
    }

    pub fn new() -> (r: Self)
        ensures
            !r.force,
    {
        DeleteOpts { force: false }
    }

    pub fn args(&self) -> (r: Vec<String>)
        ensures
            str_views(r@) == self.spec_args(),
    {
        let mut v: Vec<String> = Vec::new();
        if self.force {
            push_str(&mut v, "--force");
        }
        proof {
            assert(str_views(v@) =~= self.spec_args());
        }
        v
    }
}

/// Options for signalling a container.
#[derive(Debug, Default)]
pub struct KillOpts {
    /// Signal every process in the container, not only the init process.
    pub all: bool,
}

impl KillOpts {
    /// The arguments this option set contributes to the verb.
    pub open spec fn spec_args(&self) -> Seq<Seq<char>> {
        bool_flag("--all"@, self.all)
    }

    pub fn new() -> (r: Self)
        ensures
            !r.all,
    {
        KillOpts { all: false }
    }

    pub fn args(&self) -> (r: Vec<String>)
        ensures
            str_views(r@) == self.spec_args(),
    {
        let mut v: Vec<String> = Vec::new();
        if self.all {
            push_str(&mut v, "--all");
        }
        proof {
            assert(str_views(v@) =~= self.spec_args());
        }
        v
    }
}

} // verus!
