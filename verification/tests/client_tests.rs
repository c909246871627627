//! Lifecycle verbs driven against stand-in executables that always succeed
//! or always fail.

use runc::error::RuncError;
use runc::options::{CreateOpts, DeleteOpts, ExecOpts};
use runc::{Client, ConfigBuilder};

const CMD_TRUE: &str = "/bin/true";
const CMD_FALSE: &str = "/bin/false";

fn ok_client() -> Client {
    ConfigBuilder::new()
        .command(CMD_TRUE)
        .build()
        .expect("unable to create runc instance")
}

fn fail_client() -> Client {
    ConfigBuilder::new()
        .command(CMD_FALSE)
        .build()
        .expect("unable to create runc instance")
}

fn dummy_process() -> oci_spec::runtime::Process {
    serde_json::from_str(
        "
            {
                \"user\": {
                    \"uid\": 1000,
                    \"gid\": 1000
                },
                \"cwd\": \"/path/to/dir\"
            }",
    )
    .unwrap()
}

#[test]
fn test_create() {
    let opts = CreateOpts::new();
    let ok_runc = ok_client();
    ok_runc
        .create("fake-id", "fake-bundle", Some(&opts))
        .expect("true failed.");
    println!("ok_runc succeeded.");
    let fail_runc = fail_client();
    match fail_runc.create("fake-id", "fake-bundle", Some(&opts)) {
        Ok(_) => panic!("fail_runc returned exit status 0."),
        Err(RuncError::CommandFailed {
            status,
            stdout,
            stderr,
        }) => {
            if status.code().unwrap() == 1 && stdout.is_empty() && stderr.is_empty() {
                println!("fail_runc succeeded.");
            } else {
                panic!("unexpected outputs from fail_runc.")
            }
        }
        Err(e) => panic!("unexpected error from fail_runc: {:?}", e),
    }
}

#[test]
fn test_run() {
    let opts = CreateOpts::new();
    let ok_runc = ok_client();
    ok_runc
        .run("fake-id", "fake-bundle", Some(&opts))
        .expect("true failed.");
    println!("ok_runc succeeded.");
    let fail_runc = fail_client();
    match fail_runc.run("fake-id", "fake-bundle", Some(&opts)) {
        Ok(_) => panic!("fail_runc returned exit status 0."),
        Err(RuncError::CommandFailed {
            status,
            stdout,
            stderr,
        }) => {
            if status.code().unwrap() == 1 && stdout.is_empty() && stderr.is_empty() {
                println!("fail_runc succeeded.");
            } else {
                panic!("unexpected outputs from fail_runc.")
            }
        }
        Err(e) => panic!("unexpected error from fail_runc: {:?}", e),
    }
}

#[test]
fn test_exec() {
    let opts = ExecOpts::new();
    let ok_runc = ok_client();
    let proc = dummy_process();
    ok_runc
        .exec("fake-id", &proc, Some(&opts))
        .expect("true failed.");
    println!("ok_runc succeeded.");
    let fail_runc = fail_client();
    match fail_runc.exec("fake-id", &proc, Some(&opts)) {
        Ok(_) => panic!("fail_runc returned exit status 0."),
        Err(RuncError::CommandFailed {
            status,
            stdout,
            stderr,
        }) => {
            if status.code().unwrap() == 1 && stdout.is_empty() && stderr.is_empty() {
                println!("fail_runc succeeded.");
            } else {
                panic!("unexpected outputs from fail_runc.")
            }
        }
        Err(e) => panic!("unexpected error from fail_runc: {:?}", e),
    }
}

#[test]
fn test_delete() {
    let opts = DeleteOpts::new();
    let ok_runc = ok_client();
    ok_runc
        .delete("fake-id", Some(&opts))
        .expect("true failed.");
    println!("ok_runc succeeded.");
    let fail_runc = fail_client();
    match fail_runc.delete("fake-id", Some(&opts)) {
        Ok(_) => panic!("fail_runc returned exit status 0."),
        Err(RuncError::CommandFailed {
            status,
            stdout,
            stderr,
        }) => {
            if status.code().unwrap() == 1 && stdout.is_empty() && stderr.is_empty() {
                println!("fail_runc succeeded.");
            } else {
                panic!("unexpected outputs from fail_runc.")
            }
        }
        Err(e) => panic!("unexpected error from fail_runc: {:?}", e),
    }
}

#[test]
fn create_against_succeeding_stand_in_yields_pid_and_empty_output() {
    let opts = CreateOpts::new();
    let ok_runc = ok_client();
    let resp = ok_runc
        .create("c1", "/bundle", Some(&opts))
        .expect("true failed.");
    assert!(resp.pid > 0);
    assert_eq!(resp.status.code(), Some(0));
    assert!(resp.status.success());
    assert_eq!(resp.output, "");
}

#[test]
fn create_against_failing_stand_in_yields_command_failed_code_1() {
    let opts = CreateOpts::new();
    let fail_runc = fail_client();
    match fail_runc.create("c1", "/bundle", Some(&opts)) {
        Err(RuncError::CommandFailed { status, .. }) => {
            assert_eq!(status.code(), Some(1));
            assert!(!status.success());
        }
        other => panic!("expected a command-failed error, got {:?}", other),
    }
}

#[test]
fn missing_binary_path_is_a_configuration_error() {
    let built = ConfigBuilder::new()
        .command("/nonexistent/path/to/a/runtime")
        .build();
    assert!(matches!(built, Err(RuncError::NotFound)));
}

#[test]
fn spawn_refusal_is_a_spawn_error() {
    // A bare name that resolves to nothing is rejected by the OS at spawn
    // time, not at build time.
    let client = ConfigBuilder::new()
        .command("no-such-runtime-binary-anywhere")
        .build()
        .expect("a bare name builds");
    match client.start("c1") {
        Err(RuncError::ProcessSpawnFailed(_)) => {}
        other => panic!("expected a spawn error, got {:?}", other),
    }
}

#[test]
fn checkpoint_and_restore_are_unimplemented() {
    let client = ok_client();
    match client.checkpoint() {
        Err(RuncError::Unimplemented(v)) => assert_eq!(v, "checkpoint"),
        other => panic!("expected unimplemented, got {:?}", other),
    }
    match client.restore() {
        Err(RuncError::Unimplemented(v)) => assert_eq!(v, "restore"),
        other => panic!("expected unimplemented, got {:?}", other),
    }
}

#[test]
fn kill_pause_resume_run_the_configured_binary() {
    let client = ok_client();
    client.kill("c1", 9, None).expect("true failed.");
    client.pause("c1").expect("true failed.");
    client.resume("c1").expect("true failed.");
    let fail = fail_client();
    assert!(matches!(
        fail.kill("c1", 9, None),
        Err(RuncError::CommandFailed { .. })
    ));
}
