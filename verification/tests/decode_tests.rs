//! Output decoding, completion classification, text helpers, and the exact
//! argument lists the verbs assemble.

use runc::error::{ExitStatus, RuncError};
use runc::json::{decode_container_list, decode_pid_list, decode_state, decode_stats};
use runc::launch::{classify, Completion};
use runc::options::{CreateOpts, DeleteOpts, ExecOpts, KillOpts};
use runc::text::{contains_char, str_eq, trim, u64_to_string};
use runc::{
    create_args, delete_args, exec_args, kill_args, list_args, ps_args, run_args, stats_args,
    update_args, verb_with_id, ConfigBuilder, LogFormat,
};

fn completion(code: Option<i32>, stdout: &str, stderr: &str) -> Completion {
    Completion {
        pid: 42,
        code,
        stdout: stdout.to_string(),
        stderr: stderr.to_string(),
    }
}

#[test]
fn classify_zero_exit_round_trips_the_captured_bytes() {
    let text = "twelve bytes";
    let resp = classify(completion(Some(0), text, ""), false).expect("exit 0 succeeds");
    assert_eq!(resp.pid, 42);
    assert_eq!(resp.status.code(), Some(0));
    assert_eq!(resp.output.len(), text.len());
    assert_eq!(resp.output, text);
}

#[test]
fn classify_combines_both_streams_when_asked() {
    let resp = classify(completion(Some(0), "out", "err"), true).expect("exit 0 succeeds");
    assert_eq!(resp.output, "outerr");
    let resp = classify(completion(Some(0), "out", "err"), false).expect("exit 0 succeeds");
    assert_eq!(resp.output, "out");
}

#[test]
fn classify_nonzero_exit_carries_status_and_streams_verbatim() {
    match classify(completion(Some(1), "", ""), true) {
        Err(RuncError::CommandFailed {
            status,
            stdout,
            stderr,
        }) => {
            assert_eq!(status.code(), Some(1));
            assert_eq!(stdout, "");
            assert_eq!(stderr, "");
        }
        other => panic!("expected command-failed, got {:?}", other),
    }
    match classify(completion(Some(3), "partial", "oops"), true) {
        Err(RuncError::CommandFailed {
            status,
            stdout,
            stderr,
        }) => {
            assert_eq!(status.code(), Some(3));
            assert_eq!(stdout, "partial");
            assert_eq!(stderr, "oops");
        }
        other => panic!("expected command-failed, got {:?}", other),
    }
}

#[test]
fn classify_signal_termination_is_failure() {
    match classify(completion(None, "", "killed"), true) {
        Err(RuncError::CommandFailed { status, stderr, .. }) => {
            assert_eq!(status.code(), None);
            assert!(!status.success());
            assert_eq!(stderr, "killed");
        }
        other => panic!("expected command-failed, got {:?}", other),
    }
}

#[test]
fn literal_null_decodes_to_an_empty_container_list() {
    let v = decode_container_list("null").expect("null is an empty collection");
    assert!(v.is_empty());
    let v = decode_container_list("null\n").expect("trailing whitespace is trimmed");
    assert!(v.is_empty());
    let v = decode_container_list("  null  ").expect("surrounding whitespace is trimmed");
    assert!(v.is_empty());
}

#[test]
fn literal_null_decodes_to_an_empty_pid_list() {
    let v = decode_pid_list("null\n").expect("null is an empty collection");
    assert!(v.is_empty());
}

#[test]
fn container_list_json_decodes_record_by_record() {
    let v = decode_container_list("[{\"id\": \"c1\"}, {\"id\": \"c2\"}]").expect("valid JSON");
    assert_eq!(v.len(), 2);
    assert_eq!(v[0]["id"], "c1");
    assert_eq!(v[1]["id"], "c2");
}

#[test]
fn pid_list_json_decodes_to_the_numbers_written() {
    let v = decode_pid_list("[1, 22, 333]\n").expect("valid JSON");
    assert_eq!(v, vec![1usize, 22, 333]);
}

#[test]
fn broken_json_is_a_deserialization_error() {
    assert!(matches!(
        decode_container_list("[{"),
        Err(RuncError::JsonDeserializationFailed(_))
    ));
    assert!(matches!(
        decode_pid_list("[1,"),
        Err(RuncError::JsonDeserializationFailed(_))
    ));
    assert!(matches!(
        decode_state("{"),
        Err(RuncError::JsonDeserializationFailed(_))
    ));
}

#[test]
fn state_decodes_one_document() {
    let v = decode_state("{\"id\": \"c1\", \"status\": \"running\"}").expect("valid JSON");
    assert_eq!(v["status"], "running");
}

#[test]
fn literal_null_state_is_not_an_error() {
    let v = decode_state("null\n").expect("null is the empty state, not an error");
    assert!(v.is_null());
}

#[test]
fn stats_payload_is_required() {
    let v = decode_stats("{\"type\": \"stats\", \"id\": \"c1\", \"stats\": {\"cpu\": {}}}")
        .expect("an event with stats");
    assert!(v.get("cpu").is_some());
    assert!(matches!(
        decode_stats("{\"type\": \"stats\", \"id\": \"c1\"}"),
        Err(RuncError::MissingContainerStats)
    ));
    assert!(matches!(
        decode_stats("not json"),
        Err(RuncError::JsonDeserializationFailed(_))
    ));
}

#[test]
fn trim_strips_ascii_whitespace_only_at_the_ends() {
    assert_eq!(trim("  a b \n"), "a b");
    assert_eq!(trim("\t\r\n"), "");
    assert_eq!(trim("null"), "null");
    assert_eq!(trim(""), "");
}

#[test]
fn str_eq_and_contains_char_match_std() {
    assert!(str_eq("null", "null"));
    assert!(!str_eq("null", "nul"));
    assert!(!str_eq("null", "nulL"));
    assert!(contains_char("/bin/true", '/'));
    assert!(!contains_char("runc", '/'));
}

#[test]
fn u64_to_string_writes_decimal() {
    assert_eq!(u64_to_string(0), "0");
    assert_eq!(u64_to_string(9), "9");
    assert_eq!(u64_to_string(10), "10");
    assert_eq!(u64_to_string(90210), "90210");
    assert_eq!(u64_to_string(u64::MAX), "18446744073709551615");
}

#[test]
fn exit_status_success_is_exactly_code_zero() {
    assert!(ExitStatus::from_code(Some(0)).success());
    assert!(!ExitStatus::from_code(Some(1)).success());
    assert!(!ExitStatus::from_code(None).success());
}

fn strs(v: &[&str]) -> Vec<String> {
    v.iter().map(|s| s.to_string()).collect()
}

#[test]
fn verb_argument_lists_are_exact() {
    let opts = CreateOpts::new();
    assert_eq!(
        create_args("c1", "/bundle", Some(&opts)),
        strs(&["create", "--bundle", "/bundle", "c1"])
    );
    assert_eq!(
        run_args("c1", "/bundle", None),
        strs(&["run", "--bundle", "/bundle", "c1"])
    );
    let detach = CreateOpts {
        pid_file: None,
        console_socket: None,
        no_pivot: false,
        no_new_keyring: false,
        detach: true,
    };
    assert_eq!(
        run_args("c1", "/bundle", Some(&detach)),
        strs(&["run", "--bundle", "/bundle", "--detach", "c1"])
    );
    assert_eq!(
        delete_args("c1", Some(&DeleteOpts { force: true })),
        strs(&["delete", "--force", "c1"])
    );
    assert_eq!(
        kill_args("c1", 9, Some(&KillOpts { all: true })),
        strs(&["kill", "--all", "c1", "9"])
    );
    assert_eq!(kill_args("c1", 15, None), strs(&["kill", "c1", "15"]));
    assert_eq!(list_args(), strs(&["list", "--format-json"]));
    assert_eq!(ps_args("c1"), strs(&["ps", "--format-json", "c1"]));
    assert_eq!(stats_args("c1"), strs(&["events", "--stats", "c1"]));
    assert_eq!(verb_with_id("resume", "c1"), strs(&["resume", "c1"]));
    assert_eq!(verb_with_id("pause", "c1"), strs(&["pause", "c1"]));
    assert_eq!(
        update_args(&"/tmp/spec.json".to_string(), "c1"),
        strs(&["update", "--resources", "/tmp/spec.json", "c1"])
    );
    let eopts = ExecOpts {
        pid_file: Some("/run/pid".to_string()),
        console_socket: None,
        detach: true,
    };
    assert_eq!(
        exec_args("c1", &"/tmp/p.json".to_string(), Some(&eopts)),
        strs(&["exec", "process", "/tmp/p.json", "--pid-file", "/run/pid", "--detach", "c1"])
    );
}

#[test]
fn option_sets_contribute_their_flags() {
    let opts = CreateOpts {
        pid_file: Some("/run/c1.pid".to_string()),
        console_socket: Some("/run/c1.sock".to_string()),
        no_pivot: true,
        no_new_keyring: true,
        detach: true,
    };
    assert_eq!(
        opts.args(),
        strs(&[
            "--pid-file",
            "/run/c1.pid",
            "--console-socket",
            "/run/c1.sock",
            "--no-pivot",
            "--no-new-keyring",
            "--detach",
        ])
    );
    assert!(CreateOpts::new().args().is_empty());
    assert!(ExecOpts::new().args().is_empty());
    assert!(DeleteOpts::new().args().is_empty());
    assert!(KillOpts::new().args().is_empty());
}

#[test]
fn global_arguments_follow_the_configuration() {
    let client = ConfigBuilder::new()
        .command("/bin/true")
        .root("/run/user/1000/runc")
        .debug(true)
        .log("/tmp/runc.log")
        .log_format(LogFormat::Json)
        .systemd_cgroup(true)
        .rootless(true)
        .build()
        .expect("build succeeds");
    assert_eq!(client.0.command, "/bin/true");
    assert_eq!(
        client.0.args,
        strs(&[
            "--root",
            "/run/user/1000/runc",
            "--debug",
            "--log",
            "/tmp/runc.log",
            "--log-format",
            "json",
            "--systemd-cgroup",
            "--rootless=true",
        ])
    );
    let bare = ConfigBuilder::new()
        .command("/bin/true")
        .build()
        .expect("build succeeds");
    assert_eq!(bare.0.args, strs(&["--log-format", "text"]));
    let auto = ConfigBuilder::new()
        .command("/bin/true")
        .rootless(false)
        .rootless_auto()
        .build()
        .expect("build succeeds");
    assert_eq!(auto.0.args, strs(&["--log-format", "text"]));
}

#[test]
fn builder_defaults_are_unset_text_and_five_seconds() {
    let b = runc::builder();
    assert!(b.command.is_none());
    assert!(b.root.is_none());
    assert!(!b.debug);
    assert!(b.log.is_none());
    assert!(matches!(b.log_format, LogFormat::Text));
    assert!(!b.set_pgid);
    assert!(!b.systemd_cgroup);
    assert!(b.rootless.is_none());
    assert_eq!(b.timeout_ms, 5000);
    let b = b.timeout(250).set_pgid(true).log_json();
    assert_eq!(b.timeout_ms, 250);
    assert!(b.set_pgid);
    assert!(matches!(b.log_format, LogFormat::Json));
}

#[test]
fn the_concurrent_configuration_carries_the_timeout() {
    let client = ConfigBuilder::new()
        .command("/bin/true")
        .timeout(250)
        .build_async()
        .expect("build succeeds");
    assert_eq!(client.timeout_ms, 250);
    assert_eq!(client.runc.command, "/bin/true");
}

#[test]
fn bare_binary_names_always_build() {
    // Resolution of a bare name is the operating system's job at spawn time,
    // so building cannot fail on one.
    let built = ConfigBuilder::new()
        .command("no-such-runtime-binary-anywhere")
        .build();
    assert!(built.is_ok());
}
