//! The update and exec flows: the serialized spec reaches a temporary file
//! that exists, with the exact JSON text, before the runtime binary starts.

use runc::error::RuncError;
use runc::fsio::{spec_file_path, write_temp_spec_file};
use runc::{ConfigBuilder, update_args};

#[test]
fn spec_file_path_is_stamped() {
    let p = spec_file_path(90210);
    assert_eq!(p, "/tmp/runc-spec-90210.json");
}

#[test]
fn written_spec_file_exists_and_reads_back_verbatim() {
    let contents = "{\"memory\":{\"limit\":1048576}}".to_string();
    let path = write_temp_spec_file(&contents).expect("writable temporary file");
    let rt = tokio::runtime::Builder::new_current_thread()
        .enable_all()
        .build()
        .unwrap();
    let read_back = rt
        .block_on(tokio::fs::read_to_string(&path))
        .expect("the file exists and is readable");
    assert_eq!(read_back, contents);
}

#[test]
fn update_writes_the_spec_and_invokes_the_update_verb() {
    let resources = oci_spec::runtime::Linux::default();
    let ok_runc = ConfigBuilder::new()
        .command("/bin/true")
        .build()
        .expect("unable to create runc instance");
    ok_runc.update("c1", &resources).expect("true failed.");

    let fail_runc = ConfigBuilder::new()
        .command("/bin/false")
        .build()
        .expect("unable to create runc instance");
    match fail_runc.update("c1", &resources) {
        Err(RuncError::CommandFailed { status, .. }) => {
            assert_eq!(status.code(), Some(1));
        }
        other => panic!("expected command-failed, got {:?}", other),
    }
}

#[test]
fn update_argument_list_references_the_spec_file_by_path() {
    let args = update_args(&"/tmp/runc-spec-7.json".to_string(), "c1");
    assert_eq!(
        args,
        vec![
            "update".to_string(),
            "--resources".to_string(),
            "/tmp/runc-spec-7.json".to_string(),
            "c1".to_string(),
        ]
    );
}
