use cargo_debug::debugger::{synthesize, Debugger, Platform};
use cargo_debug::invoke::{after_build, build_args, BuildOutcome, BuildRequest};
use cargo_debug::messages::parse_build_output;
use cargo_debug::select::{select_binary, SelectError};

fn artifact_line(name: &str, executable: &str) -> String {
    format!(
        "{{\"reason\":\"compiler-artifact\",\"package_id\":\"{n} 0.1.0 (path+file:///work)\",\
         \"manifest_path\":\"/work/Cargo.toml\",\
         \"target\":{{\"kind\":[\"bin\"],\"crate_types\":[\"bin\"],\"name\":\"{n}\",\
         \"src_path\":\"/work/src/bin/{n}.rs\",\"edition\":\"2021\"}},\
         \"profile\":{{\"opt_level\":\"0\",\"debuginfo\":2,\"debug_assertions\":true,\
         \"overflow_checks\":true,\"test\":false}},\
         \"features\":[],\"filenames\":[\"{e}\"],\"executable\":\"{e}\",\"fresh\":true}}\n",
        n = name,
        e = executable
    )
}

fn request(bin: Option<&str>) -> BuildRequest {
    BuildRequest {
        release: false,
        manifest_path: None,
        bin: bin.map(|b| b.to_string()),
        example: None,
    }
}

#[test]
fn single_artifact_is_debugged_with_the_default_debugger() {
    let request = request(None);
    assert_eq!(build_args(&request), vec!["build", "--message-format=json"]);
    let output = format!(
        "{}{}",
        artifact_line("app", "/tmp/app"),
        "{\"reason\":\"build-finished\",\"success\":true}\n"
    );
    assert_eq!(after_build(Some(0)), BuildOutcome::Proceed);
    let records = parse_build_output(&output).unwrap();
    let binary = select_binary(&records, &request.bin).unwrap();
    assert_eq!(binary, "/tmp/app");
    let kind = Debugger::resolve(None, Platform::Unix).unwrap();
    assert_eq!(kind, Debugger::Gdb);
    let spec = synthesize(kind, Platform::Unix, &binary, &vec![], &vec![]).unwrap();
    assert_eq!(spec.program, "gdb");
    assert_eq!(spec.args, vec!["/tmp/app"]);
}

#[test]
fn single_artifact_with_trailing_arguments() {
    let output = artifact_line("app", "/tmp/app");
    let records = parse_build_output(&output).unwrap();
    let binary = select_binary(&records, &None).unwrap();
    let kind = Debugger::resolve(None, Platform::Unix).unwrap();
    let spec =
        synthesize(kind, Platform::Unix, &binary, &vec!["-q".to_string()], &vec![]).unwrap();
    assert_eq!(spec.program, "gdb");
    assert_eq!(spec.args, vec!["--args", "/tmp/app", "-q"]);
}

#[test]
fn two_artifacts_without_a_name_end_with_exit_code_one() {
    let output = format!("{}{}", artifact_line("app", "/tmp/app"), artifact_line("app2", "/tmp/app2"));
    let records = parse_build_output(&output).unwrap();
    assert_eq!(records.len(), 2);
    let error = select_binary(&records, &None).unwrap_err();
    assert_eq!(error, SelectError::Ambiguous { candidates: 2 });
    assert_eq!(error.exit_code(), 1);
}

#[test]
fn two_artifacts_with_a_name_select_that_one() {
    let request = request(Some("app2"));
    assert_eq!(build_args(&request), vec!["build", "--message-format=json", "--bin", "app2"]);
    let output = format!("{}{}", artifact_line("app", "/tmp/app"), artifact_line("app2", "/tmp/app2"));
    let records = parse_build_output(&output).unwrap();
    assert_eq!(select_binary(&records, &request.bin), Ok("/tmp/app2".to_string()));
}

#[test]
fn a_failed_build_stops_before_selection() {
    assert_eq!(after_build(Some(101)), BuildOutcome::Exit(101));
}
