use cargo_debug::invoke::{
    after_build, build_args, build_program, build_tool_variable, BuildOutcome, BuildRequest,
};

fn plain() -> BuildRequest {
    BuildRequest { release: false, manifest_path: None, bin: None, example: None }
}

fn count(args: &[String], word: &str) -> usize {
    args.iter().filter(|a| a.as_str() == word).count()
}

#[test]
fn fake_test() {
    assert!(true);
}

#[test]
fn bare_request_gives_the_two_fixed_arguments() {
    assert_eq!(build_args(&plain()), vec!["build", "--message-format=json"]);
}

#[test]
fn release_is_appended_after_the_fixed_arguments() {
    let request = BuildRequest { release: true, ..plain() };
    assert_eq!(build_args(&request), vec!["build", "--message-format=json", "--release"]);
}

#[test]
fn every_flag_appears_in_order() {
    let request = BuildRequest {
        release: true,
        manifest_path: Some("work/Cargo.toml".to_string()),
        bin: Some("app".to_string()),
        example: Some("demo".to_string()),
    };
    assert_eq!(
        build_args(&request),
        vec![
            "build",
            "--message-format=json",
            "--release",
            "--manifest-path",
            "work/Cargo.toml",
            "--bin",
            "app",
            "--example",
            "demo",
        ]
    );
}

#[test]
fn bin_and_example_pass_through_together() {
    let request =
        BuildRequest { bin: Some("a".to_string()), example: Some("b".to_string()), ..plain() };
    assert_eq!(
        build_args(&request),
        vec!["build", "--message-format=json", "--bin", "a", "--example", "b"]
    );
}

#[test]
fn manifest_path_alone() {
    let request = BuildRequest { manifest_path: Some("../x/Cargo.toml".to_string()), ..plain() };
    assert_eq!(
        build_args(&request),
        vec!["build", "--message-format=json", "--manifest-path", "../x/Cargo.toml"]
    );
}

#[test]
fn empty_values_are_passed_untouched() {
    let request = BuildRequest { bin: Some(String::new()), ..plain() };
    assert_eq!(build_args(&request), vec!["build", "--message-format=json", "--bin", ""]);
}

#[test]
fn fixed_arguments_occur_once_whatever_the_flags() {
    for release in [false, true] {
        for manifest in [None, Some("Cargo.toml".to_string())] {
            for bin in [None, Some("app".to_string())] {
                for example in [None, Some("demo".to_string())] {
                    let request = BuildRequest {
                        release,
                        manifest_path: manifest.clone(),
                        bin: bin.clone(),
                        example,
                    };
                    let args = build_args(&request);
                    assert_eq!(args[0], "build");
                    assert_eq!(args[1], "--message-format=json");
                    assert_eq!(count(&args, "build"), 1);
                    assert_eq!(count(&args, "--message-format=json"), 1);
                }
            }
        }
    }
}

#[test]
fn a_binary_called_build_is_counted_beside_the_subcommand() {
    let request = BuildRequest { bin: Some("build".to_string()), ..plain() };
    let args = build_args(&request);
    assert_eq!(args, vec!["build", "--message-format=json", "--bin", "build"]);
    assert_eq!(count(&args, "build"), 2);
}

#[test]
fn build_tool_override_variable() {
    assert_eq!(build_tool_variable(), "CARGO");
}

#[test]
fn build_tool_defaults_to_cargo() {
    assert_eq!(build_program(None), "cargo");
}

#[test]
fn build_tool_override_is_used_verbatim() {
    assert_eq!(build_program(Some("/opt/rust/bin/cargo".to_string())), "/opt/rust/bin/cargo");
    assert_eq!(build_program(Some(String::new())), "");
}

#[test]
fn build_exit_zero_proceeds() {
    assert_eq!(after_build(Some(0)), BuildOutcome::Proceed);
}

#[test]
fn build_failure_is_propagated_verbatim() {
    assert_eq!(after_build(Some(101)), BuildOutcome::Exit(101));
    assert_eq!(after_build(Some(1)), BuildOutcome::Exit(1));
    assert_eq!(after_build(Some(-1)), BuildOutcome::Exit(-1));
}

#[test]
fn build_ended_without_a_code_proceeds() {
    assert_eq!(after_build(None), BuildOutcome::Proceed);
}
