use cargo_debug::messages::ArtifactRecord;
use cargo_debug::select::{select_binary, SelectError};

fn record(name: &str, executable: Option<&str>) -> ArtifactRecord {
    ArtifactRecord {
        target_name: name.to_string(),
        executable: executable.map(|e| e.to_string()),
    }
}

fn named(name: &str) -> Option<String> {
    Some(name.to_string())
}

#[test]
fn the_only_executable_is_selected() {
    let records = vec![record("app", Some("/tmp/app"))];
    assert_eq!(select_binary(&records, &None), Ok("/tmp/app".to_string()));
}

#[test]
fn records_without_executable_do_not_count() {
    let records =
        vec![record("dep", None), record("app", Some("/tmp/app")), record("other", None)];
    assert_eq!(select_binary(&records, &None), Ok("/tmp/app".to_string()));
}

#[test]
fn two_executables_are_refused() {
    let records = vec![record("app", Some("/tmp/app")), record("app2", Some("/tmp/app2"))];
    assert_eq!(select_binary(&records, &None), Err(SelectError::Ambiguous { candidates: 2 }));
}

#[test]
fn three_executables_are_refused() {
    let records = vec![
        record("a", Some("/tmp/a")),
        record("lib", None),
        record("b", Some("/tmp/b")),
        record("c", Some("/tmp/c")),
    ];
    assert_eq!(select_binary(&records, &None), Err(SelectError::Ambiguous { candidates: 3 }));
}

#[test]
fn no_executable_is_refused() {
    assert_eq!(select_binary(&vec![], &None), Err(SelectError::Ambiguous { candidates: 0 }));
    let records = vec![record("dep", None)];
    assert_eq!(select_binary(&records, &None), Err(SelectError::Ambiguous { candidates: 0 }));
}

#[test]
fn a_named_binary_is_found_among_several() {
    let records = vec![record("app", Some("/tmp/app")), record("app2", Some("/tmp/app2"))];
    assert_eq!(select_binary(&records, &named("app2")), Ok("/tmp/app2".to_string()));
    assert_eq!(select_binary(&records, &named("app")), Ok("/tmp/app".to_string()));
}

#[test]
fn a_missing_name_is_reported() {
    let records = vec![record("app", Some("/tmp/app"))];
    let result = select_binary(&records, &named("tool"));
    assert_eq!(result, Err(SelectError::NotFound { name: "tool".to_string() }));
    let error = result.unwrap_err();
    assert_eq!(error.exit_code(), 1);
    assert_eq!(error.message(), "Could not find binary artifact tool");
}

#[test]
fn a_name_is_missing_from_an_empty_list() {
    assert_eq!(
        select_binary(&vec![], &named("app")),
        Err(SelectError::NotFound { name: "app".to_string() })
    );
}

#[test]
fn names_match_exactly_and_by_case() {
    let records = vec![record("app", Some("/tmp/app"))];
    assert_eq!(
        select_binary(&records, &named("App")),
        Err(SelectError::NotFound { name: "App".to_string() })
    );
    assert_eq!(
        select_binary(&records, &named("ap")),
        Err(SelectError::NotFound { name: "ap".to_string() })
    );
    assert_eq!(
        select_binary(&records, &named("app ")),
        Err(SelectError::NotFound { name: "app ".to_string() })
    );
}

#[test]
fn the_first_of_equal_names_is_selected() {
    let records = vec![record("app", Some("/one/app")), record("app", Some("/two/app"))];
    assert_eq!(select_binary(&records, &named("app")), Ok("/one/app".to_string()));
}

#[test]
fn a_named_record_without_executable_is_passed_over() {
    let records = vec![record("app", None), record("app", Some("/tmp/app"))];
    assert_eq!(select_binary(&records, &named("app")), Ok("/tmp/app".to_string()));
    let only_library = vec![record("app", None)];
    assert_eq!(
        select_binary(&only_library, &named("app")),
        Err(SelectError::NotFound { name: "app".to_string() })
    );
}

#[test]
fn ambiguity_message_and_exit_code() {
    let error = SelectError::Ambiguous { candidates: 2 };
    assert_eq!(error.exit_code(), 1);
    assert_eq!(
        error.message(),
        "More than one binary artifact produced, please explicitly specify the binary."
    );
}
