use cargo_debug::nesting::{find_deep_line, MAX_NESTING};

#[test]
fn the_bound_is_one_hundred_and_twenty_eight() {
    assert_eq!(MAX_NESTING, 128);
}

#[test]
fn flat_text_is_bounded() {
    assert_eq!(find_deep_line(""), None);
    assert_eq!(find_deep_line("plain text\nmore\n"), None);
    assert_eq!(find_deep_line("{\"reason\":\"build-finished\",\"success\":true}\n"), None);
}

#[test]
fn depth_at_the_bound_is_accepted() {
    assert_eq!(find_deep_line(&"[".repeat(128)), None);
    assert_eq!(find_deep_line(&"{".repeat(128)), None);
    assert_eq!(find_deep_line(&"[{".repeat(64)), None);
}

#[test]
fn depth_past_the_bound_is_found() {
    assert_eq!(find_deep_line(&"[".repeat(129)), Some(0));
    assert_eq!(find_deep_line(&"{".repeat(129)), Some(0));
    assert_eq!(find_deep_line(&format!("{}[", "[{".repeat(64))), Some(0));
}

#[test]
fn closing_lowers_the_depth() {
    let text = format!("{}{}{}", "[".repeat(100), "]".repeat(50), "[".repeat(78));
    assert_eq!(find_deep_line(&text), None);
    let deeper = format!("{}{}{}", "[".repeat(100), "]".repeat(50), "{".repeat(79));
    assert_eq!(find_deep_line(&deeper), Some(0));
    let wide = "[]".repeat(1000);
    assert_eq!(find_deep_line(&wide), None);
}

#[test]
fn closing_below_zero_stays_at_zero() {
    let text = format!("{}{}", "]".repeat(10), "[".repeat(128));
    assert_eq!(find_deep_line(&text), None);
    let deeper = format!("{}{}", "}".repeat(10), "[".repeat(129));
    assert_eq!(find_deep_line(&deeper), Some(0));
}

#[test]
fn every_line_starts_at_depth_zero() {
    let text = format!("{}\n{}\n", "[".repeat(100), "[".repeat(100));
    assert_eq!(find_deep_line(&text), None);
}

#[test]
fn the_first_deep_line_is_counted_from_zero() {
    let deep = "[".repeat(129);
    assert_eq!(find_deep_line(&format!("a\nb\n{}\n{}\n", deep, deep)), Some(2));
    assert_eq!(find_deep_line(&format!("\n{}", deep)), Some(1));
}

#[test]
fn brackets_inside_string_literals_are_not_nesting() {
    let text = format!("{{\"k\":\"{}\"}}", "[".repeat(500));
    assert_eq!(find_deep_line(&text), None);
}

#[test]
fn an_escaped_quote_does_not_end_the_literal() {
    let text = format!("\"a\\\"{}\"", "[".repeat(500));
    assert_eq!(find_deep_line(&text), None);
}

#[test]
fn an_escaped_backslash_does_not_escape_the_quote() {
    let text = format!("\"a\\\\\"{}", "[".repeat(129));
    assert_eq!(find_deep_line(&text), Some(0));
}

#[test]
fn a_literal_ends_with_its_line() {
    let text = format!("\"open\n{}", "[".repeat(129));
    assert_eq!(find_deep_line(&text), Some(1));
}

#[test]
fn characters_beyond_ascii_are_passed_over() {
    let text = format!("\u{e9}\u{4e2d}\u{1f600}{}", "[".repeat(129));
    assert_eq!(find_deep_line(&text), Some(0));
    assert_eq!(find_deep_line("\u{e9}[\u{4e2d}]\u{1f600}"), None);
}
