use esm::scenario::{assign_field, empty_scenario_metadata, listing_lines, parse_key_values, parse_scenario_metadata, ScenarioMetadata};

fn lines(text: &[&str]) -> Vec<String> {
    text.iter().map(|l| l.to_string()).collect()
}

fn parse(text: &[&str]) -> ScenarioMetadata {
    parse_scenario_metadata(&lines(text))
}

fn assert_empty(m: &ScenarioMetadata) {
    assert_eq!(m.name, "");
    assert_eq!(m.description, "");
    assert_eq!(m.description_long, "");
    assert_eq!(m.scenario_type, "");
}

#[test]
fn plain_first_line_gives_empty_metadata() {
    let m = parse(&["print('hello')", "-- name: Foo", "--- long"]);
    assert_empty(&m);
}

#[test]
fn empty_file_gives_empty_metadata() {
    assert_empty(&parse(&[]));
}

#[test]
fn name_and_description_are_read() {
    let m = parse(&["-- name: Foo", "-- description: Bar"]);
    assert_eq!(m.name, "Foo");
    assert_eq!(m.description, "Bar");
    assert_eq!(m.scenario_type, "");
    assert_eq!(m.description_long, "");
}

#[test]
fn long_description_keeps_blank_lines() {
    let m = parse(&["--- line one", "---", "--- line two"]);
    assert_eq!(m.description_long, "line one\n\nline two\n");
    assert_eq!(m.name, "");
}

#[test]
fn header_stops_at_first_plain_line() {
    let m = parse(&["-- name: Foo", "", "-- description: Bar", "--- late"]);
    assert_eq!(m.name, "Foo");
    assert_eq!(m.description, "");
    assert_eq!(m.description_long, "");
}

#[test]
fn key_is_lowercased_and_trimmed() {
    let m = parse(&["-- NAME :   Foo  ", "-- Type:\tMission "]);
    assert_eq!(m.name, "Foo");
    assert_eq!(m.scenario_type, "Mission");
}

#[test]
fn value_splits_at_first_colon_only() {
    let m = parse(&["-- description: a: b"]);
    assert_eq!(m.description, "a: b");
}

#[test]
fn line_without_colon_or_unknown_key_is_ignored() {
    let m = parse(&["-- just a comment", "-- author: someone", "--no space: x"]);
    assert_empty(&m);
}

#[test]
fn later_key_overwrites_earlier() {
    let m = parse(&["-- name: First", "-- name: Second"]);
    assert_eq!(m.name, "Second");
}

#[test]
fn long_marker_with_empty_text_adds_newline() {
    let m = parse(&["--- ", "--- x"]);
    assert_eq!(m.description_long, "\nx\n");
}

#[test]
fn mixed_header_is_read_in_order() {
    let m = parse(&[
        "-- Name: Border war",
        "-- Description: Defend the line",
        "--- First part.",
        "---",
        "--- Second part.",
        "-- Type: Mission",
        "function init()",
        "-- name: ignored",
    ]);
    assert_eq!(m.name, "Border war");
    assert_eq!(m.description, "Defend the line");
    assert_eq!(m.description_long, "First part.\n\nSecond part.\n");
    assert_eq!(m.scenario_type, "Mission");
}

#[test]
fn parse_key_values_sets_type() {
    let mut m = empty_scenario_metadata();
    parse_key_values("-- type : Basic", &mut m);
    assert_eq!(m.scenario_type, "Basic");
    assert_eq!(m.name, "");
}

#[test]
fn assign_field_takes_normalised_keys_only() {
    let mut m = empty_scenario_metadata();
    assign_field(&mut m, "description", "Bar");
    assign_field(&mut m, "Name", "Foo");
    assert_eq!(m.description, "Bar");
    assert_eq!(m.name, "");
}

#[test]
fn listing_describes_scenario() {
    let m = parse(&["-- name: Alpha", "-- description: First", "--- Long"]);
    let out = listing_lines(&m, "alpha.lua", "1.2 KiB");
    assert_eq!(
        out,
        vec![
            "name: Alpha".to_string(),
            "description: First".to_string(),
            "long description: Long\n".to_string(),
            " - alpha.lua (1.2 KiB)".to_string(),
        ]
    );
}
