//! Command-line parsing.

use crusty_core::cli::parse_args;

fn argv(parts: &[&str]) -> Vec<String> {
    parts.iter().map(|s| s.to_string()).collect()
}

#[test]
fn parse_args_defaults() {
    let r = parse_args(&argv(&["crusty"]));
    assert_eq!(r.orchestration, "orchestration.cr");
    assert_eq!(r.plugins_dir, None);
    assert_eq!(r.input_override, None);
    assert_eq!(r.output_override, None);
}

#[test]
fn parse_args_run_and_flags() {
    let r = parse_args(&argv(&[
        "crusty", "run", "pipe.cr", "--plugins", "plug", "--input", "in.txt", "--output", "-",
    ]));
    assert_eq!(r.orchestration, "pipe.cr");
    assert_eq!(r.plugins_dir.as_deref(), Some("plug"));
    assert_eq!(r.input_override.as_deref(), Some("in.txt"));
    assert_eq!(r.output_override.as_deref(), Some("-"));
}

#[test]
fn parse_args_short_flags() {
    let r = parse_args(&argv(&["crusty", "-o", "x.cr", "-p", "dir", "-i", "text.txt"]));
    assert_eq!(r.orchestration, "x.cr");
    assert_eq!(r.plugins_dir.as_deref(), Some("dir"));
    assert_eq!(r.input_override.as_deref(), Some("text.txt"));
}

#[test]
fn parse_args_bare_positional_names_orchestration() {
    let r = parse_args(&argv(&["crusty", "mine.cr"]));
    assert_eq!(r.orchestration, "mine.cr");
    // A later positional does not override an explicit choice.
    let r2 = parse_args(&argv(&["crusty", "run", "first.cr", "second.cr"]));
    assert_eq!(r2.orchestration, "first.cr");
    // An unknown flag-looking argument is not taken as a document name.
    let r3 = parse_args(&argv(&["crusty", "--mystery"]));
    assert_eq!(r3.orchestration, "orchestration.cr");
}

#[test]
fn parse_args_flag_without_value_is_ignored() {
    let r = parse_args(&argv(&["crusty", "--plugins"]));
    assert_eq!(r.plugins_dir, None);
    assert_eq!(r.orchestration, "orchestration.cr");
}
