use commons::fmt::{bangify, colorize, strip_control_codes};
use commons::fmt::time::{human, milliseconds, seconds};

const RED: &str = "\x1B[0;31m";
const CYAN: &str = "\x1B[0;36m";
const NOCOLOR: &str = "\x1B[1;39m";
const RESET: &str = "\x1B[0m";

#[test]
fn fmt_test_bangify() {
    let actual = bangify("");
    assert_eq!("!\n", actual);

    let actual = bangify("\n");
    assert_eq!("!\n", actual);
}

#[test]
fn fmt_handles_explicitly_removed_colors() {
    let nested = colorize(NOCOLOR, "nested");

    let out = colorize(RED, &format!("hello {nested} color"));
    let expected = format!("{RED}hello {NOCOLOR}nested{RESET}{RED} color{RESET}");

    assert_eq!(expected, out);
}

#[test]
fn fmt_handles_nested_colors() {
    let nested = colorize(CYAN, "nested");

    let out = colorize(RED, &format!("hello {nested} color"));
    let expected = format!("{RED}hello {CYAN}nested{RESET}{RED} color{RESET}");

    assert_eq!(expected, out);
}

#[test]
fn fmt_splits_newlines() {
    let actual = colorize(RED, "hello\nworld");
    let expected = format!("{RED}hello{RESET}\n{RED}world{RESET}");

    assert_eq!(expected, actual);
}

#[test]
fn fmt_simple_case() {
    let actual = colorize(RED, "hello world");
    assert_eq!(format!("{RED}hello world{RESET}"), actual);
}

#[test]
fn fmt_test_millis_and_seconds() {
    let duration_millis: u64 = 1024;
    assert_eq!(24, milliseconds(duration_millis));
    assert_eq!(1, seconds(duration_millis));
}

#[test]
fn fmt_test_display_duration() {
    assert_eq!("< 0.1s", human(99).as_str());

    assert_eq!("1.024s", human(1024).as_str());

    assert_eq!("1m 1s", human(60 * 1024).as_str());

    assert_eq!("1h 1m 26s", human(3600 * 1024).as_str());
}

#[test]
fn strip_control_codes_removes_the_colors_it_writes() {
    let decorated = colorize(RED, "hello\nworld");
    assert_eq!("hello\nworld", strip_control_codes(&decorated));
}

#[test]
fn value_wraps_in_backticks_and_yellow() {
    let actual = commons::fmt::value("3.1.2");
    assert_eq!("`\x1B[0;33m3.1.2\x1B[0m`", actual);
}

#[test]
fn section_and_step_prefixes() {
    assert_eq!("- Ruby version", commons::fmt::section("Ruby version"));
    assert_eq!("  - Installing", commons::fmt::step("Installing"));
}

#[test]
fn details_wraps_in_parentheses() {
    assert_eq!("(finished in 1s)", commons::fmt::details("finished in 1s"));
}

#[test]
fn cmd_output_format_indents_and_frames() {
    let actual = commons::fmt::cmd_output_format("hello\nworld");
    assert_eq!("\n      hello\n      world\n", actual);
}

#[test]
fn cmd_stream_format_prepends_indent() {
    let actual = commons::fmt::cmd_stream_format(b"hello".to_vec());
    assert_eq!(b"      hello".to_vec(), actual);
}

#[test]
fn prepend_each_line_prefixes_blank_and_filled_lines() {
    let actual = commons::fmt::prepend_each_line("!", " ", "hello\n\nworld");
    assert_eq!("! hello\n!\n! world", actual);
}

#[test]
fn human_pads_millisecond_digits() {
    assert_eq!("1.002s", human(1002).as_str());
    assert_eq!("0.200s", human(200).as_str());
}

#[test]
fn human_boundary_at_a_tenth_of_a_second() {
    assert_eq!("< 0.1s", human(100).as_str());
    assert_eq!("0.101s", human(101).as_str());
}
