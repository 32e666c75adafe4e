use commons::fmt::{bangify, colorize};
use commons::fmt::time::{human, milliseconds, seconds};

const RED: &str = "\x1B[0;31m";
const CYAN: &str = "\x1B[0;36m";
const NOCOLOR: &str = "\x1B[1;39m";
const RESET: &str = "\x1B[0m";

#[test]
fn build_output_test_bangify() {
    let actual = bangify("");
    assert_eq!("!\n", actual);

    let actual = bangify("\n");
    assert_eq!("!\n", actual);
}

#[test]
fn build_output_handles_explicitly_removed_colors() {
    let nested = colorize(NOCOLOR, "nested");

    let out = colorize(RED, &format!("hello {nested} color"));
    let expected = format!("{RED}hello {NOCOLOR}nested{RESET}{RED} color{RESET}");

    assert_eq!(expected, out);
}

#[test]
fn build_output_handles_nested_colors() {
    let nested = colorize(CYAN, "nested");

    let out = colorize(RED, &format!("hello {nested} color"));
    let expected = format!("{RED}hello {CYAN}nested{RESET}{RED} color{RESET}");

    assert_eq!(expected, out);
}

#[test]
fn build_output_splits_newlines() {
    let actual = colorize(RED, "hello\nworld");
    let expected = format!("{RED}hello{RESET}\n{RED}world{RESET}");

    assert_eq!(expected, actual);
}

#[test]
fn build_output_simple_case() {
    let actual = colorize(RED, "hello world");
    assert_eq!(format!("{RED}hello world{RESET}"), actual);
}

#[test]
fn build_output_test_millis_and_seconds() {
    let duration_millis: u64 = 1024;
    assert_eq!(24, milliseconds(duration_millis));
    assert_eq!(1, seconds(duration_millis));
}

#[test]
fn build_output_test_display_duration() {
    assert_eq!("< 0.1s", human(99).as_str());

    assert_eq!("1.024s", human(1024).as_str());

    assert_eq!("1m 1s", human(60 * 1024).as_str());

    assert_eq!("1h 1m 26s", human(3600 * 1024).as_str());
}
