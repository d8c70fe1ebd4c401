use github_tui::ansi::strip_ansi;
use github_tui::text::{count_lines, decimal_string, trim};

#[test]
fn strip_ansi_removes_colour_sequences() {
    assert_eq!(strip_ansi("\x1b[31mHELLO\x1b[0m"), "HELLO");
}

#[test]
fn strip_ansi_expands_tabs_and_drops_controls() {
    assert_eq!(strip_ansi("a\tb\x07c\nd"), "a    bc\nd");
}

#[test]
fn strip_ansi_cut_short_sequence_runs_to_the_end() {
    assert_eq!(strip_ansi("ok\x1b[31;1"), "ok");
}

#[test]
fn strip_ansi_lone_escape_is_dropped() {
    assert_eq!(strip_ansi("a\x1bbc"), "abc");
}

#[test]
fn decimal_string_writes_numbers() {
    assert_eq!(decimal_string(0), "0");
    assert_eq!(decimal_string(7), "7");
    assert_eq!(decimal_string(1234567890), "1234567890");
    assert_eq!(decimal_string(u64::MAX), u64::MAX.to_string());
}

#[test]
fn trim_drops_white_space_at_both_ends() {
    assert_eq!(trim("  bug \t\n"), "bug");
    assert_eq!(trim(" \t "), "");
    assert_eq!(trim("a b"), "a b");
}

#[test]
fn count_lines_matches_std() {
    for text in ["", "a", "a\n", "a\nb", "a\r\nb\n", "\n\n", "a\r"] {
        assert_eq!(count_lines(text), text.lines().count());
    }
}

#[test]
fn strip_ansi_leaves_plain_text_alone() {
    let plain = "2024-01-01 build ok — 100%\nnext";
    assert_eq!(strip_ansi(plain), plain);
}

#[test]
fn strip_ansi_twice_is_once() {
    let raw = "\x1b[1;32m ok \x1b[0m\tdone\x08";
    let once = strip_ansi(raw);
    assert_eq!(strip_ansi(&once), once);
    assert_eq!(once, " ok     done");
}
