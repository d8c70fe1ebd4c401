use github_tui::text::{
    chars_of, join, join3, contains_chars, parse_u64, split_chars, split_lines, str_contains,
    str_eq, str_starts_with, string_of, trim_char, trim_end_matches, trim_start_matches,
    truncate, truncate_checked,
};

fn chars(s: &str) -> Vec<char> {
    s.chars().collect()
}

fn text(v: &[char]) -> String {
    v.iter().collect()
}

#[test]
fn chars_and_back() {
    let s = "héllo ✓";
    assert_eq!(chars_of(s), chars(s));
    assert_eq!(string_of(&chars(s)), s);
    assert!(str_eq("a", "a"));
    assert!(!str_eq("a", "b"));
    assert_eq!(join("ab", "cd"), "abcd");
    assert_eq!(join3("a", "b", "c"), "abc");
}

#[test]
fn contains_finds_parts() {
    assert!(str_contains("hello world", "lo w"));
    assert!(str_contains("hello", ""));
    assert!(str_contains("", ""));
    assert!(!str_contains("hello", "world"));
    assert!(!str_contains("ab", "abc"));
    assert!(contains_chars(&chars("abcabd"), &chars("abd")));
    assert!(str_starts_with("diff --git a b", "diff --git "));
    assert!(!str_starts_with("dif", "diff"));
}

#[test]
fn split_lines_like_std() {
    for s in ["", "a", "a\n", "a\nb", "a\r\nb\n", "\n\n", "a\r", "\r\n", "x\n\ny"] {
        let got: Vec<String> = split_lines(&chars(s)).iter().map(|l| text(l)).collect();
        let want: Vec<String> = s.lines().map(|l| l.to_string()).collect();
        assert_eq!(got, want, "for {:?}", s);
    }
}

#[test]
fn split_chars_like_std() {
    for s in ["", "a", "a/b", "/a/", "a//b", "owner/repo", "https://github.com/o/r/pull/5"] {
        let got: Vec<String> = split_chars(&chars(s), '/').iter().map(|l| text(l)).collect();
        let want: Vec<String> = s.split('/').map(|l| l.to_string()).collect();
        assert_eq!(got, want, "for {:?}", s);
    }
}

#[test]
fn parse_u64_like_std() {
    for s in ["0", "7", "007", "+5", "18446744073709551615", "18446744073709551616", "", "+",
        "-1", "1a", " 1", "++1", "99999999999999999999999"]
    {
        assert_eq!(parse_u64(&chars(s)), s.parse::<u64>().ok(), "for {:?}", s);
    }
}

#[test]
fn trim_matches_like_std() {
    assert_eq!(text(&trim_start_matches(&chars("ababc"), &chars("ab"))), "c");
    assert_eq!(text(&trim_start_matches(&chars("abc"), &chars(""))), "abc");
    assert_eq!(text(&trim_end_matches(&chars("repo.git.git"), &chars(".git"))), "repo");
    assert_eq!(text(&trim_end_matches(&chars("git"), &chars(".git"))), "git");
    assert_eq!(text(&trim_char(&chars("\"\"tok\"en\""), '"')), "tok\"en");
    assert_eq!(text(&trim_char(&chars("''"), '\'')), "");
}

#[test]
fn truncate_cuts_with_an_ellipsis() {
    assert_eq!(truncate("short", 10), "short");
    assert_eq!(truncate("exactly10!", 10), "exactly10!");
    assert_eq!(truncate("a longer title", 10), "a longe...");
    assert_eq!(truncate("abcdef", 3), "abc");
    assert_eq!(truncate("abcdef", 0), "");
    assert_eq!(truncate("abcdef", 4), "a...");
}

#[test]
fn truncate_checked_refuses_a_cut_inside_a_character() {
    assert_eq!(truncate_checked("ééééé", 6), None);
    assert_eq!(truncate_checked("ééééé", 7), Some("éé...".to_string()));
    assert_eq!(truncate_checked("ééééé", 10), Some("ééééé".to_string()));
}
