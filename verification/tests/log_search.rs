use github_tui::search::{find_matches, match_indices, next_index, previous_index};

fn chars(s: &str) -> Vec<char> {
    s.chars().collect()
}

#[test]
fn find_matches_ignores_case_and_colour() {
    let logs = "Build started\n\x1b[31mERROR\x1b[0m: disk full\nall fine\nanother Error here\n";
    assert_eq!(find_matches(logs, "error"), vec![1, 3]);
    assert_eq!(find_matches(logs, "ERROR"), vec![1, 3]);
    assert_eq!(find_matches(logs, "missing"), Vec::<usize>::new());
}

#[test]
fn find_matches_looks_at_the_cleaned_line() {
    let logs = "a\x1b[1mb\nplain ab\n";
    assert_eq!(find_matches(logs, "ab"), vec![0, 1]);
    assert_eq!(find_matches(logs, "[1m"), Vec::<usize>::new());
}

#[test]
fn empty_query_matches_every_line() {
    assert_eq!(find_matches("a\nb\nc", ""), vec![0, 1, 2]);
    assert_eq!(find_matches("", ""), Vec::<usize>::new());
}

#[test]
fn match_indices_lists_lines_that_hold_the_needle() {
    let lines = vec![chars("one"), chars("two"), chars("twenty one")];
    assert_eq!(match_indices(&lines, &chars("one")), vec![0, 2]);
    assert_eq!(match_indices(&lines, &chars("tw")), vec![1, 2]);
}

#[test]
fn next_comes_round_after_n_steps() {
    for n in 1..6usize {
        for start in 0..n {
            let mut at = start;
            for _ in 0..n {
                at = next_index(at, n);
            }
            assert_eq!(at, start);
        }
    }
}

#[test]
fn previous_from_the_first_is_the_last() {
    assert_eq!(previous_index(0, 5), 4);
    assert_eq!(previous_index(0, 1), 0);
    assert_eq!(previous_index(3, 5), 2);
    assert_eq!(next_index(4, 5), 0);
    assert_eq!(next_index(1, 5), 2);
    assert_eq!(next_index(usize::MAX, 7), (usize::MAX % 7 + 1) % 7);
    assert_eq!(previous_index(usize::MAX, 7), (usize::MAX % 7 + 6) % 7);
}
