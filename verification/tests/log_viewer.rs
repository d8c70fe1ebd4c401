use github_tui::github::types::{Job, WorkflowRun};
use github_tui::log_view::{cut_line, line_tone, visible_log_lines, LogLine, LogTone};
use github_tui::state::app::App;

fn chars(s: &str) -> Vec<char> {
    s.chars().collect()
}

fn tone(clean: &str, is_match: bool, query: Option<&str>) -> LogTone {
    line_tone(&chars(clean), &chars(&clean.to_lowercase()), is_match, &query.map(chars))
}

#[test]
fn tones_by_precedence() {
    assert_eq!(tone("##[group]Run tests", false, None), LogTone::Group);
    assert_eq!(tone("##[endgroup] error", true, None), LogTone::Group);
    assert_eq!(tone("##[error]boom", false, None), LogTone::Failure);
    assert_eq!(tone("An ERROR occurred", false, None), LogTone::Failure);
    assert_eq!(tone("##[warning]careful", false, None), LogTone::Warning);
    assert_eq!(tone("Warning: slow", true, None), LogTone::Warning);
    assert_eq!(tone("plain", true, None), LogTone::Highlight);
    assert_eq!(tone("Run cargo test", false, None), LogTone::Dim);
    assert_eq!(tone("plain", false, None), LogTone::Normal);
    assert_eq!(tone("An ERROR occurred", false, Some("occ")), LogTone::Highlight);
    assert_eq!(tone("An ERROR occurred", false, Some("")), LogTone::Failure);
    assert_eq!(tone("An ERROR occurred", false, Some("zzz")), LogTone::Failure);
}

#[test]
fn lines_are_cut_to_the_window() {
    assert_eq!(cut_line(&chars("0123456789"), 0, 4), "0123");
    assert_eq!(cut_line(&chars("0123456789"), 3, 4), "3456");
    assert_eq!(cut_line(&chars("0123456789"), 8, 4), "89");
    assert_eq!(cut_line(&chars("0123456789"), 10, 4), "");
    assert_eq!(cut_line(&chars("0123"), 0, 10), "0123");
    assert_eq!(cut_line(&chars("0123"), 2, 10), "23");
    assert_eq!(cut_line(&chars("0123"), 9, 10), "");
    assert_eq!(cut_line(&chars("ééé"), 4, 10), "");
    assert_eq!(cut_line(&chars("ééé"), 2, 4), "é");
}

#[test]
fn viewer_shows_a_window_of_cleaned_lines() {
    let logs = "first\n\x1b[31mERROR\x1b[0m here\n\tindented\nRun make\nlast";
    let shown = visible_log_lines(logs, 1, 3, 0, 80, &vec![2], &None);
    assert_eq!(
        shown,
        vec![
            LogLine { number: 1, text: "ERROR here".to_string(), tone: LogTone::Failure },
            LogLine { number: 2, text: "    indented".to_string(), tone: LogTone::Highlight },
            LogLine { number: 3, text: "Run make".to_string(), tone: LogTone::Dim },
        ]
    );
    assert_eq!(visible_log_lines(logs, 4, 10, 0, 80, &Vec::new(), &None).len(), 1);
    assert_eq!(visible_log_lines(logs, 5, 10, 0, 80, &Vec::new(), &None), Vec::new());
    assert_eq!(visible_log_lines(logs, 0, 0, 0, 80, &Vec::new(), &None), Vec::new());
    let panned = visible_log_lines(logs, 0, 1, 2, 2, &Vec::new(), &Some("FIR".to_string()));
    assert_eq!(
        panned,
        vec![LogLine { number: 0, text: "rs".to_string(), tone: LogTone::Highlight }]
    );
}

#[test]
fn title_and_status_name_the_place() {
    let mut app = App::new("o/r".to_string());
    assert_eq!(app.log_title(), " Logs ");
    assert_eq!(app.log_status(), " Line 1/0 (0%) | h/l:horizontal scroll ");
    app.selected_run = Some(WorkflowRun {
        id: 1,
        name: "CI".to_string(),
        head_branch: String::new(),
        head_sha: String::new(),
        status: String::new(),
        conclusion: None,
        run_number: 42,
        event: String::new(),
        created_at: String::new(),
        updated_at: String::new(),
        html_url: String::new(),
    });
    assert_eq!(app.log_title(), " Logs: CI #42 ");
    app.jobs = vec![Job {
        id: 9,
        run_id: 1,
        name: "build".to_string(),
        status: String::new(),
        conclusion: None,
        started_at: String::new(),
        completed_at: None,
        steps: Vec::new(),
    }];
    app.job_cursor = Some(0);
    assert_eq!(app.log_title(), " Logs: CI #42 - build ");
    app.logs = "a\nb\nc\nd\n".to_string();
    app.log_scroll = 1;
    assert_eq!(app.log_status(), " Line 2/4 (50%) | h/l:horizontal scroll ");
    app.log_search = Some("b".to_string());
    assert_eq!(app.log_status(), " Line 2/4 (50%) | Search: 'b' (0/0) | h/l:scroll ");
    app.find_log_matches();
    assert_eq!(app.log_status(), " Line 2/4 (50%) | Search: 'b' (1/1) | h/l:scroll ");
}
