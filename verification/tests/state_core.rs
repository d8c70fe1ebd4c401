use github_tui::github::types::{Branch, Commit, Job, PullRequest, Review, User, WorkflowRun};
use github_tui::nav::{DiffMode, Focus, InputMode, KeyCode, KeyPress, PrFilter, Screen, Tab};
use github_tui::state::actions::{
    step_next, step_next_clamped, step_previous, step_previous_clamped,
};
use github_tui::state::app::App;
use github_tui::state::messages::AsyncMsg;
use github_tui::state::request::{Call, Request};
use github_tui::state::run::{Event, Footer};
use github_tui::status::StatusMessage;

fn user(login: &str) -> User {
    User { login: login.to_string(), avatar_url: String::new() }
}

fn pull_request(number: u64, author: &str, asked: &[&str]) -> PullRequest {
    PullRequest {
        number,
        title: format!("Change {}", number),
        body: None,
        state: "open".to_string(),
        user: user(author),
        head: Branch { ref_name: format!("feature-{}", number), sha: format!("sha{}", number) },
        base: Branch { ref_name: "main".to_string(), sha: "base".to_string() },
        draft: false,
        mergeable: None,
        merged: false,
        created_at: String::new(),
        updated_at: String::new(),
        labels: Vec::new(),
        requested_reviewers: asked.iter().map(|a| user(a)).collect(),
        ci_status: None,
    }
}

fn run(id: u64, name: &str) -> WorkflowRun {
    WorkflowRun {
        id,
        name: name.to_string(),
        head_branch: "main".to_string(),
        head_sha: "abc".to_string(),
        status: "completed".to_string(),
        conclusion: Some("success".to_string()),
        run_number: id,
        event: "push".to_string(),
        created_at: String::new(),
        updated_at: String::new(),
        html_url: String::new(),
    }
}

fn job(id: u64) -> Job {
    Job {
        id,
        run_id: 1,
        name: format!("job {}", id),
        status: "completed".to_string(),
        conclusion: None,
        started_at: String::new(),
        completed_at: None,
        steps: Vec::new(),
    }
}

fn commit(sha: &str) -> Commit {
    Commit {
        sha: sha.to_string(),
        message: "m".to_string(),
        author: "a".to_string(),
        date: String::new(),
    }
}

fn key(c: char) -> KeyPress {
    KeyPress::plain(KeyCode::Char(c))
}

fn press(app: &mut App, code: KeyCode) -> Option<Call> {
    app.handle_key(KeyPress::plain(code), 1_000)
}

fn app_with_three_prs() -> App {
    let mut app = App::new("octo/cat".to_string());
    let prs = vec![
        pull_request(5, "ada", &["bob"]),
        pull_request(7, "bob", &[]),
        pull_request(9, "ada", &["cy", "bob"]),
    ];
    app.process_async_messages(vec![AsyncMsg::PrsLoaded(prs)], 0);
    app
}

#[test]
fn new_app_starts_at_the_pull_request_list() {
    let app = App::new("octo/cat".to_string());
    assert_eq!(app.tab, Tab::PRs);
    assert_eq!(app.screen, Screen::List);
    assert_eq!(app.focus, Focus::List);
    assert_eq!(app.pr_filter, PrFilter::All);
    assert_eq!(app.diff_mode, DiffMode::Full);
    assert_eq!(app.input_mode, None);
    assert_eq!(app.repo, "octo/cat");
    assert_eq!(app.owner, "octo");
    assert_eq!(app.repo_name, "cat");
    assert!(!app.should_quit);
    assert!(app.outbox.is_empty());
}

#[test]
fn new_app_falls_back_for_a_name_without_owner() {
    for repo in ["noslash", "a/b/c", ""] {
        let app = App::new(repo.to_string());
        assert_eq!(app.owner, "shopsys");
        assert_eq!(app.repo_name, "shopsys");
        assert_eq!(app.repo, repo);
    }
}

#[test]
fn start_asks_for_user_pull_requests_and_runs() {
    let mut app = App::new("octo/cat".to_string());
    app.start();
    assert!(app.loading);
    assert_eq!(app.loading_what.as_deref(), Some("Loading PRs and workflows..."));
    assert_eq!(
        app.take_requests(),
        vec![Request::FetchCurrentUser, Request::FetchPrs, Request::FetchRuns]
    );
    assert!(app.outbox.is_empty());
}

#[test]
fn enter_on_the_first_pull_request_opens_its_detail() {
    let mut app = app_with_three_prs();
    assert_eq!(app.pr_cursor, Some(0));
    let call = press(&mut app, KeyCode::Enter);
    assert_eq!(call, None);
    assert_eq!(app.screen, Screen::Detail);
    assert_eq!(app.focus, Focus::Detail);
    assert_eq!(app.selected_pr.as_ref().map(|p| p.number), Some(5));
    assert!(app.loading);
    assert_eq!(app.loading_what.as_deref(), Some("Loading diff..."));
    assert_eq!(
        app.take_requests(),
        vec![
            Request::FetchDiff { pr_number: 5 },
            Request::FetchPrChecks { head_sha: "sha5".to_string() },
            Request::FetchReviews { pr_number: 5 },
            Request::FetchCommits { pr_number: 5 },
        ]
    );
}

#[test]
fn messages_write_only_their_own_slot() {
    let mut app = app_with_three_prs();
    press(&mut app, KeyCode::Enter);
    app.take_requests();
    app.process_async_messages(
        vec![
            AsyncMsg::ReviewsLoaded(vec![Review {
                user: user("bob"),
                state: "APPROVED".to_string(),
                submitted_at: None,
            }]),
            AsyncMsg::RunsLoaded(vec![run(1, "CI"), run(2, "Lint")]),
        ],
        0,
    );
    assert_eq!(app.pr_reviews.len(), 1);
    assert_eq!(app.runs.len(), 2);
    assert_eq!(app.run_cursor, Some(0));
    assert_eq!(app.prs.len(), 3);
    assert_eq!(app.selected_pr.as_ref().map(|p| p.number), Some(5));
    assert!(app.loading);
    assert_eq!(app.pr_diff, None);
    assert_eq!(app.error, None);
    assert_eq!(app.screen, Screen::Detail);
    app.process_async_messages(vec![AsyncMsg::DiffLoaded("diff".to_string())], 0);
    assert_eq!(app.pr_diff.as_deref(), Some("diff"));
    assert!(!app.loading);
    assert_eq!(app.loading_what, None);
    assert_eq!(app.pr_reviews.len(), 1);
}

#[test]
fn last_message_to_arrive_wins() {
    let mut app = App::new("o/r".to_string());
    app.process_async_messages(
        vec![
            AsyncMsg::RunsLoaded(vec![run(1, "first")]),
            AsyncMsg::RunsLoaded(vec![run(2, "second"), run(3, "third")]),
        ],
        0,
    );
    assert_eq!(app.runs.iter().map(|r| r.id).collect::<Vec<u64>>(), vec![2, 3]);
}

#[test]
fn error_message_fills_the_error_slot_and_ends_loading() {
    let mut app = App::new("o/r".to_string());
    app.start();
    app.process_async_messages(vec![AsyncMsg::Error("Failed to fetch PRs: boom".to_string())], 0);
    assert_eq!(app.error.as_deref(), Some("Failed to fetch PRs: boom"));
    assert!(!app.loading);
    assert_eq!(app.footer(), Footer::Error("Failed to fetch PRs: boom".to_string()));
}

#[test]
fn error_hides_status_in_the_footer() {
    let mut app = App::new("o/r".to_string());
    assert!(matches!(app.footer(), Footer::Hint(_)));
    app.process_async_messages(vec![AsyncMsg::Message("hello".to_string())], 0);
    assert_eq!(app.footer(), Footer::Status("hello".to_string()));
    app.process_async_messages(vec![AsyncMsg::Error("bad".to_string())], 0);
    assert_eq!(app.footer(), Footer::Error("bad".to_string()));
}

#[test]
fn notification_is_cleared_after_three_seconds_and_prompt_stays() {
    let mut app = App::new("o/r".to_string());
    app.process_async_messages(vec![AsyncMsg::Message("done".to_string())], 50_000);
    app.begin_turn(Vec::new(), 52_000);
    assert!(app.status_message.is_some());
    app.begin_turn(Vec::new(), 53_100);
    assert_eq!(app.status_message, None);

    app.tab = Tab::Logs;
    press(&mut app, KeyCode::Char('/'));
    assert_eq!(app.input_mode, Some(InputMode::Search));
    assert_eq!(app.status_message, Some(StatusMessage::Prompt("Search:".to_string())));
    app.begin_turn(Vec::new(), 1_000 + 3_100);
    assert_eq!(app.status_message, Some(StatusMessage::Prompt("Search:".to_string())));
}

#[test]
fn initial_pull_request_is_opened_when_the_list_arrives() {
    let mut app = App::new("o/r".to_string());
    app.initial_pr = Some(7);
    app.process_async_messages(vec![AsyncMsg::UserLoaded("ada".to_string())], 0);
    assert_eq!(app.initial_pr, Some(7));
    assert_eq!(app.selected_pr, None);
    app.process_async_messages(
        vec![AsyncMsg::PrsLoaded(vec![pull_request(5, "ada", &[]), pull_request(7, "bob", &[])])],
        0,
    );
    assert_eq!(app.initial_pr, None);
    assert_eq!(app.pr_cursor, Some(1));
    assert_eq!(app.selected_pr.as_ref().map(|p| p.number), Some(7));
    assert_eq!(app.screen, Screen::Detail);
    assert_eq!(app.focus, Focus::Detail);
    assert_eq!(app.take_requests().len(), 4);
}

#[test]
fn initial_pull_request_hidden_by_the_filter_is_reported() {
    let mut app = App::new("o/r".to_string());
    app.initial_pr = Some(42);
    app.process_async_messages(vec![AsyncMsg::PrsLoaded(vec![pull_request(5, "ada", &[])])], 0);
    assert_eq!(app.error.as_deref(), Some("PR #42 not found in current filter"));
    assert_eq!(app.selected_pr, None);
    assert_eq!(app.screen, Screen::List);
}

#[test]
fn filter_shows_mine_and_review_requested() {
    let mut app = app_with_three_prs();
    app.process_async_messages(vec![AsyncMsg::UserLoaded("bob".to_string())], 0);
    assert_eq!(app.prs.len(), 3);
    press(&mut app, KeyCode::Char('f'));
    assert_eq!(app.pr_filter, PrFilter::Mine);
    assert_eq!(app.prs.iter().map(|p| p.number).collect::<Vec<u64>>(), vec![7]);
    press(&mut app, KeyCode::Char('f'));
    assert_eq!(app.pr_filter, PrFilter::ReviewRequested);
    assert_eq!(app.prs.iter().map(|p| p.number).collect::<Vec<u64>>(), vec![5, 9]);
    press(&mut app, KeyCode::Char('f'));
    assert_eq!(app.pr_filter, PrFilter::All);
    assert_eq!(app.prs.iter().map(|p| p.number).collect::<Vec<u64>>(), vec![5, 7, 9]);
}

#[test]
fn applying_a_filter_twice_changes_nothing_more() {
    let mut app = app_with_three_prs();
    app.current_user = Some("ada".to_string());
    app.pr_filter = PrFilter::Mine;
    app.pr_cursor = Some(2);
    app.apply_pr_filter();
    let once: Vec<u64> = app.prs.iter().map(|p| p.number).collect();
    let cursor = app.pr_cursor;
    app.apply_pr_filter();
    assert_eq!(app.prs.iter().map(|p| p.number).collect::<Vec<u64>>(), once);
    assert_eq!(app.pr_cursor, cursor);
    assert_eq!(once, vec![5, 9]);
    assert_eq!(cursor, Some(0));
}

#[test]
fn filter_without_a_user_shows_everything() {
    let mut app = app_with_three_prs();
    press(&mut app, KeyCode::Char('f'));
    assert_eq!(app.pr_filter, PrFilter::Mine);
    assert_eq!(app.prs.len(), 3);
}

#[test]
fn filter_that_hides_everything_drops_the_cursor() {
    let mut app = app_with_three_prs();
    app.current_user = Some("nobody".to_string());
    press(&mut app, KeyCode::Char('f'));
    assert!(app.prs.is_empty());
    assert_eq!(app.pr_cursor, None);
    press(&mut app, KeyCode::Char('j'));
    assert_eq!(app.pr_cursor, None);
}

#[test]
fn list_cursor_wraps_both_ways() {
    let mut app = app_with_three_prs();
    press(&mut app, KeyCode::Char('k'));
    assert_eq!(app.pr_cursor, Some(2));
    press(&mut app, KeyCode::Down);
    assert_eq!(app.pr_cursor, Some(0));
    press(&mut app, KeyCode::Char('j'));
    assert_eq!(app.pr_cursor, Some(1));
}

#[test]
fn control_c_quits_even_in_the_line_editor() {
    let mut app = App::new("o/r".to_string());
    app.input_mode = Some(InputMode::Comment);
    let call = app.handle_key(KeyPress { code: KeyCode::Char('c'), ctrl: true }, 0);
    assert_eq!(call, None);
    assert!(app.should_quit);
    assert_eq!(app.input_buffer, "");
}

#[test]
fn line_editor_captures_every_key() {
    let mut app = App::new("o/r".to_string());
    app.tab = Tab::Logs;
    press(&mut app, KeyCode::Char('/'));
    for c in ['q', '?', '1'] {
        press(&mut app, KeyCode::Char(c));
    }
    assert!(!app.should_quit);
    assert!(!app.show_help);
    assert_eq!(app.tab, Tab::Logs);
    assert_eq!(app.input_buffer, "q?1");
    press(&mut app, KeyCode::Backspace);
    assert_eq!(app.input_buffer, "q?");
    press(&mut app, KeyCode::Tab);
    assert_eq!(app.input_buffer, "q?");
    press(&mut app, KeyCode::Esc);
    assert_eq!(app.input_mode, None);
    assert_eq!(app.input_buffer, "");
    assert_eq!(app.status_message, None);
    assert_eq!(app.log_search, None);
}

#[test]
fn line_editor_stops_at_its_limit() {
    let mut app = App::new("o/r".to_string());
    app.input_mode = Some(InputMode::Comment);
    for _ in 0..1100 {
        press(&mut app, KeyCode::Char('x'));
    }
    assert_eq!(app.input_buffer.len(), 1024);
    press(&mut app, KeyCode::Backspace);
    press(&mut app, KeyCode::Char('é'));
    assert_eq!(app.input_buffer.len(), 1025);
    press(&mut app, KeyCode::Char('y'));
    assert_eq!(app.input_buffer.len(), 1025);
}

#[test]
fn help_overlay_swallows_keys_until_closed() {
    let mut app = app_with_three_prs();
    press(&mut app, KeyCode::Char('?'));
    assert!(app.show_help);
    press(&mut app, KeyCode::Char('j'));
    press(&mut app, KeyCode::Char('q'));
    press(&mut app, KeyCode::Char('2'));
    assert_eq!(app.pr_cursor, Some(0));
    assert!(!app.should_quit);
    assert_eq!(app.tab, Tab::PRs);
    press(&mut app, KeyCode::Char('?'));
    assert!(!app.show_help);
    press(&mut app, KeyCode::Char('?'));
    press(&mut app, KeyCode::Esc);
    assert!(!app.show_help);
    press(&mut app, KeyCode::Char('q'));
    assert!(app.should_quit);
}

#[test]
fn global_keys_switch_tabs() {
    let mut app = App::new("o/r".to_string());
    app.screen = Screen::Detail;
    app.focus = Focus::PrChecks;
    press(&mut app, KeyCode::Char('2'));
    assert_eq!((app.tab, app.screen, app.focus), (Tab::Actions, Screen::List, Focus::PrChecks));
    app.screen = Screen::Jobs;
    press(&mut app, KeyCode::Char('3'));
    assert_eq!((app.tab, app.screen), (Tab::Logs, Screen::Jobs));
    press(&mut app, KeyCode::Char('1'));
    assert_eq!((app.tab, app.screen, app.focus), (Tab::PRs, Screen::List, Focus::List));
    press(&mut app, KeyCode::Tab);
    assert_eq!(app.tab, Tab::Actions);
    press(&mut app, KeyCode::BackTab);
    press(&mut app, KeyCode::BackTab);
    assert_eq!(app.tab, Tab::Logs);
}

#[test]
fn refresh_fetches_what_the_tab_shows() {
    let mut app = app_with_three_prs();
    app.error = Some("old".to_string());
    press(&mut app, KeyCode::Char('r'));
    assert_eq!(app.error, None);
    assert!(app.loading);
    assert_eq!(app.loading_what.as_deref(), Some("Refreshing PRs..."));
    assert_eq!(app.take_requests(), vec![Request::FetchPrs]);

    press(&mut app, KeyCode::Enter);
    app.take_requests();
    press(&mut app, KeyCode::Char('r'));
    assert_eq!(
        app.take_requests(),
        vec![Request::FetchPrs, Request::FetchPrChecks { head_sha: "sha5".to_string() }]
    );

    press(&mut app, KeyCode::Char('2'));
    press(&mut app, KeyCode::Char('r'));
    assert_eq!(app.take_requests(), vec![Request::FetchRuns]);
    assert_eq!(app.loading_what.as_deref(), Some("Refreshing workflows..."));

    press(&mut app, KeyCode::Char('3'));
    press(&mut app, KeyCode::Char('r'));
    assert_eq!(app.take_requests(), Vec::<Request>::new());
    assert_eq!(app.loading_what.as_deref(), Some("Refreshing logs..."));
}

#[test]
fn new_pull_request_only_from_the_list() {
    let mut app = App::new("octo/cat".to_string());
    press(&mut app, KeyCode::Char('n'));
    assert_eq!(app.take_requests(), vec![Request::CreatePr { repo: "octo/cat".to_string() }]);
    assert_eq!(
        app.status_message,
        Some(StatusMessage::Notification {
            text: "Opening PR creation in browser...".to_string(),
            expires_at: 4_000
        })
    );
    app.screen = Screen::Detail;
    press(&mut app, KeyCode::Char('n'));
    assert!(app.outbox.is_empty());
}

#[test]
fn approve_waits_for_the_call_and_reports_its_outcome() {
    let mut app = app_with_three_prs();
    assert_eq!(press(&mut app, KeyCode::Char('v')), None);
    press(&mut app, KeyCode::Enter);
    app.process_async_messages(vec![AsyncMsg::DiffLoaded(String::new())], 0);
    let call = press(&mut app, KeyCode::Char('v')).unwrap();
    assert_eq!(call, Call::Approve { pr_number: 5 });
    assert!(app.loading);
    assert_eq!(app.loading_what.as_deref(), Some("Approving PR..."));
    app.finish_call(call.clone(), Ok(()), 2_000);
    assert!(!app.loading);
    assert_eq!(
        app.status_message,
        Some(StatusMessage::Notification { text: "Approved PR #5".to_string(), expires_at: 5_000 })
    );
    app.finish_call(call, Err("403 Forbidden".to_string()), 2_000);
    assert_eq!(app.error.as_deref(), Some("Failed to approve: 403 Forbidden"));
}

#[test]
fn merge_fetches_the_list_anew_on_success() {
    let mut app = app_with_three_prs();
    press(&mut app, KeyCode::Enter);
    app.take_requests();
    let call = press(&mut app, KeyCode::Char('m')).unwrap();
    assert_eq!(call, Call::Merge { pr_number: 5 });
    app.finish_call(call.clone(), Ok(()), 0);
    assert!(app.loading);
    assert_eq!(app.take_requests(), vec![Request::FetchPrs]);
    app.finish_call(call, Err("conflict".to_string()), 0);
    assert!(!app.loading);
    assert_eq!(app.error.as_deref(), Some("Failed to merge: conflict"));
    assert!(app.outbox.is_empty());
}

#[test]
fn edit_title_patches_the_lists_without_a_fetch() {
    let mut app = app_with_three_prs();
    press(&mut app, KeyCode::Enter);
    app.take_requests();
    press(&mut app, KeyCode::Char('e'));
    assert_eq!(app.input_mode, Some(InputMode::EditTitle));
    assert_eq!(app.input_buffer, "Change 5");
    press(&mut app, KeyCode::Char('!'));
    let call = press(&mut app, KeyCode::Enter).unwrap();
    assert_eq!(call, Call::EditTitle { pr_number: 5, title: "Change 5!".to_string() });
    assert_eq!(app.input_mode, Some(InputMode::EditTitle));
    app.finish_call(call, Ok(()), 0);
    assert_eq!(app.input_mode, None);
    assert_eq!(app.input_buffer, "");
    assert_eq!(app.status_message, None);
    assert!(!app.loading);
    assert_eq!(app.selected_pr.as_ref().map(|p| p.title.as_str()), Some("Change 5!"));
    assert_eq!(app.all_prs[0].title, "Change 5!");
    assert_eq!(app.prs[0].title, "Change 5!");
    assert_eq!(app.all_prs[1].title, "Change 7");
    assert!(app.outbox.is_empty());
}

#[test]
fn empty_title_is_refused_without_a_call() {
    let mut app = app_with_three_prs();
    press(&mut app, KeyCode::Enter);
    press(&mut app, KeyCode::Char('e'));
    for _ in 0.."Change 5".len() {
        press(&mut app, KeyCode::Backspace);
    }
    assert_eq!(press(&mut app, KeyCode::Enter), None);
    assert_eq!(app.error.as_deref(), Some("Title cannot be empty"));
    assert_eq!(app.input_mode, None);
}

#[test]
fn add_label_trims_and_writes_the_label_into_the_lists() {
    let mut app = app_with_three_prs();
    press(&mut app, KeyCode::Char('b'));
    assert_eq!(app.input_mode, None);
    press(&mut app, KeyCode::Enter);
    app.take_requests();
    press(&mut app, KeyCode::Char('b'));
    assert_eq!(app.input_mode, Some(InputMode::AddLabel));
    for c in " bug ".chars() {
        press(&mut app, KeyCode::Char(c));
    }
    let call = press(&mut app, KeyCode::Enter).unwrap();
    assert_eq!(call, Call::AddLabel { pr_number: 5, label: "bug".to_string() });
    app.finish_call(call, Ok(()), 0);
    assert!(app.outbox.is_empty());
    assert_eq!(app.input_mode, None);
    let names = |pr: &PullRequest| -> Vec<String> {
        pr.labels.iter().map(|l| l.name.clone()).collect()
    };
    assert_eq!(names(app.selected_pr.as_ref().unwrap()), vec!["bug"]);
    assert_eq!(names(&app.all_prs[0]), vec!["bug"]);
    assert_eq!(names(&app.prs[0]), vec!["bug"]);
    assert!(app.all_prs[1].labels.is_empty());
    app.finish_call(Call::AddLabel { pr_number: 5, label: "bug".to_string() }, Ok(()), 0);
    assert_eq!(names(&app.all_prs[0]), vec!["bug"]);

    press(&mut app, KeyCode::Char('b'));
    press(&mut app, KeyCode::Char(' '));
    assert_eq!(press(&mut app, KeyCode::Enter), None);
    assert_eq!(app.error.as_deref(), Some("Label cannot be empty"));
}

#[test]
fn copy_reports_what_was_copied() {
    let mut app = app_with_three_prs();
    press(&mut app, KeyCode::Enter);
    let branch = press(&mut app, KeyCode::Char('y')).unwrap();
    assert_eq!(branch, Call::CopyBranch { text: "feature-5".to_string() });
    let command = press(&mut app, KeyCode::Char('Y')).unwrap();
    assert_eq!(command, Call::CopyText { text: "git checkout feature-5".to_string() });
    let url = press(&mut app, KeyCode::Char('u')).unwrap();
    assert_eq!(
        url,
        Call::CopyText { text: "https://github.com/octo/cat/pull/5".to_string() }
    );
    app.finish_call(branch, Ok(()), 0);
    assert_eq!(app.status_message.as_ref().map(|m| m.text()), Some("Copied branch: feature-5"));
    app.finish_call(command, Ok(()), 0);
    assert_eq!(
        app.status_message.as_ref().map(|m| m.text()),
        Some("Copied: git checkout feature-5")
    );
    app.finish_call(url, Err(String::new()), 0);
    assert_eq!(app.error.as_deref(), Some("Failed to copy to clipboard"));
}

#[test]
fn runs_drill_down_to_jobs_and_logs() {
    let mut app = App::new("o/r".to_string());
    app.process_async_messages(vec![AsyncMsg::RunsLoaded(vec![run(11, "CI"), run(12, "Lint")])], 0);
    press(&mut app, KeyCode::Char('2'));
    press(&mut app, KeyCode::Char('j'));
    press(&mut app, KeyCode::Enter);
    assert_eq!(app.screen, Screen::Jobs);
    assert_eq!(app.selected_run.as_ref().map(|r| r.id), Some(12));
    assert_eq!(app.take_requests(), vec![Request::FetchJobs { run_id: 12 }]);
    app.process_async_messages(vec![AsyncMsg::JobsLoaded(vec![job(100), job(101)])], 0);
    assert_eq!(app.job_cursor, Some(0));
    press(&mut app, KeyCode::Char('j'));
    press(&mut app, KeyCode::Char('L'));
    assert_eq!(app.tab, Tab::Logs);
    assert_eq!(app.take_requests(), vec![Request::FetchLogs { run_id: 12, job_id: Some(101), job_completed: true }]);
    app.process_async_messages(vec![AsyncMsg::LogsLoaded("a\nb\n".to_string())], 0);
    assert_eq!(app.logs, "a\nb\n");
    assert_eq!((app.log_scroll, app.log_h_scroll), (0, 0));
    assert!(!app.loading);
}

#[test]
fn rerun_of_a_run_fetches_the_runs_anew() {
    let mut app = App::new("o/r".to_string());
    app.tab = Tab::Actions;
    assert_eq!(press(&mut app, KeyCode::Char('R')), None);
    app.process_async_messages(vec![AsyncMsg::RunsLoaded(vec![run(11, "CI")])], 0);
    let call = press(&mut app, KeyCode::Char('R')).unwrap();
    assert_eq!(call, Call::RerunRun { run_id: 11, name: "CI".to_string() });
    assert_eq!(app.loading_what.as_deref(), Some("Triggering rerun..."));
    app.finish_call(call, Ok(()), 0);
    assert_eq!(app.status_message.as_ref().map(|m| m.text()), Some("Rerun triggered for CI"));
    assert_eq!(app.take_requests(), vec![Request::FetchRuns]);
    assert!(!app.loading);
}

#[test]
fn check_jobs_puts_an_unknown_run_at_the_head() {
    let mut app = app_with_three_prs();
    press(&mut app, KeyCode::Enter);
    app.take_requests();
    app.process_async_messages(
        vec![
            AsyncMsg::RunsLoaded(vec![run(1, "a"), run(2, "b")]),
            AsyncMsg::PrChecksLoaded(vec![run(2, "b"), run(9, "z")]),
        ],
        0,
    );
    app.focus = Focus::PrChecks;
    press(&mut app, KeyCode::Enter);
    assert_eq!((app.tab, app.screen), (Tab::Actions, Screen::Jobs));
    assert_eq!(app.run_cursor, Some(1));
    assert_eq!(app.runs.len(), 2);
    assert_eq!(app.take_requests(), vec![Request::FetchJobs { run_id: 2 }]);

    app.pr_checks_cursor = Some(1);
    app.view_pr_check_jobs();
    assert_eq!(app.runs.iter().map(|r| r.id).collect::<Vec<u64>>(), vec![9, 1, 2]);
    assert_eq!(app.run_cursor, Some(0));
    assert_eq!(app.selected_run.as_ref().map(|r| r.id), Some(9));
}

#[test]
fn commit_mode_walks_without_wrapping() {
    let mut app = app_with_three_prs();
    press(&mut app, KeyCode::Enter);
    app.take_requests();
    press(&mut app, KeyCode::Char('p'));
    assert_eq!(app.diff_mode, DiffMode::Full);
    assert_eq!(
        app.status_message.as_ref().map(|m| m.text()),
        Some("No commits found for this PR")
    );
    app.process_async_messages(
        vec![AsyncMsg::CommitsLoaded(vec![commit("0123456789"), commit("abc")])],
        0,
    );
    press(&mut app, KeyCode::Char('p'));
    assert_eq!(app.diff_mode, DiffMode::ByCommit);
    assert_eq!(app.loading_what.as_deref(), Some("Loading commit 0123456..."));
    assert_eq!(app.take_requests(), vec![Request::FetchCommitDiff { sha: "0123456789".to_string() }]);
    press(&mut app, KeyCode::Char(']'));
    assert_eq!(app.pr_commits_cursor, Some(1));
    assert_eq!(app.loading_what.as_deref(), Some("Loading commit abc..."));
    press(&mut app, KeyCode::Char(']'));
    assert_eq!(app.pr_commits_cursor, Some(1));
    press(&mut app, KeyCode::Char('['));
    press(&mut app, KeyCode::Char('['));
    assert_eq!(app.pr_commits_cursor, Some(0));
    app.diff_scroll = 9;
    press(&mut app, KeyCode::Char('p'));
    assert_eq!((app.diff_mode, app.diff_scroll), (DiffMode::Full, 0));
    app.take_requests();
    press(&mut app, KeyCode::Char(']'));
    assert!(app.outbox.is_empty());
}

#[test]
fn log_keys_scroll_and_search() {
    let mut app = App::new("o/r".to_string());
    app.tab = Tab::Logs;
    let logs: String = (0..100).map(|i| format!("line {}\n", i)).collect();
    app.process_async_messages(vec![AsyncMsg::LogsLoaded(logs)], 0);
    press(&mut app, KeyCode::Char('k'));
    assert_eq!(app.log_scroll, 0);
    press(&mut app, KeyCode::PageDown);
    press(&mut app, KeyCode::Char('j'));
    assert_eq!(app.log_scroll, 21);
    press(&mut app, KeyCode::Char('l'));
    press(&mut app, KeyCode::Char('l'));
    press(&mut app, KeyCode::Char('h'));
    assert_eq!(app.log_h_scroll, 10);
    press(&mut app, KeyCode::Char('G'));
    assert_eq!(app.log_scroll, 80);
    press(&mut app, KeyCode::Char('g'));
    assert_eq!((app.log_scroll, app.log_h_scroll), (0, 0));

    press(&mut app, KeyCode::Char('/'));
    for c in "LINE 9".chars() {
        press(&mut app, KeyCode::Char(c));
    }
    press(&mut app, KeyCode::Enter);
    assert_eq!(app.input_mode, None);
    assert_eq!(app.log_search.as_deref(), Some("LINE 9"));
    assert_eq!(app.log_matches, vec![9, 90, 91, 92, 93, 94, 95, 96, 97, 98, 99]);
    assert_eq!((app.log_match_index, app.log_scroll), (0, 9));
    press(&mut app, KeyCode::Char('N'));
    assert_eq!((app.log_match_index, app.log_scroll), (10, 99));
    press(&mut app, KeyCode::Char('n'));
    assert_eq!((app.log_match_index, app.log_scroll), (0, 9));
    for _ in 0..11 {
        press(&mut app, KeyCode::Char('n'));
    }
    assert_eq!(app.log_match_index, 0);
    press(&mut app, KeyCode::Esc);
    assert_eq!(app.tab, Tab::Actions);
    assert_eq!(app.log_search, None);
    assert!(app.log_matches.is_empty());
    app.tab = Tab::Logs;
    press(&mut app, KeyCode::Char('n'));
    assert_eq!(app.log_scroll, 9);
}

#[test]
fn handle_event_takes_messages_on_a_tick() {
    let mut app = App::new("o/r".to_string());
    let call = app.handle_event(Event::Tick(vec![AsyncMsg::UserLoaded("ada".to_string())]), 0);
    assert_eq!(call, None);
    assert_eq!(app.current_user.as_deref(), Some("ada"));
    app.handle_event(Event::Resize(10, 10), 0);
    assert_eq!(app.current_user.as_deref(), Some("ada"));
    app.handle_event(Event::Key(key('q')), 0);
    assert!(app.should_quit);
}

#[test]
fn failed_requests_send_one_error_message() {
    assert_eq!(
        Request::FetchPrs.failed("timeout"),
        AsyncMsg::Error("Failed to fetch PRs: timeout".to_string())
    );
    assert_eq!(
        Request::FetchLogs { run_id: 1, job_id: None, job_completed: false }.failed("x"),
        AsyncMsg::Error("Failed to fetch logs: x".to_string())
    );
    assert_eq!(
        Request::CheckoutPr { pr_number: 3 }.failed("dirty tree"),
        AsyncMsg::Error("Checkout failed: dirty tree".to_string())
    );
    assert_eq!(
        Request::FetchCurrentUser.failed("401 Unauthorized"),
        AsyncMsg::Error("Failed to fetch current user: 401 Unauthorized".to_string())
    );
    assert_eq!(
        Request::CheckoutPr { pr_number: 3 }.succeeded(),
        Some(AsyncMsg::Message("Checked out PR #3".to_string()))
    );
    assert_eq!(
        Request::OpenPrInBrowser { pr_number: 12 }.succeeded(),
        Some(AsyncMsg::Message("Opened PR #12 in browser".to_string()))
    );
    assert_eq!(Request::FetchPrs.succeeded(), None);
    assert_eq!(
        Request::FetchRuns.message(Ok(AsyncMsg::RunsLoaded(Vec::new()))),
        AsyncMsg::RunsLoaded(Vec::new())
    );
    assert_eq!(
        Request::FetchRuns.message(Err("offline".to_string())),
        AsyncMsg::Error("Failed to fetch runs: offline".to_string())
    );
}

#[test]
fn logs_request_says_whether_the_job_has_finished() {
    let mut app = App::new("o/r".to_string());
    app.selected_run = Some(run(12, "CI"));
    let mut running = job(100);
    running.status = "in_progress".to_string();
    app.jobs = vec![running, job(101)];
    app.job_cursor = Some(0);
    app.fetch_logs();
    app.job_cursor = Some(1);
    app.fetch_logs();
    app.job_cursor = None;
    app.fetch_logs();
    app.job_cursor = Some(9);
    app.tab = Tab::Logs;
    press(&mut app, KeyCode::Char('r'));
    assert_eq!(
        app.take_requests(),
        vec![
            Request::FetchLogs { run_id: 12, job_id: Some(100), job_completed: false },
            Request::FetchLogs { run_id: 12, job_id: Some(101), job_completed: true },
            Request::FetchLogs { run_id: 12, job_id: None, job_completed: false },
            Request::FetchLogs { run_id: 12, job_id: None, job_completed: false },
        ]
    );
}

#[test]
fn request_for_a_review_is_written_into_the_lists() {
    let mut app = app_with_three_prs();
    press(&mut app, KeyCode::Enter);
    app.take_requests();
    press(&mut app, KeyCode::Char('a'));
    assert_eq!(app.input_mode, Some(InputMode::AddReviewer));
    for c in " cy ".chars() {
        press(&mut app, KeyCode::Char(c));
    }
    let call = press(&mut app, KeyCode::Enter).unwrap();
    assert_eq!(call, Call::AddReviewer { pr_number: 5, reviewer: "cy".to_string() });
    app.finish_call(call, Ok(()), 0);
    let asked = |pr: &PullRequest| -> Vec<String> {
        pr.requested_reviewers.iter().map(|u| u.login.clone()).collect()
    };
    assert_eq!(asked(app.selected_pr.as_ref().unwrap()), vec!["bob", "cy"]);
    assert_eq!(asked(&app.all_prs[0]), vec!["bob", "cy"]);
    assert_eq!(asked(&app.prs[0]), vec!["bob", "cy"]);
    assert_eq!(asked(&app.all_prs[2]), vec!["cy", "bob"]);
    assert!(app.outbox.is_empty());
    assert!(!app.loading);
    assert_eq!(app.input_mode, None);

    let again = Call::AddReviewer { pr_number: 5, reviewer: "bob".to_string() };
    app.finish_call(again, Ok(()), 0);
    assert_eq!(asked(&app.all_prs[0]), vec!["bob", "cy"]);

    let failed = Call::AddReviewer { pr_number: 5, reviewer: "dee".to_string() };
    app.finish_call(failed, Err("422".to_string()), 0);
    assert_eq!(asked(&app.all_prs[0]), vec!["bob", "cy"]);
    assert_eq!(app.error.as_deref(), Some("Failed to request review: 422"));
}

#[test]
fn scroll_offsets_saturate() {
    let mut app = App::new("o/r".to_string());
    app.tab = Tab::Logs;
    app.log_scroll = usize::MAX - 5;
    press(&mut app, KeyCode::PageDown);
    assert_eq!(app.log_scroll, usize::MAX);
    app.log_h_scroll = 4;
    press(&mut app, KeyCode::Char('h'));
    assert_eq!(app.log_h_scroll, 0);
    app.log_h_scroll = u16::MAX - 3;
    press(&mut app, KeyCode::Char('l'));
    assert_eq!(app.log_h_scroll, u16::MAX);
    press(&mut app, KeyCode::Char('0'));
    assert_eq!(app.log_h_scroll, 0);
    app.tab = Tab::PRs;
    app.screen = Screen::Diff;
    app.diff_scroll = u16::MAX - 5;
    press(&mut app, KeyCode::PageDown);
    assert_eq!(app.diff_scroll, u16::MAX);
}

#[test]
fn cursors_step_through_their_lists() {
    assert_eq!(step_next(None, 3), Some(0));
    assert_eq!(step_next(Some(2), 3), Some(0));
    assert_eq!(step_next(Some(7), 0), Some(7));
    assert_eq!(step_previous(Some(0), 3), Some(2));
    assert_eq!(step_previous(None, 3), Some(0));
    assert_eq!(step_next_clamped(Some(2), 3), Some(2));
    assert_eq!(step_next_clamped(Some(usize::MAX), 3), Some(2));
    assert_eq!(step_next_clamped(Some(0), 3), Some(1));
    assert_eq!(step_previous_clamped(Some(0), 3), Some(0));
    assert_eq!(step_previous_clamped(Some(2), 3), Some(1));
    assert_eq!(step_previous_clamped(None, 0), None);
}

#[test]
fn search_scrolls_to_the_matched_line_however_far_down() {
    let mut app = App::new("o/r".to_string());
    let mut logs = "\n".repeat(70_000);
    logs.push_str("needle\n");
    app.logs = logs;
    app.log_search = Some("needle".to_string());
    app.find_log_matches();
    assert_eq!(app.log_matches, vec![70_000]);
    assert_eq!(app.log_scroll, 70_000);
    app.log_scroll = 3;
    app.next_log_match();
    assert_eq!(app.log_scroll, 70_000);
    app.tab = Tab::Logs;
    press(&mut app, KeyCode::Char('G'));
    assert_eq!(app.log_scroll, 70_001 - 20);
}

#[test]
fn taking_a_message_twice_is_taking_it_once() {
    let mut once = App::new("o/r".to_string());
    let mut twice = App::new("o/r".to_string());
    let message = || AsyncMsg::RunsLoaded(vec![run(1, "CI"), run(2, "Lint")]);
    once.take(message(), 5);
    twice.take(message(), 5);
    twice.take(message(), 5);
    assert_eq!(once.runs, twice.runs);
    assert_eq!(once.run_cursor, twice.run_cursor);
    assert_eq!(once.loading, twice.loading);
    assert_eq!(once.status_message, twice.status_message);
}

#[test]
fn escape_and_diff_keys_on_the_pull_request_tab() {
    let mut app = app_with_three_prs();
    press(&mut app, KeyCode::Char('d'));
    assert_eq!(app.screen, Screen::List);
    press(&mut app, KeyCode::Enter);
    app.diff_scroll = 3;
    press(&mut app, KeyCode::Char('d'));
    assert_eq!((app.screen, app.diff_scroll), (Screen::Diff, 0));
    press(&mut app, KeyCode::PageDown);
    press(&mut app, KeyCode::Char('k'));
    assert_eq!(app.diff_scroll, 19);
    press(&mut app, KeyCode::Esc);
    assert_eq!(app.screen, Screen::Detail);
    press(&mut app, KeyCode::Esc);
    assert_eq!((app.screen, app.focus), (Screen::List, Focus::List));
    press(&mut app, KeyCode::Char('l'));
    press(&mut app, KeyCode::Right);
    press(&mut app, KeyCode::Right);
    assert_eq!(app.focus, Focus::PrChecks);
    press(&mut app, KeyCode::Char('o'));
    assert_eq!(app.focus, Focus::List);
    press(&mut app, KeyCode::Char('C'));
    assert_eq!(app.take_requests().last(), Some(&Request::CheckoutPr { pr_number: 5 }));
    press(&mut app, KeyCode::Char('w'));
    assert_eq!(app.take_requests(), vec![Request::OpenPrInBrowser { pr_number: 5 }]);
    assert_eq!(app.status_message.as_ref().map(|m| m.text()), Some("Opening PR in browser..."));
}

#[test]
fn expired_notification_goes_unless_a_new_one_arrives() {
    let mut app = App::new("o/r".to_string());
    app.process_async_messages(vec![AsyncMsg::Message("old".to_string())], 0);
    app.begin_turn(vec![AsyncMsg::Message("new".to_string())], 10_000);
    assert_eq!(
        app.status_message,
        Some(StatusMessage::Notification { text: "new".to_string(), expires_at: 13_000 })
    );
    app.begin_turn(vec![AsyncMsg::RunsLoaded(Vec::new())], 13_001);
    assert_eq!(app.status_message, None);
}
