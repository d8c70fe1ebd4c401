use github_tui::github::types::{
    Branch, Commit, Job, PullRequest, Review, User, WorkflowRun,
};
use github_tui::tone::{pr_style, state_label, status_style, PrTone, Tone};

fn user(login: &str) -> User {
    User { login: login.to_string(), avatar_url: String::new() }
}

fn pull_request(number: u64) -> PullRequest {
    PullRequest {
        number,
        title: format!("Change {}", number),
        body: None,
        state: "open".to_string(),
        user: user("ada"),
        head: Branch { ref_name: format!("feature-{}", number), sha: format!("sha{}", number) },
        base: Branch { ref_name: "main".to_string(), sha: "base".to_string() },
        draft: false,
        mergeable: None,
        merged: false,
        created_at: String::new(),
        updated_at: String::new(),
        labels: Vec::new(),
        requested_reviewers: Vec::new(),
        ci_status: None,
    }
}

fn run(status: &str, conclusion: Option<&str>) -> WorkflowRun {
    WorkflowRun {
        id: 1,
        name: "CI".to_string(),
        head_branch: "main".to_string(),
        head_sha: "abc".to_string(),
        status: status.to_string(),
        conclusion: conclusion.map(|c| c.to_string()),
        run_number: 1,
        event: "push".to_string(),
        created_at: String::new(),
        updated_at: String::new(),
        html_url: String::new(),
    }
}

fn job(status: &str, conclusion: Option<&str>, started: &str, completed: Option<&str>) -> Job {
    Job {
        id: 1,
        run_id: 1,
        name: "build".to_string(),
        status: status.to_string(),
        conclusion: conclusion.map(|c| c.to_string()),
        started_at: started.to_string(),
        completed_at: completed.map(|c| c.to_string()),
        steps: Vec::new(),
    }
}

fn commit(sha: &str, message: &str) -> Commit {
    Commit {
        sha: sha.to_string(),
        message: message.to_string(),
        author: "ada".to_string(),
        date: String::new(),
    }
}

#[test]
fn pull_request_status_icon_by_precedence() {
    let mut pr = pull_request(1);
    assert_eq!(pr.status_icon(), "◉");
    pr.draft = true;
    assert_eq!(pr.status_icon(), "◯");
    pr.state = "closed".to_string();
    assert_eq!(pr.status_icon(), "✗");
    pr.merged = true;
    assert_eq!(pr.status_icon(), "⊗");
}

#[test]
fn pull_request_ci_icon_for_each_status() {
    let mut pr = pull_request(1);
    assert_eq!(pr.ci_icon(), "○");
    for (status, icon) in
        [("success", "✓"), ("failure", "✗"), ("pending", "◷"), ("error", "⚠"), ("other", "○")]
    {
        pr.ci_status = Some(status.to_string());
        assert_eq!(pr.ci_icon(), icon);
    }
}

#[test]
fn run_status_icon_conclusion_first() {
    assert_eq!(run("completed", Some("success")).status_icon(), "✓");
    assert_eq!(run("completed", Some("failure")).status_icon(), "✗");
    assert_eq!(run("completed", Some("cancelled")).status_icon(), "⊘");
    assert_eq!(run("completed", Some("skipped")).status_icon(), "⊘");
    assert_eq!(run("in_progress", None).status_icon(), "◷");
    assert_eq!(run("queued", None).status_icon(), "◯");
    assert_eq!(run("waiting", None).status_icon(), "○");
    assert_eq!(run("queued", Some("neutral")).status_icon(), "◯");
}

#[test]
fn job_status_icon_and_duration() {
    assert_eq!(job("completed", Some("success"), "t0", Some("t1")).status_icon(), "✓");
    assert_eq!(job("in_progress", None, "t0", None).status_icon(), "◷");
    assert_eq!(job("completed", Some("success"), "t0", Some("t1")).duration(), "completed");
    assert_eq!(job("in_progress", None, "t0", None).duration(), "running...");
    assert_eq!(job("queued", None, "", None).duration(), "-");
}

#[test]
fn review_status_icon_for_each_state() {
    for (state, icon) in [
        ("APPROVED", "✓"),
        ("CHANGES_REQUESTED", "✗"),
        ("COMMENTED", "💬"),
        ("PENDING", "◯"),
        ("DISMISSED", "⊘"),
        ("approved", "○"),
    ] {
        let review = Review { user: user("bob"), state: state.to_string(), submitted_at: None };
        assert_eq!(review.status_icon(), icon);
    }
}

#[test]
fn commit_short_sha_is_seven_bytes() {
    assert_eq!(commit("0123456789abcdef", "m").short_sha(), "0123456");
    assert_eq!(commit("0123456", "m").short_sha(), "0123456");
    assert_eq!(commit("abc", "m").short_sha(), "abc");
    assert_eq!(commit("", "m").short_sha(), "");
}

#[test]
fn commit_short_sha_checked_refuses_a_cut_inside_a_character() {
    assert_eq!(commit("abcdefé-rest", "m").short_sha_checked(), None);
    assert_eq!(commit("abcdeéx-rest", "m").short_sha_checked(), Some("abcdeé"));
    assert_eq!(commit("0123456789", "m").short_sha_checked(), Some("0123456"));
}

#[test]
fn commit_first_line_stops_at_the_line_end() {
    assert_eq!(commit("s", "Fix bug\n\nDetails").first_line(), "Fix bug");
    assert_eq!(commit("s", "Fix bug\r\nDetails").first_line(), "Fix bug");
    assert_eq!(commit("s", "One line").first_line(), "One line");
    assert_eq!(commit("s", "").first_line(), "");
    assert_eq!(commit("s", "\nsecond").first_line(), "");
    assert_eq!(commit("s", "keeps\r").first_line(), "keeps\r");
}

#[test]
fn clone_keeps_every_field() {
    let mut pr = pull_request(4);
    pr.requested_reviewers.push(user("bob"));
    pr.body = Some("text".to_string());
    assert_eq!(pr.clone(), pr);
    let r = run("queued", Some("x"));
    assert_eq!(r.clone(), r);
    let j = job("queued", None, "t", Some("u"));
    assert_eq!(j.clone(), j);
}

#[test]
fn status_style_conclusion_first() {
    assert_eq!(status_style("completed", &Some("success".to_string())), Tone::Success);
    assert_eq!(status_style("completed", &Some("failure".to_string())), Tone::Failure);
    assert_eq!(status_style("completed", &Some("cancelled".to_string())), Tone::Neutral);
    assert_eq!(status_style("completed", &Some("skipped".to_string())), Tone::Neutral);
    assert_eq!(status_style("in_progress", &None), Tone::Pending);
    assert_eq!(status_style("queued", &None), Tone::Pending);
    assert_eq!(status_style("done", &None), Tone::Neutral);
}

#[test]
fn pr_style_by_precedence() {
    assert_eq!(pr_style("open", false, false), PrTone::Open);
    assert_eq!(pr_style("open", false, true), PrTone::Draft);
    assert_eq!(pr_style("closed", false, true), PrTone::Closed);
    assert_eq!(pr_style("closed", true, true), PrTone::Merged);
    let mut pr = pull_request(1);
    assert_eq!(state_label(&pr), " Open");
    pr.merged = true;
    assert_eq!(state_label(&pr), " Merged");
}
