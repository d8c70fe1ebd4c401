use github_tui::gateway::{expect_success, user_login, wants_body, Rerun, RerunCall, Status};

fn reply(code: u16, text: &str) -> Result<Status, String> {
    Ok(Status { code, text: text.to_string() })
}

#[test]
fn rerun_falls_back_to_all_jobs() {
    let step = Rerun::start().next(reply(403, "403 Forbidden"));
    assert_eq!(step, Rerun::AllJobs);
    let done = step.next(reply(201, "201 Created"));
    assert_eq!(done, Rerun::Done(Ok(())));
}

#[test]
fn rerun_of_failed_jobs_alone_suffices() {
    assert_eq!(Rerun::start().next(reply(201, "201 Created")), Rerun::Done(Ok(())));
}

#[test]
fn rerun_reports_the_second_failure_only() {
    let step = Rerun::start().next(Err("timeout".to_string()));
    assert_eq!(step, Rerun::AllJobs);
    assert_eq!(
        step.next(reply(422, "422 Unprocessable Entity")),
        Rerun::Done(Err("Failed to rerun workflow: 422 Unprocessable Entity".to_string()))
    );
    assert_eq!(
        Rerun::AllJobs.next(Err("timeout".to_string())),
        Rerun::Done(Err("Failed to rerun workflow".to_string()))
    );
}

#[test]
fn finished_rerun_stays_finished() {
    let done = Rerun::Done(Ok(()));
    assert_eq!(done.next(reply(500, "500")), Rerun::Done(Ok(())));
}

#[test]
fn success_is_the_two_hundreds() {
    for (code, want) in [(199, false), (200, true), (204, true), (299, true), (300, false), (404, false)] {
        assert_eq!(Status { code, text: String::new() }.is_success(), want);
    }
}

#[test]
fn failures_are_worded_with_the_status() {
    let ok = Status { code: 200, text: "200 OK".to_string() };
    let no = Status { code: 403, text: "403 Forbidden".to_string() };
    assert_eq!(expect_success(&ok, "Failed to approve PR"), Ok(()));
    assert_eq!(
        expect_success(&no, "Failed to approve PR"),
        Err("Failed to approve PR: 403 Forbidden".to_string())
    );
}

#[test]
fn login_is_read_from_the_answer() {
    assert_eq!(user_login(br#"{"login": "ada", "id": 1}"#), Ok("ada".to_string()));
    assert_eq!(
        user_login(br#"{"name": "Ada"}"#),
        Err("No login field in user response".to_string())
    );
    assert_eq!(
        user_login(br#"{"login": 5}"#),
        Err("No login field in user response".to_string())
    );
    assert_eq!(user_login(br#"["login"]"#), Err("No login field in user response".to_string()));
    assert_eq!(user_login(b"not json"), Err("Failed to parse user response".to_string()));
    assert_eq!(user_login(b""), Err("Failed to parse user response".to_string()));
}

fn drive(replies: Vec<Result<Status, String>>) -> (Vec<RerunCall>, Option<Result<(), String>>) {
    let mut rerun = Rerun::start();
    let mut calls = Vec::new();
    let mut replies = replies.into_iter();
    while let Some(call) = rerun.asks() {
        calls.push(call);
        match replies.next() {
            Some(reply) => rerun = rerun.next(reply),
            None => break,
        }
    }
    (calls, rerun.outcome())
}

#[test]
fn rejected_rerun_of_failed_jobs_makes_exactly_two_calls() {
    let (calls, outcome) =
        drive(vec![reply(403, "403 Forbidden"), reply(201, "201 Created"), reply(500, "500")]);
    assert_eq!(calls, vec![RerunCall::FailedJobs, RerunCall::AllJobs]);
    assert_eq!(outcome, Some(Ok(())));
    let (calls, outcome) = drive(vec![Err("timeout".to_string()), reply(201, "201 Created")]);
    assert_eq!(calls, vec![RerunCall::FailedJobs, RerunCall::AllJobs]);
    assert_eq!(outcome, Some(Ok(())));
}

#[test]
fn accepted_rerun_of_failed_jobs_makes_one_call() {
    let (calls, outcome) = drive(vec![reply(201, "201 Created"), reply(500, "500")]);
    assert_eq!(calls, vec![RerunCall::FailedJobs]);
    assert_eq!(outcome, Some(Ok(())));
    let (calls, outcome) = drive(Vec::new());
    assert_eq!(calls, vec![RerunCall::FailedJobs]);
    assert_eq!(outcome, None);
}

#[test]
fn body_is_read_only_of_a_successful_answer() {
    assert!(wants_body(&reply(200, "200 OK")));
    assert!(!wants_body(&reply(404, "404 Not Found")));
    assert!(!wants_body(&reply(302, "302 Found")));
    assert!(!wants_body(&Err("offline".to_string())));
}
