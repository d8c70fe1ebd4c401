use github_tui::cache::{ArtifactCache, ArtifactKey, Lookup};
use github_tui::gateway::{
    get_commit_diff_begin, get_commit_diff_finish, get_run_logs_begin, get_run_logs_finish, Status,
};
use std::cell::Cell;

fn ok() -> Result<Status, String> {
    Ok(Status { code: 200, text: "200 OK".to_string() })
}

fn status(code: u16, text: &str) -> Result<Status, String> {
    Ok(Status { code, text: text.to_string() })
}

#[test]
fn fetch_runs_once_per_key() {
    let calls = Cell::new(0);
    let mut cache = ArtifactCache::new();
    let fetch = || {
        calls.set(calls.get() + 1);
        Ok::<String, String>(format!("diff {}", calls.get()))
    };
    let key = ArtifactKey::CommitDiff("abc".to_string());
    let first = cache.get_or_fetch(key.clone(), fetch);
    assert_eq!(first, Ok("diff 1".to_string()));
    for _ in 0..3 {
        let again = cache.get_or_fetch(key.clone(), fetch);
        assert_eq!(again, Ok("diff 1".to_string()));
    }
    assert_eq!(calls.get(), 1);
    let other = cache.get_or_fetch(ArtifactKey::CommitDiff("def".to_string()), fetch);
    assert_eq!(other, Ok("diff 2".to_string()));
    assert_eq!(cache.get(&key), Some("diff 1".to_string()));
}

#[test]
fn failed_fetch_is_not_kept() {
    let mut cache = ArtifactCache::new();
    let key = ArtifactKey::JobLog(7);
    let r = cache.get_or_fetch(key.clone(), || Err("offline".to_string()));
    assert_eq!(r, Err("offline".to_string()));
    assert_eq!(cache.lookup(&key), Lookup::Miss);
    let r = cache.get_or_fetch(key.clone(), || Ok("log".to_string()));
    assert_eq!(r, Ok("log".to_string()));
    assert_eq!(cache.lookup(&key), Lookup::Hit("log".to_string()));
}

#[test]
fn first_write_is_kept() {
    let mut cache = ArtifactCache::new();
    cache.store(ArtifactKey::JobLog(1), "one".to_string());
    cache.store(ArtifactKey::JobLog(1), "two".to_string());
    cache.store(ArtifactKey::CommitDiff("s".to_string()), "d1".to_string());
    cache.store(ArtifactKey::CommitDiff("s".to_string()), "d2".to_string());
    cache.store(ArtifactKey::CommitDiff("1".to_string()), "other".to_string());
    assert_eq!(cache.get(&ArtifactKey::JobLog(1)), Some("one".to_string()));
    assert_eq!(cache.get(&ArtifactKey::CommitDiff("s".to_string())), Some("d1".to_string()));
    assert_eq!(cache.get(&ArtifactKey::CommitDiff("1".to_string())), Some("other".to_string()));
    assert_eq!(cache.get(&ArtifactKey::JobLog(2)), None);
    assert_eq!(cache.get(&ArtifactKey::CommitDiff("t".to_string())), None);
}

#[test]
fn kinds_do_not_share_keys() {
    let mut cache = ArtifactCache::new();
    cache.store(ArtifactKey::CommitDiff("7".to_string()), "diff".to_string());
    assert_eq!(cache.get(&ArtifactKey::JobLog(7)), None);
    let r = cache.complete(ArtifactKey::JobLog(7), Ok("log".to_string()));
    assert_eq!(r, Ok("log".to_string()));
    assert_eq!(cache.get(&ArtifactKey::JobLog(7)), Some("log".to_string()));
    assert_eq!(cache.get(&ArtifactKey::CommitDiff("7".to_string())), Some("diff".to_string()));
}

#[test]
fn logs_of_a_finished_job_are_fetched_once() {
    let mut cache = ArtifactCache::new();
    assert_eq!(get_run_logs_begin(&cache, Some(5), true), Lookup::Miss);
    let r = get_run_logs_finish(&mut cache, Some(5), true, ok(), Some(b"plain log".to_vec()));
    assert_eq!(r, Ok("plain log".to_string()));
    assert_eq!(get_run_logs_begin(&cache, Some(5), true), Lookup::Hit("plain log".to_string()));
    get_run_logs_finish(&mut cache, Some(6), true, ok(), Some(b"other".to_vec())).unwrap();
    assert_eq!(get_run_logs_begin(&cache, Some(5), true), Lookup::Hit("plain log".to_string()));
}

#[test]
fn logs_of_a_running_job_are_never_kept() {
    let mut cache = ArtifactCache::new();
    assert_eq!(get_run_logs_begin(&cache, Some(5), false), Lookup::Miss);
    let first = get_run_logs_finish(&mut cache, Some(5), false, ok(), Some(b"step 1\n".to_vec()));
    assert_eq!(first, Ok("step 1\n".to_string()));
    assert_eq!(get_run_logs_begin(&cache, Some(5), false), Lookup::Miss);
    assert_eq!(get_run_logs_begin(&cache, Some(5), true), Lookup::Miss);
    let second =
        get_run_logs_finish(&mut cache, Some(5), false, ok(), Some(b"step 1\nstep 2\n".to_vec()));
    assert_eq!(second, Ok("step 1\nstep 2\n".to_string()));
    let done =
        get_run_logs_finish(&mut cache, Some(5), true, ok(), Some(b"step 1\nstep 2\nend\n".to_vec()));
    assert_eq!(done, Ok("step 1\nstep 2\nend\n".to_string()));
    assert_eq!(
        get_run_logs_begin(&cache, Some(5), true),
        Lookup::Hit("step 1\nstep 2\nend\n".to_string())
    );
    assert_eq!(get_run_logs_begin(&cache, Some(5), false), Lookup::Miss);
}

#[test]
fn run_logs_are_never_kept() {
    let mut cache = ArtifactCache::new();
    let r = get_run_logs_finish(&mut cache, None, true, ok(), Some(b"whole run".to_vec()));
    assert_eq!(r, Ok("whole run".to_string()));
    assert_eq!(get_run_logs_begin(&cache, None, true), Lookup::Miss);
}

#[test]
fn missing_logs_give_a_placeholder_that_is_not_kept() {
    let mut cache = ArtifactCache::new();
    let r = get_run_logs_finish(&mut cache, Some(5), true, status(404, "404 Not Found"), None);
    assert_eq!(
        r,
        Ok("Logs not available yet. The run may still be in progress or queued.".to_string())
    );
    assert_eq!(get_run_logs_begin(&cache, Some(5), true), Lookup::Miss);
}

#[test]
fn log_failures_are_worded() {
    let mut cache = ArtifactCache::new();
    assert_eq!(
        get_run_logs_finish(
            &mut cache,
            Some(5),
            true,
            status(500, "500 Internal Server Error"),
            None
        ),
        Err("Failed to fetch logs: 500 Internal Server Error".to_string())
    );
    assert_eq!(
        get_run_logs_finish(&mut cache, Some(5), true, Err("connection reset".to_string()), None),
        Err("Failed to fetch logs: connection reset".to_string())
    );
    assert_eq!(
        get_run_logs_finish(&mut cache, Some(5), true, ok(), None),
        Err("Failed to read logs response".to_string())
    );
    assert_eq!(get_run_logs_begin(&cache, Some(5), true), Lookup::Miss);
}

#[test]
fn commit_diffs_are_fetched_once() {
    let mut cache = ArtifactCache::new();
    assert_eq!(get_commit_diff_begin(&cache, "abc"), Lookup::Miss);
    assert_eq!(
        get_commit_diff_finish(&mut cache, "abc", status(502, "502 Bad Gateway"), None),
        Err("Failed to fetch commit diff: 502 Bad Gateway".to_string())
    );
    assert_eq!(
        get_commit_diff_finish(&mut cache, "abc", Err("dns".to_string()), None),
        Err("Failed to fetch commit diff".to_string())
    );
    assert_eq!(
        get_commit_diff_finish(&mut cache, "abc", ok(), None),
        Err("Failed to read commit diff response".to_string())
    );
    assert_eq!(get_commit_diff_begin(&cache, "abc"), Lookup::Miss);
    assert_eq!(
        get_commit_diff_finish(&mut cache, "abc", ok(), Some("+x".to_string())),
        Ok("+x".to_string())
    );
    assert_eq!(get_commit_diff_begin(&cache, "abc"), Lookup::Hit("+x".to_string()));
    assert_eq!(get_commit_diff_begin(&cache, "abd"), Lookup::Miss);
}
