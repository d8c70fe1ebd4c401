use github_tui::recent::{
    ago_text, find_recent_branch_without_pr, recent_push, RecentBranch, RepoEvent,
};

fn push(actor: &str, branch: &str, at: &str) -> RepoEvent {
    RepoEvent {
        event_type: "PushEvent".to_string(),
        actor: actor.to_string(),
        ref_name: Some(format!("refs/heads/{}", branch)),
        created_at: at.to_string(),
    }
}

// 2024-05-01T12:00:00Z
const NOON: (i64, u32) = (1_714_564_800, 0);

#[test]
fn newest_push_within_the_hour_is_found() {
    let events = vec![
        push("bob", "theirs", "2024-05-01T11:59:00Z"),
        push("ada", "main", "2024-05-01T11:58:00Z"),
        push("ada", "has-pr", "2024-05-01T11:57:00Z"),
        push("ada", "old", "2024-05-01T10:00:00Z"),
        push("ada", "fresh", "2024-05-01T13:30:00+02:00"),
        push("ada", "older", "2024-05-01T11:20:00Z"),
    ];
    let found = find_recent_branch_without_pr(&events, "ada", &vec!["has-pr".to_string()], NOON);
    assert_eq!(
        found,
        Some(RecentBranch {
            name: "fresh".to_string(),
            pushed_at: "2024-05-01T13:30:00+02:00".to_string(),
            minutes_ago: 30,
        })
    );
}

#[test]
fn nothing_recent_gives_none() {
    let events = vec![
        push("ada", "old", "2024-05-01T10:58:59Z"),
        push("ada", "bad-time", "yesterday"),
        RepoEvent {
            event_type: "WatchEvent".to_string(),
            actor: "ada".to_string(),
            ref_name: None,
            created_at: "2024-05-01T11:59:00Z".to_string(),
        },
        RepoEvent {
            event_type: "PushEvent".to_string(),
            actor: "ada".to_string(),
            ref_name: Some("refs/tags/v1".to_string()),
            created_at: "2024-05-01T11:59:00Z".to_string(),
        },
    ];
    assert_eq!(find_recent_branch_without_pr(&events, "ada", &Vec::new(), NOON), None);
    assert_eq!(find_recent_branch_without_pr(&Vec::new(), "ada", &Vec::new(), NOON), None);
}

#[test]
fn age_is_whole_minutes_toward_zero() {
    let found = |at: &str| {
        find_recent_branch_without_pr(&vec![push("ada", "b", at)], "ada", &Vec::new(), NOON)
            .map(|b| b.minutes_ago)
    };
    assert_eq!(found("2024-05-01T11:58:00Z"), Some(2));
    assert_eq!(found("2024-05-01T11:58:00.500Z"), Some(1));
    assert_eq!(found("2024-05-01T11:00:00Z"), Some(60));
    assert_eq!(found("2024-05-01T10:59:01Z"), Some(60));
    assert_eq!(found("2024-05-01T10:59:00Z"), None);
    assert_eq!(found("2024-05-01T12:00:30Z"), Some(0));
    assert_eq!(found("2024-05-01T12:01:00Z"), None);
    assert_eq!(found("2024-05-01 11:58:00"), None);
}

#[test]
fn the_hour_is_inclusive() {
    let event = push("ada", "b", "t");
    let at = |minutes: i64| recent_push(&event, "ada", &Vec::new(), Some(minutes));
    assert_eq!(at(60).map(|b| b.minutes_ago), Some(60));
    assert_eq!(at(0).map(|b| b.minutes_ago), Some(0));
    assert_eq!(at(61), None);
    assert_eq!(at(-1), None);
    assert_eq!(at(i64::MIN), None);
    assert_eq!(recent_push(&event, "ada", &Vec::new(), None), None);
    assert_eq!(recent_push(&push("ada", "master", "t"), "ada", &Vec::new(), Some(1)), None);
    assert_eq!(
        recent_push(&push("ada", "has-pr", "t"), "ada", &vec!["has-pr".to_string()], Some(1)),
        None
    );
}

#[test]
fn ago_is_worded() {
    assert_eq!(ago_text(0), "just now");
    assert_eq!(ago_text(1), "1 minute ago");
    assert_eq!(ago_text(2), "2 minutes ago");
    assert_eq!(ago_text(60), "60 minutes ago");
}
