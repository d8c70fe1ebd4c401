use github_tui::status::StatusMessage;

#[test]
fn notification_expires_after_its_duration() {
    let made = 10_000;
    let note = StatusMessage::notification("Saved".to_string(), made, 3_000);
    assert_eq!(note.text(), "Saved");
    assert!(!note.is_expired(made));
    assert!(!note.is_expired(made + 3_000));
    assert!(note.is_expired(made + 3_001));
    assert!(note.is_expired(made + 3_100));
}

#[test]
fn prompt_never_expires() {
    let prompt = StatusMessage::prompt("Search:".to_string());
    assert_eq!(prompt.text(), "Search:");
    assert!(!prompt.is_expired(0));
    assert!(!prompt.is_expired(u64::MAX));
}

#[test]
fn notification_instant_is_held_at_the_largest() {
    let note = StatusMessage::notification("x".to_string(), u64::MAX - 5, 3_000);
    assert_eq!(
        note,
        StatusMessage::Notification { text: "x".to_string(), expires_at: u64::MAX }
    );
    assert!(!note.is_expired(u64::MAX));
}

#[test]
fn clone_keeps_the_message() {
    let note = StatusMessage::notification("n".to_string(), 1, 2);
    assert_eq!(note.clone(), note);
    let prompt = StatusMessage::prompt("p".to_string());
    assert_eq!(prompt.clone(), prompt);
}
