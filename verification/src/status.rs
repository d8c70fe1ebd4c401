//! The status line's message: a notification that expires, or a prompt that
//! stays.
use vstd::prelude::*;
use vstd::string::*;

verus! {

/// The one live status message. Times are milliseconds on the clock of
/// whoever drives the state core.
#[derive(Debug, PartialEq, Eq)]
pub enum StatusMessage {
    /// Shown until the clock has passed `expires_at`.
    Notification { text: String, expires_at: u64 },
    /// Shown until it is replaced or cleared.
    Prompt(String),
}

/// The model of `StatusMessage`.
pub enum StatusModel {
    Notification { text: Seq<char>, expires_at: u64 },
    Prompt(Seq<char>),
}

impl View for StatusMessage {
    type V = StatusModel;

    open spec fn view(&self) -> StatusModel {
        match self {
            StatusMessage::Notification { text, expires_at } => StatusModel::Notification {
                text: text@,
                expires_at: *expires_at,
            },
            StatusMessage::Prompt(text) => StatusModel::Prompt(text@),
        }
    }
}

/// The instant `duration` after `now`, held at the largest instant the clock
/// can show.
pub open spec fn expiry(now: u64, duration: u64) -> u64 {
    if now + duration > u64::MAX {
        u64::MAX
    } else {
        (now + duration) as u64
    }
}

impl StatusModel {
    /// A notification made at `now` that lasts `duration`.
    pub open spec fn notification(text: Seq<char>, now: u64, duration: u64) -> StatusModel {
        StatusModel::Notification { text, expires_at: expiry(now, duration) }
    }

    /// The message's text.
    pub open spec fn text(self) -> Seq<char> {
        match self {
            StatusModel::Notification { text, .. } => text,
            StatusModel::Prompt(text) => text,
        }
    }

    /// A prompt never expires; a notification has expired once the clock is
    /// past its instant.
    pub open spec fn is_expired(self, now: u64) -> bool {
        match self {
            StatusModel::Notification { expires_at, .. } => now > expires_at,
            StatusModel::Prompt(_) => false,
        }
    }
}

impl Clone for StatusMessage {
    fn clone(&self) -> (r: Self)
        ensures
            r@ == self@,
    {
        match self {
            StatusMessage::Notification { text, expires_at } => StatusMessage::Notification {
                text: text.clone(),
                expires_at: *expires_at,
            },
            StatusMessage::Prompt(text) => StatusMessage::Prompt(text.clone()),
        }
    }
}

impl StatusMessage {
    /// A notification made at `now` that dismisses itself `duration` later.
    pub fn notification(text: String, now: u64, duration: u64) -> (r: StatusMessage)
        ensures
            r@ == StatusModel::notification(text@, now, duration),
    {
        StatusMessage::Notification { text, expires_at: now.saturating_add(duration) }
    }

    /// A prompt, which stays until it is cleared.
    pub fn prompt(text: String) -> (r: StatusMessage)
        ensures
            r@ == StatusModel::Prompt(text@),
    {
        StatusMessage::Prompt(text)
    }

    /// The message's text.
    pub fn text(&self) -> (r: &str)
        ensures
            r@ == self@.text(),
    {
        match self {
            StatusMessage::Notification { text, .. } => text.as_str(),
            StatusMessage::Prompt(text) => text.as_str(),
        }
    }

    /// Whether the message has expired at `now`.
    pub fn is_expired(&self, now: u64) -> (r: bool)
        ensures
            r == self@.is_expired(now),
    {
        match self {
            StatusMessage::Notification { expires_at, .. } => now > *expires_at,
            StatusMessage::Prompt(_) => false,
        }
    }
}

/// A notification is live up to and including its instant and expired from
/// then on, whatever else happens; a prompt is never expired.
pub proof fn lemma_expiry(text: Seq<char>, made: u64, duration: u64, now: u64)
    ensures
        made + duration <= u64::MAX ==> (StatusModel::notification(text, made, duration).is_expired(
            now,
        ) <==> now > made + duration),
        !StatusModel::Prompt(text).is_expired(now),
{
}

} // verus!
