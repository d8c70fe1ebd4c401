//! The branch that the user pushed to a moment ago and has not opened a
//! pull request for.
use crate::text::{
    chars_of, join, decimal, decimal_string, opt_text, spec_strip_prefix, str_eq, string_of,
    strip_prefix, texts_model,
};
use vstd::prelude::*;
use vstd::string::*;

verus! {

/// The whole minutes from the instant that a text names to a reading of
/// the clock, as `chrono` counts them: the text read by
/// `DateTime::parse_from_rfc3339`, the clock reading made an instant by
/// `DateTime::from_timestamp`, their distance taken by
/// `DateTime::signed_duration_since` and cut to minutes by
/// `TimeDelta::num_minutes`. `None` where the text names no instant or the
/// clock reading is none.
pub uninterp spec fn minutes_since(text: Seq<char>, now_secs: i64, now_nanos: u32) -> Option<i64>;

/// Counts the whole minutes from the instant in `text` to `now`, which is
/// seconds since the epoch with the nanoseconds into the second, by
/// `chrono::DateTime::parse_from_rfc3339`, `DateTime::from_timestamp`,
/// `DateTime::signed_duration_since` and `TimeDelta::num_minutes`. What
/// comes out depends on the text and the reading alone.
#[verifier::external_body]
fn count_minutes_since(text: &str, now: (i64, u32)) -> (r: Option<i64>)
    ensures
        r == minutes_since(text@, now.0, now.1),
{
    let then = chrono::DateTime::parse_from_rfc3339(text).ok()?;
    let now = chrono::DateTime::from_timestamp(now.0, now.1)?;
    Some(now.signed_duration_since(then).num_minutes())
}

/// Something that happened in the repository, as far as it matters here.
#[derive(Debug, Clone, PartialEq, Eq)]
pub struct RepoEvent {
    pub event_type: String,
    /// Who did it.
    pub actor: String,
    /// The reference that was written, for a push.
    pub ref_name: Option<String>,
    /// When it happened, as the provider writes it.
    pub created_at: String,
}

/// The model of `RepoEvent`: texts as sequences of characters, lists as sequences of
/// models.
pub struct RepoEventModel {
    pub event_type: Seq<char>,
    pub actor: Seq<char>,
    pub ref_name: Option<Seq<char>>,
    pub created_at: Seq<char>,
}

impl View for RepoEvent {
    type V = RepoEventModel;

    open spec fn view(&self) -> RepoEventModel {
        RepoEventModel {
            event_type: self.event_type@,
            actor: self.actor@,
            ref_name: opt_text(self.ref_name),
            created_at: self.created_at@,
        }
    }
}

/// The models of the items of a list.
pub open spec fn events_model(v: Seq<RepoEvent>) -> Seq<RepoEventModel> {
    v.map_values(|e: RepoEvent| e@)
}

/// A branch with a recent push.
#[derive(Debug, Clone, PartialEq, Eq)]
pub struct RecentBranch {
    pub name: String,
    pub pushed_at: String,
    pub minutes_ago: u64,
}

/// The model of `RecentBranch`: texts as sequences of characters, lists as sequences of
/// models.
pub struct RecentBranchModel {
    pub name: Seq<char>,
    pub pushed_at: Seq<char>,
    pub minutes_ago: u64,
}

impl View for RecentBranch {
    type V = RecentBranchModel;

    open spec fn view(&self) -> RecentBranchModel {
        RecentBranchModel {
            name: self.name@,
            pushed_at: self.pushed_at@,
            minutes_ago: self.minutes_ago,
        }
    }
}

/// The model of a value that may be missing.
pub open spec fn opt_branch(o: Option<RecentBranch>) -> Option<RecentBranchModel> {
    match o {
        Some(b) => Some(b@),
        None => None,
    }
}

/// How old a push may be, in minutes, to count as recent.
pub const MAX_AGE_MINUTES: u64 = 60;

/// The branch that a push by `user` went to, unless it is a main branch or
/// has an open pull request.
pub open spec fn pushed_branch(
    event: RepoEventModel,
    user: Seq<char>,
    open_pr_branches: Seq<Seq<char>>,
) -> Option<Seq<char>> {
    if event.event_type == "PushEvent"@ && event.actor == user {
        match event.ref_name {
            Some(name) => match spec_strip_prefix(name, "refs/heads/"@) {
                Some(branch) => if branch == "main"@ || branch == "master"@
                    || open_pr_branches.contains(branch) {
                    None
                } else {
                    Some(branch)
                },
                None => None,
            },
            None => None,
        }
    } else {
        None
    }
}

/// What an event says about a recent push, given how many minutes ago it
/// happened: the branch of a push that counts, if it is no older than an
/// hour and not from the future.
pub open spec fn spec_recent_push(
    event: RepoEventModel,
    user: Seq<char>,
    open_pr_branches: Seq<Seq<char>>,
    minutes: Option<i64>,
) -> Option<RecentBranchModel> {
    match (pushed_branch(event, user, open_pr_branches), minutes) {
        (Some(branch), Some(age)) => if 0 <= age <= MAX_AGE_MINUTES {
            Some(
                RecentBranchModel {
                    name: branch,
                    pushed_at: event.created_at,
                    minutes_ago: age as u64,
                },
            )
        } else {
            None
        },
        _ => None,
    }
}

/// The first of `events[from..]` that is a recent push.
pub open spec fn first_recent_push(
    events: Seq<RepoEventModel>,
    from: int,
    user: Seq<char>,
    open_pr_branches: Seq<Seq<char>>,
    now: (i64, u32),
) -> Option<RecentBranchModel>
    decreases events.len() - from,
{
    if from < 0 || from >= events.len() {
        None
    } else {
        match spec_recent_push(
            events[from],
            user,
            open_pr_branches,
            minutes_since(events[from].created_at, now.0, now.1),
        ) {
            Some(found) => Some(found),
            None => first_recent_push(events, from + 1, user, open_pr_branches, now),
        }
    }
}

fn has_text(texts: &Vec<String>, text: &Vec<char>) -> (r: bool)
    ensures
        r == texts_model(texts@).contains(text@),
{
    let mut i: usize = 0;
    while i < texts.len()
        invariant
            i <= texts.len(),
            forall|j: int| 0 <= j < i ==> texts_model(texts@)[j] != text@,
        decreases texts.len() - i,
    {
        let here = chars_of(texts[i].as_str());
        if here.len() == text.len() && crate::text::matches_at(&here, text, 0) {
            assert(here@.subrange(0, here.len() as int) =~= here@);
            assert(texts_model(texts@)[i as int] == text@);
            return true;
        }
        proof {
            assert(here@.subrange(0, here.len() as int) =~= here@);
        }
        i += 1;
    }
    false
}

fn branch_of(event: &RepoEvent, user: &str, open_pr_branches: &Vec<String>) -> (r: Option<String>)
    ensures
        opt_text(r) == pushed_branch(event@, user@, texts_model(open_pr_branches@)),
{
    if !(str_eq(event.event_type.as_str(), "PushEvent") && str_eq(event.actor.as_str(), user)) {
        return None;
    }
    let name = match &event.ref_name {
        Some(name) => chars_of(name.as_str()),
        None => {
            return None;
        },
    };
    match strip_prefix(&name, &chars_of("refs/heads/")) {
        Some(branch) => {
            let text = string_of(&branch);
            if str_eq(text.as_str(), "main") || str_eq(text.as_str(), "master") || has_text(
                open_pr_branches,
                &branch,
            ) {
                None
            } else {
                Some(text)
            }
        },
        None => None,
    }
}

/// Says whether an event is a recent push that counts, given how many
/// minutes ago it happened.
pub fn recent_push(
    event: &RepoEvent,
    user: &str,
    open_pr_branches: &Vec<String>,
    minutes: Option<i64>,
) -> (r: Option<RecentBranch>)
    ensures
        opt_branch(r) == spec_recent_push(
            event@,
            user@,
            texts_model(open_pr_branches@),
            minutes,
        ),
{
    let branch = match branch_of(event, user, open_pr_branches) {
        Some(branch) => branch,
        None => {
            return None;
        },
    };
    match minutes {
        Some(age) => {
            if 0 <= age && age <= 60 {
                Some(
                    RecentBranch {
                        name: branch,
                        pushed_at: event.created_at.clone(),
                        minutes_ago: age as u64,
                    },
                )
            } else {
                None
            }
        },
        None => None,
    }
}

/// Finds the most recent push by `user` to a branch that is not a main
/// branch and has no open pull request, if it happened within the last
/// hour before `now`, which is seconds since the epoch with the nanoseconds
/// into the second. The events come newest first.
pub fn find_recent_branch_without_pr(
    events: &Vec<RepoEvent>,
    user: &str,
    open_pr_branches: &Vec<String>,
    now: (i64, u32),
) -> (r: Option<RecentBranch>)
    ensures
        opt_branch(r) == first_recent_push(
            events_model(events@),
            0,
            user@,
            texts_model(open_pr_branches@),
            now,
        ),
{
    let ghost model = events_model(events@);
    let ghost open = texts_model(open_pr_branches@);
    let mut i: usize = 0;
    while i < events.len()
        invariant
            i <= events.len(),
            model == events_model(events@),
            open == texts_model(open_pr_branches@),
            first_recent_push(model, 0, user@, open, now) == first_recent_push(
                model,
                i as int,
                user@,
                open,
                now,
            ),
        decreases events.len() - i,
    {
        assert(model[i as int] == events@[i as int]@);
        let minutes = count_minutes_since(events[i].created_at.as_str(), now);
        if let Some(found) = recent_push(&events[i], user, open_pr_branches, minutes) {
            assert(first_recent_push(model, i as int, user@, open, now) == Some(found@));
            return Some(found);
        }
        i += 1;
    }
    None
}

/// How the banner words an age in minutes.
pub open spec fn spec_ago_text(minutes: u64) -> Seq<char> {
    if minutes == 0 {
        "just now"@
    } else if minutes == 1 {
        "1 minute ago"@
    } else {
        decimal(minutes as nat) + " minutes ago"@
    }
}

/// Words an age in minutes for the banner.
pub fn ago_text(minutes: u64) -> (r: String)
    ensures
        r@ == spec_ago_text(minutes),
{
    if minutes == 0 {
        "just now".to_string()
    } else if minutes == 1 {
        "1 minute ago".to_string()
    } else {
        join(decimal_string(minutes).as_str(), " minutes ago")
    }
}

} // verus!
