//! The tones in which statuses are shown. Which colour a tone is, is the
//! business of whoever draws.
use crate::github::types::PullRequestModel;
use crate::text::{opt_text, str_eq};
use vstd::prelude::*;
use vstd::string::*;

verus! {

/// The tone of a run or a job.
#[derive(Clone, Copy, PartialEq, Eq, Structural, Debug)]
pub enum Tone {
    Success,
    Failure,
    Pending,
    Neutral,
}

/// The tone of a pull request.
#[derive(Clone, Copy, PartialEq, Eq, Structural, Debug)]
pub enum PrTone {
    Open,
    Closed,
    Merged,
    Draft,
}

/// The tone for a status and a conclusion: the conclusion decides where it
/// is a known one, else a run that waits or runs is pending.
pub open spec fn spec_status_style(status: Seq<char>, conclusion: Option<Seq<char>>) -> Tone {
    if conclusion == Some("success"@) {
        Tone::Success
    } else if conclusion == Some("failure"@) {
        Tone::Failure
    } else if conclusion == Some("cancelled"@) || conclusion == Some("skipped"@) {
        Tone::Neutral
    } else if status == "in_progress"@ || status == "queued"@ {
        Tone::Pending
    } else {
        Tone::Neutral
    }
}

/// The tone for a pull request: merged wins over closed, closed over
/// draft.
pub open spec fn spec_pr_style(state: Seq<char>, merged: bool, draft: bool) -> PrTone {
    if merged {
        PrTone::Merged
    } else if state == "closed"@ {
        PrTone::Closed
    } else if draft {
        PrTone::Draft
    } else {
        PrTone::Open
    }
}

/// How the state of a pull request is worded.
pub open spec fn spec_state_label(pr: PullRequestModel) -> Seq<char> {
    match spec_pr_style(pr.state, pr.merged, pr.draft) {
        PrTone::Merged => " Merged"@,
        PrTone::Closed => " Closed"@,
        PrTone::Draft => " Draft"@,
        PrTone::Open => " Open"@,
    }
}

fn tone_of_status(status: &str) -> (r: Tone)
    ensures
        r == spec_status_style(status@, None),
{
    if str_eq(status, "in_progress") || str_eq(status, "queued") {
        Tone::Pending
    } else {
        Tone::Neutral
    }
}

/// The tone in which a run or a job is shown.
pub fn status_style(status: &str, conclusion: &Option<String>) -> (r: Tone)
    ensures
        r == spec_status_style(status@, opt_text(*conclusion)),
{
    match conclusion {
        Some(c) => {
            if str_eq(c.as_str(), "success") {
                Tone::Success
            } else if str_eq(c.as_str(), "failure") {
                Tone::Failure
            } else if str_eq(c.as_str(), "cancelled") || str_eq(c.as_str(), "skipped") {
                Tone::Neutral
            } else {
                tone_of_status(status)
            }
        },
        None => tone_of_status(status),
    }
}

/// The tone in which a pull request is shown.
pub fn pr_style(state: &str, merged: bool, draft: bool) -> (r: PrTone)
    ensures
        r == spec_pr_style(state@, merged, draft),
{
    if merged {
        PrTone::Merged
    } else if str_eq(state, "closed") {
        PrTone::Closed
    } else if draft {
        PrTone::Draft
    } else {
        PrTone::Open
    }
}

/// The word for the state of a pull request.
pub fn state_label(pr: &crate::github::types::PullRequest) -> (r: &'static str)
    ensures
        r@ == spec_state_label(pr@),
{
    match pr_style(pr.state.as_str(), pr.merged, pr.draft) {
        PrTone::Merged => " Merged",
        PrTone::Closed => " Closed",
        PrTone::Draft => " Draft",
        PrTone::Open => " Open",
    }
}

} // verus!
