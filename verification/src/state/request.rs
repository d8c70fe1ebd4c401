//! What the state core asks of the outside: background requests, whose
//! answers come back as messages, and calls, whose answers it waits for.
use vstd::prelude::*;
use vstd::string::*;

verus! {

/// Work to start in the background. Each request ends by sending exactly
/// one message: what it loaded or did, or the error in its place.
#[derive(Debug, Clone, PartialEq, Eq)]
pub enum Request {
    FetchCurrentUser,
    FetchPrs,
    FetchRuns,
    FetchDiff { pr_number: u64 },
    FetchPrChecks { head_sha: String },
    FetchReviews { pr_number: u64 },
    FetchJobs { run_id: u64 },
    /// The logs of a run, or of one of its jobs. `job_completed` says whether
    /// that job had finished when the request was made.
    FetchLogs { run_id: u64, job_id: Option<u64>, job_completed: bool },
    FetchCommits { pr_number: u64 },
    FetchCommitDiff { sha: String },
    CheckoutPr { pr_number: u64 },
    CreatePr { repo: String },
    OpenPrInBrowser { pr_number: u64 },
}

/// The model of `Request`: texts as sequences of characters, lists as sequences of
/// models.
pub enum RequestModel {
    FetchCurrentUser,
    FetchPrs,
    FetchRuns,
    FetchDiff { pr_number: u64 },
    FetchPrChecks { head_sha: Seq<char> },
    FetchReviews { pr_number: u64 },
    FetchJobs { run_id: u64 },
    FetchLogs { run_id: u64, job_id: Option<u64>, job_completed: bool },
    FetchCommits { pr_number: u64 },
    FetchCommitDiff { sha: Seq<char> },
    CheckoutPr { pr_number: u64 },
    CreatePr { repo: Seq<char> },
    OpenPrInBrowser { pr_number: u64 },
}

impl View for Request {
    type V = RequestModel;

    open spec fn view(&self) -> RequestModel {
        match self {
            Request::FetchCurrentUser => RequestModel::FetchCurrentUser,
            Request::FetchPrs => RequestModel::FetchPrs,
            Request::FetchRuns => RequestModel::FetchRuns,
            Request::FetchDiff { pr_number } => RequestModel::FetchDiff { pr_number: *pr_number },
            Request::FetchPrChecks { head_sha } => RequestModel::FetchPrChecks {
                head_sha: head_sha@,
            },
            Request::FetchReviews { pr_number } => RequestModel::FetchReviews {
                pr_number: *pr_number,
            },
            Request::FetchJobs { run_id } => RequestModel::FetchJobs { run_id: *run_id },
            Request::FetchLogs { run_id, job_id, job_completed } => RequestModel::FetchLogs {
                run_id: *run_id,
                job_id: *job_id,
                job_completed: *job_completed,
            },
            Request::FetchCommits { pr_number } => RequestModel::FetchCommits {
                pr_number: *pr_number,
            },
            Request::FetchCommitDiff { sha } => RequestModel::FetchCommitDiff { sha: sha@ },
            Request::CheckoutPr { pr_number } => RequestModel::CheckoutPr { pr_number: *pr_number },
            Request::CreatePr { repo } => RequestModel::CreatePr { repo: repo@ },
            Request::OpenPrInBrowser { pr_number } => RequestModel::OpenPrInBrowser {
                pr_number: *pr_number,
            },
        }
    }
}

/// The models of the items of a list.
pub open spec fn requests_model(v: Seq<Request>) -> Seq<RequestModel> {
    v.map_values(|r: Request| r@)
}

/// An action whose outcome decides what the state core does next. The one
/// who drives the core performs it and hands the outcome back before
/// anything else happens.
#[derive(Debug, Clone, PartialEq, Eq)]
pub enum Call {
    Approve { pr_number: u64 },
    Merge { pr_number: u64 },
    EditTitle { pr_number: u64, title: String },
    AddLabel { pr_number: u64, label: String },
    AddReviewer { pr_number: u64, reviewer: String },
    /// Rerun a run picked from the list of runs.
    RerunRun { run_id: u64, name: String },
    /// Rerun a run picked from the checks of the selected pull request.
    RerunCheck { run_id: u64, name: String },
    /// Copy a branch name to the clipboard.
    CopyBranch { text: String },
    /// Copy a command or an address to the clipboard.
    CopyText { text: String },
}

/// The model of `Call`: texts as sequences of characters, lists as sequences of
/// models.
pub enum CallModel {
    Approve { pr_number: u64 },
    Merge { pr_number: u64 },
    EditTitle { pr_number: u64, title: Seq<char> },
    AddLabel { pr_number: u64, label: Seq<char> },
    AddReviewer { pr_number: u64, reviewer: Seq<char> },
    RerunRun { run_id: u64, name: Seq<char> },
    RerunCheck { run_id: u64, name: Seq<char> },
    CopyBranch { text: Seq<char> },
    CopyText { text: Seq<char> },
}

impl View for Call {
    type V = CallModel;

    open spec fn view(&self) -> CallModel {
        match self {
            Call::Approve { pr_number } => CallModel::Approve { pr_number: *pr_number },
            Call::Merge { pr_number } => CallModel::Merge { pr_number: *pr_number },
            Call::EditTitle { pr_number, title } => CallModel::EditTitle {
                pr_number: *pr_number,
                title: title@,
            },
            Call::AddLabel { pr_number, label } => CallModel::AddLabel {
                pr_number: *pr_number,
                label: label@,
            },
            Call::AddReviewer { pr_number, reviewer } => CallModel::AddReviewer {
                pr_number: *pr_number,
                reviewer: reviewer@,
            },
            Call::RerunRun { run_id, name } => CallModel::RerunRun { run_id: *run_id, name: name@ },
            Call::RerunCheck { run_id, name } => CallModel::RerunCheck {
                run_id: *run_id,
                name: name@,
            },
            Call::CopyBranch { text } => CallModel::CopyBranch { text: text@ },
            Call::CopyText { text } => CallModel::CopyText { text: text@ },
        }
    }
}

/// The model of a value that may be missing.
pub open spec fn opt_call(c: Option<Call>) -> Option<CallModel> {
    match c {
        Some(c) => Some(c@),
        None => None,
    }
}

/// The characters of the outcome of a call.
pub open spec fn outcome_model(r: Result<(), String>) -> Result<(), Seq<char>> {
    match r {
        Ok(_) => Ok(()),
        Err(e) => Err(e@),
    }
}

} // verus!
