//! The messages that finished requests send back, and how the state core
//! takes them in.
use crate::github::types::{
    commits_model, jobs_model, prs_model, reviews_model, runs_model, Commit, CommitModel, Job,
    JobModel, PullRequest, PullRequestModel, Review, ReviewModel, WorkflowRun, WorkflowRunModel,
};
use crate::state::app::App;
use crate::state::model::AppModel;
use crate::state::request::{Request, RequestModel};
use crate::text::{join, join3, decimal, decimal_string};
use vstd::prelude::*;
use vstd::string::*;

verus! {

/// The outcome of one request.
#[derive(Debug, PartialEq, Eq)]
pub enum AsyncMsg {
    UserLoaded(String),
    PrsLoaded(Vec<PullRequest>),
    RunsLoaded(Vec<WorkflowRun>),
    DiffLoaded(String),
    PrChecksLoaded(Vec<WorkflowRun>),
    ReviewsLoaded(Vec<Review>),
    JobsLoaded(Vec<Job>),
    LogsLoaded(String),
    CommitsLoaded(Vec<Commit>),
    CommitDiffLoaded(String),
    Error(String),
    Message(String),
}

/// The model of `AsyncMsg`.
pub enum MsgModel {
    UserLoaded(Seq<char>),
    PrsLoaded(Seq<PullRequestModel>),
    RunsLoaded(Seq<WorkflowRunModel>),
    DiffLoaded(Seq<char>),
    PrChecksLoaded(Seq<WorkflowRunModel>),
    ReviewsLoaded(Seq<ReviewModel>),
    JobsLoaded(Seq<JobModel>),
    LogsLoaded(Seq<char>),
    CommitsLoaded(Seq<CommitModel>),
    CommitDiffLoaded(Seq<char>),
    Error(Seq<char>),
    Message(Seq<char>),
}

impl View for AsyncMsg {
    type V = MsgModel;

    open spec fn view(&self) -> MsgModel {
        match self {
            AsyncMsg::UserLoaded(user) => MsgModel::UserLoaded(user@),
            AsyncMsg::PrsLoaded(prs) => MsgModel::PrsLoaded(prs_model(prs@)),
            AsyncMsg::RunsLoaded(runs) => MsgModel::RunsLoaded(runs_model(runs@)),
            AsyncMsg::DiffLoaded(diff) => MsgModel::DiffLoaded(diff@),
            AsyncMsg::PrChecksLoaded(runs) => MsgModel::PrChecksLoaded(runs_model(runs@)),
            AsyncMsg::ReviewsLoaded(reviews) => MsgModel::ReviewsLoaded(reviews_model(reviews@)),
            AsyncMsg::JobsLoaded(jobs) => MsgModel::JobsLoaded(jobs_model(jobs@)),
            AsyncMsg::LogsLoaded(logs) => MsgModel::LogsLoaded(logs@),
            AsyncMsg::CommitsLoaded(commits) => MsgModel::CommitsLoaded(commits_model(commits@)),
            AsyncMsg::CommitDiffLoaded(diff) => MsgModel::CommitDiffLoaded(diff@),
            AsyncMsg::Error(text) => MsgModel::Error(text@),
            AsyncMsg::Message(text) => MsgModel::Message(text@),
        }
    }
}

/// The models of the items of a list.
pub open spec fn messages_model(v: Seq<AsyncMsg>) -> Seq<MsgModel> {
    v.map_values(|m: AsyncMsg| m@)
}

/// The model of a value that may be missing.
pub open spec fn opt_message(o: Option<AsyncMsg>) -> Option<MsgModel> {
    match o {
        Some(m) => Some(m@),
        None => None,
    }
}

/// What the error of a failed request begins with.
pub open spec fn failure_prefix(request: RequestModel) -> Seq<char> {
    match request {
        RequestModel::FetchCurrentUser => "Failed to fetch current user: "@,
        RequestModel::FetchPrs => "Failed to fetch PRs: "@,
        RequestModel::FetchRuns => "Failed to fetch runs: "@,
        RequestModel::FetchDiff { .. } => "Failed to fetch diff: "@,
        RequestModel::FetchPrChecks { .. } => "Failed to fetch PR checks: "@,
        RequestModel::FetchReviews { .. } => "Failed to fetch reviews: "@,
        RequestModel::FetchJobs { .. } => "Failed to fetch jobs: "@,
        RequestModel::FetchLogs { .. } => "Failed to fetch logs: "@,
        RequestModel::FetchCommits { .. } => "Failed to fetch commits: "@,
        RequestModel::FetchCommitDiff { .. } => "Failed to fetch commit diff: "@,
        RequestModel::CheckoutPr { .. } => "Checkout failed: "@,
        RequestModel::CreatePr { .. } => "Failed to create PR: "@,
        RequestModel::OpenPrInBrowser { .. } => "Failed to open PR: "@,
    }
}

/// The message that a failed request sends: for every request one error,
/// which says what failed and why.
pub open spec fn failure_message(request: RequestModel, error: Seq<char>) -> MsgModel {
    MsgModel::Error(failure_prefix(request) + error)
}

/// The message that a command sends when it has done its work. A fetch
/// sends what it loaded instead, which is not made here.
pub open spec fn success_message(request: RequestModel) -> Option<MsgModel> {
    match request {
        RequestModel::CheckoutPr { pr_number } => Some(
            MsgModel::Message("Checked out PR #"@ + decimal(pr_number as nat)),
        ),
        RequestModel::CreatePr { .. } => Some(MsgModel::Message("Opened PR creation in browser"@)),
        RequestModel::OpenPrInBrowser { pr_number } => Some(
            MsgModel::Message("Opened PR #"@ + decimal(pr_number as nat) + " in browser"@),
        ),
        _ => None,
    }
}

impl Request {
    fn failure_prefix(&self) -> (r: &'static str)
        ensures
            r@ == failure_prefix(self@),
    {
        match self {
            Request::FetchCurrentUser => "Failed to fetch current user: ",
            Request::FetchPrs => "Failed to fetch PRs: ",
            Request::FetchRuns => "Failed to fetch runs: ",
            Request::FetchDiff { .. } => "Failed to fetch diff: ",
            Request::FetchPrChecks { .. } => "Failed to fetch PR checks: ",
            Request::FetchReviews { .. } => "Failed to fetch reviews: ",
            Request::FetchJobs { .. } => "Failed to fetch jobs: ",
            Request::FetchLogs { .. } => "Failed to fetch logs: ",
            Request::FetchCommits { .. } => "Failed to fetch commits: ",
            Request::FetchCommitDiff { .. } => "Failed to fetch commit diff: ",
            Request::CheckoutPr { .. } => "Checkout failed: ",
            Request::CreatePr { .. } => "Failed to create PR: ",
            Request::OpenPrInBrowser { .. } => "Failed to open PR: ",
        }
    }

    /// The one message that this request sends when it has failed with
    /// `error`.
    pub fn failed(&self, error: &str) -> (r: AsyncMsg)
        ensures
            r@ == failure_message(self@, error@),
    {
        AsyncMsg::Error(join(self.failure_prefix(), error))
    }

    /// The one message that a finished request sends: what it brought, or
    /// the error that says what failed and why. Whatever the outcome, there
    /// is a message, and one only.
    pub fn message(&self, outcome: Result<AsyncMsg, String>) -> (r: AsyncMsg)
        ensures
            r@ == (match outcome {
                Ok(brought) => brought@,
                Err(error) => failure_message(self@, error@),
            }),
    {
        match outcome {
            Ok(brought) => brought,
            Err(error) => self.failed(error.as_str()),
        }
    }

    /// The one message that this request sends when it is a command that
    /// has done its work.
    pub fn succeeded(&self) -> (r: Option<AsyncMsg>)
        ensures
            opt_message(r) == success_message(self@),
    {
        match self {
            Request::CheckoutPr { pr_number } => Some(
                AsyncMsg::Message(join("Checked out PR #", decimal_string(*pr_number).as_str())),
            ),
            Request::CreatePr { .. } => Some(
                AsyncMsg::Message("Opened PR creation in browser".to_string()),
            ),
            Request::OpenPrInBrowser { pr_number } => Some(
                AsyncMsg::Message(
                    join3("Opened PR #", decimal_string(*pr_number).as_str(), " in browser"),
                ),
            ),
            _ => None,
        }
    }
}

/// A cursor put on the first item of a list that has items and no cursor
/// yet.
pub open spec fn first_if_unset(cursor: Option<usize>, len: nat) -> Option<usize> {
    if len > 0 && cursor.is_none() {
        Some(0usize)
    } else {
        cursor
    }
}

/// The state while a batch of messages is taken in, with what is left to do
/// once all are in.
pub struct Batch {
    pub state: AppModel,
    /// The visible list has to be recomputed.
    pub needs_filter: bool,
    /// A pull request has to be opened by its number.
    pub needs_select: Option<u64>,
}

/// The start of a batch.
pub open spec fn batch_of(state: AppModel) -> Batch {
    Batch { state, needs_filter: false, needs_select: None }
}

impl AppModel {
    /// With the signed-in user known.
    pub open spec fn take_user(self, user: Seq<char>) -> AppModel {
        AppModel { current_user: Some(user), ..self }
    }

    /// With a new full list of pull requests; the pending number to open is
    /// used up.
    pub open spec fn take_prs(self, prs: Seq<PullRequestModel>) -> AppModel {
        (AppModel { all_prs: prs, initial_pr: None, ..self }).idle()
    }

    /// With a new list of runs, and a cursor on the first where there was none.
    pub open spec fn take_runs(self, runs: Seq<WorkflowRunModel>) -> AppModel {
        AppModel { runs, run_cursor: first_if_unset(self.run_cursor, runs.len()), ..self }
    }

    /// With the diff of the selected pull request.
    pub open spec fn take_diff(self, diff: Seq<char>) -> AppModel {
        (AppModel { pr_diff: Some(diff), ..self }).idle()
    }

    /// With new checks, and a cursor on the first where there was none.
    pub open spec fn take_checks(self, checks: Seq<WorkflowRunModel>) -> AppModel {
        AppModel {
            pr_checks: checks,
            pr_checks_cursor: first_if_unset(self.pr_checks_cursor, checks.len()),
            ..self
        }
    }

    /// With a new list of reviews.
    pub open spec fn take_reviews(self, reviews: Seq<ReviewModel>) -> AppModel {
        AppModel { pr_reviews: reviews, ..self }
    }

    /// With new jobs, and a cursor on the first where there was none.
    pub open spec fn take_jobs(self, jobs: Seq<JobModel>) -> AppModel {
        (AppModel {
            jobs,
            job_cursor: first_if_unset(self.job_cursor, jobs.len()),
            ..self
        }).idle()
    }

    /// With a new log, shown from its top left corner.
    pub open spec fn take_logs(self, logs: Seq<char>) -> AppModel {
        (AppModel { logs, log_scroll: 0, log_h_scroll: 0, ..self }).idle()
    }

    /// With new commits, and a cursor on the first where there was none.
    pub open spec fn take_commits(self, commits: Seq<CommitModel>) -> AppModel {
        AppModel {
            pr_commits: commits,
            pr_commits_cursor: first_if_unset(self.pr_commits_cursor, commits.len()),
            ..self
        }
    }

    /// With a commit's diff, shown from its top.
    pub open spec fn take_commit_diff(self, diff: Seq<char>) -> AppModel {
        (AppModel { commit_diff: Some(diff), diff_scroll: 0, ..self }).idle()
    }

    /// The state after one message. Each message writes the slot it is for,
    /// whatever the slot held; what ends a fetch turns the loading indicator
    /// off.
    pub open spec fn take(self, m: MsgModel, now: u64) -> AppModel {
        match m {
            MsgModel::UserLoaded(user) => self.take_user(user),
            MsgModel::PrsLoaded(prs) => self.take_prs(prs),
            MsgModel::RunsLoaded(runs) => self.take_runs(runs),
            MsgModel::DiffLoaded(diff) => self.take_diff(diff),
            MsgModel::PrChecksLoaded(checks) => self.take_checks(checks),
            MsgModel::ReviewsLoaded(reviews) => self.take_reviews(reviews),
            MsgModel::JobsLoaded(jobs) => self.take_jobs(jobs),
            MsgModel::LogsLoaded(logs) => self.take_logs(logs),
            MsgModel::CommitsLoaded(commits) => self.take_commits(commits),
            MsgModel::CommitDiffLoaded(diff) => self.take_commit_diff(diff),
            MsgModel::Error(text) => self.fail(text).idle(),
            MsgModel::Message(text) => self.notify(text, now),
        }
    }
}

/// One message taken in: the state after it, and what it leaves to do. The
/// user and the list of pull requests call for a new visible list; the
/// first list of pull requests hands on the pending number to open.
pub open spec fn apply_message(b: Batch, m: MsgModel, now: u64) -> Batch {
    Batch {
        state: b.state.take(m, now),
        needs_filter: b.needs_filter || m is UserLoaded || m is PrsLoaded,
        needs_select: if m is PrsLoaded && b.state.initial_pr.is_some() {
            b.state.initial_pr
        } else {
            b.needs_select
        },
    }
}

/// The messages taken in one after the other, in the order of their
/// arrival.
pub open spec fn apply_messages(b: Batch, messages: Seq<MsgModel>, now: u64) -> Batch
    decreases messages.len(),
{
    if messages.len() == 0 {
        b
    } else {
        apply_message(apply_messages(b, messages.drop_last(), now), messages.last(), now)
    }
}

/// What is left to do once a batch is in: the visible list is recomputed,
/// then the pending pull request is opened.
pub open spec fn settle(b: Batch) -> AppModel {
    let filtered = if b.needs_filter {
        b.state.apply_pr_filter()
    } else {
        b.state
    };
    match b.needs_select {
        Some(number) => filtered.select_pr_by_number(number),
        None => filtered,
    }
}

impl AppModel {
    /// The state after a batch of messages.
    pub open spec fn process_async_messages(self, messages: Seq<MsgModel>, now: u64) -> AppModel {
        settle(apply_messages(batch_of(self), messages, now))
    }

    /// The state without a notification that has expired.
    pub open spec fn expire_status(self, now: u64) -> AppModel {
        match self.status_message {
            Some(m) => if m.is_expired(now) {
                AppModel { status_message: None, ..self }
            } else {
                self
            },
            None => self,
        }
    }
}

/// A cursor put on the first item of a list that has items and no cursor
/// yet.
fn cursor_or_first(cursor: Option<usize>, len: usize) -> (r: Option<usize>)
    ensures
        r == first_if_unset(cursor, len as nat),
{
    if len > 0 && cursor.is_none() {
        Some(0)
    } else {
        cursor
    }
}

/// What is left to do after the messages of a batch.
struct Pending {
    needs_filter: bool,
    needs_select: Option<u64>,
}

impl App {
    /// The batch that this state and what is left to do stand for.
    spec fn batch(self, pending: Pending) -> Batch {
        Batch {
            state: self@,
            needs_filter: pending.needs_filter,
            needs_select: pending.needs_select,
        }
    }

    fn take_prs(&mut self, prs: Vec<PullRequest>)
        ensures
            final(self)@ == old(self)@.take_prs(prs_model(prs@)),
    {
        self.all_prs = prs;
        self.initial_pr = None;
        self.idle();
    }

    fn take_runs(&mut self, runs: Vec<WorkflowRun>)
        ensures
            final(self)@ == old(self)@.take_runs(runs_model(runs@)),
    {
        self.run_cursor = cursor_or_first(self.run_cursor, runs.len());
        self.runs = runs;
    }

    fn take_checks(&mut self, checks: Vec<WorkflowRun>)
        ensures
            final(self)@ == old(self)@.take_checks(runs_model(checks@)),
    {
        self.pr_checks_cursor = cursor_or_first(self.pr_checks_cursor, checks.len());
        self.pr_checks = checks;
    }

    fn take_jobs(&mut self, jobs: Vec<Job>)
        ensures
            final(self)@ == old(self)@.take_jobs(jobs_model(jobs@)),
    {
        self.job_cursor = cursor_or_first(self.job_cursor, jobs.len());
        self.jobs = jobs;
        self.idle();
    }

    fn take_logs(&mut self, logs: String)
        ensures
            final(self)@ == old(self)@.take_logs(logs@),
    {
        self.logs = logs;
        self.log_scroll = 0;
        self.log_h_scroll = 0;
        self.idle();
    }

    fn take_commits(&mut self, commits: Vec<Commit>)
        ensures
            final(self)@ == old(self)@.take_commits(commits_model(commits@)),
    {
        self.pr_commits_cursor = cursor_or_first(self.pr_commits_cursor, commits.len());
        self.pr_commits = commits;
    }

    fn take_commit_diff(&mut self, diff: String)
        ensures
            final(self)@ == old(self)@.take_commit_diff(diff@),
    {
        self.commit_diff = Some(diff);
        self.diff_scroll = 0;
        self.idle();
    }

    fn take_diff(&mut self, diff: String)
        ensures
            final(self)@ == old(self)@.take_diff(diff@),
    {
        self.pr_diff = Some(diff);
        self.idle();
    }

    fn take_user(&mut self, user: String)
        ensures
            final(self)@ == old(self)@.take_user(user@),
    {
        self.current_user = Some(user);
    }

    fn take_reviews(&mut self, reviews: Vec<Review>)
        ensures
            final(self)@ == old(self)@.take_reviews(reviews_model(reviews@)),
    {
        self.pr_reviews = reviews;
    }

    /// Takes one message in.
    pub fn take(&mut self, msg: AsyncMsg, now: u64)
        ensures
            final(self)@ == old(self)@.take(msg@, now),
    {
        match msg {
            AsyncMsg::UserLoaded(user) => self.take_user(user),
            AsyncMsg::PrsLoaded(prs) => self.take_prs(prs),
            AsyncMsg::RunsLoaded(runs) => self.take_runs(runs),
            AsyncMsg::DiffLoaded(diff) => self.take_diff(diff),
            AsyncMsg::PrChecksLoaded(checks) => self.take_checks(checks),
            AsyncMsg::ReviewsLoaded(reviews) => self.take_reviews(reviews),
            AsyncMsg::JobsLoaded(jobs) => self.take_jobs(jobs),
            AsyncMsg::LogsLoaded(logs) => self.take_logs(logs),
            AsyncMsg::CommitsLoaded(commits) => self.take_commits(commits),
            AsyncMsg::CommitDiffLoaded(diff) => self.take_commit_diff(diff),
            AsyncMsg::Error(text) => {
                self.fail(text);
                self.idle();
            },
            AsyncMsg::Message(text) => self.set_message(text, now),
        }
    }

    fn apply_message(&mut self, pending: &mut Pending, msg: AsyncMsg, now: u64)
        ensures
            final(self).batch(*final(pending)) == apply_message(
                old(self).batch(*old(pending)),
                msg@,
                now,
            ),
    {
        match &msg {
            AsyncMsg::UserLoaded(_) => {
                pending.needs_filter = true;
            },
            AsyncMsg::PrsLoaded(_) => {
                pending.needs_filter = true;
                if self.initial_pr.is_some() {
                    pending.needs_select = self.initial_pr;
                }
            },
            _ => {},
        }
        self.take(msg, now);
    }

    /// Takes in the messages that have arrived, in their order, then
    /// recomputes the visible list where a message called for it and opens
    /// the pending pull request where the list has arrived.
    pub fn process_async_messages(&mut self, messages: Vec<AsyncMsg>, now: u64)
        ensures
            final(self)@ == old(self)@.process_async_messages(messages_model(messages@), now),
    {
        let ghost all = messages_model(messages@);
        let ghost start = batch_of(self@);
        let mut pending = Pending { needs_filter: false, needs_select: None };
        for msg in it: messages
            invariant
                all == messages_model(it.seq()),
                self.batch(pending) == apply_messages(start, all.take(it.index@), now),
        {
            proof {
                let upto = all.take(it.index@ + 1);
                assert(upto.drop_last() =~= all.take(it.index@));
                assert(upto.last() == msg@);
            }
            self.apply_message(&mut pending, msg, now);
        }
        proof {
            assert(all.take(all.len() as int) =~= all);
        }
        if pending.needs_filter {
            self.apply_pr_filter();
        }
        if let Some(number) = pending.needs_select {
            self.select_pr_by_number(number);
        }
    }

    /// Clears a notification that has expired; a prompt stays.
    pub fn expire_status(&mut self, now: u64)
        ensures
            final(self)@ == old(self)@.expire_status(now),
    {
        let expired = match &self.status_message {
            Some(m) => m.is_expired(now),
            None => false,
        };
        if expired {
            self.status_message = None;
        }
    }
}

} // verus!
