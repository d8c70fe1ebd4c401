//! Pull requests, workflow runs, jobs, commits and reviews, each with the
//! mathematical model that contracts speak of.
use crate::text::{chars_of, line_at, line_end, opt_text, spec_lines, str_eq};
use vstd::prelude::*;
use vstd::string::*;
use vstd::utf8::{decode_utf8, encode_utf8, is_char_boundary};

verus! {

/// An account on the hosting provider.
#[derive(Debug, PartialEq, Eq)]
pub struct User {
    pub login: String,
    pub avatar_url: String,
}

/// The model of `User`: texts as sequences of characters, lists as sequences of
/// models.
pub struct UserModel {
    pub login: Seq<char>,
    pub avatar_url: Seq<char>,
}

impl View for User {
    type V = UserModel;

    open spec fn view(&self) -> UserModel {
        UserModel { login: self.login@, avatar_url: self.avatar_url@ }
    }
}

impl Clone for User {
    fn clone(&self) -> (r: Self)
        ensures
            r@ == self@,
    {
        User { login: self.login.clone(), avatar_url: self.avatar_url.clone() }
    }
}

/// One end of a pull request: a branch name and the commit it points at.
#[derive(Debug, PartialEq, Eq)]
pub struct Branch {
    pub ref_name: String,
    pub sha: String,
}

/// The model of `Branch`: texts as sequences of characters, lists as sequences of
/// models.
pub struct BranchModel {
    pub ref_name: Seq<char>,
    pub sha: Seq<char>,
}

impl View for Branch {
    type V = BranchModel;

    open spec fn view(&self) -> BranchModel {
        BranchModel { ref_name: self.ref_name@, sha: self.sha@ }
    }
}

impl Clone for Branch {
    fn clone(&self) -> (r: Self)
        ensures
            r@ == self@,
    {
        Branch { ref_name: self.ref_name.clone(), sha: self.sha.clone() }
    }
}

/// A label attached to a pull request.
#[derive(Debug, PartialEq, Eq)]
pub struct Label {
    pub name: String,
    pub color: String,
}

/// The model of `Label`: texts as sequences of characters, lists as sequences of
/// models.
pub struct LabelModel {
    pub name: Seq<char>,
    pub color: Seq<char>,
}

impl View for Label {
    type V = LabelModel;

    open spec fn view(&self) -> LabelModel {
        LabelModel { name: self.name@, color: self.color@ }
    }
}

impl Clone for Label {
    fn clone(&self) -> (r: Self)
        ensures
            r@ == self@,
    {
        Label { name: self.name.clone(), color: self.color.clone() }
    }
}

/// The models of a list of users.
pub open spec fn users_model(v: Seq<User>) -> Seq<UserModel> {
    v.map_values(|u: User| u@)
}

/// The models of a list of labels.
pub open spec fn labels_model(v: Seq<Label>) -> Seq<LabelModel> {
    v.map_values(|l: Label| l@)
}

/// A proposed change with its review and merge state.
#[derive(Debug, PartialEq, Eq)]
pub struct PullRequest {
    pub number: u64,
    pub title: String,
    pub body: Option<String>,
    pub state: String,
    pub user: User,
    pub head: Branch,
    pub base: Branch,
    pub draft: bool,
    pub mergeable: Option<bool>,
    pub merged: bool,
    pub created_at: String,
    pub updated_at: String,
    pub labels: Vec<Label>,
    pub requested_reviewers: Vec<User>,
    pub ci_status: Option<String>,
}

/// The model of `PullRequest`: texts as sequences of characters, lists as sequences of
/// models.
pub struct PullRequestModel {
    pub number: u64,
    pub title: Seq<char>,
    pub body: Option<Seq<char>>,
    pub state: Seq<char>,
    pub user: UserModel,
    pub head: BranchModel,
    pub base: BranchModel,
    pub draft: bool,
    pub mergeable: Option<bool>,
    pub merged: bool,
    pub created_at: Seq<char>,
    pub updated_at: Seq<char>,
    pub labels: Seq<LabelModel>,
    pub requested_reviewers: Seq<UserModel>,
    pub ci_status: Option<Seq<char>>,
}

impl View for PullRequest {
    type V = PullRequestModel;

    open spec fn view(&self) -> PullRequestModel {
        PullRequestModel {
            number: self.number,
            title: self.title@,
            body: opt_text(self.body),
            state: self.state@,
            user: self.user@,
            head: self.head@,
            base: self.base@,
            draft: self.draft,
            mergeable: self.mergeable,
            merged: self.merged,
            created_at: self.created_at@,
            updated_at: self.updated_at@,
            labels: labels_model(self.labels@),
            requested_reviewers: users_model(self.requested_reviewers@),
            ci_status: opt_text(self.ci_status),
        }
    }
}

impl Clone for PullRequest {
    fn clone(&self) -> (r: Self)
        ensures
            r@ == self@,
    {
        let r = PullRequest {
            number: self.number,
            title: self.title.clone(),
            body: self.body.clone(),
            state: self.state.clone(),
            user: self.user.clone(),
            head: self.head.clone(),
            base: self.base.clone(),
            draft: self.draft,
            mergeable: self.mergeable,
            merged: self.merged,
            created_at: self.created_at.clone(),
            updated_at: self.updated_at.clone(),
            labels: self.labels.clone(),
            requested_reviewers: self.requested_reviewers.clone(),
            ci_status: self.ci_status.clone(),
        };
        assert(labels_model(r.labels@) =~= labels_model(self.labels@));
        assert(users_model(r.requested_reviewers@) =~= users_model(self.requested_reviewers@));
        r
    }
}

impl PullRequest {
    /// The glyph for a pull request's lifecycle state.
    pub open spec fn spec_status_icon(pr: PullRequestModel) -> Seq<char> {
        if pr.merged {
            "⊗"@
        } else if pr.state == "closed"@ {
            "✗"@
        } else if pr.draft {
            "◯"@
        } else {
            "◉"@
        }
    }

    /// The glyph for a continuous-integration status.
    pub open spec fn spec_ci_icon(status: Option<Seq<char>>) -> Seq<char> {
        if status == Some("success"@) {
            "✓"@
        } else if status == Some("failure"@) {
            "✗"@
        } else if status == Some("pending"@) {
            "◷"@
        } else if status == Some("error"@) {
            "⚠"@
        } else {
            "○"@
        }
    }

    /// Merged wins over closed, closed over draft, and anything else is open.
    pub fn status_icon(&self) -> (r: &'static str)
        ensures
            r@ == Self::spec_status_icon(self@),
    {
        if self.merged {
            "⊗"
        } else if str_eq(self.state.as_str(), "closed") {
            "✗"
        } else if self.draft {
            "◯"
        } else {
            "◉"
        }
    }

    /// The glyph for the recorded CI status; an unknown or missing status
    /// gets the neutral one.
    pub fn ci_icon(&self) -> (r: &'static str)
        ensures
            r@ == Self::spec_ci_icon(self@.ci_status),
    {
        match &self.ci_status {
            Some(s) => {
                if str_eq(s.as_str(), "success") {
                    "✓"
                } else if str_eq(s.as_str(), "failure") {
                    "✗"
                } else if str_eq(s.as_str(), "pending") {
                    "◷"
                } else if str_eq(s.as_str(), "error") {
                    "⚠"
                } else {
                    "○"
                }
            },
            None => "○",
        }
    }
}

/// The glyph shared by runs and jobs: a conclusion decides first, then the
/// status.
pub open spec fn spec_run_icon(status: Seq<char>, conclusion: Option<Seq<char>>) -> Seq<char> {
    if conclusion == Some("success"@) {
        "✓"@
    } else if conclusion == Some("failure"@) {
        "✗"@
    } else if conclusion == Some("cancelled"@) {
        "⊘"@
    } else if conclusion == Some("skipped"@) {
        "⊘"@
    } else if status == "in_progress"@ {
        "◷"@
    } else if status == "queued"@ {
        "◯"@
    } else {
        "○"@
    }
}

fn status_glyph(status: &str) -> (r: &'static str)
    ensures
        r@ == spec_run_icon(status@, None),
{
    if str_eq(status, "in_progress") {
        "◷"
    } else if str_eq(status, "queued") {
        "◯"
    } else {
        "○"
    }
}

fn run_icon(status: &str, conclusion: &Option<String>) -> (r: &'static str)
    ensures
        r@ == spec_run_icon(status@, opt_text(*conclusion)),
{
    match conclusion {
        Some(c) => {
            if str_eq(c.as_str(), "success") {
                "✓"
            } else if str_eq(c.as_str(), "failure") {
                "✗"
            } else if str_eq(c.as_str(), "cancelled") {
                "⊘"
            } else if str_eq(c.as_str(), "skipped") {
                "⊘"
            } else {
                status_glyph(status)
            }
        },
        None => status_glyph(status),
    }
}

/// One execution of a workflow.
#[derive(Debug, PartialEq, Eq)]
pub struct WorkflowRun {
    pub id: u64,
    pub name: String,
    pub head_branch: String,
    pub head_sha: String,
    pub status: String,
    pub conclusion: Option<String>,
    pub run_number: u64,
    pub event: String,
    pub created_at: String,
    pub updated_at: String,
    pub html_url: String,
}

/// The model of `WorkflowRun`: texts as sequences of characters, lists as sequences of
/// models.
pub struct WorkflowRunModel {
    pub id: u64,
    pub name: Seq<char>,
    pub head_branch: Seq<char>,
    pub head_sha: Seq<char>,
    pub status: Seq<char>,
    pub conclusion: Option<Seq<char>>,
    pub run_number: u64,
    pub event: Seq<char>,
    pub created_at: Seq<char>,
    pub updated_at: Seq<char>,
    pub html_url: Seq<char>,
}

impl View for WorkflowRun {
    type V = WorkflowRunModel;

    open spec fn view(&self) -> WorkflowRunModel {
        WorkflowRunModel {
            id: self.id,
            name: self.name@,
            head_branch: self.head_branch@,
            head_sha: self.head_sha@,
            status: self.status@,
            conclusion: opt_text(self.conclusion),
            run_number: self.run_number,
            event: self.event@,
            created_at: self.created_at@,
            updated_at: self.updated_at@,
            html_url: self.html_url@,
        }
    }
}

impl Clone for WorkflowRun {
    fn clone(&self) -> (r: Self)
        ensures
            r@ == self@,
    {
        WorkflowRun {
            id: self.id,
            name: self.name.clone(),
            head_branch: self.head_branch.clone(),
            head_sha: self.head_sha.clone(),
            status: self.status.clone(),
            conclusion: self.conclusion.clone(),
            run_number: self.run_number,
            event: self.event.clone(),
            created_at: self.created_at.clone(),
            updated_at: self.updated_at.clone(),
            html_url: self.html_url.clone(),
        }
    }
}

impl WorkflowRun {
    /// The glyph for this run's conclusion or, without one, its status.
    pub fn status_icon(&self) -> (r: &'static str)
        ensures
            r@ == spec_run_icon(self@.status, self@.conclusion),
    {
        run_icon(self.status.as_str(), &self.conclusion)
    }
}

/// An ordered sub-unit of a job.
#[derive(Debug, PartialEq, Eq)]
pub struct Step {
    pub name: String,
    pub status: String,
    pub conclusion: Option<String>,
    pub number: u64,
}

/// The model of `Step`: texts as sequences of characters, lists as sequences of
/// models.
pub struct StepModel {
    pub name: Seq<char>,
    pub status: Seq<char>,
    pub conclusion: Option<Seq<char>>,
    pub number: u64,
}

impl View for Step {
    type V = StepModel;

    open spec fn view(&self) -> StepModel {
        StepModel {
            name: self.name@,
            status: self.status@,
            conclusion: opt_text(self.conclusion),
            number: self.number,
        }
    }
}

impl Clone for Step {
    fn clone(&self) -> (r: Self)
        ensures
            r@ == self@,
    {
        Step {
            name: self.name.clone(),
            status: self.status.clone(),
            conclusion: self.conclusion.clone(),
            number: self.number,
        }
    }
}

/// The models of a list of steps.
pub open spec fn steps_model(v: Seq<Step>) -> Seq<StepModel> {
    v.map_values(|s: Step| s@)
}

/// A unit of work within a run.
#[derive(Debug, PartialEq, Eq)]
pub struct Job {
    pub id: u64,
    pub run_id: u64,
    pub name: String,
    pub status: String,
    pub conclusion: Option<String>,
    pub started_at: String,
    pub completed_at: Option<String>,
    pub steps: Vec<Step>,
}

/// The model of `Job`: texts as sequences of characters, lists as sequences of
/// models.
pub struct JobModel {
    pub id: u64,
    pub run_id: u64,
    pub name: Seq<char>,
    pub status: Seq<char>,
    pub conclusion: Option<Seq<char>>,
    pub started_at: Seq<char>,
    pub completed_at: Option<Seq<char>>,
    pub steps: Seq<StepModel>,
}

impl View for Job {
    type V = JobModel;

    open spec fn view(&self) -> JobModel {
        JobModel {
            id: self.id,
            run_id: self.run_id,
            name: self.name@,
            status: self.status@,
            conclusion: opt_text(self.conclusion),
            started_at: self.started_at@,
            completed_at: opt_text(self.completed_at),
            steps: steps_model(self.steps@),
        }
    }
}

impl Clone for Job {
    fn clone(&self) -> (r: Self)
        ensures
            r@ == self@,
    {
        let r = Job {
            id: self.id,
            run_id: self.run_id,
            name: self.name.clone(),
            status: self.status.clone(),
            conclusion: self.conclusion.clone(),
            started_at: self.started_at.clone(),
            completed_at: self.completed_at.clone(),
            steps: self.steps.clone(),
        };
        assert(steps_model(r.steps@) =~= steps_model(self.steps@));
        r
    }
}

impl Job {
    /// What the duration column shows for a job.
    pub open spec fn spec_duration(job: JobModel) -> Seq<char> {
        if job.completed_at.is_some() {
            "completed"@
        } else if job.started_at.len() > 0 {
            "running..."@
        } else {
            "-"@
        }
    }

    /// Whether a job has finished: its status says `completed`. Only then
    /// is what it has written final.
    pub open spec fn spec_is_completed(job: JobModel) -> bool {
        job.status == "completed"@
    }

    /// The glyph for this job's conclusion or, without one, its status.
    pub fn status_icon(&self) -> (r: &'static str)
        ensures
            r@ == spec_run_icon(self@.status, self@.conclusion),
    {
        run_icon(self.status.as_str(), &self.conclusion)
    }

    /// Whether the job has finished.
    pub fn is_completed(&self) -> (r: bool)
        ensures
            r == Self::spec_is_completed(self@),
    {
        str_eq(self.status.as_str(), "completed")
    }

    /// A finished job reads "completed", a started one "running...", any
    /// other "-".
    pub fn duration(&self) -> (r: String)
        ensures
            r@ == Self::spec_duration(self@),
    {
        if self.completed_at.is_some() {
            "completed".to_string()
        } else if !self.started_at.as_str().is_empty() {
            "running...".to_string()
        } else {
            "-".to_string()
        }
    }
}

/// A review left on a pull request.
#[derive(Debug, PartialEq, Eq)]
pub struct Review {
    pub user: User,
    pub state: String,
    pub submitted_at: Option<String>,
}

/// The model of `Review`: texts as sequences of characters, lists as sequences of
/// models.
pub struct ReviewModel {
    pub user: UserModel,
    pub state: Seq<char>,
    pub submitted_at: Option<Seq<char>>,
}

impl View for Review {
    type V = ReviewModel;

    open spec fn view(&self) -> ReviewModel {
        ReviewModel {
            user: self.user@,
            state: self.state@,
            submitted_at: opt_text(self.submitted_at),
        }
    }
}

impl Clone for Review {
    fn clone(&self) -> (r: Self)
        ensures
            r@ == self@,
    {
        Review {
            user: self.user.clone(),
            state: self.state.clone(),
            submitted_at: self.submitted_at.clone(),
        }
    }
}

impl Review {
    /// The glyph for a review state, by its upper-case name.
    pub open spec fn spec_status_icon(state: Seq<char>) -> Seq<char> {
        if state == "APPROVED"@ {
            "✓"@
        } else if state == "CHANGES_REQUESTED"@ {
            "✗"@
        } else if state == "COMMENTED"@ {
            "💬"@
        } else if state == "PENDING"@ {
            "◯"@
        } else if state == "DISMISSED"@ {
            "⊘"@
        } else {
            "○"@
        }
    }

    /// The glyph for this review's state; an unknown state gets the neutral
    /// one.
    pub fn status_icon(&self) -> (r: &'static str)
        ensures
            r@ == Self::spec_status_icon(self@.state),
    {
        let s = self.state.as_str();
        if str_eq(s, "APPROVED") {
            "✓"
        } else if str_eq(s, "CHANGES_REQUESTED") {
            "✗"
        } else if str_eq(s, "COMMENTED") {
            "💬"
        } else if str_eq(s, "PENDING") {
            "◯"
        } else if str_eq(s, "DISMISSED") {
            "⊘"
        } else {
            "○"
        }
    }
}

/// The models of lists of entities.
pub open spec fn prs_model(v: Seq<PullRequest>) -> Seq<PullRequestModel> {
    v.map_values(|p: PullRequest| p@)
}

/// The models of the items of a list.
pub open spec fn runs_model(v: Seq<WorkflowRun>) -> Seq<WorkflowRunModel> {
    v.map_values(|r: WorkflowRun| r@)
}

/// The models of the items of a list.
pub open spec fn jobs_model(v: Seq<Job>) -> Seq<JobModel> {
    v.map_values(|j: Job| j@)
}

/// The models of the items of a list.
pub open spec fn reviews_model(v: Seq<Review>) -> Seq<ReviewModel> {
    v.map_values(|r: Review| r@)
}

/// A commit of a pull request.
#[derive(Debug, PartialEq, Eq)]
pub struct Commit {
    pub sha: String,
    pub message: String,
    pub author: String,
    pub date: String,
}

/// The model of `Commit`: texts as sequences of characters, lists as sequences of
/// models.
pub struct CommitModel {
    pub sha: Seq<char>,
    pub message: Seq<char>,
    pub author: Seq<char>,
    pub date: Seq<char>,
}

impl View for Commit {
    type V = CommitModel;

    open spec fn view(&self) -> CommitModel {
        CommitModel {
            sha: self.sha@,
            message: self.message@,
            author: self.author@,
            date: self.date@,
        }
    }
}

impl Clone for Commit {
    fn clone(&self) -> (r: Self)
        ensures
            r@ == self@,
    {
        Commit {
            sha: self.sha.clone(),
            message: self.message.clone(),
            author: self.author.clone(),
            date: self.date.clone(),
        }
    }
}

/// The models of the items of a list.
pub open spec fn commits_model(v: Seq<Commit>) -> Seq<CommitModel> {
    v.map_values(|c: Commit| c@)
}

/// How many bytes the short form of a commit identifier has.
pub const SHORT_SHA_BYTES: usize = 7;

/// Whether an identifier can be cut to its short form: it is shorter than
/// the short form, or its seventh byte ends a character.
pub open spec fn can_shorten(sha: Seq<char>) -> bool {
    encode_utf8(sha).len() >= SHORT_SHA_BYTES ==> is_char_boundary(
        encode_utf8(sha),
        SHORT_SHA_BYTES as int,
    )
}

/// The short form of an identifier: its first seven bytes, or all of it
/// where it has fewer.
pub open spec fn spec_short_sha(sha: Seq<char>) -> Seq<char> {
    if encode_utf8(sha).len() >= SHORT_SHA_BYTES {
        decode_utf8(encode_utf8(sha).subrange(0, SHORT_SHA_BYTES as int))
    } else {
        sha
    }
}

/// The first line of a message; a message without lines is its own first
/// line.
pub open spec fn spec_first_line(message: Seq<char>) -> Seq<char> {
    if spec_lines(message).len() > 0 {
        spec_lines(message)[0]
    } else {
        message
    }
}

impl Commit {
    /// The short form of the identifier, or `None` where the identifier
    /// cannot be cut after its seventh byte.
    pub fn short_sha_checked(&self) -> (r: Option<&str>)
        ensures
            r.is_some() == can_shorten(self@.sha),
            r matches Some(short) ==> short@ == spec_short_sha(self@.sha),
    {
        let s = self.sha.as_str();
        let n = s.as_bytes().len();
        if n >= SHORT_SHA_BYTES {
            if s.is_char_boundary(SHORT_SHA_BYTES) {
                let (head, _) = s.split_at(SHORT_SHA_BYTES);
                proof {
                    vstd::utf8::encode_utf8_decode_utf8(head@);
                }
                Some(head)
            } else {
                None
            }
        } else {
            Some(s)
        }
    }

    /// The short form of the identifier: its first seven bytes.
    pub fn short_sha(&self) -> (r: &str)
        requires
            can_shorten(self@.sha),
        ensures
            r@ == spec_short_sha(self@.sha),
    {
        match self.short_sha_checked() {
            Some(short) => short,
            None => self.sha.as_str(),
        }
    }

    /// The first line of the commit message.
    pub fn first_line(&self) -> (r: &str)
        ensures
            r@ == spec_first_line(self@.message),
    {
        let text = self.message.as_str();
        let chars = chars_of(text);
        let n = chars.len();
        if n == 0 {
            return text;
        }
        let mut end: usize = 0;
        while end < n && chars[end] != '\n'
            invariant
                n == chars.len(),
                end <= n,
                line_end(chars@, 0) == line_end(chars@, end as int),
            decreases n - end,
        {
            end += 1;
        }
        let stop: usize = if end < n && 0 < end && chars[end - 1] == '\r' {
            (end - 1) as usize
        } else {
            end
        };
        proof {
            assert(line_end(chars@, 0) == end);
            assert(spec_lines(chars@)[0] == line_at(chars@, 0));
        }
        text.substring_char(0, stop)
    }
}

} // verus!
