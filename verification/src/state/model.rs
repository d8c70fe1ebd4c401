//! The mathematical model of the state and of every transition on it.
use crate::github::types::{
    can_shorten, spec_short_sha, CommitModel, Job, JobModel, LabelModel, PullRequest,
    PullRequestModel, ReviewModel, UserModel, WorkflowRun, WorkflowRunModel,
};
use crate::nav::{DiffMode, Focus, InputMode, PrFilter, Screen, Tab};
use crate::search::{matching_lines, spec_next_index, spec_previous_index};
use crate::state::request::{CallModel, RequestModel};
use crate::status::{StatusMessage, StatusModel};
use crate::text::{decimal, spec_trim};
use vstd::prelude::*;

verus! {

/// The model of a value that may be missing.
pub open spec fn opt_pr(o: Option<PullRequest>) -> Option<PullRequestModel> {
    match o {
        Some(p) => Some(p@),
        None => None,
    }
}

/// The model of a value that may be missing.
pub open spec fn opt_run(o: Option<WorkflowRun>) -> Option<WorkflowRunModel> {
    match o {
        Some(r) => Some(r@),
        None => None,
    }
}

/// The model of a value that may be missing.
pub open spec fn opt_status(o: Option<StatusMessage>) -> Option<StatusModel> {
    match o {
        Some(m) => Some(m@),
        None => None,
    }
}

/// How long a notification stays, in milliseconds.
pub const NOTICE_MILLIS: u64 = 3000;

/// How many bytes the line editor takes before it stops taking more.
pub const INPUT_LIMIT: usize = 1024;

/// The model of the state: the same fields, with texts as sequences of
/// characters and lists as sequences of models.
pub struct AppModel {
    pub tab: Tab,
    pub screen: Screen,
    pub focus: Focus,
    pub repo: Seq<char>,
    pub owner: Seq<char>,
    pub repo_name: Seq<char>,
    pub current_user: Option<Seq<char>>,
    pub all_prs: Seq<PullRequestModel>,
    pub prs: Seq<PullRequestModel>,
    pub pr_cursor: Option<usize>,
    pub selected_pr: Option<PullRequestModel>,
    pub pr_diff: Option<Seq<char>>,
    pub pr_filter: PrFilter,
    pub diff_scroll: u16,
    pub pr_checks: Seq<WorkflowRunModel>,
    pub pr_checks_cursor: Option<usize>,
    pub pr_reviews: Seq<ReviewModel>,
    pub diff_mode: DiffMode,
    pub pr_commits: Seq<CommitModel>,
    pub pr_commits_cursor: Option<usize>,
    pub commit_diff: Option<Seq<char>>,
    pub runs: Seq<WorkflowRunModel>,
    pub run_cursor: Option<usize>,
    pub selected_run: Option<WorkflowRunModel>,
    pub jobs: Seq<JobModel>,
    pub job_cursor: Option<usize>,
    pub logs: Seq<char>,
    pub log_scroll: usize,
    pub log_h_scroll: u16,
    pub log_search: Option<Seq<char>>,
    pub log_matches: Seq<usize>,
    pub log_match_index: usize,
    pub loading: bool,
    pub loading_what: Option<Seq<char>>,
    pub error: Option<Seq<char>>,
    pub status_message: Option<StatusModel>,
    pub should_quit: bool,
    pub show_help: bool,
    pub input_mode: Option<InputMode>,
    pub input_buffer: Seq<char>,
    pub initial_pr: Option<u64>,
    pub outbox: Seq<RequestModel>,
}

/// The cursor after a step forward through a list of `len` items, round
/// from the last to the first. An empty list leaves the cursor alone; a list
/// without a cursor gets one on its first item.
pub open spec fn cycle_next(cursor: Option<usize>, len: nat) -> Option<usize> {
    if len == 0 {
        cursor
    } else {
        match cursor {
            Some(i) => Some(spec_next_index(i, len as usize)),
            None => Some(0),
        }
    }
}

/// The cursor after a step backward, round from the first to the last.
pub open spec fn cycle_previous(cursor: Option<usize>, len: nat) -> Option<usize> {
    if len == 0 {
        cursor
    } else {
        match cursor {
            Some(i) => Some(spec_previous_index(i, len as usize)),
            None => Some(0),
        }
    }
}

/// A line number moved down by `by` lines, held at the largest number.
pub open spec fn lines_down(line: usize, by: usize) -> usize {
    if line + by > usize::MAX {
        usize::MAX
    } else {
        (line + by) as usize
    }
}

/// A line number moved up by `by` lines, held at the first line.
pub open spec fn lines_up(line: usize, by: usize) -> usize {
    if line < by {
        0usize
    } else {
        (line - by) as usize
    }
}

/// A state together with the call, if any, that must be made and answered
/// before the state core goes on.
pub struct Step {
    pub state: AppModel,
    pub call: Option<CallModel>,
}

/// A step that needs no call.
pub open spec fn done(state: AppModel) -> Step {
    Step { state, call: None }
}

/// The pull request with another title.
pub open spec fn with_title(pr: PullRequestModel, title: Seq<char>) -> PullRequestModel {
    PullRequestModel { title, ..pr }
}

/// Whether a pull request has a label of the given name.
pub open spec fn has_label(pr: PullRequestModel, name: Seq<char>) -> bool {
    exists|k: int| 0 <= k < pr.labels.len() && pr.labels[k].name == name
}

/// The pull request with a label of the given name among its labels. A
/// label that is there already is not added again; of a new one the colour
/// is not known.
pub open spec fn with_label(pr: PullRequestModel, name: Seq<char>) -> PullRequestModel {
    if has_label(pr, name) {
        pr
    } else {
        PullRequestModel {
            labels: pr.labels.push(LabelModel { name, color: Seq::empty() }),
            ..pr
        }
    }
}

/// The pull request with `login` among those asked to review it. Who is
/// asked already is not added again.
pub open spec fn with_asked(pr: PullRequestModel, login: Seq<char>) -> PullRequestModel {
    if asked_to_review(pr, login) {
        pr
    } else {
        PullRequestModel {
            requested_reviewers: pr.requested_reviewers.push(
                UserModel { login, avatar_url: Seq::empty() },
            ),
            ..pr
        }
    }
}

/// An edit that the provider has accepted and that is written into the
/// pull requests at hand, so that nothing has to be fetched anew.
pub enum PatchModel {
    Title(Seq<char>),
    Label(Seq<char>),
    Reviewer(Seq<char>),
}

/// The pull request after an edit.
pub open spec fn patched_pr(pr: PullRequestModel, patch: PatchModel) -> PullRequestModel {
    match patch {
        PatchModel::Title(title) => with_title(pr, title),
        PatchModel::Label(name) => with_label(pr, name),
        PatchModel::Reviewer(login) => with_asked(pr, login),
    }
}

/// The cursor after a step forward that stops at the last item.
pub open spec fn clamp_next(cursor: Option<usize>, len: nat) -> Option<usize> {
    if len == 0 {
        cursor
    } else {
        match cursor {
            Some(i) => Some(
                if i + 1 < len {
                    (i + 1) as usize
                } else {
                    (len - 1) as usize
                },
            ),
            None => Some(0),
        }
    }
}

/// The cursor after a step backward that stops at the first item.
pub open spec fn clamp_previous(cursor: Option<usize>, len: nat) -> Option<usize> {
    if len == 0 {
        cursor
    } else {
        match cursor {
            Some(i) => Some(
                if i == 0 {
                    0usize
                } else {
                    (i - 1) as usize
                },
            ),
            None => Some(0),
        }
    }
}

/// A scroll offset moved down by `by`, held at the largest offset.
pub open spec fn scroll_down(offset: u16, by: u16) -> u16 {
    if offset + by > u16::MAX {
        u16::MAX
    } else {
        (offset + by) as u16
    }
}

/// A scroll offset moved up by `by`, held at the top.
pub open spec fn scroll_up(offset: u16, by: u16) -> u16 {
    if offset < by {
        0u16
    } else {
        (offset - by) as u16
    }
}

/// The item under a cursor, where the cursor stands on one.
pub open spec fn at_cursor<T>(items: Seq<T>, cursor: Option<usize>) -> Option<T> {
    match cursor {
        Some(i) => if i < items.len() {
            Some(items[i as int])
        } else {
            None
        },
        None => None,
    }
}

/// Whether `user` is among those asked to review.
pub open spec fn asked_to_review(pr: PullRequestModel, user: Seq<char>) -> bool {
    exists|k: int| 0 <= k < pr.requested_reviewers.len() && pr.requested_reviewers[k].login == user
}

/// Whether a pull request passes a filter for a user.
pub open spec fn passes(filter: PrFilter, user: Seq<char>, pr: PullRequestModel) -> bool {
    match filter {
        PrFilter::All => true,
        PrFilter::Mine => pr.user.login == user,
        PrFilter::ReviewRequested => asked_to_review(pr, user),
    }
}

/// The test that a filter makes for a user.
pub open spec fn passing(filter: PrFilter, user: Seq<char>) -> spec_fn(PullRequestModel) -> bool {
    |pr: PullRequestModel| passes(filter, user, pr)
}

/// The pull requests that a filter shows, in the order of the full list.
/// Without a known user every filter shows all of them.
pub open spec fn visible_prs(
    all: Seq<PullRequestModel>,
    filter: PrFilter,
    user: Option<Seq<char>>,
) -> Seq<PullRequestModel> {
    match (filter, user) {
        (PrFilter::All, _) => all,
        (_, None) => all,
        (_, Some(u)) => all.filter(passing(filter, u)),
    }
}

/// The position of the first item at or after `from` that has the
/// identifier `id`.
pub open spec fn first_with_id(ids: Seq<u64>, id: u64, from: int) -> Option<usize>
    decreases ids.len() - from,
{
    if from < 0 || from >= ids.len() {
        None
    } else if ids[from] == id {
        Some(from as usize)
    } else {
        first_with_id(ids, id, from + 1)
    }
}

/// The numbers of the pull requests, in their order.
pub open spec fn pr_numbers(prs: Seq<PullRequestModel>) -> Seq<u64> {
    prs.map_values(|p: PullRequestModel| p.number)
}

/// The identifiers of the runs, in their order.
pub open spec fn run_ids(runs: Seq<WorkflowRunModel>) -> Seq<u64> {
    runs.map_values(|r: WorkflowRunModel| r.id)
}

/// The identifier of the job under the cursor, if any.
pub open spec fn job_under_cursor(jobs: Seq<JobModel>, cursor: Option<usize>) -> Option<u64> {
    match at_cursor(jobs, cursor) {
        Some(j) => Some(j.id),
        None => None,
    }
}

/// The request for the logs of a run, narrowed to the job under the cursor
/// where there is one. It says whether that job has finished, so that logs
/// that can still grow are never kept.
pub open spec fn logs_request(
    run_id: u64,
    jobs: Seq<JobModel>,
    cursor: Option<usize>,
) -> RequestModel {
    RequestModel::FetchLogs {
        run_id,
        job_id: job_under_cursor(jobs, cursor),
        job_completed: match at_cursor(jobs, cursor) {
            Some(job) => Job::spec_is_completed(job),
            None => false,
        },
    }
}

/// What the loading line shows of a commit identifier: its short form, or
/// all of it where it cannot be cut.
pub open spec fn display_sha(sha: Seq<char>) -> Seq<char> {
    if can_shorten(sha) {
        spec_short_sha(sha)
    } else {
        sha
    }
}

/// The pull requests with the edit written into the one of number
/// `number`; the others stay as they are.
pub open spec fn patched(
    prs: Seq<PullRequestModel>,
    number: u64,
    patch: PatchModel,
) -> Seq<PullRequestModel> {
    prs.map_values(
        |p: PullRequestModel|
            if p.number == number {
                patched_pr(p, patch)
            } else {
                p
            },
    )
}

impl AppModel {
    /// With a notification that dismisses itself.
    pub open spec fn notify(self, text: Seq<char>, now: u64) -> AppModel {
        AppModel {
            status_message: Some(StatusModel::notification(text, now, NOTICE_MILLIS)),
            ..self
        }
    }

    /// With a prompt in the status line.
    pub open spec fn ask(self, text: Seq<char>) -> AppModel {
        AppModel { status_message: Some(StatusModel::Prompt(text)), ..self }
    }

    /// With one more request in the outbox.
    pub open spec fn send(self, request: RequestModel) -> AppModel {
        AppModel { outbox: self.outbox.push(request), ..self }
    }

    /// With the loading indicator on.
    pub open spec fn busy(self, what: Seq<char>) -> AppModel {
        AppModel { loading: true, loading_what: Some(what), ..self }
    }

    /// With the loading indicator off.
    pub open spec fn idle(self) -> AppModel {
        AppModel { loading: false, loading_what: None, ..self }
    }

    /// With an error in the error slot.
    pub open spec fn fail(self, text: Seq<char>) -> AppModel {
        AppModel { error: Some(text), ..self }
    }

    /// With the line editor closed and its buffer and prompt gone.
    pub open spec fn close_input(self) -> AppModel {
        AppModel { input_mode: None, input_buffer: Seq::empty(), status_message: None, ..self }
    }

    /// The visible list recomputed from the full list, the filter and the
    /// user; the cursor is dropped where nothing is visible and moved to the
    /// first item where it was missing or behind the end.
    pub open spec fn apply_pr_filter(self) -> AppModel {
        let prs = visible_prs(self.all_prs, self.pr_filter, self.current_user);
        AppModel {
            prs,
            pr_cursor: if prs.len() == 0 {
                None
            } else {
                match self.pr_cursor {
                    Some(i) => if i >= prs.len() {
                        Some(0usize)
                    } else {
                        Some(i)
                    },
                    None => Some(0usize),
                }
            },
            ..self
        }
    }

    /// The next filter, applied.
    pub open spec fn cycle_filter(self) -> AppModel {
        (AppModel { pr_filter: self.pr_filter.spec_next(), ..self }).apply_pr_filter()
    }

    /// The pull request under the cursor becomes the selected one: what was
    /// loaded for the previous one is cleared and its diff, checks, reviews
    /// and commits are asked for. Without a pull request under the cursor
    /// nothing changes.
    pub open spec fn select_pr(self) -> AppModel {
        match at_cursor(self.prs, self.pr_cursor) {
            Some(pr) => (AppModel {
                selected_pr: Some(pr),
                diff_scroll: 0,
                pr_checks: Seq::empty(),
                pr_checks_cursor: None,
                pr_reviews: Seq::empty(),
                pr_commits: Seq::empty(),
                pr_commits_cursor: None,
                commit_diff: None,
                diff_mode: DiffMode::Full,
                ..self
            }).busy("Loading diff..."@).send(RequestModel::FetchDiff { pr_number: pr.number }).send(
                RequestModel::FetchPrChecks { head_sha: pr.head.sha },
            ).send(RequestModel::FetchReviews { pr_number: pr.number }).send(
                RequestModel::FetchCommits { pr_number: pr.number },
            ),
            None => self,
        }
    }

    /// Opens the detail of the visible pull request with the given number,
    /// or reports that the filter hides it.
    pub open spec fn select_pr_by_number(self, number: u64) -> AppModel {
        match first_with_id(pr_numbers(self.prs), number, 0) {
            Some(i) => {
                let opened = (AppModel { pr_cursor: Some(i), ..self }).select_pr();
                AppModel { screen: Screen::Detail, focus: Focus::Detail, ..opened }
            },
            None => self.fail("PR #"@ + decimal(number as nat) + " not found in current filter"@),
        }
    }

    /// The run under the cursor becomes the selected one and its jobs are
    /// asked for.
    pub open spec fn select_run(self) -> AppModel {
        match at_cursor(self.runs, self.run_cursor) {
            Some(run) => (AppModel {
                selected_run: Some(run),
                job_cursor: Some(0usize),
                ..self
            }).busy("Loading jobs..."@).send(RequestModel::FetchJobs { run_id: run.id }),
            None => self,
        }
    }

    /// Asks for the logs of the selected run, narrowed to the job under the
    /// cursor where there is one.
    pub open spec fn fetch_logs(self) -> AppModel {
        match self.selected_run {
            Some(run) => self.busy("Loading logs..."@).send(
                logs_request(run.id, self.jobs, self.job_cursor),
            ),
            None => self,
        }
    }

    /// Opens the jobs of the check under the cursor: the check becomes the
    /// selected run, is found in the list of runs or put at its head, and
    /// the actions tab shows its jobs.
    pub open spec fn view_pr_check_jobs(self) -> AppModel {
        match at_cursor(self.pr_checks, self.pr_checks_cursor) {
            Some(check) => {
                let found = first_with_id(run_ids(self.runs), check.id, 0);
                (AppModel {
                    selected_run: Some(check),
                    job_cursor: Some(0usize),
                    runs: if found.is_some() {
                        self.runs
                    } else {
                        seq![check] + self.runs
                    },
                    run_cursor: if found.is_some() {
                        found
                    } else {
                        Some(0usize)
                    },
                    tab: Tab::Actions,
                    screen: Screen::Jobs,
                    ..self
                }).busy("Loading jobs..."@).send(RequestModel::FetchJobs { run_id: check.id })
            },
            None => self,
        }
    }

    /// Asks for the diff of the commit under the cursor.
    pub open spec fn load_selected_commit_diff(self) -> AppModel {
        match at_cursor(self.pr_commits, self.pr_commits_cursor) {
            Some(commit) => self.busy("Loading commit "@ + display_sha(commit.sha) + "..."@).send(
                RequestModel::FetchCommitDiff { sha: commit.sha },
            ),
            None => self,
        }
    }

    /// Switches between the whole diff and the diff by commit. Without
    /// commits the whole diff stays, with a notice.
    pub open spec fn toggle_diff_mode(self, now: u64) -> AppModel {
        match self.diff_mode {
            DiffMode::Full => if self.pr_commits.len() > 0 {
                let at = (AppModel {
                    pr_commits_cursor: if self.pr_commits_cursor.is_none() {
                        Some(0usize)
                    } else {
                        self.pr_commits_cursor
                    },
                    ..self
                }).load_selected_commit_diff();
                AppModel { diff_mode: DiffMode::ByCommit, ..at }
            } else {
                self.notify("No commits found for this PR"@, now)
            },
            DiffMode::ByCommit => AppModel { diff_scroll: 0, diff_mode: DiffMode::Full, ..self },
        }
    }

    /// Clears error and status and fetches anew what the current tab shows.
    pub open spec fn refresh(self) -> AppModel {
        let cleared = AppModel { error: None, status_message: None, ..self };
        match self.tab {
            Tab::PRs => {
                let asked = cleared.busy("Refreshing PRs..."@).send(RequestModel::FetchPrs);
                match self.selected_pr {
                    Some(pr) => asked.send(RequestModel::FetchPrChecks { head_sha: pr.head.sha }),
                    None => asked,
                }
            },
            Tab::Actions => cleared.busy("Refreshing workflows..."@).send(RequestModel::FetchRuns),
            Tab::Logs => {
                let busy = cleared.busy("Refreshing logs..."@);
                match self.selected_run {
                    Some(run) => busy.send(logs_request(run.id, self.jobs, self.job_cursor)),
                    None => busy,
                }
            },
        }
    }

    /// Asks for the pull-request creation page and says so.
    pub open spec fn create_pr(self, now: u64) -> AppModel {
        self.send(RequestModel::CreatePr { repo: self.owner + "/"@ + self.repo_name }).notify(
            "Opening PR creation in browser..."@,
            now,
        )
    }

    /// Asks for a local checkout of the selected pull request.
    pub open spec fn checkout_pr(self) -> AppModel {
        match self.selected_pr {
            Some(pr) => self.send(RequestModel::CheckoutPr { pr_number: pr.number }),
            None => self,
        }
    }

    /// Asks for the selected pull request's page and says so.
    pub open spec fn open_pr_in_browser(self, now: u64) -> AppModel {
        match self.selected_pr {
            Some(pr) => self.send(RequestModel::OpenPrInBrowser { pr_number: pr.number }).notify(
                "Opening PR in browser..."@,
                now,
            ),
            None => self,
        }
    }
}

impl AppModel {
    /// The cursor on the next visible pull request, round the end.
    pub open spec fn next_pr(self) -> AppModel {
        AppModel { pr_cursor: cycle_next(self.pr_cursor, self.prs.len()), ..self }
    }

    /// The cursor on the previous visible pull request, round the start.
    pub open spec fn previous_pr(self) -> AppModel {
        AppModel { pr_cursor: cycle_previous(self.pr_cursor, self.prs.len()), ..self }
    }

    /// The cursor on the next check, round the end.
    pub open spec fn next_pr_check(self) -> AppModel {
        AppModel {
            pr_checks_cursor: cycle_next(self.pr_checks_cursor, self.pr_checks.len()),
            ..self
        }
    }

    /// The cursor on the previous check, round the start.
    pub open spec fn previous_pr_check(self) -> AppModel {
        AppModel {
            pr_checks_cursor: cycle_previous(self.pr_checks_cursor, self.pr_checks.len()),
            ..self
        }
    }

    /// The cursor on the next run, round the end.
    pub open spec fn next_run(self) -> AppModel {
        AppModel { run_cursor: cycle_next(self.run_cursor, self.runs.len()), ..self }
    }

    /// The cursor on the previous run, round the start.
    pub open spec fn previous_run(self) -> AppModel {
        AppModel { run_cursor: cycle_previous(self.run_cursor, self.runs.len()), ..self }
    }

    /// The cursor on the next job, round the end.
    pub open spec fn next_job(self) -> AppModel {
        AppModel { job_cursor: cycle_next(self.job_cursor, self.jobs.len()), ..self }
    }

    /// The cursor on the previous job, round the start.
    pub open spec fn previous_job(self) -> AppModel {
        AppModel { job_cursor: cycle_previous(self.job_cursor, self.jobs.len()), ..self }
    }

    /// Commits do not wrap: the step stops at the last one.
    pub open spec fn next_commit(self) -> AppModel {
        AppModel {
            pr_commits_cursor: clamp_next(self.pr_commits_cursor, self.pr_commits.len()),
            ..self
        }
    }

    /// The step back stops at the first commit.
    pub open spec fn previous_commit(self) -> AppModel {
        AppModel {
            pr_commits_cursor: clamp_previous(self.pr_commits_cursor, self.pr_commits.len()),
            ..self
        }
    }

    /// The matches recomputed for the current query. With a query, the walk
    /// starts at the first match and the log scrolls to it; without one the
    /// matches are only cleared.
    pub open spec fn find_log_matches(self) -> AppModel {
        match self.log_search {
            Some(query) => {
                let found = matching_lines(self.logs, query);
                AppModel {
                    log_matches: found,
                    log_match_index: 0,
                    log_scroll: if found.len() > 0 {
                        found[0]
                    } else {
                        self.log_scroll
                    },
                    ..self
                }
            },
            None => AppModel { log_matches: Seq::empty(), ..self },
        }
    }

    /// With the walk through the matches at `index` and the log scrolled to
    /// that match.
    pub open spec fn at_match(self, index: usize) -> AppModel {
        AppModel {
            log_match_index: index,
            log_scroll: self.log_matches[index as int],
            ..self
        }
    }

    /// The walk moved to the next match, round from the last to the first.
    /// Without matches nothing changes.
    pub open spec fn next_log_match(self) -> AppModel {
        if self.log_matches.len() > 0 {
            self.at_match(spec_next_index(self.log_match_index, self.log_matches.len() as usize))
        } else {
            self
        }
    }

    /// The walk moved to the previous match, round from the first to the
    /// last.
    pub open spec fn prev_log_match(self) -> AppModel {
        if self.log_matches.len() > 0 {
            self.at_match(
                spec_previous_index(self.log_match_index, self.log_matches.len() as usize),
            )
        } else {
            self
        }
    }

    /// Approval of the selected pull request, up to the call.
    pub open spec fn approve_pr(self) -> Step {
        match self.selected_pr {
            Some(pr) => Step {
                state: self.busy("Approving PR..."@),
                call: Some(CallModel::Approve { pr_number: pr.number }),
            },
            None => done(self),
        }
    }

    /// Merge of the selected pull request, up to the call.
    pub open spec fn merge_pr(self) -> Step {
        match self.selected_pr {
            Some(pr) => Step {
                state: self.busy("Merging PR..."@),
                call: Some(CallModel::Merge { pr_number: pr.number }),
            },
            None => done(self),
        }
    }

    /// Rerun of the run under the cursor, up to the call.
    pub open spec fn rerun_workflow(self) -> Step {
        match at_cursor(self.runs, self.run_cursor) {
            Some(run) => Step {
                state: self.busy("Triggering rerun..."@),
                call: Some(CallModel::RerunRun { run_id: run.id, name: run.name }),
            },
            None => done(self),
        }
    }

    /// Rerun of the check under the cursor, up to the call.
    pub open spec fn rerun_pr_check(self) -> Step {
        match at_cursor(self.pr_checks, self.pr_checks_cursor) {
            Some(check) => Step {
                state: self.busy("Triggering rerun..."@),
                call: Some(CallModel::RerunCheck { run_id: check.id, name: check.name }),
            },
            None => done(self),
        }
    }

    /// The edited title, up to the call. An empty title is refused.
    pub open spec fn submit_edit_title(self) -> Step {
        match self.selected_pr {
            Some(pr) => if self.input_buffer.len() == 0 {
                done(self.fail("Title cannot be empty"@))
            } else {
                Step {
                    state: self.busy("Updating title..."@),
                    call: Some(
                        CallModel::EditTitle { pr_number: pr.number, title: self.input_buffer },
                    ),
                }
            },
            None => done(self),
        }
    }

    /// The new label, up to the call. A label of white space is refused.
    pub open spec fn submit_add_label(self) -> Step {
        match self.selected_pr {
            Some(pr) => if spec_trim(self.input_buffer).len() == 0 {
                done(self.fail("Label cannot be empty"@))
            } else {
                Step {
                    state: self.busy("Adding label..."@),
                    call: Some(
                        CallModel::AddLabel {
                            pr_number: pr.number,
                            label: spec_trim(self.input_buffer),
                        },
                    ),
                }
            },
            None => done(self),
        }
    }

    /// The request for a review, up to the call. A name of white space is
    /// refused.
    pub open spec fn submit_add_reviewer(self) -> Step {
        match self.selected_pr {
            Some(pr) => if spec_trim(self.input_buffer).len() == 0 {
                done(self.fail("Username cannot be empty"@))
            } else {
                Step {
                    state: self.busy("Requesting review..."@),
                    call: Some(
                        CallModel::AddReviewer {
                            pr_number: pr.number,
                            reviewer: spec_trim(self.input_buffer),
                        },
                    ),
                }
            },
            None => done(self),
        }
    }

    /// The head branch's name, to be copied.
    pub open spec fn copy_branch_to_clipboard(self) -> Step {
        match self.selected_pr {
            Some(pr) => Step {
                state: self,
                call: Some(CallModel::CopyBranch { text: pr.head.ref_name }),
            },
            None => done(self),
        }
    }

    /// The command that checks the head branch out, to be copied.
    pub open spec fn copy_checkout_command_to_clipboard(self) -> Step {
        match self.selected_pr {
            Some(pr) => Step {
                state: self,
                call: Some(CallModel::CopyText { text: "git checkout "@ + pr.head.ref_name }),
            },
            None => done(self),
        }
    }

    /// The address of the selected pull request, to be copied.
    pub open spec fn copy_pr_url_to_clipboard(self) -> Step {
        match self.selected_pr {
            Some(pr) => Step {
                state: self,
                call: Some(
                    CallModel::CopyText {
                        text: "https://github.com/"@ + self.repo + "/pull/"@ + decimal(
                            pr.number as nat,
                        ),
                    },
                ),
            },
            None => done(self),
        }
    }

    /// The edit written into the selected pull request and into every
    /// listed one of that number, and the visible list recomputed.
    pub open spec fn patch(self, number: u64, patch: PatchModel) -> AppModel {
        (AppModel {
            selected_pr: match self.selected_pr {
                Some(pr) => Some(patched_pr(pr, patch)),
                None => None,
            },
            all_prs: patched(self.all_prs, number, patch),
            ..self
        }).apply_pr_filter()
    }

    /// After an approval: the outcome is shown and loading ends.
    pub open spec fn after_approve(
        self,
        pr_number: u64,
        outcome: Result<(), Seq<char>>,
        now: u64,
    ) -> AppModel {
        (match outcome {
            Ok(_) => self.notify("Approved PR #"@ + decimal(pr_number as nat), now),
            Err(e) => self.fail("Failed to approve: "@ + e),
        }).idle()
    }

    /// After a merge: success is shown and the list is fetched anew, which
    /// ends loading when it arrives; failure ends loading at once.
    pub open spec fn after_merge(
        self,
        pr_number: u64,
        outcome: Result<(), Seq<char>>,
        now: u64,
    ) -> AppModel {
        match outcome {
            Ok(_) => self.notify("Merged PR #"@ + decimal(pr_number as nat), now).send(
                RequestModel::FetchPrs,
            ),
            Err(e) => self.fail("Failed to merge: "@ + e).idle(),
        }
    }

    /// After a change of title: on success the new title is written into
    /// the lists without a fetch. The line editor closes either way.
    pub open spec fn after_edit_title(
        self,
        pr_number: u64,
        title: Seq<char>,
        outcome: Result<(), Seq<char>>,
        now: u64,
    ) -> AppModel {
        (match outcome {
            Ok(_) => self.notify(
                "Updated PR #"@ + decimal(pr_number as nat) + " title"@,
                now,
            ).patch(pr_number, PatchModel::Title(title)),
            Err(e) => self.fail("Failed to update title: "@ + e),
        }).idle().close_input()
    }

    /// After a label was added: on success the label is written into the
    /// lists without a fetch. The line editor closes either way.
    pub open spec fn after_add_label(
        self,
        pr_number: u64,
        label: Seq<char>,
        outcome: Result<(), Seq<char>>,
        now: u64,
    ) -> AppModel {
        (match outcome {
            Ok(_) => self.notify(
                "Added label '"@ + label + "' to PR #"@ + decimal(pr_number as nat),
                now,
            ).patch(pr_number, PatchModel::Label(label)),
            Err(e) => self.fail("Failed to add label: "@ + e),
        }).idle().close_input()
    }

    /// After a review was requested: on success the one asked is written
    /// into the lists without a fetch. The line editor closes either way.
    pub open spec fn after_add_reviewer(
        self,
        pr_number: u64,
        reviewer: Seq<char>,
        outcome: Result<(), Seq<char>>,
        now: u64,
    ) -> AppModel {
        (match outcome {
            Ok(_) => self.notify(
                "Requested review from '"@ + reviewer + "' on PR #"@ + decimal(pr_number as nat),
                now,
            ).patch(pr_number, PatchModel::Reviewer(reviewer)),
            Err(e) => self.fail("Failed to request review: "@ + e),
        }).idle().close_input()
    }

    /// After the rerun of a listed run: on success the runs are fetched
    /// anew.
    pub open spec fn after_rerun_run(
        self,
        name: Seq<char>,
        outcome: Result<(), Seq<char>>,
        now: u64,
    ) -> AppModel {
        (match outcome {
            Ok(_) => self.notify("Rerun triggered for "@ + name, now).send(
                RequestModel::FetchRuns,
            ),
            Err(e) => self.fail("Failed to rerun: "@ + e),
        }).idle()
    }

    /// After the rerun of a check: on success the checks of the selected
    /// pull request are fetched anew.
    pub open spec fn after_rerun_check(
        self,
        name: Seq<char>,
        outcome: Result<(), Seq<char>>,
        now: u64,
    ) -> AppModel {
        (match outcome {
            Ok(_) => {
                let told = self.notify("Rerun triggered for "@ + name, now);
                match self.selected_pr {
                    Some(pr) => told.send(RequestModel::FetchPrChecks { head_sha: pr.head.sha }),
                    None => told,
                }
            },
            Err(e) => self.fail("Failed to rerun: "@ + e),
        }).idle()
    }

    /// After a copy to the clipboard, announced with `said` on success.
    pub open spec fn after_copy(self, said: Seq<char>, copied: bool, now: u64) -> AppModel {
        if copied {
            self.notify(said, now)
        } else {
            self.fail("Failed to copy to clipboard"@)
        }
    }

    /// What follows a call, given its outcome. Success is announced; an edit
    /// of title, labels or those asked to review is written into the pull
    /// requests at hand, and what else went stale is fetched anew. Failure
    /// goes to the error slot. A call that the line editor made closes the
    /// editor at the end.
    pub open spec fn finish_call(
        self,
        call: CallModel,
        outcome: Result<(), Seq<char>>,
        now: u64,
    ) -> AppModel {
        match call {
            CallModel::Approve { pr_number } => self.after_approve(pr_number, outcome, now),
            CallModel::Merge { pr_number } => self.after_merge(pr_number, outcome, now),
            CallModel::EditTitle { pr_number, title } => self.after_edit_title(
                pr_number,
                title,
                outcome,
                now,
            ),
            CallModel::AddLabel { pr_number, label } => self.after_add_label(
                pr_number,
                label,
                outcome,
                now,
            ),
            CallModel::AddReviewer { pr_number, reviewer } => self.after_add_reviewer(
                pr_number,
                reviewer,
                outcome,
                now,
            ),
            CallModel::RerunRun { run_id, name } => self.after_rerun_run(name, outcome, now),
            CallModel::RerunCheck { run_id, name } => self.after_rerun_check(name, outcome, now),
            CallModel::CopyBranch { text } => self.after_copy(
                "Copied branch: "@ + text,
                outcome.is_ok(),
                now,
            ),
            CallModel::CopyText { text } => self.after_copy(
                "Copied: "@ + text,
                outcome.is_ok(),
                now,
            ),
        }
    }
}

} // verus!
