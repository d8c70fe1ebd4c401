//! The state itself.
use crate::github::types::{
    commits_model, jobs_model, prs_model, reviews_model, runs_model, Commit, Job, PullRequest,
    Review, WorkflowRun,
};
use crate::nav::{DiffMode, Focus, InputMode, PrFilter, Screen, Tab};
use crate::state::model::{
    asked_to_review, first_with_id, opt_pr, opt_run, opt_status, passes, passing, pr_numbers,
    run_ids, visible_prs, AppModel, NOTICE_MILLIS,
};
use crate::state::request::{requests_model, Request};
use crate::status::StatusMessage;
use crate::text::{decimal_string, opt_text, str_eq};
use vstd::prelude::*;
use vstd::string::*;

verus! {

/// Everything the dashboard shows. Only the state core's own functions
/// change it; what they want from the outside they leave in `outbox`.
pub struct App {
    pub tab: Tab,
    pub screen: Screen,
    pub focus: Focus,
    pub repo: String,
    pub owner: String,
    pub repo_name: String,
    pub current_user: Option<String>,
    /// Every pull request that the last fetch returned.
    pub all_prs: Vec<PullRequest>,
    /// The pull requests that pass the filter, in the order of `all_prs`.
    pub prs: Vec<PullRequest>,
    pub pr_cursor: Option<usize>,
    pub selected_pr: Option<PullRequest>,
    pub pr_diff: Option<String>,
    pub pr_filter: PrFilter,
    pub diff_scroll: u16,
    /// The runs for the head commit of the selected pull request.
    pub pr_checks: Vec<WorkflowRun>,
    pub pr_checks_cursor: Option<usize>,
    pub pr_reviews: Vec<Review>,
    pub diff_mode: DiffMode,
    pub pr_commits: Vec<Commit>,
    pub pr_commits_cursor: Option<usize>,
    pub commit_diff: Option<String>,
    pub runs: Vec<WorkflowRun>,
    pub run_cursor: Option<usize>,
    pub selected_run: Option<WorkflowRun>,
    pub jobs: Vec<Job>,
    pub job_cursor: Option<usize>,
    pub logs: String,
    /// The number of the first line of the log that is shown.
    pub log_scroll: usize,
    pub log_h_scroll: u16,
    pub log_search: Option<String>,
    /// The numbers of the log lines that match the search, ascending.
    pub log_matches: Vec<usize>,
    pub log_match_index: usize,
    pub loading: bool,
    pub loading_what: Option<String>,
    pub error: Option<String>,
    pub status_message: Option<StatusMessage>,
    pub should_quit: bool,
    pub show_help: bool,
    pub input_mode: Option<InputMode>,
    pub input_buffer: String,
    /// A pull request to open once the list has arrived.
    pub initial_pr: Option<u64>,
    /// Requests decided on and not yet handed out, oldest first.
    pub outbox: Vec<Request>,
}

impl View for App {
    type V = AppModel;

    open spec fn view(&self) -> AppModel {
        AppModel {
            tab: self.tab,
            screen: self.screen,
            focus: self.focus,
            repo: self.repo@,
            owner: self.owner@,
            repo_name: self.repo_name@,
            current_user: opt_text(self.current_user),
            all_prs: prs_model(self.all_prs@),
            prs: prs_model(self.prs@),
            pr_cursor: self.pr_cursor,
            selected_pr: opt_pr(self.selected_pr),
            pr_diff: opt_text(self.pr_diff),
            pr_filter: self.pr_filter,
            diff_scroll: self.diff_scroll,
            pr_checks: runs_model(self.pr_checks@),
            pr_checks_cursor: self.pr_checks_cursor,
            pr_reviews: reviews_model(self.pr_reviews@),
            diff_mode: self.diff_mode,
            pr_commits: commits_model(self.pr_commits@),
            pr_commits_cursor: self.pr_commits_cursor,
            commit_diff: opt_text(self.commit_diff),
            runs: runs_model(self.runs@),
            run_cursor: self.run_cursor,
            selected_run: opt_run(self.selected_run),
            jobs: jobs_model(self.jobs@),
            job_cursor: self.job_cursor,
            logs: self.logs@,
            log_scroll: self.log_scroll,
            log_h_scroll: self.log_h_scroll,
            log_search: opt_text(self.log_search),
            log_matches: self.log_matches@,
            log_match_index: self.log_match_index,
            loading: self.loading,
            loading_what: opt_text(self.loading_what),
            error: opt_text(self.error),
            status_message: opt_status(self.status_message),
            should_quit: self.should_quit,
            show_help: self.show_help,
            input_mode: self.input_mode,
            input_buffer: self.input_buffer@,
            initial_pr: self.initial_pr,
            outbox: requests_model(self.outbox@),
        }
    }
}

/// Whether `user` is among those asked to review.
pub fn is_asked_to_review(pr: &PullRequest, user: &str) -> (r: bool)
    ensures
        r == asked_to_review(pr@, user@),
{
    let mut k: usize = 0;
    while k < pr.requested_reviewers.len()
        invariant
            k <= pr.requested_reviewers.len(),
            forall|j: int| 0 <= j < k ==> pr@.requested_reviewers[j].login != user@,
        decreases pr.requested_reviewers.len() - k,
    {
        if str_eq(pr.requested_reviewers[k].login.as_str(), user) {
            assert(pr@.requested_reviewers[k as int].login == user@);
            return true;
        }
        k += 1;
    }
    false
}

/// Whether a pull request passes a filter for a user.
fn passes_filter(filter: PrFilter, user: &str, pr: &PullRequest) -> (r: bool)
    ensures
        r == passes(filter, user@, pr@),
{
    match filter {
        PrFilter::All => true,
        PrFilter::Mine => str_eq(pr.user.login.as_str(), user),
        PrFilter::ReviewRequested => is_asked_to_review(pr, user),
    }
}

/// The pull requests that a filter shows, copied in their order.
pub fn filter_prs(all: &Vec<PullRequest>, filter: PrFilter, user: &Option<String>) -> (r: Vec<
    PullRequest,
>)
    ensures
        prs_model(r@) == visible_prs(prs_model(all@), filter, opt_text(*user)),
{
    let u = match (filter, user) {
        (PrFilter::All, _) | (_, None) => {
            let out = all.clone();
            assert(prs_model(out@) =~= prs_model(all@));
            return out;
        },
        (_, Some(u)) => u,
    };
    let ghost pred = passing(filter, u@);
    let ghost models = prs_model(all@);
    let mut out: Vec<PullRequest> = Vec::new();
    let mut i: usize = 0;
    proof {
        reveal(Seq::filter);
        assert(prs_model(out@) =~= models.take(0).filter(pred));
    }
    while i < all.len()
        invariant
            i <= all.len(),
            pred == passing(filter, u@),
            models == prs_model(all@),
            prs_model(out@) == models.take(i as int).filter(pred),
        decreases all.len() - i,
    {
        let ghost before = prs_model(out@);
        proof {
            assert(models.take(i + 1) =~= models.take(i as int).push(all@[i as int]@));
            assert(pred(all@[i as int]@) == passes(filter, u@, all@[i as int]@));
            models.take(i as int).lemma_filter_push(all@[i as int]@, pred);
        }
        if passes_filter(filter, u.as_str(), &all[i]) {
            out.push(all[i].clone());
            assert(prs_model(out@) =~= before.push(all@[i as int]@));
        }
        i += 1;
    }
    assert(models.take(all.len() as int) =~= models);
    out
}

/// The position of the first pull request with the given number.
pub fn find_pr(prs: &Vec<PullRequest>, number: u64) -> (r: Option<usize>)
    ensures
        r == first_with_id(pr_numbers(prs_model(prs@)), number, 0),
{
    let ghost ids = pr_numbers(prs_model(prs@));
    let mut i: usize = 0;
    while i < prs.len()
        invariant
            i <= prs.len(),
            ids == pr_numbers(prs_model(prs@)),
            first_with_id(ids, number, 0) == first_with_id(ids, number, i as int),
        decreases prs.len() - i,
    {
        if prs[i].number == number {
            return Some(i);
        }
        i += 1;
    }
    None
}

/// The position of the first run with the given identifier.
pub fn find_run(runs: &Vec<WorkflowRun>, id: u64) -> (r: Option<usize>)
    ensures
        r == first_with_id(run_ids(runs_model(runs@)), id, 0),
{
    let ghost ids = run_ids(runs_model(runs@));
    let mut i: usize = 0;
    while i < runs.len()
        invariant
            i <= runs.len(),
            ids == run_ids(runs_model(runs@)),
            first_with_id(ids, id, 0) == first_with_id(ids, id, i as int),
        decreases runs.len() - i,
    {
        if runs[i].id == id {
            return Some(i);
        }
        i += 1;
    }
    None
}

impl App {
    /// Shows a notification that dismisses itself.
    pub fn set_message(&mut self, text: String, now: u64)
        ensures
            final(self)@ == old(self)@.notify(text@, now),
    {
        self.status_message = Some(StatusMessage::notification(text, now, NOTICE_MILLIS));
    }

    /// Shows a prompt.
    pub fn ask(&mut self, text: &str)
        ensures
            final(self)@ == old(self)@.ask(text@),
    {
        self.status_message = Some(StatusMessage::prompt(text.to_string()));
    }

    /// Puts a request into the outbox.
    pub fn send(&mut self, request: Request)
        ensures
            final(self)@ == old(self)@.send(request@),
    {
        let ghost before = requests_model(self.outbox@);
        self.outbox.push(request);
        assert(requests_model(self.outbox@) =~= before.push(request@));
    }

    /// Turns the loading indicator on.
    pub fn busy(&mut self, what: String)
        ensures
            final(self)@ == old(self)@.busy(what@),
    {
        self.loading = true;
        self.loading_what = Some(what);
    }

    /// Turns the loading indicator off.
    pub fn idle(&mut self)
        ensures
            final(self)@ == old(self)@.idle(),
    {
        self.loading = false;
        self.loading_what = None;
    }

    /// Puts an error into the error slot.
    pub fn fail(&mut self, text: String)
        ensures
            final(self)@ == old(self)@.fail(text@),
    {
        self.error = Some(text);
    }

    /// Closes the line editor and drops its buffer and prompt.
    pub fn close_input(&mut self)
        ensures
            final(self)@ == old(self)@.close_input(),
    {
        self.input_mode = None;
        self.input_buffer = String::new();
        self.status_message = None;
    }

    /// Recomputes the visible list from the full list, the filter and the
    /// user, and repairs the cursor.
    pub fn apply_pr_filter(&mut self)
        ensures
            final(self)@ == old(self)@.apply_pr_filter(),
    {
        self.prs = filter_prs(&self.all_prs, self.pr_filter, &self.current_user);
        if self.prs.len() == 0 {
            self.pr_cursor = None;
        } else {
            match self.pr_cursor {
                Some(i) => {
                    if i >= self.prs.len() {
                        self.pr_cursor = Some(0);
                    }
                },
                None => {
                    self.pr_cursor = Some(0);
                },
            }
        }
    }

    /// Moves to the next filter and applies it.
    pub fn cycle_filter(&mut self)
        ensures
            final(self)@ == old(self)@.cycle_filter(),
    {
        self.pr_filter = self.pr_filter.next();
        self.apply_pr_filter();
    }

    /// Makes the pull request under the cursor the selected one and asks
    /// for its diff, checks, reviews and commits.
    pub fn select_pr(&mut self)
        ensures
            final(self)@ == old(self)@.select_pr(),
    {
        if let Some(i) = self.pr_cursor {
            if i < self.prs.len() {
                let pr = self.prs[i].clone();
                let number = pr.number;
                let head_sha = pr.head.sha.clone();
                self.selected_pr = Some(pr);
                self.diff_scroll = 0;
                self.pr_checks = Vec::new();
                self.pr_checks_cursor = None;
                self.pr_reviews = Vec::new();
                self.pr_commits = Vec::new();
                self.pr_commits_cursor = None;
                self.commit_diff = None;
                self.diff_mode = DiffMode::Full;
                proof {
                    assert(runs_model(self.pr_checks@) =~= Seq::empty());
                    assert(reviews_model(self.pr_reviews@) =~= Seq::empty());
                    assert(commits_model(self.pr_commits@) =~= Seq::empty());
                    assert(old(self)@.prs[i as int] == pr@);
                }
                self.busy("Loading diff...".to_string());
                self.send(Request::FetchDiff { pr_number: number });
                self.send(Request::FetchPrChecks { head_sha });
                self.send(Request::FetchReviews { pr_number: number });
                self.send(Request::FetchCommits { pr_number: number });
            }
        }
    }

    /// Opens the detail of the visible pull request with the given number,
    /// or reports that the filter hides it.
    pub fn select_pr_by_number(&mut self, number: u64)
        ensures
            final(self)@ == old(self)@.select_pr_by_number(number),
    {
        match find_pr(&self.prs, number) {
            Some(i) => {
                self.pr_cursor = Some(i);
                self.select_pr();
                self.screen = Screen::Detail;
                self.focus = Focus::Detail;
            },
            None => {
                let mut text = "PR #".to_string();
                text.append(decimal_string(number).as_str());
                text.append(" not found in current filter");
                self.fail(text);
            },
        }
    }
}

} // verus!
