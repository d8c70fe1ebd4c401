//! Cursor moves, log search, and the actions that end in a call.
use crate::github::types::runs_model;
use crate::nav::{DiffMode, Screen, Tab};
use crate::search::{find_matches, next_index, previous_index};
use crate::state::app::{find_run, App};
use crate::state::model::{
    clamp_next, clamp_previous, cycle_next, cycle_previous, logs_request, AppModel,
};
use crate::state::request::Request;
use crate::text::join3;
use vstd::prelude::*;
use vstd::string::*;

verus! {

/// The cursor after a step forward, round from the last item to the first.
pub fn step_next(cursor: Option<usize>, len: usize) -> (r: Option<usize>)
    ensures
        r == cycle_next(cursor, len as nat),
{
    if len == 0 {
        cursor
    } else {
        match cursor {
            Some(i) => Some(next_index(i, len)),
            None => Some(0),
        }
    }
}

/// The cursor after a step backward, round from the first item to the last.
pub fn step_previous(cursor: Option<usize>, len: usize) -> (r: Option<usize>)
    ensures
        r == cycle_previous(cursor, len as nat),
{
    if len == 0 {
        cursor
    } else {
        match cursor {
            Some(i) => Some(previous_index(i, len)),
            None => Some(0),
        }
    }
}

/// The cursor after a step forward that stops at the last item.
pub fn step_next_clamped(cursor: Option<usize>, len: usize) -> (r: Option<usize>)
    ensures
        r == clamp_next(cursor, len as nat),
{
    if len == 0 {
        cursor
    } else {
        match cursor {
            Some(i) => Some(
                if i < len - 1 {
                    i + 1
                } else {
                    len - 1
                },
            ),
            None => Some(0),
        }
    }
}

/// The cursor after a step backward that stops at the first item.
pub fn step_previous_clamped(cursor: Option<usize>, len: usize) -> (r: Option<usize>)
    ensures
        r == clamp_previous(cursor, len as nat),
{
    if len == 0 {
        cursor
    } else {
        match cursor {
            Some(i) => Some(
                if i == 0 {
                    0
                } else {
                    i - 1
                },
            ),
            None => Some(0),
        }
    }
}

impl App {
    /// Moves the cursor to the next visible pull request, round the end.
    pub fn next_pr(&mut self)
        ensures
            final(self)@ == old(self)@.next_pr(),
    {
        self.pr_cursor = step_next(self.pr_cursor, self.prs.len());
    }

    /// Moves the cursor to the previous visible pull request, round the start.
    pub fn previous_pr(&mut self)
        ensures
            final(self)@ == old(self)@.previous_pr(),
    {
        self.pr_cursor = step_previous(self.pr_cursor, self.prs.len());
    }

    /// Moves the cursor to the next check, round the end.
    pub fn next_pr_check(&mut self)
        ensures
            final(self)@ == old(self)@.next_pr_check(),
    {
        self.pr_checks_cursor = step_next(self.pr_checks_cursor, self.pr_checks.len());
    }

    /// Moves the cursor to the previous check, round the start.
    pub fn previous_pr_check(&mut self)
        ensures
            final(self)@ == old(self)@.previous_pr_check(),
    {
        self.pr_checks_cursor = step_previous(self.pr_checks_cursor, self.pr_checks.len());
    }

    /// Moves the cursor to the next run, round the end.
    pub fn next_run(&mut self)
        ensures
            final(self)@ == old(self)@.next_run(),
    {
        self.run_cursor = step_next(self.run_cursor, self.runs.len());
    }

    /// Moves the cursor to the previous run, round the start.
    pub fn previous_run(&mut self)
        ensures
            final(self)@ == old(self)@.previous_run(),
    {
        self.run_cursor = step_previous(self.run_cursor, self.runs.len());
    }

    /// Moves the cursor to the next job, round the end.
    pub fn next_job(&mut self)
        ensures
            final(self)@ == old(self)@.next_job(),
    {
        self.job_cursor = step_next(self.job_cursor, self.jobs.len());
    }

    /// Moves the cursor to the previous job, round the start.
    pub fn previous_job(&mut self)
        ensures
            final(self)@ == old(self)@.previous_job(),
    {
        self.job_cursor = step_previous(self.job_cursor, self.jobs.len());
    }

    /// Moves the cursor to the next commit and stops at the last.
    pub fn next_commit(&mut self)
        ensures
            final(self)@ == old(self)@.next_commit(),
    {
        self.pr_commits_cursor = step_next_clamped(self.pr_commits_cursor, self.pr_commits.len());
    }

    /// Moves the cursor to the previous commit and stops at the first.
    pub fn previous_commit(&mut self)
        ensures
            final(self)@ == old(self)@.previous_commit(),
    {
        self.pr_commits_cursor = step_previous_clamped(
            self.pr_commits_cursor,
            self.pr_commits.len(),
        );
    }

    /// The request for the logs of a run, narrowed to the job under the
    /// cursor where there is one.
    pub fn logs_request(&self, run_id: u64) -> (r: Request)
        ensures
            r@ == logs_request(run_id, self@.jobs, self@.job_cursor),
    {
        match self.job_cursor {
            Some(i) => {
                if i < self.jobs.len() {
                    Request::FetchLogs {
                        run_id,
                        job_id: Some(self.jobs[i].id),
                        job_completed: self.jobs[i].is_completed(),
                    }
                } else {
                    Request::FetchLogs { run_id, job_id: None, job_completed: false }
                }
            },
            None => Request::FetchLogs { run_id, job_id: None, job_completed: false },
        }
    }

    /// Makes the run under the cursor the selected one and asks for its
    /// jobs.
    pub fn select_run(&mut self)
        ensures
            final(self)@ == old(self)@.select_run(),
    {
        if let Some(i) = self.run_cursor {
            if i < self.runs.len() {
                let run = self.runs[i].clone();
                let id = run.id;
                self.selected_run = Some(run);
                self.job_cursor = Some(0);
                self.busy("Loading jobs...".to_string());
                self.send(Request::FetchJobs { run_id: id });
            }
        }
    }

    /// Asks for the logs of the selected run, narrowed to the job under the
    /// cursor where there is one.
    pub fn fetch_logs(&mut self)
        ensures
            final(self)@ == old(self)@.fetch_logs(),
    {
        let run_id = match &self.selected_run {
            Some(run) => Some(run.id),
            None => None,
        };
        if let Some(run_id) = run_id {
            let request = self.logs_request(run_id);
            self.busy("Loading logs...".to_string());
            self.send(request);
        }
    }

    /// Opens the jobs of the check under the cursor in the actions tab.
    pub fn view_pr_check_jobs(&mut self)
        ensures
            final(self)@ == old(self)@.view_pr_check_jobs(),
    {
        if let Some(i) = self.pr_checks_cursor {
            if i < self.pr_checks.len() {
                let check = self.pr_checks[i].clone();
                let id = check.id;
                match find_run(&self.runs, id) {
                    Some(at) => {
                        self.run_cursor = Some(at);
                    },
                    None => {
                        let ghost before = runs_model(self.runs@);
                        self.runs.insert(0, check.clone());
                        self.run_cursor = Some(0);
                        assert(runs_model(self.runs@) =~= seq![check@] + before);
                    },
                }
                self.selected_run = Some(check);
                self.job_cursor = Some(0);
                self.tab = Tab::Actions;
                self.screen = Screen::Jobs;
                self.busy("Loading jobs...".to_string());
                self.send(Request::FetchJobs { run_id: id });
            }
        }
    }

    /// Asks for the diff of the commit under the cursor.
    pub fn load_selected_commit_diff(&mut self)
        ensures
            final(self)@ == old(self)@.load_selected_commit_diff(),
    {
        if let Some(i) = self.pr_commits_cursor {
            if i < self.pr_commits.len() {
                let sha = self.pr_commits[i].sha.clone();
                let what = match self.pr_commits[i].short_sha_checked() {
                    Some(short) => join3("Loading commit ", short, "..."),
                    None => join3("Loading commit ", sha.as_str(), "..."),
                };
                self.busy(what);
                self.send(Request::FetchCommitDiff { sha });
            }
        }
    }

    /// Switches between the whole diff and the diff by commit.
    pub fn toggle_diff_mode(&mut self, now: u64)
        ensures
            final(self)@ == old(self)@.toggle_diff_mode(now),
    {
        match self.diff_mode {
            DiffMode::Full => {
                if self.pr_commits.len() > 0 {
                    if self.pr_commits_cursor.is_none() {
                        self.pr_commits_cursor = Some(0);
                    }
                    let ghost at = self@;
                    assert(at == (AppModel {
                        pr_commits_cursor: if old(self)@.pr_commits_cursor.is_none() {
                            Some(0usize)
                        } else {
                            old(self)@.pr_commits_cursor
                        },
                        ..old(self)@
                    }));
                    self.load_selected_commit_diff();
                    self.diff_mode = DiffMode::ByCommit;
                    assert(self@ == (AppModel {
                        diff_mode: DiffMode::ByCommit,
                        ..at.load_selected_commit_diff()
                    }));
                } else {
                    self.set_message("No commits found for this PR".to_string(), now);
                }
            },
            DiffMode::ByCommit => {
                self.diff_scroll = 0;
                self.diff_mode = DiffMode::Full;
            },
        }
    }

    /// Clears error and status and fetches anew what the current tab shows.
    pub fn refresh(&mut self)
        ensures
            final(self)@ == old(self)@.refresh(),
    {
        self.error = None;
        self.status_message = None;
        match self.tab {
            Tab::PRs => {
                self.busy("Refreshing PRs...".to_string());
                self.send(Request::FetchPrs);
                let head_sha = match &self.selected_pr {
                    Some(pr) => Some(pr.head.sha.clone()),
                    None => None,
                };
                if let Some(head_sha) = head_sha {
                    self.send(Request::FetchPrChecks { head_sha });
                }
            },
            Tab::Actions => {
                self.busy("Refreshing workflows...".to_string());
                self.send(Request::FetchRuns);
            },
            Tab::Logs => {
                self.busy("Refreshing logs...".to_string());
                let run_id = match &self.selected_run {
                    Some(run) => Some(run.id),
                    None => None,
                };
                if let Some(run_id) = run_id {
                    let request = self.logs_request(run_id);
                    self.send(request);
                }
            },
        }
    }

    /// Asks for the pull-request creation page and says so.
    pub fn create_pr(&mut self, now: u64)
        ensures
            final(self)@ == old(self)@.create_pr(now),
    {
        let repo = join3(self.owner.as_str(), "/", self.repo_name.as_str());
        self.send(Request::CreatePr { repo });
        self.set_message("Opening PR creation in browser...".to_string(), now);
    }

    /// Asks for a local checkout of the selected pull request.
    pub fn checkout_pr(&mut self)
        ensures
            final(self)@ == old(self)@.checkout_pr(),
    {
        let number = match &self.selected_pr {
            Some(pr) => Some(pr.number),
            None => None,
        };
        if let Some(pr_number) = number {
            self.send(Request::CheckoutPr { pr_number });
        }
    }

    /// Asks for the selected pull request's page and says so.
    pub fn open_pr_in_browser(&mut self, now: u64)
        ensures
            final(self)@ == old(self)@.open_pr_in_browser(now),
    {
        let number = match &self.selected_pr {
            Some(pr) => Some(pr.number),
            None => None,
        };
        if let Some(pr_number) = number {
            self.send(Request::OpenPrInBrowser { pr_number });
            self.set_message("Opening PR in browser...".to_string(), now);
        }
    }

    /// Recomputes the matches for the current query.
    pub fn find_log_matches(&mut self)
        ensures
            final(self)@ == old(self)@.find_log_matches(),
    {
        match &self.log_search {
            Some(query) => {
                let found = find_matches(self.logs.as_str(), query.as_str());
                if found.len() > 0 {
                    self.log_scroll = found[0];
                }
                self.log_matches = found;
                self.log_match_index = 0;
            },
            None => {
                self.log_matches = Vec::new();
            },
        }
    }

    /// Moves to the next match and scrolls the log to it.
    pub fn next_log_match(&mut self)
        ensures
            final(self)@ == old(self)@.next_log_match(),
    {
        let n = self.log_matches.len();
        if n > 0 {
            let at = next_index(self.log_match_index, n);
            self.log_match_index = at;
            self.log_scroll = self.log_matches[at];
        }
    }

    /// Moves to the previous match and scrolls the log to it.
    pub fn prev_log_match(&mut self)
        ensures
            final(self)@ == old(self)@.prev_log_match(),
    {
        let n = self.log_matches.len();
        if n > 0 {
            let at = previous_index(self.log_match_index, n);
            self.log_match_index = at;
            self.log_scroll = self.log_matches[at];
        }
    }
}

} // verus!
