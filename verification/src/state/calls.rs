//! Actions whose outcome the state core waits for: the part before the call
//! and the part after it.
use crate::github::types::{labels_model, prs_model, users_model, Label, PullRequest, User};
use crate::state::app::{is_asked_to_review, App};
use crate::state::model::{has_label, patched, patched_pr, PatchModel};
use crate::state::request::{opt_call, outcome_model, Call, Request};
use crate::text::{decimal_string, join, join3, str_eq, trim};
use vstd::prelude::*;
use vstd::string::*;

verus! {

/// An edit that the provider has accepted, to be written into the pull
/// requests at hand.
#[derive(Debug, PartialEq, Eq)]
pub enum Patch {
    Title(String),
    Label(String),
    Reviewer(String),
}

impl View for Patch {
    type V = PatchModel;

    open spec fn view(&self) -> PatchModel {
        match self {
            Patch::Title(title) => PatchModel::Title(title@),
            Patch::Label(name) => PatchModel::Label(name@),
            Patch::Reviewer(login) => PatchModel::Reviewer(login@),
        }
    }
}

/// Whether a pull request has a label of the given name.
pub fn has_label_named(pr: &PullRequest, name: &str) -> (r: bool)
    ensures
        r == has_label(pr@, name@),
{
    let mut k: usize = 0;
    while k < pr.labels.len()
        invariant
            k <= pr.labels.len(),
            forall|j: int| 0 <= j < k ==> pr@.labels[j].name != name@,
        decreases pr.labels.len() - k,
    {
        if str_eq(pr.labels[k].name.as_str(), name) {
            assert(pr@.labels[k as int].name == name@);
            return true;
        }
        k += 1;
    }
    false
}

/// A pull request after an edit.
pub fn patch_pr(pr: &PullRequest, patch: &Patch) -> (r: PullRequest)
    ensures
        r@ == patched_pr(pr@, patch@),
{
    let mut copy = pr.clone();
    match patch {
        Patch::Title(title) => {
            copy.title = title.clone();
        },
        Patch::Label(name) => {
            if !has_label_named(pr, name.as_str()) {
                let ghost before = labels_model(copy.labels@);
                let label = Label { name: name.clone(), color: String::new() };
                copy.labels.push(label);
                assert(labels_model(copy.labels@) =~= before.push(label@));
            }
        },
        Patch::Reviewer(login) => {
            if !is_asked_to_review(pr, login.as_str()) {
                let ghost before = users_model(copy.requested_reviewers@);
                let asked = User { login: login.clone(), avatar_url: String::new() };
                copy.requested_reviewers.push(asked);
                assert(users_model(copy.requested_reviewers@) =~= before.push(asked@));
            }
        },
    }
    copy
}

/// The pull requests with the edit written into the one of number
/// `number`.
fn patch_prs(prs: &Vec<PullRequest>, number: u64, patch: &Patch) -> (r: Vec<PullRequest>)
    ensures
        prs_model(r@) == patched(prs_model(prs@), number, patch@),
{
    let mut out: Vec<PullRequest> = Vec::new();
    let mut i: usize = 0;
    while i < prs.len()
        invariant
            i <= prs.len(),
            prs_model(out@) == patched(prs_model(prs@).take(i as int), number, patch@),
        decreases prs.len() - i,
    {
        let ghost before = prs_model(out@);
        let pr = if prs[i].number == number {
            patch_pr(&prs[i], patch)
        } else {
            prs[i].clone()
        };
        out.push(pr);
        i += 1;
        assert(prs_model(out@) =~= before.push(pr@));
        assert(prs_model(out@) =~= patched(prs_model(prs@).take(i as int), number, patch@));
    }
    assert(prs_model(prs@).take(prs.len() as int) =~= prs_model(prs@));
    out
}

impl App {
    /// The number of the selected pull request, if there is one.
    pub fn selected_number(&self) -> (r: Option<u64>)
        ensures
            r == (match self@.selected_pr {
                Some(pr) => Some(pr.number),
                None => None,
            }),
    {
        match &self.selected_pr {
            Some(pr) => Some(pr.number),
            None => None,
        }
    }

    /// Starts the approval of the selected pull request.
    pub fn approve_pr(&mut self) -> (call: Option<Call>)
        ensures
            final(self)@ == old(self)@.approve_pr().state,
            opt_call(call) == old(self)@.approve_pr().call,
    {
        match self.selected_number() {
            Some(pr_number) => {
                self.busy("Approving PR...".to_string());
                Some(Call::Approve { pr_number })
            },
            None => None,
        }
    }

    /// Starts the merge of the selected pull request.
    pub fn merge_pr(&mut self) -> (call: Option<Call>)
        ensures
            final(self)@ == old(self)@.merge_pr().state,
            opt_call(call) == old(self)@.merge_pr().call,
    {
        match self.selected_number() {
            Some(pr_number) => {
                self.busy("Merging PR...".to_string());
                Some(Call::Merge { pr_number })
            },
            None => None,
        }
    }

    /// Starts the rerun of the run under the cursor.
    pub fn rerun_workflow(&mut self) -> (call: Option<Call>)
        ensures
            final(self)@ == old(self)@.rerun_workflow().state,
            opt_call(call) == old(self)@.rerun_workflow().call,
    {
        if let Some(i) = self.run_cursor {
            if i < self.runs.len() {
                let run_id = self.runs[i].id;
                let name = self.runs[i].name.clone();
                self.busy("Triggering rerun...".to_string());
                return Some(Call::RerunRun { run_id, name });
            }
        }
        None
    }

    /// Starts the rerun of the check under the cursor.
    pub fn rerun_pr_check(&mut self) -> (call: Option<Call>)
        ensures
            final(self)@ == old(self)@.rerun_pr_check().state,
            opt_call(call) == old(self)@.rerun_pr_check().call,
    {
        if let Some(i) = self.pr_checks_cursor {
            if i < self.pr_checks.len() {
                let run_id = self.pr_checks[i].id;
                let name = self.pr_checks[i].name.clone();
                self.busy("Triggering rerun...".to_string());
                return Some(Call::RerunCheck { run_id, name });
            }
        }
        None
    }

    /// Takes the line editor's text as the new title of the selected pull
    /// request.
    pub fn submit_edit_title(&mut self) -> (call: Option<Call>)
        ensures
            final(self)@ == old(self)@.submit_edit_title().state,
            opt_call(call) == old(self)@.submit_edit_title().call,
    {
        match self.selected_number() {
            Some(pr_number) => {
                let title = self.input_buffer.clone();
                if title.as_str().is_empty() {
                    self.fail("Title cannot be empty".to_string());
                    None
                } else {
                    self.busy("Updating title...".to_string());
                    Some(Call::EditTitle { pr_number, title })
                }
            },
            None => None,
        }
    }

    /// Takes the line editor's text as a label for the selected pull
    /// request.
    pub fn submit_add_label(&mut self) -> (call: Option<Call>)
        ensures
            final(self)@ == old(self)@.submit_add_label().state,
            opt_call(call) == old(self)@.submit_add_label().call,
    {
        match self.selected_number() {
            Some(pr_number) => {
                let label = trim(self.input_buffer.as_str());
                if label.as_str().is_empty() {
                    self.fail("Label cannot be empty".to_string());
                    None
                } else {
                    self.busy("Adding label...".to_string());
                    Some(Call::AddLabel { pr_number, label })
                }
            },
            None => None,
        }
    }

    /// Takes the line editor's text as the one to review the selected pull
    /// request.
    pub fn submit_add_reviewer(&mut self) -> (call: Option<Call>)
        ensures
            final(self)@ == old(self)@.submit_add_reviewer().state,
            opt_call(call) == old(self)@.submit_add_reviewer().call,
    {
        match self.selected_number() {
            Some(pr_number) => {
                let reviewer = trim(self.input_buffer.as_str());
                if reviewer.as_str().is_empty() {
                    self.fail("Username cannot be empty".to_string());
                    None
                } else {
                    self.busy("Requesting review...".to_string());
                    Some(Call::AddReviewer { pr_number, reviewer })
                }
            },
            None => None,
        }
    }

    /// Asks for the head branch's name to be copied.
    pub fn copy_branch_to_clipboard(&self) -> (call: Option<Call>)
        ensures
            opt_call(call) == self@.copy_branch_to_clipboard().call,
    {
        match &self.selected_pr {
            Some(pr) => Some(Call::CopyBranch { text: pr.head.ref_name.clone() }),
            None => None,
        }
    }

    /// Asks for the command that checks the head branch out to be copied.
    pub fn copy_checkout_command_to_clipboard(&self) -> (call: Option<Call>)
        ensures
            opt_call(call) == self@.copy_checkout_command_to_clipboard().call,
    {
        match &self.selected_pr {
            Some(pr) => Some(
                Call::CopyText { text: join("git checkout ", pr.head.ref_name.as_str()) },
            ),
            None => None,
        }
    }

    /// Asks for the address of the selected pull request to be copied.
    pub fn copy_pr_url_to_clipboard(&self) -> (call: Option<Call>)
        ensures
            opt_call(call) == self@.copy_pr_url_to_clipboard().call,
    {
        match &self.selected_pr {
            Some(pr) => {
                let mut text = join3("https://github.com/", self.repo.as_str(), "/pull/");
                text.append(decimal_string(pr.number).as_str());
                Some(Call::CopyText { text })
            },
            None => None,
        }
    }

    /// Writes an edit into the selected pull request and into every listed
    /// one of that number, and recomputes the visible list.
    pub fn patch(&mut self, number: u64, patch: &Patch)
        ensures
            final(self)@ == old(self)@.patch(number, patch@),
    {
        let edited = match &self.selected_pr {
            Some(pr) => Some(patch_pr(pr, patch)),
            None => None,
        };
        self.selected_pr = edited;
        self.all_prs = patch_prs(&self.all_prs, number, patch);
        self.apply_pr_filter();
    }

    fn after_approve(&mut self, pr_number: u64, outcome: Result<(), String>, now: u64)
        ensures
            final(self)@ == old(self)@.after_approve(pr_number, outcome_model(outcome), now),
    {
        match outcome {
            Ok(_) => {
                let text = join("Approved PR #", decimal_string(pr_number).as_str());
                self.set_message(text, now);
            },
            Err(e) => {
                self.fail(join("Failed to approve: ", e.as_str()));
            },
        }
        self.idle();
    }

    fn after_merge(&mut self, pr_number: u64, outcome: Result<(), String>, now: u64)
        ensures
            final(self)@ == old(self)@.after_merge(pr_number, outcome_model(outcome), now),
    {
        match outcome {
            Ok(_) => {
                let text = join("Merged PR #", decimal_string(pr_number).as_str());
                self.set_message(text, now);
                self.send(Request::FetchPrs);
            },
            Err(e) => {
                self.fail(join("Failed to merge: ", e.as_str()));
                self.idle();
            },
        }
    }

    fn after_edit_title(
        &mut self,
        pr_number: u64,
        title: String,
        outcome: Result<(), String>,
        now: u64,
    )
        ensures
            final(self)@ == old(self)@.after_edit_title(
                pr_number,
                title@,
                outcome_model(outcome),
                now,
            ),
    {
        match outcome {
            Ok(_) => {
                let text = join3("Updated PR #", decimal_string(pr_number).as_str(), " title");
                self.set_message(text, now);
                self.patch(pr_number, &Patch::Title(title));
            },
            Err(e) => {
                self.fail(join("Failed to update title: ", e.as_str()));
            },
        }
        self.idle();
        self.close_input();
    }

    fn after_add_label(
        &mut self,
        pr_number: u64,
        label: String,
        outcome: Result<(), String>,
        now: u64,
    )
        ensures
            final(self)@ == old(self)@.after_add_label(
                pr_number,
                label@,
                outcome_model(outcome),
                now,
            ),
    {
        match outcome {
            Ok(_) => {
                let mut text = join3("Added label '", label.as_str(), "' to PR #");
                text.append(decimal_string(pr_number).as_str());
                self.set_message(text, now);
                self.patch(pr_number, &Patch::Label(label));
            },
            Err(e) => {
                self.fail(join("Failed to add label: ", e.as_str()));
            },
        }
        self.idle();
        self.close_input();
    }

    fn after_add_reviewer(
        &mut self,
        pr_number: u64,
        reviewer: String,
        outcome: Result<(), String>,
        now: u64,
    )
        ensures
            final(self)@ == old(self)@.after_add_reviewer(
                pr_number,
                reviewer@,
                outcome_model(outcome),
                now,
            ),
    {
        match outcome {
            Ok(_) => {
                let mut text = join3("Requested review from '", reviewer.as_str(), "' on PR #");
                text.append(decimal_string(pr_number).as_str());
                self.set_message(text, now);
                self.patch(pr_number, &Patch::Reviewer(reviewer));
            },
            Err(e) => {
                self.fail(join("Failed to request review: ", e.as_str()));
            },
        }
        self.idle();
        self.close_input();
    }

    fn after_rerun_run(&mut self, name: String, outcome: Result<(), String>, now: u64)
        ensures
            final(self)@ == old(self)@.after_rerun_run(name@, outcome_model(outcome), now),
    {
        match outcome {
            Ok(_) => {
                self.set_message(join("Rerun triggered for ", name.as_str()), now);
                self.send(Request::FetchRuns);
            },
            Err(e) => {
                self.fail(join("Failed to rerun: ", e.as_str()));
            },
        }
        self.idle();
    }

    fn after_rerun_check(&mut self, name: String, outcome: Result<(), String>, now: u64)
        ensures
            final(self)@ == old(self)@.after_rerun_check(name@, outcome_model(outcome), now),
    {
        match outcome {
            Ok(_) => {
                self.set_message(join("Rerun triggered for ", name.as_str()), now);
                let head_sha = match &self.selected_pr {
                    Some(pr) => Some(pr.head.sha.clone()),
                    None => None,
                };
                if let Some(head_sha) = head_sha {
                    self.send(Request::FetchPrChecks { head_sha });
                }
            },
            Err(e) => {
                self.fail(join("Failed to rerun: ", e.as_str()));
            },
        }
        self.idle();
    }

    fn after_copy(&mut self, said: String, copied: bool, now: u64)
        ensures
            final(self)@ == old(self)@.after_copy(said@, copied, now),
    {
        if copied {
            self.set_message(said, now);
        } else {
            self.fail("Failed to copy to clipboard".to_string());
        }
    }

    /// Goes on after a call, given its outcome.
    pub fn finish_call(&mut self, call: Call, outcome: Result<(), String>, now: u64)
        ensures
            final(self)@ == old(self)@.finish_call(call@, outcome_model(outcome), now),
    {
        match call {
            Call::Approve { pr_number } => self.after_approve(pr_number, outcome, now),
            Call::Merge { pr_number } => self.after_merge(pr_number, outcome, now),
            Call::EditTitle { pr_number, title } => self.after_edit_title(
                pr_number,
                title,
                outcome,
                now,
            ),
            Call::AddLabel { pr_number, label } => self.after_add_label(
                pr_number,
                label,
                outcome,
                now,
            ),
            Call::AddReviewer { pr_number, reviewer } => self.after_add_reviewer(
                pr_number,
                reviewer,
                outcome,
                now,
            ),
            Call::RerunRun { run_id, name } => self.after_rerun_run(name, outcome, now),
            Call::RerunCheck { run_id, name } => self.after_rerun_check(name, outcome, now),
            Call::CopyBranch { text } => {
                let said = join("Copied branch: ", text.as_str());
                self.after_copy(said, outcome.is_ok(), now)
            },
            Call::CopyText { text } => {
                let said = join("Copied: ", text.as_str());
                self.after_copy(said, outcome.is_ok(), now)
            },
        }
    }
}

} // verus!
