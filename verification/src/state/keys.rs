//! What each key does. The order of the checks is fixed: the interrupt key
//! comes first, then the line editor, then the help overlay, then the keys
//! that work everywhere, then the keys of the current tab.
use crate::nav::{DiffMode, Focus, InputMode, KeyCode, KeyPress, Screen, Tab};
use crate::state::app::App;
use crate::state::model::{
    done, lines_down, lines_up, scroll_down, scroll_up, AppModel, Step, INPUT_LIMIT,
};
use crate::state::request::{opt_call, Call};
use crate::text::{count_lines, spec_lines};
use vstd::prelude::*;
use vstd::string::*;
use vstd::utf8::encode_utf8;

verus! {

/// A step that closes the line editor unless a call is still to be made,
/// which then closes it when it is answered.
pub open spec fn closing(step: Step) -> Step {
    if step.call.is_some() {
        step
    } else {
        done(step.state.close_input())
    }
}

impl AppModel {
    /// With the quit flag set.
    pub open spec fn quit(self) -> AppModel {
        AppModel { should_quit: true, ..self }
    }

    /// With another pane in focus.
    pub open spec fn with_focus(self, focus: Focus) -> AppModel {
        AppModel { focus, ..self }
    }

    /// On another screen of the same tab.
    pub open spec fn with_screen(self, screen: Screen) -> AppModel {
        AppModel { screen, ..self }
    }

    /// With the help overlay open or closed.
    pub open spec fn with_help(self, show_help: bool) -> AppModel {
        AppModel { show_help, ..self }
    }

    /// On another tab, at its list.
    pub open spec fn switch_tab(self, tab: Tab) -> AppModel {
        AppModel { tab, screen: Screen::List, ..self }
    }

    /// On the pull-request tab, at its list, with the list in focus.
    pub open spec fn go_to_prs(self) -> AppModel {
        AppModel { tab: Tab::PRs, screen: Screen::List, focus: Focus::List, ..self }
    }

    /// On the logs tab, whatever it showed last.
    pub open spec fn go_to_logs(self) -> AppModel {
        AppModel { tab: Tab::Logs, ..self }
    }

    /// With the diff scrolled down by `by` lines.
    pub open spec fn scroll_diff_down(self, by: u16) -> AppModel {
        AppModel { diff_scroll: scroll_down(self.diff_scroll, by), ..self }
    }

    /// With the diff scrolled up by `by` lines.
    pub open spec fn scroll_diff_up(self, by: u16) -> AppModel {
        AppModel { diff_scroll: scroll_up(self.diff_scroll, by), ..self }
    }

    /// With the log scrolled down by `by` lines.
    pub open spec fn scroll_log_down(self, by: usize) -> AppModel {
        AppModel { log_scroll: lines_down(self.log_scroll, by), ..self }
    }

    /// With the log scrolled up by `by` lines.
    pub open spec fn scroll_log_up(self, by: usize) -> AppModel {
        AppModel { log_scroll: lines_up(self.log_scroll, by), ..self }
    }

    /// With the log panned `by` columns to the right.
    pub open spec fn pan_log_right(self, by: u16) -> AppModel {
        AppModel { log_h_scroll: scroll_down(self.log_h_scroll, by), ..self }
    }

    /// With the log panned `by` columns to the left.
    pub open spec fn pan_log_left(self, by: u16) -> AppModel {
        AppModel { log_h_scroll: scroll_up(self.log_h_scroll, by), ..self }
    }

    /// With the line editor open in `mode` under a prompt.
    pub open spec fn start_input(self, mode: InputMode, prompt: Seq<char>) -> AppModel {
        (AppModel { input_mode: Some(mode), ..self }).ask(prompt)
    }

    /// With the line editor open for something that needs a selected pull
    /// request; without one nothing changes.
    pub open spec fn start_input_on_pr(self, mode: InputMode, prompt: Seq<char>) -> AppModel {
        if self.selected_pr.is_some() {
            self.start_input(mode, prompt)
        } else {
            self
        }
    }

    /// With the line editor open on the title of the selected pull request.
    pub open spec fn start_edit_title(self) -> AppModel {
        match self.selected_pr {
            Some(pr) => (AppModel { input_buffer: pr.title, ..self }).start_input(
                InputMode::EditTitle,
                "Edit PR title:"@,
            ),
            None => self,
        }
    }

    /// Down in the pane in focus.
    pub open spec fn pr_down(self) -> AppModel {
        match self.focus {
            Focus::List => self.next_pr(),
            Focus::Detail => self.scroll_diff_down(1),
            Focus::PrChecks => self.next_pr_check(),
        }
    }

    /// Up in the pane in focus.
    pub open spec fn pr_up(self) -> AppModel {
        match self.focus {
            Focus::List => self.previous_pr(),
            Focus::Detail => self.scroll_diff_up(1),
            Focus::PrChecks => self.previous_pr_check(),
        }
    }

    /// Enter: from the list, the detail of the pull request under the
    /// cursor; from the checks, the jobs of the check under the cursor.
    pub open spec fn pr_enter(self) -> AppModel {
        match self.focus {
            Focus::List => AppModel {
                screen: Screen::Detail,
                focus: Focus::Detail,
                ..self.select_pr()
            },
            Focus::Detail => self,
            Focus::PrChecks => self.view_pr_check_jobs(),
        }
    }

    /// Escape: from the detail back to the list.
    pub open spec fn pr_escape(self) -> AppModel {
        if self.screen == Screen::Detail {
            AppModel { screen: Screen::List, focus: Focus::List, ..self }
        } else {
            self
        }
    }

    /// The whole diff of the selected pull request, from its top.
    pub open spec fn show_diff(self) -> AppModel {
        if self.selected_pr.is_some() {
            AppModel { screen: Screen::Diff, diff_scroll: 0, ..self }
        } else {
            self
        }
    }

    /// One commit back and its diff, while commits are shown one by one.
    pub open spec fn commit_back(self) -> AppModel {
        if self.diff_mode == DiffMode::ByCommit {
            self.previous_commit().load_selected_commit_diff()
        } else {
            self
        }
    }

    /// One commit on and its diff, while commits are shown one by one.
    pub open spec fn commit_forward(self) -> AppModel {
        if self.diff_mode == DiffMode::ByCommit {
            self.next_commit().load_selected_commit_diff()
        } else {
            self
        }
    }

    /// The jobs of the run under the cursor.
    pub open spec fn open_run(self) -> AppModel {
        self.select_run().with_screen(Screen::Jobs)
    }

    /// The logs of the job under the cursor.
    pub open spec fn open_logs(self) -> AppModel {
        self.fetch_logs().go_to_logs()
    }

    /// The log from its top left corner.
    pub open spec fn logs_top(self) -> AppModel {
        AppModel { log_scroll: 0, log_h_scroll: 0, ..self }
    }

    /// The log twenty lines before its end.
    pub open spec fn logs_bottom(self) -> AppModel {
        AppModel {
            log_scroll: lines_up(spec_lines(self.logs).len() as usize, 20),
            ..self
        }
    }

    /// The log from its first column.
    pub open spec fn logs_home(self) -> AppModel {
        AppModel { log_h_scroll: 0, ..self }
    }

    /// Back to the actions tab, the search forgotten.
    pub open spec fn leave_logs(self) -> AppModel {
        AppModel { tab: Tab::Actions, log_search: None, log_matches: Seq::empty(), ..self }
    }

    /// The line editor's text without its last character.
    pub open spec fn erase(self) -> AppModel {
        AppModel {
            input_buffer: if self.input_buffer.len() > 0 {
                self.input_buffer.drop_last()
            } else {
                self.input_buffer
            },
            ..self
        }
    }

    /// The line editor's text with one more character, unless it is full.
    pub open spec fn type_char(self, c: char) -> AppModel {
        if encode_utf8(self.input_buffer).len() < INPUT_LIMIT {
            AppModel { input_buffer: self.input_buffer.push(c), ..self }
        } else {
            self
        }
    }

    /// The line editor's text taken as the query, and the matches found.
    pub open spec fn submit_search(self) -> AppModel {
        (AppModel { log_search: Some(self.input_buffer), ..self }).find_log_matches()
    }

    /// Enter in the line editor: the text goes to what the editor was
    /// opened for, and the editor closes.
    pub open spec fn submit(self, mode: InputMode, now: u64) -> Step {
        match mode {
            InputMode::Search => done(self.submit_search().close_input()),
            InputMode::Comment => done(self.notify("Comment submitted"@, now).close_input()),
            InputMode::EditTitle => closing(self.submit_edit_title()),
            InputMode::AddLabel => closing(self.submit_add_label()),
            InputMode::AddReviewer => closing(self.submit_add_reviewer()),
        }
    }

    /// A key while the line editor is open: every key goes to the editor.
    pub open spec fn input_key(self, mode: InputMode, code: KeyCode, now: u64) -> Step {
        match code {
            KeyCode::Esc => done(self.close_input()),
            KeyCode::Enter => self.submit(mode, now),
            KeyCode::Backspace => done(self.erase()),
            KeyCode::Char(c) => done(self.type_char(c)),
            _ => done(self),
        }
    }

    /// A key while the help overlay is open: only closing it works.
    pub open spec fn help_key(self, code: KeyCode) -> AppModel {
        if code == KeyCode::Esc || code == KeyCode::Char('?') {
            self.with_help(false)
        } else {
            self
        }
    }

    /// A key that works on every tab, or `None` where the key is not one.
    pub open spec fn global_key(self, code: KeyCode, now: u64) -> Option<AppModel> {
        match code {
            KeyCode::Char(c) => if c == 'q' {
                Some(self.quit())
            } else if c == '?' {
                Some(self.with_help(true))
            } else if c == '1' {
                Some(self.go_to_prs())
            } else if c == '2' {
                Some(self.switch_tab(Tab::Actions))
            } else if c == '3' {
                Some(self.go_to_logs())
            } else if c == 'r' {
                Some(self.refresh())
            } else if c == 'n' && self.tab == Tab::PRs && self.screen == Screen::List {
                Some(self.create_pr(now))
            } else {
                None
            },
            KeyCode::Tab => Some(self.switch_tab(self.tab.spec_next())),
            KeyCode::BackTab => Some(self.switch_tab(self.tab.spec_previous())),
            _ => None,
        }
    }

    /// A letter on the list or the detail of the pull-request tab.
    pub open spec fn pr_char(self, c: char, now: u64) -> Step {
        if c == 'j' {
            done(self.pr_down())
        } else if c == 'k' {
            done(self.pr_up())
        } else if c == 'h' {
            done(self.with_focus(Focus::List))
        } else if c == 'l' {
            done(self.with_focus(self.focus.spec_right()))
        } else if c == 'o' {
            done(self.with_focus(self.focus.spec_next()))
        } else if c == 'd' {
            done(self.show_diff())
        } else if c == 'v' {
            self.approve_pr()
        } else if c == 'x' {
            done(self.start_input(InputMode::Comment, "Enter comment for request changes:"@))
        } else if c == 'c' {
            done(self.start_input(InputMode::Comment, "Enter comment:"@))
        } else if c == 'm' {
            self.merge_pr()
        } else if c == 'C' {
            done(self.checkout_pr())
        } else if c == 'f' {
            done(self.cycle_filter())
        } else if c == 'R' {
            self.rerun_pr_check()
        } else if c == 'L' {
            done(self.view_pr_check_jobs())
        } else if c == 'e' {
            done(self.start_edit_title())
        } else if c == 'a' {
            done(self.start_input_on_pr(InputMode::AddReviewer, "Request review from (username):"@))
        } else if c == 'b' {
            done(self.start_input_on_pr(InputMode::AddLabel, "Add label:"@))
        } else if c == 'w' {
            done(self.open_pr_in_browser(now))
        } else if c == 'y' {
            self.copy_branch_to_clipboard()
        } else if c == 'Y' {
            self.copy_checkout_command_to_clipboard()
        } else if c == 'u' {
            self.copy_pr_url_to_clipboard()
        } else if c == 'p' {
            done(self.toggle_diff_mode(now))
        } else if c == '[' {
            done(self.commit_back())
        } else if c == ']' {
            done(self.commit_forward())
        } else {
            done(self)
        }
    }

    /// A key on the list or the detail of the pull-request tab.
    pub open spec fn pr_list_key(self, code: KeyCode, now: u64) -> Step {
        match code {
            KeyCode::Char(c) => self.pr_char(c, now),
            KeyCode::Down => done(self.pr_down()),
            KeyCode::Up => done(self.pr_up()),
            KeyCode::Left => done(self.with_focus(Focus::List)),
            KeyCode::Right => done(self.with_focus(self.focus.spec_right())),
            KeyCode::Enter => done(self.pr_enter()),
            KeyCode::Esc => done(self.pr_escape()),
            _ => done(self),
        }
    }

    /// A key on the whole diff.
    pub open spec fn pr_diff_key(self, code: KeyCode) -> AppModel {
        match code {
            KeyCode::Char(c) => if c == 'j' {
                self.scroll_diff_down(1)
            } else if c == 'k' {
                self.scroll_diff_up(1)
            } else if c == 'q' {
                self.with_screen(Screen::Detail)
            } else {
                self
            },
            KeyCode::Down => self.scroll_diff_down(1),
            KeyCode::Up => self.scroll_diff_up(1),
            KeyCode::PageDown => self.scroll_diff_down(20),
            KeyCode::PageUp => self.scroll_diff_up(20),
            KeyCode::Esc => self.with_screen(Screen::Detail),
            _ => self,
        }
    }

    /// A key on the pull-request tab.
    pub open spec fn handle_pr_keys(self, code: KeyCode, now: u64) -> Step {
        match self.screen {
            Screen::List => self.pr_list_key(code, now),
            Screen::Detail => self.pr_list_key(code, now),
            Screen::Diff => done(self.pr_diff_key(code)),
            Screen::Jobs => done(self),
        }
    }

    /// A key on the list of runs.
    pub open spec fn runs_key(self, code: KeyCode) -> Step {
        match code {
            KeyCode::Char(c) => if c == 'j' {
                done(self.next_run())
            } else if c == 'k' {
                done(self.previous_run())
            } else if c == 'R' {
                self.rerun_workflow()
            } else {
                done(self)
            },
            KeyCode::Down => done(self.next_run()),
            KeyCode::Up => done(self.previous_run()),
            KeyCode::Enter => done(self.open_run()),
            _ => done(self),
        }
    }

    /// A key on the jobs of a run.
    pub open spec fn jobs_key(self, code: KeyCode) -> Step {
        match code {
            KeyCode::Char(c) => if c == 'j' {
                done(self.next_job())
            } else if c == 'k' {
                done(self.previous_job())
            } else if c == 'L' {
                done(self.open_logs())
            } else if c == 'R' {
                self.rerun_workflow()
            } else {
                done(self)
            },
            KeyCode::Down => done(self.next_job()),
            KeyCode::Up => done(self.previous_job()),
            KeyCode::Enter => done(self.open_logs()),
            KeyCode::Esc => done(self.with_screen(Screen::List)),
            _ => done(self),
        }
    }

    /// A key on the actions tab.
    pub open spec fn handle_actions_keys(self, code: KeyCode) -> Step {
        match self.screen {
            Screen::List => self.runs_key(code),
            Screen::Jobs => self.jobs_key(code),
            _ => done(self),
        }
    }

    /// A key on the logs tab.
    pub open spec fn handle_logs_keys(self, code: KeyCode) -> AppModel {
        match code {
            KeyCode::Char(c) => if c == 'j' {
                self.scroll_log_down(1)
            } else if c == 'k' {
                self.scroll_log_up(1)
            } else if c == 'h' {
                self.pan_log_left(10)
            } else if c == 'l' {
                self.pan_log_right(10)
            } else if c == 'g' {
                self.logs_top()
            } else if c == 'G' {
                self.logs_bottom()
            } else if c == '0' {
                self.logs_home()
            } else if c == '/' {
                self.start_input(InputMode::Search, "Search:"@)
            } else if c == 'n' {
                self.next_log_match()
            } else if c == 'N' {
                self.prev_log_match()
            } else {
                self
            },
            KeyCode::Down => self.scroll_log_down(1),
            KeyCode::Up => self.scroll_log_up(1),
            KeyCode::PageDown => self.scroll_log_down(20),
            KeyCode::PageUp => self.scroll_log_up(20),
            KeyCode::Esc => self.leave_logs(),
            _ => self,
        }
    }

    /// A key that belongs to the current tab.
    pub open spec fn tab_key(self, code: KeyCode, now: u64) -> Step {
        match self.tab {
            Tab::PRs => self.handle_pr_keys(code, now),
            Tab::Actions => self.handle_actions_keys(code),
            Tab::Logs => done(self.handle_logs_keys(code)),
        }
    }

    /// What a key press does, in the fixed order of precedence.
    pub open spec fn handle_key(self, key: KeyPress, now: u64) -> Step {
        if key.is_interrupt() {
            done(self.quit())
        } else {
            match self.input_mode {
                Some(mode) => self.input_key(mode, key.code, now),
                None => if self.show_help {
                    done(self.help_key(key.code))
                } else {
                    match self.global_key(key.code, now) {
                        Some(next) => done(next),
                        None => self.tab_key(key.code, now),
                    }
                },
            }
        }
    }
}

impl App {
    fn quit(&mut self)
        ensures
            final(self)@ == old(self)@.quit(),
    {
        self.should_quit = true;
    }

    fn set_focus(&mut self, focus: Focus)
        ensures
            final(self)@ == old(self)@.with_focus(focus),
    {
        self.focus = focus;
    }

    fn set_screen(&mut self, screen: Screen)
        ensures
            final(self)@ == old(self)@.with_screen(screen),
    {
        self.screen = screen;
    }

    fn set_help(&mut self, show_help: bool)
        ensures
            final(self)@ == old(self)@.with_help(show_help),
    {
        self.show_help = show_help;
    }

    fn switch_tab(&mut self, tab: Tab)
        ensures
            final(self)@ == old(self)@.switch_tab(tab),
    {
        self.tab = tab;
        self.screen = Screen::List;
    }

    fn go_to_prs(&mut self)
        ensures
            final(self)@ == old(self)@.go_to_prs(),
    {
        self.tab = Tab::PRs;
        self.screen = Screen::List;
        self.focus = Focus::List;
    }

    fn go_to_logs(&mut self)
        ensures
            final(self)@ == old(self)@.go_to_logs(),
    {
        self.tab = Tab::Logs;
    }

    fn scroll_diff_down(&mut self, by: u16)
        ensures
            final(self)@ == old(self)@.scroll_diff_down(by),
    {
        self.diff_scroll = self.diff_scroll.saturating_add(by);
    }

    fn scroll_diff_up(&mut self, by: u16)
        ensures
            final(self)@ == old(self)@.scroll_diff_up(by),
    {
        self.diff_scroll = self.diff_scroll.saturating_sub(by);
    }

    fn scroll_log_down(&mut self, by: usize)
        ensures
            final(self)@ == old(self)@.scroll_log_down(by),
    {
        self.log_scroll = self.log_scroll.saturating_add(by);
    }

    fn scroll_log_up(&mut self, by: usize)
        ensures
            final(self)@ == old(self)@.scroll_log_up(by),
    {
        self.log_scroll = self.log_scroll.saturating_sub(by);
    }

    fn pan_log_right(&mut self, by: u16)
        ensures
            final(self)@ == old(self)@.pan_log_right(by),
    {
        self.log_h_scroll = self.log_h_scroll.saturating_add(by);
    }

    fn pan_log_left(&mut self, by: u16)
        ensures
            final(self)@ == old(self)@.pan_log_left(by),
    {
        self.log_h_scroll = self.log_h_scroll.saturating_sub(by);
    }

    fn start_input(&mut self, mode: InputMode, prompt: &str)
        ensures
            final(self)@ == old(self)@.start_input(mode, prompt@),
    {
        self.input_mode = Some(mode);
        self.ask(prompt);
    }

    fn start_input_on_pr(&mut self, mode: InputMode, prompt: &str)
        ensures
            final(self)@ == old(self)@.start_input_on_pr(mode, prompt@),
    {
        if self.selected_pr.is_some() {
            self.start_input(mode, prompt);
        }
    }

    fn start_edit_title(&mut self)
        ensures
            final(self)@ == old(self)@.start_edit_title(),
    {
        let title = match &self.selected_pr {
            Some(pr) => Some(pr.title.clone()),
            None => None,
        };
        if let Some(title) = title {
            self.input_buffer = title;
            self.start_input(InputMode::EditTitle, "Edit PR title:");
        }
    }

    fn pr_down(&mut self)
        ensures
            final(self)@ == old(self)@.pr_down(),
    {
        match self.focus {
            Focus::List => self.next_pr(),
            Focus::Detail => self.scroll_diff_down(1),
            Focus::PrChecks => self.next_pr_check(),
        }
    }

    fn pr_up(&mut self)
        ensures
            final(self)@ == old(self)@.pr_up(),
    {
        match self.focus {
            Focus::List => self.previous_pr(),
            Focus::Detail => self.scroll_diff_up(1),
            Focus::PrChecks => self.previous_pr_check(),
        }
    }

    fn pr_enter(&mut self)
        ensures
            final(self)@ == old(self)@.pr_enter(),
    {
        match self.focus {
            Focus::List => {
                self.select_pr();
                self.screen = Screen::Detail;
                self.focus = Focus::Detail;
            },
            Focus::Detail => {},
            Focus::PrChecks => self.view_pr_check_jobs(),
        }
    }

    fn pr_escape(&mut self)
        ensures
            final(self)@ == old(self)@.pr_escape(),
    {
        if self.screen == Screen::Detail {
            self.screen = Screen::List;
            self.focus = Focus::List;
        }
    }

    fn show_diff(&mut self)
        ensures
            final(self)@ == old(self)@.show_diff(),
    {
        if self.selected_pr.is_some() {
            self.screen = Screen::Diff;
            self.diff_scroll = 0;
        }
    }

    fn commit_back(&mut self)
        ensures
            final(self)@ == old(self)@.commit_back(),
    {
        if self.diff_mode == DiffMode::ByCommit {
            self.previous_commit();
            self.load_selected_commit_diff();
        }
    }

    fn commit_forward(&mut self)
        ensures
            final(self)@ == old(self)@.commit_forward(),
    {
        if self.diff_mode == DiffMode::ByCommit {
            self.next_commit();
            self.load_selected_commit_diff();
        }
    }

    fn open_run(&mut self)
        ensures
            final(self)@ == old(self)@.open_run(),
    {
        self.select_run();
        self.set_screen(Screen::Jobs);
    }

    fn open_logs(&mut self)
        ensures
            final(self)@ == old(self)@.open_logs(),
    {
        self.fetch_logs();
        self.go_to_logs();
    }

    fn logs_top(&mut self)
        ensures
            final(self)@ == old(self)@.logs_top(),
    {
        self.log_scroll = 0;
        self.log_h_scroll = 0;
    }

    fn logs_bottom(&mut self)
        ensures
            final(self)@ == old(self)@.logs_bottom(),
    {
        let lines = count_lines(self.logs.as_str());
        self.log_scroll = lines.saturating_sub(20);
    }

    fn logs_home(&mut self)
        ensures
            final(self)@ == old(self)@.logs_home(),
    {
        self.log_h_scroll = 0;
    }

    fn leave_logs(&mut self)
        ensures
            final(self)@ == old(self)@.leave_logs(),
    {
        self.tab = Tab::Actions;
        self.log_search = None;
        self.log_matches = Vec::new();
    }

    fn erase(&mut self)
        ensures
            final(self)@ == old(self)@.erase(),
    {
        let _ = self.input_buffer.pop();
    }

    fn type_char(&mut self, c: char)
        ensures
            final(self)@ == old(self)@.type_char(c),
    {
        if self.input_buffer.as_str().as_bytes().len() < INPUT_LIMIT {
            self.input_buffer.push(c);
        }
    }

    fn submit_search(&mut self)
        ensures
            final(self)@ == old(self)@.submit_search(),
    {
        self.log_search = Some(self.input_buffer.clone());
        self.find_log_matches();
    }

    /// Closes the line editor unless a call is still to be made.
    fn close_unless_calling(&mut self, call: Option<Call>) -> (r: Option<Call>)
        ensures
            (Step { state: final(self)@, call: opt_call(r) }) == closing(
                Step { state: old(self)@, call: opt_call(call) },
            ),
    {
        if call.is_none() {
            self.close_input();
        }
        call
    }

    fn submit(&mut self, mode: InputMode, now: u64) -> (call: Option<Call>)
        ensures
            (Step { state: final(self)@, call: opt_call(call) }) == old(self)@.submit(mode, now),
    {
        match mode {
            InputMode::Search => {
                self.submit_search();
                self.close_input();
                None
            },
            InputMode::Comment => {
                self.set_message("Comment submitted".to_string(), now);
                self.close_input();
                None
            },
            InputMode::EditTitle => {
                let call = self.submit_edit_title();
                self.close_unless_calling(call)
            },
            InputMode::AddLabel => {
                let call = self.submit_add_label();
                self.close_unless_calling(call)
            },
            InputMode::AddReviewer => {
                let call = self.submit_add_reviewer();
                self.close_unless_calling(call)
            },
        }
    }

    fn input_key(&mut self, mode: InputMode, code: KeyCode, now: u64) -> (call: Option<Call>)
        ensures
            (Step { state: final(self)@, call: opt_call(call) }) == old(self)@.input_key(
                mode,
                code,
                now,
            ),
    {
        match code {
            KeyCode::Esc => {
                self.close_input();
                None
            },
            KeyCode::Enter => self.submit(mode, now),
            KeyCode::Backspace => {
                self.erase();
                None
            },
            KeyCode::Char(c) => {
                self.type_char(c);
                None
            },
            _ => None,
        }
    }

    fn help_key(&mut self, code: KeyCode)
        ensures
            final(self)@ == old(self)@.help_key(code),
    {
        match code {
            KeyCode::Esc | KeyCode::Char('?') => self.set_help(false),
            _ => {},
        }
    }

    /// Handles a key that works on every tab, and says whether it was one.
    fn global_key(&mut self, code: KeyCode, now: u64) -> (handled: bool)
        ensures
            handled == old(self)@.global_key(code, now).is_some(),
            handled ==> Some(final(self)@) == old(self)@.global_key(code, now),
            !handled ==> final(self)@ == old(self)@,
    {
        match code {
            KeyCode::Char('q') => {
                self.quit();
                true
            },
            KeyCode::Char('?') => {
                self.set_help(true);
                true
            },
            KeyCode::Char('1') => {
                self.go_to_prs();
                true
            },
            KeyCode::Char('2') => {
                self.switch_tab(Tab::Actions);
                true
            },
            KeyCode::Char('3') => {
                self.go_to_logs();
                true
            },
            KeyCode::Char('r') => {
                self.refresh();
                true
            },
            KeyCode::Tab => {
                self.switch_tab(self.tab.next());
                true
            },
            KeyCode::BackTab => {
                self.switch_tab(self.tab.previous());
                true
            },
            KeyCode::Char('n') => {
                if self.tab == Tab::PRs && self.screen == Screen::List {
                    self.create_pr(now);
                    true
                } else {
                    false
                }
            },
            _ => false,
        }
    }
}

impl App {
    fn pr_char(&mut self, c: char, now: u64) -> (call: Option<Call>)
        ensures
            (Step { state: final(self)@, call: opt_call(call) }) == old(self)@.pr_char(c, now),
    {
        match c {
            'j' => self.pr_down(),
            'k' => self.pr_up(),
            'h' => self.set_focus(Focus::List),
            'l' => self.set_focus(self.focus.right()),
            'o' => self.set_focus(self.focus.next()),
            'd' => self.show_diff(),
            'v' => {
                return self.approve_pr();
            },
            'x' => self.start_input(InputMode::Comment, "Enter comment for request changes:"),
            'c' => self.start_input(InputMode::Comment, "Enter comment:"),
            'm' => {
                return self.merge_pr();
            },
            'C' => self.checkout_pr(),
            'f' => self.cycle_filter(),
            'R' => {
                return self.rerun_pr_check();
            },
            'L' => self.view_pr_check_jobs(),
            'e' => self.start_edit_title(),
            'a' => self.start_input_on_pr(InputMode::AddReviewer, "Request review from (username):"),
            'b' => self.start_input_on_pr(InputMode::AddLabel, "Add label:"),
            'w' => self.open_pr_in_browser(now),
            'y' => {
                return self.copy_branch_to_clipboard();
            },
            'Y' => {
                return self.copy_checkout_command_to_clipboard();
            },
            'u' => {
                return self.copy_pr_url_to_clipboard();
            },
            'p' => self.toggle_diff_mode(now),
            '[' => self.commit_back(),
            ']' => self.commit_forward(),
            _ => {},
        }
        None
    }

    fn pr_list_key(&mut self, code: KeyCode, now: u64) -> (call: Option<Call>)
        ensures
            (Step { state: final(self)@, call: opt_call(call) }) == old(self)@.pr_list_key(
                code,
                now,
            ),
    {
        match code {
            KeyCode::Char(c) => {
                return self.pr_char(c, now);
            },
            KeyCode::Down => self.pr_down(),
            KeyCode::Up => self.pr_up(),
            KeyCode::Left => self.set_focus(Focus::List),
            KeyCode::Right => self.set_focus(self.focus.right()),
            KeyCode::Enter => self.pr_enter(),
            KeyCode::Esc => self.pr_escape(),
            _ => {},
        }
        None
    }

    fn pr_diff_key(&mut self, code: KeyCode)
        ensures
            final(self)@ == old(self)@.pr_diff_key(code),
    {
        match code {
            KeyCode::Char('j') | KeyCode::Down => self.scroll_diff_down(1),
            KeyCode::Char('k') | KeyCode::Up => self.scroll_diff_up(1),
            KeyCode::PageDown => self.scroll_diff_down(20),
            KeyCode::PageUp => self.scroll_diff_up(20),
            KeyCode::Esc | KeyCode::Char('q') => self.set_screen(Screen::Detail),
            _ => {},
        }
    }

    /// Handles a key on the pull-request tab.
    pub fn handle_pr_keys(&mut self, code: KeyCode, now: u64) -> (call: Option<Call>)
        ensures
            final(self)@ == old(self)@.handle_pr_keys(code, now).state,
            opt_call(call) == old(self)@.handle_pr_keys(code, now).call,
    {
        match self.screen {
            Screen::List | Screen::Detail => self.pr_list_key(code, now),
            Screen::Diff => {
                self.pr_diff_key(code);
                None
            },
            Screen::Jobs => None,
        }
    }

    fn runs_key(&mut self, code: KeyCode) -> (call: Option<Call>)
        ensures
            (Step { state: final(self)@, call: opt_call(call) }) == old(self)@.runs_key(code),
    {
        match code {
            KeyCode::Char('j') | KeyCode::Down => self.next_run(),
            KeyCode::Char('k') | KeyCode::Up => self.previous_run(),
            KeyCode::Enter => self.open_run(),
            KeyCode::Char('R') => {
                return self.rerun_workflow();
            },
            _ => {},
        }
        None
    }

    fn jobs_key(&mut self, code: KeyCode) -> (call: Option<Call>)
        ensures
            (Step { state: final(self)@, call: opt_call(call) }) == old(self)@.jobs_key(code),
    {
        match code {
            KeyCode::Char('j') | KeyCode::Down => self.next_job(),
            KeyCode::Char('k') | KeyCode::Up => self.previous_job(),
            KeyCode::Enter | KeyCode::Char('L') => self.open_logs(),
            KeyCode::Esc => self.set_screen(Screen::List),
            KeyCode::Char('R') => {
                return self.rerun_workflow();
            },
            _ => {},
        }
        None
    }

    /// Handles a key on the actions tab.
    pub fn handle_actions_keys(&mut self, code: KeyCode) -> (call: Option<Call>)
        ensures
            final(self)@ == old(self)@.handle_actions_keys(code).state,
            opt_call(call) == old(self)@.handle_actions_keys(code).call,
    {
        match self.screen {
            Screen::List => self.runs_key(code),
            Screen::Jobs => self.jobs_key(code),
            _ => None,
        }
    }

    /// Handles a key on the logs tab.
    pub fn handle_logs_keys(&mut self, code: KeyCode)
        ensures
            final(self)@ == old(self)@.handle_logs_keys(code),
    {
        match code {
            KeyCode::Char('j') | KeyCode::Down => self.scroll_log_down(1),
            KeyCode::Char('k') | KeyCode::Up => self.scroll_log_up(1),
            KeyCode::Char('h') => self.pan_log_left(10),
            KeyCode::Char('l') => self.pan_log_right(10),
            KeyCode::PageDown => self.scroll_log_down(20),
            KeyCode::PageUp => self.scroll_log_up(20),
            KeyCode::Char('g') => self.logs_top(),
            KeyCode::Char('G') => self.logs_bottom(),
            KeyCode::Char('0') => self.logs_home(),
            KeyCode::Char('/') => self.start_input(InputMode::Search, "Search:"),
            KeyCode::Char('n') => self.next_log_match(),
            KeyCode::Char('N') => self.prev_log_match(),
            KeyCode::Esc => self.leave_logs(),
            _ => {},
        }
    }

    fn tab_key(&mut self, code: KeyCode, now: u64) -> (call: Option<Call>)
        ensures
            (Step { state: final(self)@, call: opt_call(call) }) == old(self)@.tab_key(code, now),
    {
        match self.tab {
            Tab::PRs => self.handle_pr_keys(code, now),
            Tab::Actions => self.handle_actions_keys(code),
            Tab::Logs => {
                self.handle_logs_keys(code);
                None
            },
        }
    }

    /// Handles a key press. Where it returns a call, the caller makes that
    /// call and hands its outcome to `finish_call` before anything else.
    pub fn handle_key(&mut self, key: KeyPress, now: u64) -> (call: Option<Call>)
        ensures
            final(self)@ == old(self)@.handle_key(key, now).state,
            opt_call(call) == old(self)@.handle_key(key, now).call,
    {
        if key.ctrl && key.code == KeyCode::Char('c') {
            self.quit();
            return None;
        }
        if let Some(mode) = self.input_mode {
            return self.input_key(mode, key.code, now);
        }
        if self.show_help {
            self.help_key(key.code);
            return None;
        }
        if self.global_key(key.code, now) {
            return None;
        }
        self.tab_key(key.code, now)
    }
}

} // verus!
