//! The life of the state core: how it starts, what one turn of the event
//! loop does to it, and what the footer shows of it.
use crate::nav::{DiffMode, Focus, KeyPress, PrFilter, Screen, Tab};
use crate::state::app::App;
use crate::state::messages::{messages_model, AsyncMsg, MsgModel};
use crate::state::model::{done, AppModel, Step};
use crate::state::request::{opt_call, Call, Request, RequestModel};
use crate::text::{chars_of, spec_split, split_chars, string_of};
use vstd::prelude::*;
use vstd::string::*;

verus! {

/// The owner and the repository that stand in for a name that is not of the
/// form `owner/repo`.
pub open spec fn fallback_name() -> Seq<char> {
    "shopsys"@
}

/// The owner and the repository in a name of the form `owner/repo`; any
/// other name gives the fallback for both.
pub open spec fn spec_repo_parts(repo: Seq<char>) -> (Seq<char>, Seq<char>) {
    let parts = spec_split(repo, '/');
    if parts.len() == 2 {
        (parts[0], parts[1])
    } else {
        (fallback_name(), fallback_name())
    }
}

/// Splits a repository name into owner and repository.
pub fn repo_parts(repo: &str) -> (r: (String, String))
    ensures
        (r.0@, r.1@) == spec_repo_parts(repo@),
{
    let chars = chars_of(repo);
    let parts = split_chars(&chars, '/');
    assert(parts@.map_values(|p: Vec<char>| p@).len() == parts.len());
    if parts.len() == 2 {
        assert(parts@.map_values(|p: Vec<char>| p@)[0] == parts@[0]@);
        assert(parts@.map_values(|p: Vec<char>| p@)[1] == parts@[1]@);
        (string_of(&parts[0]), string_of(&parts[1]))
    } else {
        ("shopsys".to_string(), "shopsys".to_string())
    }
}

/// What the event loop hands to the state core after it has drawn.
#[derive(Debug, PartialEq, Eq)]
pub enum Event {
    /// The timer fired; with it come the messages that had arrived by then.
    Tick(Vec<AsyncMsg>),
    Key(KeyPress),
    /// The terminal changed its size. Only drawing cares.
    Resize(u16, u16),
}

/// The model of `Event`: texts as sequences of characters, lists as sequences of
/// models.
pub enum EventModel {
    Tick(Seq<MsgModel>),
    Key(KeyPress),
    Resize(u16, u16),
}

impl View for Event {
    type V = EventModel;

    open spec fn view(&self) -> EventModel {
        match self {
            Event::Tick(messages) => EventModel::Tick(messages_model(messages@)),
            Event::Key(key) => EventModel::Key(*key),
            Event::Resize(w, h) => EventModel::Resize(*w, *h),
        }
    }
}

/// What the footer shows.
#[derive(Debug, PartialEq, Eq)]
pub enum Footer {
    Error(String),
    Status(String),
    Hint(&'static str),
}

/// The model of `Footer`: texts as sequences of characters, lists as sequences of
/// models.
pub enum FooterModel {
    Error(Seq<char>),
    Status(Seq<char>),
    Hint(Seq<char>),
}

impl View for Footer {
    type V = FooterModel;

    open spec fn view(&self) -> FooterModel {
        match self {
            Footer::Error(text) => FooterModel::Error(text@),
            Footer::Status(text) => FooterModel::Status(text@),
            Footer::Hint(text) => FooterModel::Hint(text@),
        }
    }
}

impl AppModel {
    /// The state of a dashboard that has just been made for a repository.
    pub open spec fn initial(repo: Seq<char>) -> AppModel {
        AppModel {
            tab: Tab::PRs,
            screen: Screen::List,
            focus: Focus::List,
            repo,
            owner: spec_repo_parts(repo).0,
            repo_name: spec_repo_parts(repo).1,
            current_user: None,
            all_prs: Seq::empty(),
            prs: Seq::empty(),
            pr_cursor: None,
            selected_pr: None,
            pr_diff: None,
            pr_filter: PrFilter::All,
            diff_scroll: 0,
            pr_checks: Seq::empty(),
            pr_checks_cursor: None,
            pr_reviews: Seq::empty(),
            diff_mode: DiffMode::Full,
            pr_commits: Seq::empty(),
            pr_commits_cursor: None,
            commit_diff: None,
            runs: Seq::empty(),
            run_cursor: None,
            selected_run: None,
            jobs: Seq::empty(),
            job_cursor: None,
            logs: Seq::empty(),
            log_scroll: 0,
            log_h_scroll: 0,
            log_search: None,
            log_matches: Seq::empty(),
            log_match_index: 0,
            loading: false,
            loading_what: None,
            error: None,
            status_message: None,
            should_quit: false,
            show_help: false,
            input_mode: None,
            input_buffer: Seq::empty(),
            initial_pr: None,
            outbox: Seq::empty(),
        }
    }

    /// The first fetches: who is signed in, the pull requests, the runs.
    pub open spec fn start(self) -> AppModel {
        self.busy("Loading PRs and workflows..."@).send(RequestModel::FetchCurrentUser).send(
            RequestModel::FetchPrs,
        ).send(RequestModel::FetchRuns)
    }

    /// A turn of the event loop up to drawing: the messages that have
    /// arrived are taken in, then a notification that has expired is
    /// cleared.
    pub open spec fn begin_turn(self, messages: Seq<MsgModel>, now: u64) -> AppModel {
        self.process_async_messages(messages, now).expire_status(now)
    }

    /// The rest of a turn: what the event does. A tick brings messages, a
    /// key is handled, a change of size leaves the state alone.
    pub open spec fn handle_event(self, event: EventModel, now: u64) -> Step {
        match event {
            EventModel::Tick(messages) => done(self.process_async_messages(messages, now)),
            EventModel::Key(key) => self.handle_key(key, now),
            EventModel::Resize(_, _) => done(self),
        }
    }

    /// With the outbox emptied.
    pub open spec fn drained(self) -> AppModel {
        AppModel { outbox: Seq::empty(), ..self }
    }

    /// The keys that the footer lists when there is nothing else to show.
    pub open spec fn hint(self) -> Seq<char> {
        match self.tab {
            Tab::PRs => if self.screen == Screen::Diff {
                "j/k:scroll  PgUp/PgDn:fast  Esc:back  ?:help  q:quit"@
            } else {
                match self.focus {
                    Focus::List => if self.selected_pr.is_some() {
                        "j/k:nav  Enter:detail  o:focus  f:filter  n:new PR  r:refresh  ?:help  q:quit"@
                    } else {
                        "j/k:nav  f:filter  n:new PR  r:refresh  ?:help  q:quit"@
                    },
                    Focus::Detail => match self.diff_mode {
                        DiffMode::Full => "j/k:scroll  p:commits  v:approve  m:merge  e:title  a:request review  b:label  d:diff  ?:help"@,
                        DiffMode::ByCommit => "j/k:scroll  [/]:prev/next commit  p:full diff  v:approve  m:merge  ?:help"@,
                    },
                    Focus::PrChecks => "j/k:nav  Enter/L:jobs  R:rerun  o:focus  ?:help  q:quit"@,
                }
            },
            Tab::Actions => if self.screen == Screen::Jobs {
                "j/k:nav  Enter/L:logs  R:rerun  Esc:back  ?:help  q:quit"@
            } else {
                "j/k:nav  Enter:jobs  R:rerun  r:refresh  ?:help  q:quit"@
            },
            Tab::Logs => "j/k:scroll  h/l:pan  g/G:top/bottom  /:search  n/N:match  Esc:back  ?:help  q:quit"@,
        }
    }

    /// What the footer shows: the error if there is one, else the status
    /// message if there is one, else the keys of the current place.
    pub open spec fn footer(self) -> FooterModel {
        match self.error {
            Some(text) => FooterModel::Error(text),
            None => match self.status_message {
                Some(m) => FooterModel::Status(m.text()),
                None => FooterModel::Hint(self.hint()),
            },
        }
    }
}

impl App {
    /// A dashboard for a repository, with nothing loaded yet.
    pub fn new(repo: String) -> (app: App)
        ensures
            app@ == AppModel::initial(repo@),
    {
        let (owner, repo_name) = repo_parts(repo.as_str());
        let app = App {
            tab: Tab::PRs,
            screen: Screen::List,
            focus: Focus::List,
            repo,
            owner,
            repo_name,
            current_user: None,
            all_prs: Vec::new(),
            prs: Vec::new(),
            pr_cursor: None,
            selected_pr: None,
            pr_diff: None,
            pr_filter: PrFilter::All,
            diff_scroll: 0,
            pr_checks: Vec::new(),
            pr_checks_cursor: None,
            pr_reviews: Vec::new(),
            diff_mode: DiffMode::Full,
            pr_commits: Vec::new(),
            pr_commits_cursor: None,
            commit_diff: None,
            runs: Vec::new(),
            run_cursor: None,
            selected_run: None,
            jobs: Vec::new(),
            job_cursor: None,
            logs: String::new(),
            log_scroll: 0,
            log_h_scroll: 0,
            log_search: None,
            log_matches: Vec::new(),
            log_match_index: 0,
            loading: false,
            loading_what: None,
            error: None,
            status_message: None,
            should_quit: false,
            show_help: false,
            input_mode: None,
            input_buffer: String::new(),
            initial_pr: None,
            outbox: Vec::new(),
        };
        proof {
            let m = AppModel::initial(repo@);
            assert(app@.all_prs =~= m.all_prs);
            assert(app@.prs =~= m.prs);
            assert(app@.pr_checks =~= m.pr_checks);
            assert(app@.pr_reviews =~= m.pr_reviews);
            assert(app@.pr_commits =~= m.pr_commits);
            assert(app@.runs =~= m.runs);
            assert(app@.jobs =~= m.jobs);
            assert(app@.log_matches =~= m.log_matches);
            assert(app@.outbox =~= m.outbox);
        }
        app
    }

    /// Asks for what the dashboard shows first.
    pub fn start(&mut self)
        ensures
            final(self)@ == old(self)@.start(),
    {
        self.busy("Loading PRs and workflows...".to_string());
        self.send(Request::FetchCurrentUser);
        self.send(Request::FetchPrs);
        self.send(Request::FetchRuns);
    }

    /// Does the part of a turn that comes before drawing.
    pub fn begin_turn(&mut self, messages: Vec<AsyncMsg>, now: u64)
        ensures
            final(self)@ == old(self)@.begin_turn(messages_model(messages@), now),
    {
        self.process_async_messages(messages, now);
        self.expire_status(now);
    }

    /// Does what an event asks for. Where it returns a call, the caller
    /// makes that call and hands its outcome to `finish_call` before
    /// anything else.
    pub fn handle_event(&mut self, event: Event, now: u64) -> (call: Option<Call>)
        ensures
            final(self)@ == old(self)@.handle_event(event@, now).state,
            opt_call(call) == old(self)@.handle_event(event@, now).call,
    {
        match event {
            Event::Tick(messages) => {
                self.process_async_messages(messages, now);
                None
            },
            Event::Key(key) => self.handle_key(key, now),
            Event::Resize(_, _) => None,
        }
    }

    /// Hands out the requests decided on since the last time, oldest first.
    pub fn take_requests(&mut self) -> (requests: Vec<Request>)
        ensures
            crate::state::request::requests_model(requests@) == old(self)@.outbox,
            final(self)@ == old(self)@.drained(),
    {
        let mut requests: Vec<Request> = Vec::new();
        core::mem::swap(&mut requests, &mut self.outbox);
        assert(crate::state::request::requests_model(self.outbox@) =~= Seq::empty());
        requests
    }

    fn hint(&self) -> (r: &'static str)
        ensures
            r@ == self@.hint(),
    {
        match self.tab {
            Tab::PRs => {
                if self.screen == Screen::Diff {
                    "j/k:scroll  PgUp/PgDn:fast  Esc:back  ?:help  q:quit"
                } else {
                    match self.focus {
                        Focus::List => {
                            if self.selected_pr.is_some() {
                                "j/k:nav  Enter:detail  o:focus  f:filter  n:new PR  r:refresh  ?:help  q:quit"
                            } else {
                                "j/k:nav  f:filter  n:new PR  r:refresh  ?:help  q:quit"
                            }
                        },
                        Focus::Detail => match self.diff_mode {
                            DiffMode::Full => "j/k:scroll  p:commits  v:approve  m:merge  e:title  a:request review  b:label  d:diff  ?:help",
                            DiffMode::ByCommit => "j/k:scroll  [/]:prev/next commit  p:full diff  v:approve  m:merge  ?:help",
                        },
                        Focus::PrChecks => "j/k:nav  Enter/L:jobs  R:rerun  o:focus  ?:help  q:quit",
                    }
                }
            },
            Tab::Actions => {
                if self.screen == Screen::Jobs {
                    "j/k:nav  Enter/L:logs  R:rerun  Esc:back  ?:help  q:quit"
                } else {
                    "j/k:nav  Enter:jobs  R:rerun  r:refresh  ?:help  q:quit"
                }
            },
            Tab::Logs => "j/k:scroll  h/l:pan  g/G:top/bottom  /:search  n/N:match  Esc:back  ?:help  q:quit",
        }
    }

    /// What the footer shows. An error hides a status message; both hide
    /// the list of keys.
    pub fn footer(&self) -> (r: Footer)
        ensures
            r@ == self@.footer(),
    {
        match &self.error {
            Some(text) => Footer::Error(text.clone()),
            None => match &self.status_message {
                Some(m) => Footer::Status(m.text().to_string()),
                None => Footer::Hint(self.hint()),
            },
        }
    }
}

} // verus!
