//! The navigation state: which tab, screen and pane are shown, which filter
//! and diff mode apply, and the keys that move between them.
use vstd::prelude::*;

verus! {

/// The top-level tabs.
#[derive(Clone, Copy, PartialEq, Eq, Structural, Debug)]
pub enum Tab {
    PRs,
    Actions,
    Logs,
}

impl Tab {
    /// The tab after this one: pull requests, actions, logs, and round again.
    pub open spec fn spec_next(self) -> Tab {
        match self {
            Tab::PRs => Tab::Actions,
            Tab::Actions => Tab::Logs,
            Tab::Logs => Tab::PRs,
        }
    }

    /// The tab before this one.
    pub open spec fn spec_previous(self) -> Tab {
        match self {
            Tab::PRs => Tab::Logs,
            Tab::Actions => Tab::PRs,
            Tab::Logs => Tab::Actions,
        }
    }

    /// The tab after this one.
    pub fn next(self) -> (r: Tab)
        ensures
            r == self.spec_next(),
    {
        match self {
            Tab::PRs => Tab::Actions,
            Tab::Actions => Tab::Logs,
            Tab::Logs => Tab::PRs,
        }
    }

    /// The tab before this one.
    pub fn previous(self) -> (r: Tab)
        ensures
            r == self.spec_previous(),
    {
        match self {
            Tab::PRs => Tab::Logs,
            Tab::Actions => Tab::PRs,
            Tab::Logs => Tab::Actions,
        }
    }
}

impl Default for Tab {
    fn default() -> (r: Tab)
        ensures
            r == Tab::PRs,
    {
        Tab::PRs
    }
}

/// What a tab shows. Under the pull-request tab, detail and diff are views
/// of the selected pull request; under the actions tab, jobs is the
/// drill-down into a run.
#[derive(Clone, Copy, PartialEq, Eq, Structural, Debug)]
pub enum Screen {
    List,
    Detail,
    Diff,
    Jobs,
}

impl Default for Screen {
    fn default() -> (r: Screen)
        ensures
            r == Screen::List,
    {
        Screen::List
    }
}

/// The pane of the pull-request tab that takes the keys.
#[derive(Clone, Copy, PartialEq, Eq, Structural, Debug)]
pub enum Focus {
    List,
    Detail,
    PrChecks,
}

impl Focus {
    /// The pane after this one: list, detail, checks, and round again.
    pub open spec fn spec_next(self) -> Focus {
        match self {
            Focus::List => Focus::Detail,
            Focus::Detail => Focus::PrChecks,
            Focus::PrChecks => Focus::List,
        }
    }

    /// The pane to the right, where there is one.
    pub open spec fn spec_right(self) -> Focus {
        match self {
            Focus::List => Focus::Detail,
            Focus::Detail => Focus::PrChecks,
            Focus::PrChecks => Focus::PrChecks,
        }
    }

    /// The pane after this one.
    pub fn next(self) -> (r: Focus)
        ensures
            r == self.spec_next(),
    {
        match self {
            Focus::List => Focus::Detail,
            Focus::Detail => Focus::PrChecks,
            Focus::PrChecks => Focus::List,
        }
    }

    /// The pane to the right, where there is one.
    pub fn right(self) -> (r: Focus)
        ensures
            r == self.spec_right(),
    {
        match self {
            Focus::List => Focus::Detail,
            Focus::Detail => Focus::PrChecks,
            Focus::PrChecks => Focus::PrChecks,
        }
    }
}

impl Default for Focus {
    fn default() -> (r: Focus)
        ensures
            r == Focus::List,
    {
        Focus::List
    }
}

/// Which pull requests the list shows.
#[derive(Clone, Copy, PartialEq, Eq, Structural, Debug)]
pub enum PrFilter {
    All,
    Mine,
    ReviewRequested,
}

impl PrFilter {
    /// The filter after this one: all, mine, review requested, and round
    /// again.
    pub open spec fn spec_next(self) -> PrFilter {
        match self {
            PrFilter::All => PrFilter::Mine,
            PrFilter::Mine => PrFilter::ReviewRequested,
            PrFilter::ReviewRequested => PrFilter::All,
        }
    }

    /// The filter after this one.
    pub fn next(self) -> (r: PrFilter)
        ensures
            r == self.spec_next(),
    {
        match self {
            PrFilter::All => PrFilter::Mine,
            PrFilter::Mine => PrFilter::ReviewRequested,
            PrFilter::ReviewRequested => PrFilter::All,
        }
    }

    /// Three steps through the filters lead back to the start, and fewer do
    /// not.
    pub proof fn lemma_cycle(self)
        ensures
            self.spec_next().spec_next().spec_next() == self,
            self.spec_next() != self,
            self.spec_next().spec_next() != self,
            PrFilter::All.spec_next() == PrFilter::Mine,
            PrFilter::Mine.spec_next() == PrFilter::ReviewRequested,
            PrFilter::ReviewRequested.spec_next() == PrFilter::All,
    {
    }
}

impl Default for PrFilter {
    fn default() -> (r: PrFilter)
        ensures
            r == PrFilter::All,
    {
        PrFilter::All
    }
}

/// Whether the detail pane shows the whole diff or one commit at a time.
#[derive(Clone, Copy, PartialEq, Eq, Structural, Debug)]
pub enum DiffMode {
    Full,
    ByCommit,
}

impl Default for DiffMode {
    fn default() -> (r: DiffMode)
        ensures
            r == DiffMode::Full,
    {
        DiffMode::Full
    }
}

/// What the line editor is collecting while it captures the keys.
#[derive(Clone, Copy, PartialEq, Eq, Structural, Debug)]
pub enum InputMode {
    Search,
    Comment,
    EditTitle,
    AddLabel,
    AddReviewer,
}

/// The keys that the state core tells apart.
#[derive(Clone, Copy, PartialEq, Eq, Structural, Debug)]
pub enum KeyCode {
    Char(char),
    Enter,
    Esc,
    Backspace,
    Tab,
    BackTab,
    Up,
    Down,
    Left,
    Right,
    PageUp,
    PageDown,
    Other,
}

/// A key press: the key and whether Control was held.
#[derive(Clone, Copy, PartialEq, Eq, Structural, Debug)]
pub struct KeyPress {
    pub code: KeyCode,
    pub ctrl: bool,
}

impl KeyPress {
    /// A key pressed without Control.
    pub fn plain(code: KeyCode) -> (r: KeyPress)
        ensures
            r == (KeyPress { code, ctrl: false }),
    {
        KeyPress { code, ctrl: false }
    }

    /// Whether this is the interrupt key, Control with `c`.
    pub open spec fn is_interrupt(self) -> bool {
        self.ctrl && self.code == KeyCode::Char('c')
    }
}

} // verus!
