//! What holds of the state core whatever messages arrive and whatever
//! filter is chosen.
use crate::nav::{DiffMode, Focus, KeyCode, KeyPress, PrFilter, Screen, Tab};
use crate::state::messages::{apply_messages, batch_of, settle, Batch, MsgModel};
use crate::state::model::AppModel;
use vstd::prelude::*;

verus! {

/// The parts of the state that messages write, and the part that no message
/// writes.
pub enum Slot {
    /// Tab, overlays, line editor, filter, names, search and selected run.
    Untouched,
    /// Screen and pane in focus.
    Place,
    User,
    /// The full list of pull requests and the pending number to open.
    AllPrs,
    /// The visible list and its cursor.
    Visible,
    /// The selected pull request and the diff mode.
    Selection,
    Diff,
    DiffScroll,
    Checks,
    Reviews,
    Commits,
    CommitDiff,
    Runs,
    Jobs,
    Logs,
    Loading,
    Error,
    Status,
    Outbox,
}

/// Whether two states agree on a slot.
pub open spec fn same_slot(a: AppModel, b: AppModel, slot: Slot) -> bool {
    match slot {
        Slot::Untouched => {
            &&& a.tab == b.tab
            &&& a.show_help == b.show_help
            &&& a.should_quit == b.should_quit
            &&& a.input_mode == b.input_mode
            &&& a.input_buffer == b.input_buffer
            &&& a.pr_filter == b.pr_filter
            &&& a.repo == b.repo
            &&& a.owner == b.owner
            &&& a.repo_name == b.repo_name
            &&& a.log_search == b.log_search
            &&& a.log_matches == b.log_matches
            &&& a.log_match_index == b.log_match_index
            &&& a.selected_run == b.selected_run
        },
        Slot::Place => a.screen == b.screen && a.focus == b.focus,
        Slot::User => a.current_user == b.current_user,
        Slot::AllPrs => a.all_prs == b.all_prs && a.initial_pr == b.initial_pr,
        Slot::Visible => a.prs == b.prs && a.pr_cursor == b.pr_cursor,
        Slot::Selection => a.selected_pr == b.selected_pr && a.diff_mode == b.diff_mode,
        Slot::Diff => a.pr_diff == b.pr_diff,
        Slot::DiffScroll => a.diff_scroll == b.diff_scroll,
        Slot::Checks => a.pr_checks == b.pr_checks && a.pr_checks_cursor == b.pr_checks_cursor,
        Slot::Reviews => a.pr_reviews == b.pr_reviews,
        Slot::Commits => a.pr_commits == b.pr_commits && a.pr_commits_cursor
            == b.pr_commits_cursor,
        Slot::CommitDiff => a.commit_diff == b.commit_diff,
        Slot::Runs => a.runs == b.runs && a.run_cursor == b.run_cursor,
        Slot::Jobs => a.jobs == b.jobs && a.job_cursor == b.job_cursor,
        Slot::Logs => a.logs == b.logs && a.log_scroll == b.log_scroll && a.log_h_scroll
            == b.log_h_scroll,
        Slot::Loading => a.loading == b.loading && a.loading_what == b.loading_what,
        Slot::Error => a.error == b.error,
        Slot::Status => a.status_message == b.status_message,
        Slot::Outbox => a.outbox == b.outbox,
    }
}

/// Whether a message owns a slot, that is, may write it. The list of pull
/// requests owns more than its own slot: its arrival recomputes the visible
/// list and may open the pending pull request, which selects it, clears
/// what was loaded for the one before and asks for its parts.
pub open spec fn owns(m: MsgModel, slot: Slot) -> bool {
    match m {
        MsgModel::UserLoaded(_) => slot is User || slot is Visible,
        MsgModel::PrsLoaded(_) => {
            ||| slot is AllPrs
            ||| slot is Visible
            ||| slot is Loading
            ||| slot is Place
            ||| slot is Selection
            ||| slot is DiffScroll
            ||| slot is Checks
            ||| slot is Reviews
            ||| slot is Commits
            ||| slot is CommitDiff
            ||| slot is Error
            ||| slot is Outbox
        },
        MsgModel::RunsLoaded(_) => slot is Runs,
        MsgModel::DiffLoaded(_) => slot is Diff || slot is Loading,
        MsgModel::PrChecksLoaded(_) => slot is Checks,
        MsgModel::ReviewsLoaded(_) => slot is Reviews,
        MsgModel::JobsLoaded(_) => slot is Jobs || slot is Loading,
        MsgModel::LogsLoaded(_) => slot is Logs || slot is Loading,
        MsgModel::CommitsLoaded(_) => slot is Commits,
        MsgModel::CommitDiffLoaded(_) => slot is CommitDiff || slot is DiffScroll || slot
            is Loading,
        MsgModel::Error(_) => slot is Error || slot is Loading,
        MsgModel::Message(_) => slot is Status,
    }
}

/// Whether no message of a batch owns a slot.
pub open spec fn none_owns(messages: Seq<MsgModel>, slot: Slot) -> bool {
    forall|i: int| 0 <= i < messages.len() ==> !owns(#[trigger] messages[i], slot)
}

/// One message leaves every slot that it does not own as it was.
pub proof fn lemma_message_keeps_other_slots(s: AppModel, m: MsgModel, now: u64, slot: Slot)
    requires
        !owns(m, slot),
    ensures
        same_slot(s.take(m, now), s, slot),
{
}

proof fn lemma_batch_keeps(b: Batch, messages: Seq<MsgModel>, now: u64, slot: Slot)
    requires
        none_owns(messages, slot),
    ensures
        same_slot(apply_messages(b, messages, now).state, b.state, slot),
    decreases messages.len(),
{
    if messages.len() > 0 {
        let front = messages.drop_last();
        assert forall|i: int| 0 <= i < front.len() implies !owns(#[trigger] front[i], slot) by {
            assert(front[i] == messages[i]);
        }
        lemma_batch_keeps(b, front, now, slot);
        let mid = apply_messages(b, front, now);
        assert(!owns(messages[messages.len() - 1], slot));
        lemma_message_keeps_other_slots(mid.state, messages.last(), now, slot);
    }
}

proof fn lemma_no_prs_no_select(b: Batch, messages: Seq<MsgModel>, now: u64)
    requires
        forall|i: int| 0 <= i < messages.len() ==> !(#[trigger] messages[i] is PrsLoaded),
    ensures
        apply_messages(b, messages, now).needs_select == b.needs_select,
        apply_messages(b, messages, now).needs_filter ==> b.needs_filter || exists|i: int|
            0 <= i < messages.len() && #[trigger] messages[i] is UserLoaded,
    decreases messages.len(),
{
    if messages.len() > 0 {
        let front = messages.drop_last();
        assert forall|i: int| 0 <= i < front.len() implies !(#[trigger] front[i] is PrsLoaded) by {
            assert(front[i] == messages[i]);
        }
        lemma_no_prs_no_select(b, front, now);
        assert(!(messages[messages.len() - 1] is PrsLoaded));
        if apply_messages(b, messages, now).needs_filter && !b.needs_filter {
            if messages.last() is UserLoaded {
                assert(messages[messages.len() - 1] is UserLoaded);
            } else {
                let i = choose|i: int| 0 <= i < front.len() && #[trigger] front[i] is UserLoaded;
                assert(messages[i] is UserLoaded);
            }
        }
    }
}

/// A batch of messages, in whatever order they come, leaves every slot
/// that none of them owns as it was: a message never disturbs what belongs
/// to another.
pub proof fn lemma_batch_keeps_other_slots(
    s: AppModel,
    messages: Seq<MsgModel>,
    now: u64,
    slot: Slot,
)
    requires
        none_owns(messages, slot),
    ensures
        same_slot(s.process_async_messages(messages, now), s, slot),
{
    let b = apply_messages(batch_of(s), messages, now);
    lemma_batch_keeps(batch_of(s), messages, now, slot);
    if exists|i: int| 0 <= i < messages.len() && #[trigger] messages[i] is PrsLoaded {
        // The list of pull requests owns every slot that settling can
        // write, so the slot is one that settling leaves alone.
        let i = choose|i: int| 0 <= i < messages.len() && #[trigger] messages[i] is PrsLoaded;
        assert(!owns(messages[i], slot));
        lemma_settle_keeps(b, slot);
    } else {
        lemma_no_prs_no_select(batch_of(s), messages, now);
        if b.needs_filter {
            let i = choose|i: int| 0 <= i < messages.len() && #[trigger] messages[i] is UserLoaded;
            assert(!owns(messages[i], slot));
        }
    }
}

proof fn lemma_settle_keeps(b: Batch, slot: Slot)
    requires
        !owns(MsgModel::PrsLoaded(Seq::empty()), slot),
    ensures
        same_slot(settle(b), b.state, slot),
{
}

/// A message taken in twice in a row leaves the state that it left the
/// first time: taking a message in is idempotent.
pub proof fn lemma_message_idempotent(s: AppModel, m: MsgModel, now: u64)
    ensures
        s.take(m, now).take(m, now) == s.take(m, now),
{
}

/// Applying a filter a second time changes nothing: the visible list and
/// its cursor are already what the filter makes of the full list.
pub proof fn lemma_filter_idempotent(s: AppModel)
    ensures
        s.apply_pr_filter().apply_pr_filter() == s.apply_pr_filter(),
{
}

/// Three steps through the filters lead back to the filter one started
/// from, and the visible list is then what that filter shows.
pub proof fn lemma_filter_cycle(s: AppModel)
    ensures
        s.cycle_filter().pr_filter == s.pr_filter.spec_next(),
        s.cycle_filter().cycle_filter().cycle_filter().pr_filter == s.pr_filter,
        s.cycle_filter().cycle_filter().cycle_filter().prs == s.apply_pr_filter().prs,
        PrFilter::All.spec_next() == PrFilter::Mine,
        PrFilter::Mine.spec_next() == PrFilter::ReviewRequested,
        PrFilter::ReviewRequested.spec_next() == PrFilter::All,
{
    s.pr_filter.lemma_cycle();
}

/// What a filter shows is a part of the full list, and every pull request
/// it shows passes the filter for the user.
pub proof fn lemma_visible_pass(s: AppModel, i: int)
    requires
        0 <= i < s.apply_pr_filter().prs.len(),
    ensures
        s.all_prs.contains(s.apply_pr_filter().prs[i]),
        s.current_user matches Some(user) ==> crate::state::model::passes(
            s.pr_filter,
            user,
            s.apply_pr_filter().prs[i],
        ),
{
    match (s.pr_filter, s.current_user) {
        (PrFilter::All, _) => {
            assert(s.all_prs[i] == s.apply_pr_filter().prs[i]);
        },
        (_, None) => {
            assert(s.all_prs[i] == s.apply_pr_filter().prs[i]);
        },
        (_, Some(user)) => {
            let pred = crate::state::model::passing(s.pr_filter, user);
            let shown = s.all_prs.filter(pred);
            s.all_prs.lemma_filter_pred(pred, i);
            assert(shown.contains(shown[i]));
            s.all_prs.lemma_filter_contains_rev(pred, shown[i]);
        },
    }
}

/// The state after `steps` steps forward through the matches.
pub open spec fn after_next_matches(s: AppModel, steps: nat) -> AppModel
    decreases steps,
{
    if steps == 0 {
        s
    } else {
        after_next_matches(s, (steps - 1) as nat).next_log_match()
    }
}

proof fn lemma_walk_matches(s: AppModel, steps: nat)
    requires
        s.log_matches.len() > 0,
    ensures
        after_next_matches(s, steps).log_matches == s.log_matches,
        after_next_matches(s, steps).log_match_index == crate::search::walk_forward(
            s.log_match_index,
            s.log_matches.len() as usize,
            steps,
        ),
    decreases steps,
{
    if steps > 0 {
        lemma_walk_matches(s, (steps - 1) as nat);
    }
}

/// With `n` matches and the walk on one of them, `n` steps forward lead
/// back to the match the walk started on, and one step back from the first
/// match leads to the last. Without matches neither step changes anything.
pub proof fn lemma_match_walk_comes_round(s: AppModel)
    requires
        s.log_matches.len() <= usize::MAX,
        s.log_match_index < s.log_matches.len(),
    ensures
        after_next_matches(s, s.log_matches.len()).log_match_index == s.log_match_index,
        after_next_matches(s, s.log_matches.len()).log_matches == s.log_matches,
        s.log_match_index == 0 ==> s.prev_log_match().log_match_index == s.log_matches.len() - 1,
        s.next_log_match().prev_log_match().log_match_index == s.log_match_index,
{
    let n = s.log_matches.len() as usize;
    lemma_walk_matches(s, n as nat);
    crate::search::lemma_next_comes_round(s.log_match_index, n);
    crate::search::lemma_previous_wraps(s.log_match_index, n);
}

/// Without matches, stepping through them changes nothing.
pub proof fn lemma_no_matches_no_step(s: AppModel)
    requires
        s.log_matches.len() == 0,
    ensures
        s.next_log_match() == s,
        s.prev_log_match() == s,
{
}

/// The interrupt key quits from every state, whatever overlay is open.
pub proof fn lemma_interrupt_comes_first(s: AppModel, key: KeyPress, now: u64)
    requires
        key.is_interrupt(),
    ensures
        s.handle_key(key, now).state == s.quit(),
        s.handle_key(key, now).call.is_none(),
{
}

/// While the line editor is open, no key but the interrupt key reaches the
/// navigation: tab, screen, pane, filter, help overlay and quit flag stay
/// as they are.
pub proof fn lemma_line_editor_captures_keys(s: AppModel, key: KeyPress, now: u64)
    requires
        !key.is_interrupt(),
        s.input_mode.is_some(),
    ensures
        ({
            let after = s.handle_key(key, now).state;
            &&& after.tab == s.tab
            &&& after.screen == s.screen
            &&& after.focus == s.focus
            &&& after.pr_filter == s.pr_filter
            &&& after.show_help == s.show_help
            &&& after.should_quit == s.should_quit
        }),
{
}

/// While the help overlay is open and the line editor is not, a key can
/// close the overlay and do nothing else.
pub proof fn lemma_help_swallows_keys(s: AppModel, key: KeyPress, now: u64)
    requires
        !key.is_interrupt(),
        s.input_mode.is_none(),
        s.show_help,
    ensures
        s.handle_key(key, now).call.is_none(),
        s.handle_key(key, now).state == s || s.handle_key(key, now).state == s.with_help(false),
        s.handle_key(key, now).state == s.with_help(false) <==> key.code == KeyCode::Esc
            || key.code == KeyCode::Char('?'),
{
}

/// The starting state is the list of pull requests with the list in focus,
/// every pull request shown, the whole diff chosen and no overlay open.
pub proof fn lemma_initial_state(repo: Seq<char>)
    ensures
        ({
            let s = AppModel::initial(repo);
            &&& s.tab == Tab::PRs
            &&& s.screen == Screen::List
            &&& s.focus == Focus::List
            &&& s.pr_filter == PrFilter::All
            &&& s.diff_mode == DiffMode::Full
            &&& s.input_mode.is_none()
            &&& !s.show_help
            &&& !s.should_quit
        }),
{
}

/// A turn of the event loop that brings no message for the status line
/// clears a notification that has expired and leaves every other status
/// message as it is: a prompt stays however late it is. A message for the
/// status line that arrives in the turn puts its own notification there
/// instead.
pub proof fn lemma_turn_clears_expired_notification(
    s: AppModel,
    messages: Seq<MsgModel>,
    now: u64,
)
    requires
        none_owns(messages, Slot::Status),
    ensures
        s.begin_turn(messages, now).status_message == (match s.status_message {
            Some(m) => if m.is_expired(now) {
                None
            } else {
                Some(m)
            },
            None => None,
        }),
        s.status_message matches Some(m) && m is Prompt ==> s.begin_turn(
            messages,
            now,
        ).status_message == s.status_message,
{
    lemma_batch_keeps_other_slots(s, messages, now, Slot::Status);
}

} // verus!
