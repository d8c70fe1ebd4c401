use github_tui::nav::{Focus, KeyCode, KeyPress, PrFilter, Tab};

#[test]
fn filter_cycles_in_fixed_order() {
    assert_eq!(PrFilter::All.next(), PrFilter::Mine);
    assert_eq!(PrFilter::Mine.next(), PrFilter::ReviewRequested);
    assert_eq!(PrFilter::ReviewRequested.next(), PrFilter::All);
    for f in [PrFilter::All, PrFilter::Mine, PrFilter::ReviewRequested] {
        assert_eq!(f.next().next().next(), f);
    }
}

#[test]
fn tabs_cycle_both_ways() {
    assert_eq!(Tab::PRs.next(), Tab::Actions);
    assert_eq!(Tab::Actions.next(), Tab::Logs);
    assert_eq!(Tab::Logs.next(), Tab::PRs);
    for t in [Tab::PRs, Tab::Actions, Tab::Logs] {
        assert_eq!(t.next().previous(), t);
    }
}

#[test]
fn focus_moves_right_and_round() {
    assert_eq!(Focus::List.right(), Focus::Detail);
    assert_eq!(Focus::Detail.right(), Focus::PrChecks);
    assert_eq!(Focus::PrChecks.right(), Focus::PrChecks);
    assert_eq!(Focus::PrChecks.next(), Focus::List);
}

#[test]
fn defaults_are_the_initial_state() {
    assert_eq!(Tab::default(), Tab::PRs);
    assert_eq!(Focus::default(), Focus::List);
    assert_eq!(PrFilter::default(), PrFilter::All);
    assert_eq!(KeyPress::plain(KeyCode::Enter), KeyPress { code: KeyCode::Enter, ctrl: false });
}
