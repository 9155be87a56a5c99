use modsearch::catalog::{CatalogEntry, LookupError};
use modsearch::session::{
    is_printable, transition, Key, Mode, SessionState, TerminationSignal, Transition,
    DEBOUNCE_MS, POLL_INTERVAL_MS,
};

fn entry(id: &str, title: &str) -> CatalogEntry {
    CatalogEntry::new(id.to_string(), title.to_string(), String::from("about"), 1)
}

fn session_with(results: Vec<CatalogEntry>) -> SessionState {
    let mut state = SessionState::new(0);
    state.complete_lookup(Ok(results));
    state
}

fn three() -> Vec<CatalogEntry> {
    vec![entry("a", "Alpha"), entry("b", "Beta"), entry("c", "Gamma")]
}

#[test]
fn new_session_starts_in_navigate_with_a_pending_lookup() {
    let state = SessionState::new(1234);
    assert_eq!(state.mode, Mode::Navigate);
    assert_eq!(state.query, "");
    assert!(state.results.is_empty());
    assert_eq!(state.selection, 0);
    assert_eq!(state.selected(), None);
    assert_eq!(state.pending_since, Some(1234));
    assert_eq!(state.last_error, None);
}

#[test]
fn constants_have_their_fixed_values() {
    assert_eq!(DEBOUNCE_MS, 400);
    assert_eq!(POLL_INTERVAL_MS, 16);
}

#[test]
fn transition_table_in_navigate_mode() {
    assert_eq!(transition(Mode::Navigate, Key::Char('q')), Transition::Quit);
    assert_eq!(transition(Mode::Navigate, Key::Char('f')), Transition::EnterEdit);
    assert_eq!(transition(Mode::Navigate, Key::Char('j')), Transition::SelectNext);
    assert_eq!(transition(Mode::Navigate, Key::Char('k')), Transition::SelectPrevious);
    assert_eq!(transition(Mode::Navigate, Key::Char('x')), Transition::Ignore);
    assert_eq!(transition(Mode::Navigate, Key::Char('Q')), Transition::Ignore);
    assert_eq!(transition(Mode::Navigate, Key::Backspace), Transition::Ignore);
    assert_eq!(transition(Mode::Navigate, Key::Esc), Transition::Ignore);
    assert_eq!(transition(Mode::Navigate, Key::Other), Transition::Ignore);
}

#[test]
fn transition_table_in_edit_mode() {
    assert_eq!(transition(Mode::Edit, Key::Char('q')), Transition::Append('q'));
    assert_eq!(transition(Mode::Edit, Key::Char('f')), Transition::Append('f'));
    assert_eq!(transition(Mode::Edit, Key::Char(' ')), Transition::Append(' '));
    assert_eq!(transition(Mode::Edit, Key::Char('é')), Transition::Append('é'));
    assert_eq!(transition(Mode::Edit, Key::Char('\u{7}')), Transition::Ignore);
    assert_eq!(transition(Mode::Edit, Key::Backspace), Transition::DeleteLast);
    assert_eq!(transition(Mode::Edit, Key::Esc), Transition::LeaveEdit);
    assert_eq!(transition(Mode::Edit, Key::Other), Transition::Ignore);
}

#[test]
fn printable_leaves_out_the_control_characters() {
    assert!(!is_printable('\u{0}'));
    assert!(!is_printable('\u{1f}'));
    assert!(is_printable(' '));
    assert!(is_printable('~'));
    assert!(!is_printable('\u{7f}'));
    assert!(!is_printable('\u{9f}'));
    assert!(is_printable('\u{a0}'));
    assert!(is_printable('q'));
    assert!(is_printable('\u{10ffff}'));
}

#[test]
fn selection_stays_in_range_for_every_move_sequence() {
    let moves = ['j', 'k'];
    for len in 1..4usize {
        for code in 0..(1u32 << 8) {
            let mut state = session_with(three().into_iter().take(len).collect());
            for step in 0..8 {
                let key = moves[((code >> step) & 1) as usize];
                assert_eq!(state.dispatch(Key::Char(key), 5), None);
                assert!(state.selection < state.results.len());
                assert_eq!(state.selected(), Some(state.selection));
            }
        }
    }
}

#[test]
fn moving_up_at_the_first_entry_stays_there() {
    let mut state = session_with(three());
    assert_eq!(state.selection, 0);
    assert_eq!(state.dispatch(Key::Char('k'), 1), None);
    assert_eq!(state.selection, 0);
    assert_eq!(state.dispatch(Key::Char('k'), 2), None);
    assert_eq!(state.selection, 0);
}

#[test]
fn moving_down_stops_at_the_last_entry() {
    let mut state = session_with(three());
    state.dispatch(Key::Char('j'), 1);
    assert_eq!(state.selection, 1);
    state.dispatch(Key::Char('j'), 2);
    assert_eq!(state.selection, 2);
    state.dispatch(Key::Char('j'), 3);
    assert_eq!(state.selection, 2);
    state.dispatch(Key::Char('k'), 4);
    assert_eq!(state.selection, 1);
}

#[test]
fn moves_on_an_empty_list_select_nothing() {
    let mut state = SessionState::new(0);
    state.dispatch(Key::Char('j'), 1);
    assert_eq!(state.selection, 0);
    assert_eq!(state.selected(), None);
    state.dispatch(Key::Char('k'), 2);
    assert_eq!(state.selection, 0);
    assert_eq!(state.selected(), None);
}

#[test]
fn moves_bring_a_stray_selection_back_into_the_list() {
    let mut state = session_with(three());
    state.selection = 9;
    assert_eq!(state.selected(), Some(2));
    state.dispatch(Key::Char('j'), 1);
    assert_eq!(state.selection, 2);
    state.selection = 9;
    state.dispatch(Key::Char('k'), 2);
    assert_eq!(state.selection, 1);
    state.results.clear();
    state.selection = 4;
    state.dispatch(Key::Char('k'), 3);
    assert_eq!(state.selection, 0);
}

#[test]
fn moves_leave_query_and_pending_edit_alone() {
    let mut state = session_with(three());
    state.dispatch(Key::Char('j'), 7);
    assert_eq!(state.query, "");
    assert_eq!(state.pending_since, None);
    assert_eq!(state.mode, Mode::Navigate);
}

#[test]
fn edit_round_trip_keeps_the_typed_text() {
    let mut state = SessionState::new(0);
    assert_eq!(state.dispatch(Key::Char('f'), 10), None);
    assert_eq!(state.mode, Mode::Edit);
    assert_eq!(state.query, "");
    let mut at = 20;
    for c in "sodium fq".chars() {
        assert_eq!(state.dispatch(Key::Char(c), at), None);
        at += 10;
    }
    assert_eq!(state.dispatch(Key::Esc, at), None);
    assert_eq!(state.query, "sodium fq");
    assert_eq!(state.mode, Mode::Navigate);
    assert_eq!(state.pending_since, Some(at - 10));
}

#[test]
fn escape_changes_neither_query_nor_pending_edit() {
    let mut state = SessionState::new(0);
    state.dispatch(Key::Char('f'), 1);
    state.dispatch(Key::Char('a'), 2);
    let before = state.clone();
    state.dispatch(Key::Esc, 300);
    assert_eq!(state.mode, Mode::Navigate);
    assert_eq!(state.query, before.query);
    assert_eq!(state.pending_since, before.pending_since);
    assert_eq!(state.results, before.results);
    assert_eq!(state.selection, before.selection);
}

#[test]
fn q_is_text_in_edit_mode_and_quits_in_navigate_mode() {
    let mut state = SessionState::new(0);
    state.dispatch(Key::Char('f'), 1);
    assert_eq!(state.dispatch(Key::Char('q'), 2), None);
    assert_eq!(state.query, "q");
    assert_eq!(state.mode, Mode::Edit);
    state.dispatch(Key::Esc, 3);
    let before = state.clone();
    assert_eq!(state.dispatch(Key::Char('q'), 4), Some(TerminationSignal::Quit));
    assert_eq!(state, before);
}

#[test]
fn no_key_terminates_in_edit_mode() {
    let keys = [Key::Char('q'), Key::Char('f'), Key::Backspace, Key::Esc, Key::Other, Key::Char('\u{3}')];
    for key in keys {
        let mut state = SessionState::new(0);
        state.dispatch(Key::Char('f'), 1);
        assert_eq!(state.dispatch(key, 2), None);
    }
}

#[test]
fn f_in_edit_mode_is_text() {
    let mut state = SessionState::new(0);
    state.dispatch(Key::Char('f'), 1);
    state.dispatch(Key::Char('f'), 2);
    state.dispatch(Key::Char('j'), 3);
    state.dispatch(Key::Char('k'), 4);
    assert_eq!(state.query, "fjk");
    assert_eq!(state.mode, Mode::Edit);
    assert_eq!(state.selection, 0);
}

#[test]
fn keys_without_meaning_change_nothing() {
    let mut state = session_with(three());
    state.dispatch(Key::Char('j'), 1);
    let before = state.clone();
    for key in [Key::Char('x'), Key::Backspace, Key::Esc, Key::Other, Key::Char('J')] {
        assert_eq!(state.dispatch(key, 50), None);
        assert_eq!(state, before);
    }
    state.dispatch(Key::Char('f'), 60);
    let editing = state.clone();
    for key in [Key::Other, Key::Char('\u{1b}'), Key::Char('\u{7f}')] {
        assert_eq!(state.dispatch(key, 70), None);
        assert_eq!(state, editing);
    }
}

#[test]
fn backspace_removes_the_last_character_and_rearms_the_timer() {
    let mut state = SessionState::new(0);
    state.dispatch(Key::Char('f'), 1);
    state.dispatch(Key::Char('a'), 2);
    state.dispatch(Key::Char('é'), 3);
    assert_eq!(state.query, "aé");
    assert_eq!(state.dispatch(Key::Backspace, 100), None);
    assert_eq!(state.query, "a");
    assert_eq!(state.pending_since, Some(100));
    state.dispatch(Key::Backspace, 200);
    assert_eq!(state.query, "");
    assert_eq!(state.pending_since, Some(200));
}

#[test]
fn backspace_on_an_empty_query_changes_nothing() {
    let mut state = SessionState::new(0);
    state.complete_lookup(Ok(vec![]));
    state.dispatch(Key::Char('f'), 1);
    let before = state.clone();
    assert_eq!(state.dispatch(Key::Backspace, 500), None);
    assert_eq!(state, before);
    assert_eq!(state.pending_since, None);
}

#[test]
fn successful_lookup_replaces_results_and_resets_selection() {
    let mut state = session_with(three());
    state.dispatch(Key::Char('j'), 1);
    state.dispatch(Key::Char('j'), 2);
    state.pending_since = Some(3);
    state.last_error = Some(LookupError::DecodeFailure);
    let fresh = vec![entry("z", "Zeta"), entry("y", "Eta")];
    state.complete_lookup(Ok(fresh.clone()));
    assert_eq!(state.results, fresh);
    assert_eq!(state.selection, 0);
    assert_eq!(state.selected(), Some(0));
    assert_eq!(state.pending_since, None);
    assert_eq!(state.last_error, None);
}

#[test]
fn successful_empty_lookup_selects_nothing() {
    let mut state = session_with(three());
    state.dispatch(Key::Char('j'), 1);
    state.complete_lookup(Ok(vec![]));
    assert!(state.results.is_empty());
    assert_eq!(state.selection, 0);
    assert_eq!(state.selected(), None);
}

#[test]
fn failed_lookup_keeps_the_previous_results() {
    for error in [LookupError::RemoteFailure, LookupError::DecodeFailure] {
        let mut state = session_with(three());
        state.dispatch(Key::Char('j'), 1);
        state.dispatch(Key::Char('f'), 2);
        state.dispatch(Key::Char('x'), 3);
        assert_eq!(state.debounce(403), Some(String::from("x")));
        state.complete_lookup(Err(error));
        assert_eq!(state.results, three());
        assert_eq!(state.selection, 1);
        assert_eq!(state.query, "x");
        assert_eq!(state.mode, Mode::Edit);
        assert_eq!(state.pending_since, None);
        assert_eq!(state.last_error, Some(error));
        assert_eq!(state.debounce(10_000), None);
        assert_eq!(state.dispatch(Key::Char('y'), 10_001), None);
        assert_eq!(state.debounce(10_401), Some(String::from("xy")));
    }
}
