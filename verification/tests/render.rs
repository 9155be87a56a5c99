use modsearch::catalog::{CatalogEntry, LookupError};
use modsearch::render::{FrameDescription, FrameLayout, InfoPanel, ListRow, ResultList, SearchBox};
use modsearch::session::{Key, Mode, SessionState};

fn entry(id: &str, title: &str) -> CatalogEntry {
    CatalogEntry::new(id.to_string(), title.to_string(), String::from("about"), 1)
}

fn row(text: &str, highlighted: bool) -> ListRow {
    ListRow { text: text.to_string(), highlighted }
}

#[test]
fn frame_of_a_fresh_session() {
    let frame = SessionState::new(0).render();
    assert_eq!(
        frame,
        FrameDescription {
            layout: FrameLayout { margin: 1, left_percent: 60, right_percent: 40, search_height: 3 },
            search: SearchBox { title: String::from("Search:"), text: String::new(), active: false },
            list: ResultList { title: String::from("Mods:"), rows: vec![], selected: None },
            info: InfoPanel { title: String::from("Version:"), text: String::from("1.19.2") },
            status: None,
        }
    );
}

#[test]
fn cursor_glyph_shows_only_in_edit_mode() {
    let mut state = SessionState::new(0);
    state.dispatch(Key::Char('f'), 1);
    state.dispatch(Key::Char('o'), 2);
    state.dispatch(Key::Char('k'), 3);
    let editing = state.render();
    assert_eq!(editing.search.text, "ok|");
    assert!(editing.search.active);
    state.dispatch(Key::Esc, 4);
    let navigating = state.render();
    assert_eq!(navigating.search.text, "ok");
    assert!(!navigating.search.active);
}

#[test]
fn list_shows_titles_in_order_with_the_selection_marked() {
    let mut state = SessionState::new(0);
    state.complete_lookup(Ok(vec![entry("a", "Alpha"), entry("b", "Beta"), entry("c", "Gamma")]));
    state.dispatch(Key::Char('j'), 1);
    let frame = state.render();
    assert_eq!(frame.list.title, "Mods:");
    assert_eq!(frame.list.selected, Some(1));
    assert_eq!(
        frame.list.rows,
        vec![row("  Alpha", false), row("> Beta", true), row("  Gamma", false)]
    );
}

#[test]
fn stray_selection_is_shown_on_the_last_row() {
    let mut state = SessionState::new(0);
    state.complete_lookup(Ok(vec![entry("a", "Alpha"), entry("b", "Beta")]));
    state.selection = 17;
    let frame = state.render();
    assert_eq!(frame.list.selected, Some(1));
    assert_eq!(frame.list.rows, vec![row("  Alpha", false), row("> Beta", true)]);
    state.selection = usize::MAX;
    assert_eq!(state.render().list.selected, Some(1));
}

#[test]
fn empty_list_renders_without_rows() {
    let mut state = SessionState::new(0);
    state.selection = 3;
    let frame = state.render();
    assert!(frame.list.rows.is_empty());
    assert_eq!(frame.list.selected, None);
}

#[test]
fn info_panel_does_not_depend_on_the_session() {
    let mut state = SessionState::new(0);
    let before = state.render().info;
    state.dispatch(Key::Char('f'), 1);
    state.dispatch(Key::Char('x'), 2);
    state.complete_lookup(Ok(vec![entry("a", "Alpha")]));
    assert_eq!(state.render().info, before);
    assert_eq!(before.title, "Version:");
    assert_eq!(before.text, "1.19.2");
}

#[test]
fn failed_lookup_is_reported_until_one_succeeds() {
    let mut state = SessionState::new(0);
    state.complete_lookup(Ok(vec![entry("a", "Alpha")]));
    state.complete_lookup(Err(LookupError::RemoteFailure));
    let frame = state.render();
    assert_eq!(
        frame.status,
        Some(String::from("lookup failed: the catalog could not be reached"))
    );
    assert_eq!(frame.list.rows, vec![row("> Alpha", true)]);
    state.complete_lookup(Err(LookupError::DecodeFailure));
    assert_eq!(
        state.render().status,
        Some(String::from("lookup failed: the response could not be read"))
    );
    state.complete_lookup(Ok(vec![]));
    assert_eq!(state.render().status, None);
}

#[test]
fn render_leaves_the_session_as_it_is() {
    let mut state = SessionState::new(0);
    state.complete_lookup(Ok(vec![entry("a", "Alpha")]));
    state.dispatch(Key::Char('f'), 1);
    state.dispatch(Key::Char('x'), 2);
    let before = state.clone();
    let first = state.render();
    let second = state.render();
    assert_eq!(first, second);
    assert_eq!(state, before);
    assert_eq!(state.mode, Mode::Edit);
}
