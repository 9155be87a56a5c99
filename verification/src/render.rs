//! The render composer: what one frame shows for a given session.
//!
//! A [`FrameDescription`] names the regions of the screen and their
//! contents. Painting it is the caller's business.

use vstd::prelude::*;
use vstd::string::StringExecFns;
use crate::catalog::{spec_message, EntryView};
use crate::session::{Mode, SessionState, SessionView};

verus! {

/// How the screen is divided: a margin around everything, a left part of
/// `left_percent` of the width that holds the search box, `search_height`
/// rows high, above the result list, and a right part of `right_percent` of
/// the width that holds the info panel.
#[derive(Clone, Copy, Debug, PartialEq, Eq, Structural)]
pub struct FrameLayout {
    pub margin: u16,
    pub left_percent: u16,
    pub right_percent: u16,
    pub search_height: u16,
}

/// The search box.
#[derive(Debug, PartialEq, Eq)]
pub struct SearchBox {
    pub title: String,
    /// The query, followed by the cursor glyph while the query is edited.
    pub text: String,
    /// Whether the box is drawn as the one that takes the input.
    pub active: bool,
}

/// One row of the result list.
#[derive(Debug, PartialEq, Eq)]
pub struct ListRow {
    /// The entry's title behind the marker glyph, or behind blanks of the
    /// marker's width where the row is not the selected one.
    pub text: String,
    /// Whether the row is the selected one.
    pub highlighted: bool,
}

/// The result list.
#[derive(Debug, PartialEq, Eq)]
pub struct ResultList {
    pub title: String,
    /// One row per entry, in the order of the result list.
    pub rows: Vec<ListRow>,
    /// Index of the highlighted row, `None` where there is no row.
    pub selected: Option<usize>,
}

/// The static info panel.
#[derive(Debug, PartialEq, Eq)]
pub struct InfoPanel {
    pub title: String,
    pub text: String,
}

/// What one frame shows.
#[derive(Debug, PartialEq, Eq)]
pub struct FrameDescription {
    pub layout: FrameLayout,
    pub search: SearchBox,
    pub list: ResultList,
    pub info: InfoPanel,
    /// The report of the last lookup's failure, if it failed.
    pub status: Option<String>,
}

/// Mathematical value of a [`SearchBox`].
pub struct SearchBoxView {
    pub title: Seq<char>,
    pub text: Seq<char>,
    pub active: bool,
}

/// Mathematical value of a [`ListRow`].
pub struct ListRowView {
    pub text: Seq<char>,
    pub highlighted: bool,
}

/// Mathematical value of a [`ResultList`].
pub struct ResultListView {
    pub title: Seq<char>,
    pub rows: Seq<ListRowView>,
    pub selected: Option<nat>,
}

/// Mathematical value of an [`InfoPanel`].
pub struct InfoPanelView {
    pub title: Seq<char>,
    pub text: Seq<char>,
}

/// Mathematical value of a [`FrameDescription`].
pub struct FrameView {
    pub layout: FrameLayout,
    pub search: SearchBoxView,
    pub list: ResultListView,
    pub info: InfoPanelView,
    pub status: Option<Seq<char>>,
}

impl View for SearchBox {
    type V = SearchBoxView;

    open spec fn view(&self) -> SearchBoxView {
        SearchBoxView { title: self.title@, text: self.text@, active: self.active }
    }
}

impl View for ListRow {
    type V = ListRowView;

    open spec fn view(&self) -> ListRowView {
        ListRowView { text: self.text@, highlighted: self.highlighted }
    }
}

impl View for ResultList {
    type V = ResultListView;

    open spec fn view(&self) -> ResultListView {
        ResultListView {
            title: self.title@,
            rows: self.rows@.map_values(|row: ListRow| row@),
            selected: match self.selected {
                Some(index) => Some(index as nat),
                None => None,
            },
        }
    }
}

impl View for InfoPanel {
    type V = InfoPanelView;

    open spec fn view(&self) -> InfoPanelView {
        InfoPanelView { title: self.title@, text: self.text@ }
    }
}

impl View for FrameDescription {
    type V = FrameView;

    open spec fn view(&self) -> FrameView {
        FrameView {
            layout: self.layout,
            search: self.search@,
            list: self.list@,
            info: self.info@,
            status: match self.status {
                Some(text) => Some(text@),
                None => None,
            },
        }
    }
}

/// The layout of every frame: a margin of 1, the left 60 percent for search
/// box and result list, the right 40 percent for the info panel, and a
/// search box 3 rows high.
pub open spec fn spec_layout() -> FrameLayout {
    FrameLayout { margin: 1, left_percent: 60, right_percent: 40, search_height: 3 }
}

/// The search box of a session: the query, with the cursor glyph behind it
/// only in `Edit` mode.
pub open spec fn spec_search_box(session: SessionView) -> SearchBoxView {
    SearchBoxView {
        title: "Search:"@,
        text: if session.mode == Mode::Edit {
            session.query + "|"@
        } else {
            session.query
        },
        active: session.mode == Mode::Edit,
    }
}

/// The row of the entry at `index` where `selected` is the highlighted row.
pub open spec fn spec_row(entry: EntryView, index: int, selected: Option<nat>) -> ListRowView {
    if selected == Some(index as nat) {
        ListRowView { text: "> "@ + entry.title, highlighted: true }
    } else {
        ListRowView { text: "  "@ + entry.title, highlighted: false }
    }
}

/// The result list of a session: one row per entry in list order, the row
/// at the selection highlighted. A selection past the end counts as the
/// last row.
pub open spec fn spec_result_list(session: SessionView) -> ResultListView {
    ResultListView {
        title: "Mods:"@,
        rows: Seq::new(
            session.results.len(),
            |i: int| spec_row(session.results[i], i, session.selected()),
        ),
        selected: session.selected(),
    }
}

/// The info panel, the same in every frame.
pub open spec fn spec_info_panel() -> InfoPanelView {
    InfoPanelView { title: "Version:"@, text: "1.19.2"@ }
}

/// The frame of a session.
pub open spec fn spec_render(session: SessionView) -> FrameView {
    FrameView {
        layout: spec_layout(),
        search: spec_search_box(session),
        list: spec_result_list(session),
        info: spec_info_panel(),
        status: match session.last_error {
            Some(error) => Some(spec_message(error)),
            None => None,
        },
    }
}

impl SessionState {
    /// Composes the frame for the session as it is. Reads the session and
    /// changes nothing; an empty result list gives an empty list region.
    pub fn render(&self) -> (frame: FrameDescription)
        ensures
            frame@ == spec_render(self@),
    {
        let mut text = self.query.clone();
        let active = match self.mode {
            Mode::Edit => {
                text.append("|");
                true
            },
            Mode::Navigate => false,
        };
        let selected = self.selected();
        let mut rows: Vec<ListRow> = Vec::new();
        let mut i: usize = 0;
        while i < self.results.len()
            invariant
                i <= self.results.len(),
                rows@.len() == i,
                match selected {
                    Some(s) => self@.selected() == Some(s as nat),
                    None => self@.selected() is None,
                },
                forall|j: int|
                    0 <= j < i ==> (#[trigger] rows@[j])@ == spec_row(
                        self@.results[j],
                        j,
                        self@.selected(),
                    ),
            decreases self.results.len() - i,
        {
            let highlighted = match selected {
                Some(s) => s == i,
                None => false,
            };
            let mut line = if highlighted {
                String::from_str("> ")
            } else {
                String::from_str("  ")
            };
            line.append(self.results[i].title.as_str());
            rows.push(ListRow { text: line, highlighted });
            i = i + 1;
        }
        let list = ResultList { title: String::from_str("Mods:"), rows, selected };
        assert(list@.rows =~= spec_result_list(self@).rows);
        let status = match self.last_error {
            Some(error) => Some(error.message()),
            None => None,
        };
        FrameDescription {
            layout: FrameLayout { margin: 1, left_percent: 60, right_percent: 40, search_height: 3 },
            search: SearchBox { title: String::from_str("Search:"), text, active },
            list,
            info: InfoPanel {
                title: String::from_str("Version:"),
                text: String::from_str("1.19.2"),
            },
            status,
        }
    }
}

} // verus!
