//! The session aggregate and the three components that change it: the key
//! dispatcher, the debounce trigger and the folding in of a lookup's outcome.

use vstd::prelude::*;
use crate::catalog::{entries_view, CatalogEntry, EntryView, LookupError};

verus! {

/// Quiet time, in milliseconds, that must pass after the last edit of the
/// query before a lookup is due.
pub const DEBOUNCE_MS: u64 = 400;

/// Longest wait, in milliseconds, for one input event per tick.
pub const POLL_INTERVAL_MS: u64 = 16;

/// How key input is interpreted.
#[derive(Clone, Copy, Debug, PartialEq, Eq, Structural)]
pub enum Mode {
    /// Keys move the selection, switch the mode or end the session.
    Navigate,
    /// Keys edit the query.
    Edit,
}

/// One captured key press.
#[derive(Clone, Copy, Debug, PartialEq, Eq, Structural)]
pub enum Key {
    /// A character key.
    Char(char),
    Backspace,
    Esc,
    /// Any key the session has no use for.
    Other,
}

/// Tells the session loop to leave.
#[derive(Clone, Copy, Debug, PartialEq, Eq, Structural)]
pub enum TerminationSignal {
    Quit,
}

/// What a key press asks of the session.
#[derive(Clone, Copy, Debug, PartialEq, Eq, Structural)]
pub enum Transition {
    /// End the session.
    Quit,
    /// Switch from `Navigate` to `Edit`.
    EnterEdit,
    /// Switch from `Edit` to `Navigate`.
    LeaveEdit,
    /// Move the selection one entry towards the end of the list.
    SelectNext,
    /// Move the selection one entry towards the start of the list.
    SelectPrevious,
    /// Append a character to the query.
    Append(char),
    /// Remove the last character of the query.
    DeleteLast,
    /// Leave the session as it is.
    Ignore,
}

/// Whether a character is printable: every character but the control
/// characters U+0000..=U+001F and U+007F..=U+009F.
pub open spec fn printable(c: char) -> bool {
    !(c as u32 <= 0x1f || 0x7f <= c as u32 <= 0x9f)
}

/// The transition table of the session: what `key` asks for in `mode`.
pub open spec fn spec_transition(mode: Mode, key: Key) -> Transition {
    match mode {
        Mode::Navigate => match key {
            Key::Char(c) => if c == 'q' {
                Transition::Quit
            } else if c == 'f' {
                Transition::EnterEdit
            } else if c == 'j' {
                Transition::SelectNext
            } else if c == 'k' {
                Transition::SelectPrevious
            } else {
                Transition::Ignore
            },
            _ => Transition::Ignore,
        },
        Mode::Edit => match key {
            Key::Char(c) => if printable(c) {
                Transition::Append(c)
            } else {
                Transition::Ignore
            },
            Key::Backspace => Transition::DeleteLast,
            Key::Esc => Transition::LeaveEdit,
            Key::Other => Transition::Ignore,
        },
    }
}

/// Mathematical value of a [`SessionState`].
pub struct SessionView {
    pub mode: Mode,
    pub query: Seq<char>,
    pub results: Seq<EntryView>,
    pub selection: nat,
    pub pending_since: Option<nat>,
    pub last_error: Option<LookupError>,
}

impl SessionView {
    /// The session as it starts at time `now`: `Navigate` mode, empty
    /// query, empty result list, and an edit pending since `now`.
    pub open spec fn fresh(now: nat) -> SessionView {
        SessionView {
            mode: Mode::Navigate,
            query: Seq::empty(),
            results: Seq::empty(),
            selection: 0,
            pending_since: Some(now),
            last_error: None,
        }
    }

    /// The selection invariant: the selection is an index into a non-empty
    /// result list, and 0 where the list is empty.
    pub open spec fn wf(self) -> bool {
        if self.results.len() == 0 {
            self.selection == 0
        } else {
            self.selection < self.results.len()
        }
    }

    /// The selection forced into the list: itself where it is in range, the
    /// last index where it is past the end, 0 where the list is empty.
    pub open spec fn clamped_selection(self) -> nat {
        if self.results.len() == 0 {
            0
        } else if self.selection < self.results.len() {
            self.selection
        } else {
            (self.results.len() - 1) as nat
        }
    }

    /// The selected entry's index, or `None` where the list is empty.
    pub open spec fn selected(self) -> Option<nat> {
        if self.results.len() == 0 {
            None
        } else {
            Some(self.clamped_selection())
        }
    }

    /// The selection after one move towards the end, stopping at the last
    /// index.
    pub open spec fn next_selection(self) -> nat {
        if self.clamped_selection() + 1 < self.results.len() {
            self.clamped_selection() + 1
        } else {
            self.clamped_selection()
        }
    }

    /// The selection after one move towards the start, stopping at 0.
    pub open spec fn previous_selection(self) -> nat {
        if self.clamped_selection() > 0 {
            (self.clamped_selection() - 1) as nat
        } else {
            0
        }
    }

    /// The session after `transition`, carried out at time `now`.
    pub open spec fn apply(self, transition: Transition, now: nat) -> SessionView {
        match transition {
            Transition::Quit => self,
            Transition::EnterEdit => SessionView { mode: Mode::Edit, ..self },
            Transition::LeaveEdit => SessionView { mode: Mode::Navigate, ..self },
            Transition::SelectNext => SessionView { selection: self.next_selection(), ..self },
            Transition::SelectPrevious => SessionView {
                selection: self.previous_selection(),
                ..self
            },
            Transition::Append(c) => SessionView {
                query: self.query.push(c),
                pending_since: Some(now),
                ..self
            },
            Transition::DeleteLast => if self.query.len() > 0 {
                SessionView { query: self.query.drop_last(), pending_since: Some(now), ..self }
            } else {
                self
            },
            Transition::Ignore => self,
        }
    }

    /// The session after a key press at time `now`.
    pub open spec fn dispatch(self, key: Key, now: nat) -> SessionView {
        self.apply(spec_transition(self.mode, key), now)
    }

    /// Whether a key press ends the session.
    pub open spec fn terminates(self, key: Key) -> bool {
        spec_transition(self.mode, key) == Transition::Quit
    }

    /// Whether a lookup is due at time `now`: an edit is pending and at
    /// least [`DEBOUNCE_MS`] have passed since.
    pub open spec fn lookup_due(self, now: nat) -> bool {
        self.pending_since matches Some(since) && now - since >= DEBOUNCE_MS
    }

    /// The session after a lookup ended with `outcome`.
    pub open spec fn complete_lookup(self, outcome: Result<Seq<EntryView>, LookupError>) -> SessionView {
        match outcome {
            Ok(entries) => SessionView {
                results: entries,
                selection: 0,
                pending_since: None,
                last_error: None,
                ..self
            },
            Err(error) => SessionView { pending_since: None, last_error: Some(error), ..self },
        }
    }
}

/// The single mutable aggregate of one interactive session.
#[derive(Clone, Debug, PartialEq, Eq)]
pub struct SessionState {
    /// How key input is interpreted at the moment.
    pub mode: Mode,
    /// The query text.
    pub query: String,
    /// The result list of the last successful lookup, in the catalog's rank
    /// order.
    pub results: Vec<CatalogEntry>,
    /// Index of the selected entry.
    pub selection: usize,
    /// Time of the last edit of the query that no lookup has answered yet.
    pub pending_since: Option<u64>,
    /// The failure of the last lookup, until a lookup succeeds.
    pub last_error: Option<LookupError>,
}

impl View for SessionState {
    type V = SessionView;

    open spec fn view(&self) -> SessionView {
        SessionView {
            mode: self.mode,
            query: self.query@,
            results: entries_view(self.results@),
            selection: self.selection as nat,
            pending_since: match self.pending_since {
                Some(since) => Some(since as nat),
                None => None,
            },
            last_error: self.last_error,
        }
    }
}

/// Whether a character is printable.
pub fn is_printable(c: char) -> (r: bool)
    ensures
        r == printable(c),
{
    let code: u32 = c as u32;
    !(code <= 0x1f || (0x7f <= code && code <= 0x9f))
}

/// Looks up what `key` asks for in `mode`.
pub fn transition(mode: Mode, key: Key) -> (t: Transition)
    ensures
        t == spec_transition(mode, key),
{
    match mode {
        Mode::Navigate => match key {
            Key::Char(c) => if c == 'q' {
                Transition::Quit
            } else if c == 'f' {
                Transition::EnterEdit
            } else if c == 'j' {
                Transition::SelectNext
            } else if c == 'k' {
                Transition::SelectPrevious
            } else {
                Transition::Ignore
            },
            _ => Transition::Ignore,
        },
        Mode::Edit => match key {
            Key::Char(c) => if is_printable(c) {
                Transition::Append(c)
            } else {
                Transition::Ignore
            },
            Key::Backspace => Transition::DeleteLast,
            Key::Esc => Transition::LeaveEdit,
            Key::Other => Transition::Ignore,
        },
    }
}

impl SessionState {
    /// A fresh session at time `now`: `Navigate` mode, empty query, empty
    /// result list, and an edit pending since `now`, so that the first
    /// lookup, for the empty query, comes due by itself.
    pub fn new(now: u64) -> (state: SessionState)
        ensures
            state@ == SessionView::fresh(now as nat),
            state@.wf(),
    {
        let state = SessionState {
            mode: Mode::Navigate,
            query: String::new(),
            results: Vec::new(),
            selection: 0,
            pending_since: Some(now),
            last_error: None,
        };
        assert(state@.results =~= Seq::<EntryView>::empty());
        state
    }

    /// Carries out `transition` at time `now`. Returns the signal to leave
    /// exactly for `Transition::Quit`.
    fn apply(&mut self, transition: Transition, now: u64) -> (signal: Option<TerminationSignal>)
        ensures
            final(self)@ == old(self)@.apply(transition, now as nat),
            final(self).results == old(self).results,
            signal == (if transition == Transition::Quit {
                Some(TerminationSignal::Quit)
            } else {
                None
            }),
            old(self)@.wf() ==> final(self)@.wf(),
    {
        match transition {
            Transition::Quit => Some(TerminationSignal::Quit),
            Transition::EnterEdit => {
                self.mode = Mode::Edit;
                None
            },
            Transition::LeaveEdit => {
                self.mode = Mode::Navigate;
                None
            },
            Transition::SelectNext => {
                let len: usize = self.results.len();
                if len == 0 {
                    self.selection = 0;
                } else if self.selection < len - 1 {
                    self.selection = self.selection + 1;
                } else {
                    self.selection = len - 1;
                }
                None
            },
            Transition::SelectPrevious => {
                let len: usize = self.results.len();
                if len == 0 {
                    self.selection = 0;
                } else if self.selection >= len {
                    self.selection = if len >= 2 { len - 2 } else { 0 };
                } else if self.selection > 0 {
                    self.selection = self.selection - 1;
                }
                None
            },
            Transition::Append(c) => {
                self.query.push(c);
                self.pending_since = Some(now);
                None
            },
            Transition::DeleteLast => {
                let removed = self.query.pop();
                if removed.is_some() {
                    self.pending_since = Some(now);
                }
                None
            },
            Transition::Ignore => None,
        }
    }

    /// The selected entry's index: `None` where the result list is empty,
    /// else the selection, or the last index where the selection is past
    /// the end.
    pub fn selected(&self) -> (index: Option<usize>)
        ensures
            match index {
                Some(i) => self@.selected() == Some(i as nat) && i < self.results.len(),
                None => self@.selected() is None,
            },
    {
        let len: usize = self.results.len();
        if len == 0 {
            None
        } else if self.selection < len {
            Some(self.selection)
        } else {
            Some(len - 1)
        }
    }

    /// The input dispatcher: applies one key press, captured at time `now`,
    /// to the session. Total over keys; a key without a meaning in the
    /// current mode changes nothing. Returns the signal to leave exactly for
    /// `q` in `Navigate` mode.
    pub fn dispatch(&mut self, key: Key, now: u64) -> (signal: Option<TerminationSignal>)
        ensures
            final(self)@ == old(self)@.dispatch(key, now as nat),
            final(self).results == old(self).results,
            signal == (if old(self)@.terminates(key) {
                Some(TerminationSignal::Quit)
            } else {
                None
            }),
            old(self)@.wf() ==> final(self)@.wf(),
    {
        let t = transition(self.mode, key);
        self.apply(t, now)
    }

    /// The debounce trigger's decision at time `now`: the query to look up
    /// where a lookup is due, `None` where it is not.
    pub fn debounce(&self, now: u64) -> (request: Option<String>)
        ensures
            match request {
                Some(query) => self@.lookup_due(now as nat) && query@ == self@.query,
                None => !self@.lookup_due(now as nat),
            },
    {
        match self.pending_since {
            Some(since) => {
                if now >= since && now - since >= DEBOUNCE_MS {
                    Some(self.query.clone())
                } else {
                    None
                }
            },
            None => None,
        }
    }

    /// Folds the outcome of a lookup into the session and clears the pending
    /// edit. A result list replaces the old one and puts the selection on
    /// its first entry; a failure is recorded and leaves list and selection
    /// as they were.
    pub fn complete_lookup(&mut self, outcome: Result<Vec<CatalogEntry>, LookupError>)
        ensures
            final(self)@ == old(self)@.complete_lookup(
                match outcome {
                    Ok(entries) => Ok(entries_view(entries@)),
                    Err(error) => Err(error),
                },
            ),
            match outcome {
                Ok(entries) => final(self).results == entries,
                Err(_) => final(self).results == old(self).results,
            },
            final(self).query == old(self).query,
            outcome is Ok || old(self)@.wf() ==> final(self)@.wf(),
    {
        match outcome {
            Ok(entries) => {
                self.results = entries;
                self.selection = 0;
                self.last_error = None;
            },
            Err(error) => {
                self.last_error = Some(error);
            },
        }
        self.pending_since = None;
    }
}

} // verus!
