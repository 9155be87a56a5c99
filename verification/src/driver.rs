//! The session loop as a state machine.
//!
//! One tick of the loop paints the frame, checks the debounce trigger, waits
//! a bounded time for a key press and dispatches it. Painting, looking up
//! and waiting are the caller's work: the loop hands out one [`Action`] at a
//! time and takes the caller's [`Report`] of it back, together with the
//! time on the caller's clock.

use vstd::prelude::*;
use crate::catalog::{entries_view, CatalogEntry, EntryView, LookupError};
use crate::render::{spec_render, FrameDescription, FrameView};
use crate::session::{Key, SessionState, SessionView, POLL_INTERVAL_MS};

verus! {

/// What the loop asks of its caller.
#[derive(Debug, PartialEq, Eq)]
pub enum Action {
    /// Paint this frame.
    Paint(FrameDescription),
    /// Look this query up in the remote catalog.
    Lookup(String),
    /// Wait for one key press, `within_ms` milliseconds at most.
    Poll { within_ms: u64 },
    /// Leave the loop.
    Exit,
}

/// What the caller reports back.
#[derive(Debug, PartialEq, Eq)]
pub enum Report {
    /// The frame was painted.
    Painted,
    /// The lookup ended with this outcome.
    LookupDone(Result<Vec<CatalogEntry>, LookupError>),
    /// The wait ended, with this key press or with none.
    Polled(Option<Key>),
}

/// Which report the loop waits for.
#[derive(Clone, Copy, Debug, PartialEq, Eq, Structural)]
pub enum Awaiting {
    Paint,
    Lookup,
    Poll,
    /// The loop has ended.
    Nothing,
}

/// Mathematical value of an [`Action`].
pub enum ActionView {
    Paint(FrameView),
    Lookup(Seq<char>),
    Poll { within_ms: nat },
    Exit,
}

/// Mathematical value of a [`Report`].
pub enum ReportView {
    Painted,
    LookupDone(Result<Seq<EntryView>, LookupError>),
    Polled(Option<Key>),
}

impl View for Action {
    type V = ActionView;

    open spec fn view(&self) -> ActionView {
        match self {
            Action::Paint(frame) => ActionView::Paint(frame@),
            Action::Lookup(query) => ActionView::Lookup(query@),
            Action::Poll { within_ms } => ActionView::Poll { within_ms: *within_ms as nat },
            Action::Exit => ActionView::Exit,
        }
    }
}

impl View for Report {
    type V = ReportView;

    open spec fn view(&self) -> ReportView {
        match self {
            Report::Painted => ReportView::Painted,
            Report::LookupDone(Ok(entries)) => ReportView::LookupDone(Ok(entries_view(entries@))),
            Report::LookupDone(Err(error)) => ReportView::LookupDone(Err(*error)),
            Report::Polled(key) => ReportView::Polled(*key),
        }
    }
}

/// Mathematical value of a [`SessionLoop`].
pub struct LoopView {
    pub session: SessionView,
    pub awaiting: Awaiting,
}

impl LoopView {
    /// The action that the loop waits for a report of.
    pub open spec fn awaited(self) -> ActionView {
        match self.awaiting {
            Awaiting::Paint => ActionView::Paint(spec_render(self.session)),
            Awaiting::Lookup => ActionView::Lookup(self.session.query),
            Awaiting::Poll => ActionView::Poll { within_ms: POLL_INTERVAL_MS as nat },
            Awaiting::Nothing => ActionView::Exit,
        }
    }

    /// The loop after the report that arrives at time `now`.
    ///
    /// A painted frame is followed by the lookup where one is due, else by
    /// the wait. A finished lookup is folded into the session and followed
    /// by the wait. A wait is followed by the next frame, unless it brought
    /// the key press that ends the session. A report that the loop does not
    /// wait for changes nothing.
    pub open spec fn advance(self, report: ReportView, now: nat) -> LoopView {
        match (self.awaiting, report) {
            (Awaiting::Paint, ReportView::Painted) => LoopView {
                awaiting: if self.session.lookup_due(now) {
                    Awaiting::Lookup
                } else {
                    Awaiting::Poll
                },
                ..self
            },
            (Awaiting::Lookup, ReportView::LookupDone(outcome)) => LoopView {
                session: self.session.complete_lookup(outcome),
                awaiting: Awaiting::Poll,
            },
            (Awaiting::Poll, ReportView::Polled(None)) => LoopView {
                awaiting: Awaiting::Paint,
                ..self
            },
            (Awaiting::Poll, ReportView::Polled(Some(key))) => LoopView {
                session: self.session.dispatch(key, now),
                awaiting: if self.session.terminates(key) {
                    Awaiting::Nothing
                } else {
                    Awaiting::Paint
                },
            },
            _ => self,
        }
    }
}

/// The session loop: the session and the step of the tick it is at.
#[derive(Debug, PartialEq, Eq)]
pub struct SessionLoop {
    pub session: SessionState,
    pub awaiting: Awaiting,
}

impl View for SessionLoop {
    type V = LoopView;

    open spec fn view(&self) -> LoopView {
        LoopView { session: self.session@, awaiting: self.awaiting }
    }
}

impl SessionLoop {
    /// A loop around a fresh session at time `now`, about to paint its
    /// first frame.
    pub fn new(now: u64) -> (driver: SessionLoop)
        ensures
            driver.session@ == SessionView::fresh(now as nat),
            driver.awaiting == Awaiting::Paint,
            driver@.session.wf(),
    {
        SessionLoop { session: SessionState::new(now), awaiting: Awaiting::Paint }
    }

    /// The action that the loop waits for a report of.
    pub fn awaited(&self) -> (action: Action)
        ensures
            action@ == self@.awaited(),
    {
        match self.awaiting {
            Awaiting::Paint => Action::Paint(self.session.render()),
            Awaiting::Lookup => Action::Lookup(self.session.query.clone()),
            Awaiting::Poll => Action::Poll { within_ms: POLL_INTERVAL_MS },
            Awaiting::Nothing => Action::Exit,
        }
    }

    /// Takes the caller's report, which arrives at time `now`, and returns
    /// what the caller is to do next.
    pub fn advance(&mut self, report: Report, now: u64) -> (action: Action)
        ensures
            final(self)@ == old(self)@.advance(report@, now as nat),
            action@ == final(self)@.awaited(),
            old(self)@.session.wf() ==> final(self)@.session.wf(),
    {
        match report {
            Report::Painted => {
                if self.awaiting == Awaiting::Paint {
                    self.awaiting = if self.session.debounce(now).is_some() {
                        Awaiting::Lookup
                    } else {
                        Awaiting::Poll
                    };
                }
            },
            Report::LookupDone(outcome) => {
                if self.awaiting == Awaiting::Lookup {
                    self.session.complete_lookup(outcome);
                    self.awaiting = Awaiting::Poll;
                }
            },
            Report::Polled(None) => {
                if self.awaiting == Awaiting::Poll {
                    self.awaiting = Awaiting::Paint;
                }
            },
            Report::Polled(Some(key)) => {
                if self.awaiting == Awaiting::Poll {
                    let signal = self.session.dispatch(key, now);
                    self.awaiting = if signal.is_some() {
                        Awaiting::Nothing
                    } else {
                        Awaiting::Paint
                    };
                }
            },
        }
        self.awaited()
    }
}

} // verus!
