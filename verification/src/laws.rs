//! What holds of every session and of every search request, stated over
//! the mathematical model and proved from the definitions.

use vstd::prelude::*;
use crate::catalog::{EntryView, LookupError};
use vstd::utf8::{decode_utf8, encode_utf8};
use crate::driver::{ActionView, Awaiting, LoopView, ReportView};
use crate::percent::{
    encoded_text_is_plain, encoded_text_stands_for_text, percent_decode, percent_encode,
};
use crate::remote::{spec_facets, spec_search_prefix, spec_search_url};
use crate::session::{printable, spec_transition, Key, Mode, SessionView, Transition, DEBOUNCE_MS};

verus! {

/// One thing that happens to a session.
pub enum SessionEvent {
    /// A key was pressed at time `at`.
    Press { key: Key, at: nat },
    /// A lookup ended.
    Lookup { outcome: Result<Seq<EntryView>, LookupError> },
}

/// The session after one event.
pub open spec fn step(session: SessionView, event: SessionEvent) -> SessionView {
    match event {
        SessionEvent::Press { key, at } => session.dispatch(key, at),
        SessionEvent::Lookup { outcome } => session.complete_lookup(outcome),
    }
}

/// The session after a run of events, first to last.
pub open spec fn run(session: SessionView, events: Seq<SessionEvent>) -> SessionView
    decreases events.len(),
{
    if events.len() == 0 {
        session
    } else {
        step(run(session, events.drop_last()), events.last())
    }
}

/// Whether a key press edits the query of `session`: it appends a
/// character, or it removes one from a query that has one.
pub open spec fn edits(session: SessionView, key: Key) -> bool {
    match spec_transition(session.mode, key) {
        Transition::Append(_) => true,
        Transition::DeleteLast => session.query.len() > 0,
        _ => false,
    }
}

/// Whether a run of events leaves the query of `session` alone: every
/// event is a key press that edits nothing.
pub open spec fn quiet(session: SessionView, events: Seq<SessionEvent>) -> bool
    decreases events.len(),
{
    if events.len() == 0 {
        true
    } else {
        &&& quiet(session, events.drop_last())
        &&& events.last() matches SessionEvent::Press { key, .. }
        &&& !edits(run(session, events.drop_last()), key)
    }
}

/// The press of the character key `c` at time `at`.
pub open spec fn press(c: char, at: nat) -> SessionEvent {
    SessionEvent::Press { key: Key::Char(c), at }
}

/// The key presses that type `text`, the character at `i` at time
/// `times[i]`.
pub open spec fn typing(text: Seq<char>, times: Seq<nat>) -> Seq<SessionEvent> {
    Seq::new(text.len(), |i: int| press(text[i], times[i]))
}

/// A run of one event is one step.
pub proof fn run_one(session: SessionView, event: SessionEvent)
    ensures
        run(session, seq![event]) == step(session, event),
{
    assert(run(session, seq![event].drop_last()) == session);
}

/// A run of two parts is the run of the second part from where the first
/// part ends.
pub proof fn run_concat(session: SessionView, first: Seq<SessionEvent>, second: Seq<SessionEvent>)
    ensures
        run(session, first + second) == run(run(session, first), second),
    decreases second.len(),
{
    if second.len() > 0 {
        assert((first + second).drop_last() =~= first + second.drop_last());
        run_concat(session, first, second.drop_last());
    }
}

/// The selection invariant holds throughout a session: from a session
/// whose selection is in range, every run of key presses and finished
/// lookups leads to one whose selection is in range, so that it is an index
/// into the result list whenever the list is not empty.
pub proof fn selection_stays_in_range(session: SessionView, events: Seq<SessionEvent>)
    requires
        session.wf(),
    ensures
        run(session, events).wf(),
        run(session, events).results.len() > 0 ==> 0 <= run(session, events).selection < run(
            session,
            events,
        ).results.len(),
    decreases events.len(),
{
    if events.len() > 0 {
        selection_stays_in_range(session, events.drop_last());
    }
}

/// A move of the selection lands in range whatever the selection was, and
/// a move towards the start from index 0 stays at 0.
pub proof fn move_lands_in_range(session: SessionView, key: Key, at: nat)
    requires
        session.mode == Mode::Navigate,
        key == Key::Char('j') || key == Key::Char('k'),
    ensures
        session.dispatch(key, at).wf(),
        session.dispatch(key, at).results == session.results,
        session.selection == 0 && key == Key::Char('k') ==> session.dispatch(key, at).selection == 0,
{
}

/// Typing printable text in `Edit` mode appends it to the query and stays
/// in `Edit` mode.
pub proof fn typing_appends(session: SessionView, text: Seq<char>, times: Seq<nat>)
    requires
        session.mode == Mode::Edit,
        forall|i: int| 0 <= i < text.len() ==> printable(#[trigger] text[i]),
    ensures
        run(session, typing(text, times)).mode == Mode::Edit,
        run(session, typing(text, times)).query == session.query + text,
        run(session, typing(text, times)).results == session.results,
        run(session, typing(text, times)).selection == session.selection,
    decreases text.len(),
{
    if text.len() > 0 {
        typing_appends(session, text.drop_last(), times);
        assert(typing(text, times).drop_last() =~= typing(text.drop_last(), times));
    }
}

/// Entering `Edit` mode with `f`, typing printable text and leaving with
/// `Esc` ends in `Navigate` mode with the typed text appended to the query,
/// whenever the keys are pressed.
pub proof fn edit_round_trip(
    session: SessionView,
    text: Seq<char>,
    times: Seq<nat>,
    entered: nat,
    left: nat,
)
    requires
        session.mode == Mode::Navigate,
        forall|i: int| 0 <= i < text.len() ==> printable(#[trigger] text[i]),
    ensures
        ({
            let keys = seq![press('f', entered)] + typing(text, times)
                + seq![SessionEvent::Press { key: Key::Esc, at: left }];
            &&& run(session, keys).mode == Mode::Navigate
            &&& run(session, keys).query == session.query + text
            &&& run(session, keys).results == session.results
            &&& run(session, keys).selection == session.selection
        }),
{
    let enter = seq![press('f', entered)];
    let leave = seq![SessionEvent::Press { key: Key::Esc, at: left }];
    let editing = session.dispatch(Key::Char('f'), entered);
    run_one(session, press('f', entered));
    run_concat(session, enter, typing(text, times));
    typing_appends(editing, text, times);
    run_concat(session, enter + typing(text, times), leave);
    let typed = run(session, enter + typing(text, times));
    run_one(typed, SessionEvent::Press { key: Key::Esc, at: left });
}

/// An edit of the query at time `at` starts the quiet period anew: from
/// then on a lookup is due exactly at the times `at + DEBOUNCE_MS` and
/// later, whatever was pending before.
pub proof fn edit_restarts_quiet_period(session: SessionView, key: Key, at: nat, now: nat)
    requires
        edits(session, key),
    ensures
        session.dispatch(key, at).lookup_due(now) <==> now >= at + DEBOUNCE_MS,
{
}

/// A key press that edits nothing leaves query and quiet period alone.
pub proof fn other_keys_keep_quiet_period(session: SessionView, key: Key, at: nat)
    requires
        !edits(session, key),
    ensures
        session.dispatch(key, at).pending_since == session.pending_since,
        session.dispatch(key, at).query == session.query,
{
}

/// No lookup comes due before the quiet period is over: after a run of
/// events that ends with an edit at time `at` and key presses that edit
/// nothing, a lookup is due exactly at the times `at + DEBOUNCE_MS` and
/// later.
pub proof fn lookup_waits_for_quiet_period(
    session: SessionView,
    before: Seq<SessionEvent>,
    key: Key,
    at: nat,
    after: Seq<SessionEvent>,
    now: nat,
)
    requires
        edits(run(session, before), key),
        quiet(run(session, before).dispatch(key, at), after),
    ensures
        run(
            session,
            before + seq![SessionEvent::Press { key, at }] + after,
        ).lookup_due(now) <==> now >= at + DEBOUNCE_MS,
{
    let edit = seq![SessionEvent::Press { key, at }];
    let edited = run(session, before).dispatch(key, at);
    run_concat(session, before, edit);
    run_one(run(session, before), SessionEvent::Press { key, at });
    run_concat(session, before + edit, after);
    quiet_run_keeps_quiet_period(edited, after);
}

/// A run of key presses that edit nothing leaves query and quiet period
/// alone.
pub proof fn quiet_run_keeps_quiet_period(session: SessionView, events: Seq<SessionEvent>)
    requires
        quiet(session, events),
    ensures
        run(session, events).pending_since == session.pending_since,
        run(session, events).query == session.query,
    decreases events.len(),
{
    if events.len() > 0 {
        quiet_run_keeps_quiet_period(session, events.drop_last());
    }
}

/// The key `q` is text in `Edit` mode and the way out in `Navigate` mode:
/// in `Edit` mode it is appended to the query and does not end the session,
/// in `Navigate` mode it ends the session and changes nothing.
pub proof fn q_ends_session_only_in_navigate(session: SessionView, at: nat)
    ensures
        session.mode == Mode::Edit ==> !session.terminates(Key::Char('q')) && session.dispatch(
            Key::Char('q'),
            at,
        ).query == session.query.push('q'),
        session.mode == Mode::Navigate ==> session.terminates(Key::Char('q')) && session.dispatch(
            Key::Char('q'),
            at,
        ) == session,
{
}

/// No key ends the session in `Edit` mode, and no key but `q` ends it in
/// `Navigate` mode.
pub proof fn only_q_in_navigate_terminates(session: SessionView, key: Key)
    ensures
        session.terminates(key) <==> session.mode == Mode::Navigate && key == Key::Char('q'),
{
}

/// The mode changes on two key presses only: `f` in `Navigate` mode leads
/// to `Edit` mode, `Esc` in `Edit` mode leads back.
pub proof fn mode_changes_only_by_f_and_esc(session: SessionView, key: Key, at: nat)
    ensures
        session.dispatch(key, at).mode != session.mode <==> (session.mode == Mode::Navigate && key
            == Key::Char('f')) || (session.mode == Mode::Edit && key == Key::Esc),
        session.mode == Mode::Edit && key == Key::Esc ==> session.dispatch(key, at) == (SessionView {
            mode: Mode::Navigate,
            ..session
        }),
{
}

/// The query is edited in `Edit` mode only: a key press in `Navigate` mode
/// leaves query and quiet period alone.
pub proof fn navigate_mode_keeps_query(session: SessionView, key: Key, at: nat)
    requires
        session.mode == Mode::Navigate,
    ensures
        session.dispatch(key, at).query == session.query,
        session.dispatch(key, at).pending_since == session.pending_since,
{
}

/// A failed lookup leaves result list, selection, query and mode as they
/// were and records the failure.
pub proof fn failed_lookup_keeps_results(session: SessionView, error: LookupError)
    ensures
        session.complete_lookup(Err(error)).results == session.results,
        session.complete_lookup(Err(error)).selection == session.selection,
        session.complete_lookup(Err(error)).query == session.query,
        session.complete_lookup(Err(error)).mode == session.mode,
        session.complete_lookup(Err(error)).last_error == Some(error),
        session.complete_lookup(Err(error)).pending_since is None,
{
}

/// One report to the session loop, and the time at which it arrives.
pub struct TimedReport {
    pub report: ReportView,
    pub at: nat,
}

/// The session loop after a run of reports, first to last.
pub open spec fn drive(driver: LoopView, reports: Seq<TimedReport>) -> LoopView
    decreases reports.len(),
{
    if reports.len() == 0 {
        driver
    } else {
        drive(driver, reports.drop_last()).advance(reports.last().report, reports.last().at)
    }
}

/// The selection invariant holds throughout the session loop, whatever is
/// reported to it and in whatever order.
pub proof fn loop_keeps_selection_in_range(driver: LoopView, reports: Seq<TimedReport>)
    requires
        driver.session.wf(),
    ensures
        drive(driver, reports).session.wf(),
    decreases reports.len(),
{
    if reports.len() > 0 {
        loop_keeps_selection_in_range(driver, reports.drop_last());
    }
}

/// The loop asks for a lookup only after a painted frame, at a time when a
/// lookup is due, and then for the session's query.
pub proof fn loop_looks_up_only_when_due(driver: LoopView, report: ReportView, now: nat)
    requires
        driver.awaiting != Awaiting::Lookup,
    ensures
        driver.advance(report, now).awaiting == Awaiting::Lookup <==> driver.awaiting
            == Awaiting::Paint && report == ReportView::Painted && driver.session.lookup_due(now),
        driver.advance(report, now).awaiting == Awaiting::Lookup ==> driver.advance(
            report,
            now,
        ).awaited() == ActionView::Lookup(driver.session.query),
{
}

/// The loop has one exit: it ends exactly when the wait brings the key
/// press that ends the session.
pub proof fn loop_ends_only_on_quit(driver: LoopView, report: ReportView, now: nat)
    requires
        driver.awaiting != Awaiting::Nothing,
    ensures
        driver.advance(report, now).awaiting == Awaiting::Nothing <==> driver.awaiting
            == Awaiting::Poll && report == ReportView::Polled(Some(Key::Char('q')))
            && driver.session.mode == Mode::Navigate,
        driver.advance(report, now).awaited() == ActionView::Exit <==> driver.advance(
            report,
            now,
        ).awaiting == Awaiting::Nothing,
{
}

/// A loop that has ended stays ended.
pub proof fn ended_loop_stays_ended(driver: LoopView, report: ReportView, now: nat)
    requires
        driver.awaiting == Awaiting::Nothing,
    ensures
        driver.advance(report, now) == driver,
        driver.advance(report, now).awaited() == ActionView::Exit,
{
}

/// A failed lookup does not end the loop: the loop goes on to wait for a
/// key press, with the result list and the selection it had.
pub proof fn failed_lookup_keeps_loop_running(driver: LoopView, error: LookupError, now: nat)
    requires
        driver.awaiting == Awaiting::Lookup,
    ensures
        driver.advance(ReportView::LookupDone(Err(error)), now).awaiting == Awaiting::Poll,
        driver.advance(ReportView::LookupDone(Err(error)), now).session.results
            == driver.session.results,
        driver.advance(ReportView::LookupDone(Err(error)), now).session.selection
            == driver.session.selection,
        driver.advance(ReportView::LookupDone(Err(error)), now).session.last_error == Some(error),
{
}

/// The start of a text up to its first `&` or `#`: in the query part of an
/// address, the text of one parameter.
pub open spec fn until_delimiter(text: Seq<char>) -> Seq<char>
    decreases text.len(),
{
    if text.len() == 0 || text[0] == '&' || text[0] == '#' {
        Seq::empty()
    } else {
        seq![text[0]] + until_delimiter(text.skip(1))
    }
}

/// The value of the parameter `query` of a search address: what stands
/// behind the address's start up to the next `&` or `#`, decoded.
pub open spec fn query_parameter(address: Seq<char>) -> Seq<char> {
    decode_utf8(percent_decode(until_delimiter(address.skip(spec_search_prefix().len() as int))))
}

/// A text without `&` and `#` reaches up to the delimiter that follows it.
pub proof fn delimiter_ends_plain_text(plain: Seq<char>, tail: Seq<char>)
    requires
        forall|i: int| 0 <= i < plain.len() ==> plain[i] != '&' && plain[i] != '#',
        tail.len() == 0 || tail[0] == '&' || tail[0] == '#',
    ensures
        until_delimiter(plain + tail) == plain,
    decreases plain.len(),
{
    if plain.len() > 0 {
        delimiter_ends_plain_text(plain.skip(1), tail);
        assert((plain + tail).skip(1) =~= plain.skip(1) + tail);
    }
}

/// The search address carries the query as the value of its parameter
/// `query`, whatever characters the query holds, and the fixed filters
/// behind it. The address starts with the endpoint; the text of the
/// parameter `query` is the encoded query, and decoding it gives the query
/// back; what follows does not depend on the query; and behind the start
/// there is no `#`, and no `&` but the one in front of `facets`.
pub proof fn search_url_carries_query(query: Seq<char>)
    ensures
        spec_search_url(query).take(spec_search_prefix().len() as int) == spec_search_prefix(),
        until_delimiter(spec_search_url(query).skip(spec_search_prefix().len() as int))
            == percent_encode(query),
        query_parameter(spec_search_url(query)) == query,
        spec_search_url(query).skip(
            (spec_search_prefix().len() + percent_encode(query).len()) as int,
        )
            == "&facets="@ + percent_encode(spec_facets()),
        forall|i: int|
            spec_search_prefix().len() <= i < spec_search_url(query).len() ==> {
                let c = #[trigger] spec_search_url(query)[i];
                c != '#' && c != ' ' && (c == '&' ==> i == spec_search_prefix().len()
                    + percent_encode(query).len())
            },
{
    let prefix = spec_search_prefix();
    let encoded = percent_encode(query);
    let name = "&facets="@;
    let filters = percent_encode(spec_facets());
    let tail = name + filters;
    let address = spec_search_url(query);
    reveal_strlit("&facets=");
    encoded_text_is_plain(encode_utf8(query));
    encoded_text_is_plain(encode_utf8(spec_facets()));
    encoded_text_stands_for_text(query);
    assert(address.skip(prefix.len() as int) =~= encoded + tail);
    delimiter_ends_plain_text(encoded, tail);
    assert forall|i: int| prefix.len() <= i < address.len() implies ({
        let c = #[trigger] address[i];
        c != '#' && c != ' ' && (c == '&' ==> i == prefix.len() + encoded.len())
    }) by {
        let k = i - prefix.len();
        assert(address[i] == (encoded + tail)[k]);
    }
}

} // verus!
