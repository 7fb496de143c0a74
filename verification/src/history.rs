//! What holds of the interface over a whole run: however many messages and
//! keys it has taken since it started, and in whatever order.
//!
//! A run is a sequence of events. `replay` gives the state that the events
//! lead to, step by step as `App::handle_message` and `App::handle_key_event`
//! take them, and the theorems below say what that state is and what it
//! never is.

use crate::text::{
    blank, lemma_blank_iff_trimmed_empty, lemma_line_is_part_of_text, lemma_unescaped_has_no_escape,
    lines_of, nonblank_lines, not_blank, occurs, occurs_at, trimmed, unescaped, BACKSLASH,
};
use crate::tui::{
    keep_last, last_index, lemma_key_keeps_well_formed, lemma_message_keeps_well_formed,
    AppMessage, AppView, InputMode, Key, I2C_LOG_CAPACITY, STATUS_LOG_CAPACITY,
};
use vstd::prelude::*;

verus! {

/// What the interface takes in: a message or a key.
pub enum Event {
    Message(AppMessage),
    Key(Key),
}

/// The state after `event`.
pub open spec fn after_event(state: AppView, event: Event) -> AppView {
    match event {
        Event::Message(message) => state.after_message(message),
        Event::Key(key) => state.after_key(key),
    }
}

/// The state that `events`, taken in order, lead to from `start`.
pub open spec fn replay(start: AppView, events: Seq<Event>) -> AppView
    decreases events.len(),
{
    if events.len() == 0 {
        start
    } else {
        after_event(replay(start, events.drop_last()), events.last())
    }
}

/// The telemetry lines that `event` brings: the lines of a telemetry message
/// that are not blank.
pub open spec fn telemetry_in(event: Event) -> Seq<Seq<char>> {
    match event {
        Event::Message(AppMessage::I2CData(text)) => nonblank_lines(text@),
        _ => Seq::empty(),
    }
}

/// The status lines that `event` brings: the lines, not blank, of a status or
/// of the answer to a command, read with its newline escapes as line feeds.
pub open spec fn status_in(event: Event) -> Seq<Seq<char>> {
    match event {
        Event::Message(AppMessage::StatusUpdate(text)) => nonblank_lines(unescaped(text@)),
        Event::Message(AppMessage::CommandResponse(text)) => nonblank_lines(unescaped(text@)),
        _ => Seq::empty(),
    }
}

/// Every telemetry line that `events` bring, in the order of arrival.
pub open spec fn telemetry_of(events: Seq<Event>) -> Seq<Seq<char>>
    decreases events.len(),
{
    if events.len() == 0 {
        Seq::empty()
    } else {
        telemetry_of(events.drop_last()) + telemetry_in(events.last())
    }
}

/// Every status line that `events` bring, in the order of arrival.
pub open spec fn status_of(events: Seq<Event>) -> Seq<Seq<char>>
    decreases events.len(),
{
    if events.len() == 0 {
        Seq::empty()
    } else {
        status_of(events.drop_last()) + status_in(events.last())
    }
}

/// The newline escape: a backslash and the letter n.
pub open spec fn newline_escape() -> Seq<char> {
    seq![BACKSLASH, 'n']
}

/// Cutting to the last `capacity` items, adding more, and cutting again gives
/// what adding and cutting once gives.
pub proof fn lemma_keep_last_absorbs<A>(older: Seq<A>, newer: Seq<A>, capacity: int)
    requires
        capacity >= 0,
    ensures
        keep_last(keep_last(older, capacity) + newer, capacity) == keep_last(
            older + newer,
            capacity,
        ),
{
}

/// The telemetry log never holds more than a thousand entries, and it holds
/// the last thousand telemetry lines that arrived, oldest first: all of them
/// while there are no more than a thousand.
pub proof fn theorem_telemetry_log_keeps_latest(events: Seq<Event>)
    ensures
        replay(AppView::initial(), events).i2c_lines == keep_last(
            telemetry_of(events),
            I2C_LOG_CAPACITY as int,
        ),
        replay(AppView::initial(), events).i2c_lines.len() <= I2C_LOG_CAPACITY,
    decreases events.len(),
{
    if events.len() > 0 {
        let earlier = events.drop_last();
        theorem_telemetry_log_keeps_latest(earlier);
        let before = replay(AppView::initial(), earlier);
        match events.last() {
            Event::Message(AppMessage::I2CData(text)) => {
                lemma_keep_last_absorbs(
                    telemetry_of(earlier),
                    nonblank_lines(text@),
                    I2C_LOG_CAPACITY as int,
                );
            },
            _ => {
            },
        }
    }
}

/// The status log never holds more than a hundred entries, and it holds the
/// last hundred status lines that arrived, oldest first: all of them while
/// there are no more than a hundred.
pub proof fn theorem_status_log_keeps_latest(events: Seq<Event>)
    ensures
        replay(AppView::initial(), events).status_lines == keep_last(
            status_of(events),
            STATUS_LOG_CAPACITY as int,
        ),
        replay(AppView::initial(), events).status_lines.len() <= STATUS_LOG_CAPACITY,
    decreases events.len(),
{
    if events.len() > 0 {
        let earlier = events.drop_last();
        theorem_status_log_keeps_latest(earlier);
        let before = replay(AppView::initial(), earlier);
        match events.last() {
            Event::Message(AppMessage::StatusUpdate(text)) => {
                lemma_keep_last_absorbs(
                    status_of(earlier),
                    nonblank_lines(unescaped(text@)),
                    STATUS_LOG_CAPACITY as int,
                );
            },
            Event::Message(AppMessage::CommandResponse(text)) => {
                lemma_keep_last_absorbs(
                    status_of(earlier),
                    nonblank_lines(unescaped(text@)),
                    STATUS_LOG_CAPACITY as int,
                );
            },
            _ => {
            },
        }
    }
}

/// Every state of a run is well formed.
pub proof fn theorem_run_stays_well_formed(events: Seq<Event>)
    ensures
        replay(AppView::initial(), events).well_formed(),
    decreases events.len(),
{
    if events.len() > 0 {
        theorem_run_stays_well_formed(events.drop_last());
        let before = replay(AppView::initial(), events.drop_last());
        match events.last() {
            Event::Message(message) => lemma_message_keeps_well_formed(before, message),
            Event::Key(key) => lemma_key_keeps_well_formed(before, key),
        }
    }
}

/// Neither log ever holds a blank line: trimming an entry never leaves it
/// empty.
pub proof fn theorem_no_blank_line_is_logged(events: Seq<Event>, i: int)
    ensures
        0 <= i < replay(AppView::initial(), events).i2c_lines.len() ==> trimmed(
            replay(AppView::initial(), events).i2c_lines[i],
        ).len() > 0,
        0 <= i < replay(AppView::initial(), events).status_lines.len() ==> trimmed(
            replay(AppView::initial(), events).status_lines[i],
        ).len() > 0,
{
    theorem_run_stays_well_formed(events);
    let state = replay(AppView::initial(), events);
    if 0 <= i < state.i2c_lines.len() {
        lemma_blank_iff_trimmed_empty(state.i2c_lines[i]);
    }
    if 0 <= i < state.status_lines.len() {
        lemma_blank_iff_trimmed_empty(state.status_lines[i]);
    }
}

/// No line that a status or the answer to a command brings holds a newline
/// escape: each escape has become a line break before the text is split.
pub proof fn theorem_status_lines_hold_no_escape(text: Seq<char>, i: int)
    requires
        0 <= i < nonblank_lines(unescaped(text)).len(),
    ensures
        !occurs(nonblank_lines(unescaped(text))[i], newline_escape()),
{
    let read = unescaped(text);
    let line = nonblank_lines(read)[i];
    lines_of(read).lemma_filter_contains_rev(not_blank(), line);
    let k = choose|k: int| 0 <= k < lines_of(read).len() && lines_of(read)[k] == line;
    lemma_line_is_part_of_text(read, k);
    lemma_unescaped_has_no_escape(text);
    let (from, to) = choose|from: int, to: int|
        0 <= from <= to <= read.len() && line == #[trigger] read.subrange(from, to);
    if occurs(line, newline_escape()) {
        let at = choose|at: int| occurs_at(line, newline_escape(), at);
        assert(read.subrange(from + at, from + at + 2) =~= line.subrange(at, at + 2));
        assert(occurs_at(read, newline_escape(), from + at));
    }
}

/// After telemetry has arrived the cursor is on the last entry of the
/// telemetry log, or at 0 while the log is empty.
pub proof fn theorem_cursor_follows_telemetry(state: AppView, text: Seq<char>)
    ensures
        state.after_telemetry(text).scroll_offset == last_index(
            state.after_telemetry(text).i2c_lines.len() as int,
        ),
{
}

/// A key never moves the cursor off the telemetry log: a cursor that is on an
/// entry, or at 0 while the log is empty, is so after any key. On an empty
/// log it stays at 0.
pub proof fn theorem_cursor_stays_on_log(state: AppView, key: Key)
    requires
        0 <= state.scroll_offset <= last_index(state.i2c_lines.len() as int),
    ensures
        0 <= state.after_key(key).scroll_offset <= last_index(
            state.after_key(key).i2c_lines.len() as int,
        ),
        state.i2c_lines.len() == 0 ==> state.after_key(key).scroll_offset == 0,
{
}

/// The command input changes only while a command is being edited: in normal
/// mode no key changes it, and no message ever does.
pub proof fn theorem_input_changes_only_while_editing(state: AppView, event: Event)
    requires
        state.input_mode == InputMode::Normal || event is Message,
    ensures
        after_event(state, event).command_input == state.command_input,
{
}

/// In normal mode the key `c` starts the editing of a command, leaves the
/// input as it is and sends nothing.
pub proof fn theorem_c_starts_editing(state: AppView)
    requires
        state.input_mode == InputMode::Normal,
    ensures
        state.after_key(Key::Char('c')).input_mode == InputMode::Editing,
        state.after_key(Key::Char('c')).command_input == state.command_input,
        state.command_on(Key::Char('c')) is None,
{
}

/// While editing, `Enter` on an input that trimming leaves empty sends
/// nothing and returns to normal mode.
pub proof fn theorem_enter_on_blank_input_sends_nothing(state: AppView)
    requires
        state.input_mode == InputMode::Editing,
        trimmed(state.command_input).len() == 0,
    ensures
        state.command_on(Key::Enter) is None,
        state.after_key(Key::Enter).input_mode == InputMode::Normal,
        state.after_key(Key::Enter).command_input == state.command_input,
{
}

/// While editing, `Enter` on any other input sends exactly the trimmed input,
/// empties the input and returns to normal mode.
pub proof fn theorem_enter_sends_trimmed_input(state: AppView)
    requires
        state.input_mode == InputMode::Editing,
        trimmed(state.command_input).len() > 0,
    ensures
        state.command_on(Key::Enter) == Some(trimmed(state.command_input)),
        state.after_key(Key::Enter).input_mode == InputMode::Normal,
        state.after_key(Key::Enter).command_input == Seq::<char>::empty(),
{
}

} // verus!
