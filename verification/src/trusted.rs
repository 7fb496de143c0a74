//! What this library takes on trust: the types and functions of `std`, `chrono`,
//! `tokio` and `ratatui` that its logic uses and that are not verified here. Each
//! contract below is an assumption about that outside code, not a proved fact.

use crate::clock::Timestamp;
use chrono::Timelike;
use vstd::prelude::*;

verus! {

/// `tokio::sync::mpsc::UnboundedSender`, the sending half of an unbounded
/// channel. Nothing is known of what it holds.
#[verifier::external_type_specification]
#[verifier::external_body]
#[verifier::reject_recursive_types(T)]
pub struct ExUnboundedSender<T>(tokio::sync::mpsc::UnboundedSender<T>);

/// `ratatui::widgets::ListState`, the scroll position and selected row of a
/// list widget.
#[verifier::external_type_specification]
#[verifier::external_body]
pub struct ExListState(ratatui::widgets::ListState);

/// The row that `state` marks as selected: what `ListState::selected` returns
/// for it.
pub uninterp spec fn selected_row(state: ratatui::widgets::ListState) -> Option<usize>;

/// `String::push`: the string afterwards is the string before with `c` behind
/// its last character.
#[verifier::external_body]
pub(crate) fn push_char(s: &mut String, c: char)
    ensures
        final(s)@ == old(s)@.push(c),
{
    s.push(c)
}

/// `String::pop`: takes the last character off the string and returns it; on
/// an empty string it returns `None` and changes nothing.
#[verifier::external_body]
pub(crate) fn pop_char(s: &mut String) -> (last: Option<char>)
    ensures
        old(s)@.len() == 0 ==> last == None::<char> && final(s)@ == old(s)@,
        old(s)@.len() > 0 ==> last == Some(old(s)@.last()) && final(s)@ == old(s)@.drop_last(),
{
    s.pop()
}

/// `String::from_utf8`: the bytes as a string where they are valid UTF-8, which
/// then holds exactly those bytes, and nothing where they are not.
#[verifier::external_body]
pub(crate) fn string_from_utf8(bytes: Vec<u8>) -> (text: Option<String>)
    ensures
        text is Some <==> vstd::utf8::valid_utf8(bytes@),
        text matches Some(s) ==> vstd::utf8::encode_utf8(s@) == bytes@,
{
    String::from_utf8(bytes).ok()
}

/// `chrono::Local::now`, read through `Timelike`: the time of day on the local
/// clock. Which time it is depends on the clock. Whatever it is, it is a valid
/// timestamp: its hour is below 24 and its minute and second are below 60, as
/// `Timelike` says, and its nanoseconds are those of the system clock, which
/// stay below a thousand million.
#[verifier::external_body]
pub(crate) fn now() -> (stamp: Timestamp)
    ensures
        stamp.valid(),
{
    let instant = chrono::Local::now();
    Timestamp {
        hour: instant.hour(),
        minute: instant.minute(),
        second: instant.second(),
        nanosecond: instant.nanosecond(),
    }
}

/// `NaiveTime::format` with the pattern `%H:%M:%S%.3f`, on the time that
/// `NaiveTime::from_hms_nano_opt` makes of a valid timestamp: hour, minute and
/// second, each zero-padded to two digits, with colons between them, then a
/// point and the milliseconds within the second as three digits, rounded down.
/// During a leap second the second reads 60.
#[verifier::external_body]
pub(crate) fn clock_text_millis(stamp: &Timestamp) -> (text: String)
    requires
        stamp.valid(),
    ensures
        text@ == stamp.clock_millis(),
{
    chrono::NaiveTime::from_hms_nano_opt(stamp.hour, stamp.minute, stamp.second, stamp.nanosecond)
        .unwrap()
        .format("%H:%M:%S%.3f")
        .to_string()
}

/// `UnboundedSender::send`: hands `command` to the channel without waiting.
/// The result says whether the channel took it; it refuses once the receiving
/// half is closed or gone.
#[verifier::external_body]
pub(crate) fn send_command(
    sender: &tokio::sync::mpsc::UnboundedSender<String>,
    command: String,
) -> (accepted: bool) {
    sender.send(command).is_ok()
}

/// `ListState::default`: a list state with no row selected.
#[verifier::external_body]
pub(crate) fn new_list_state() -> (state: ratatui::widgets::ListState)
    ensures
        selected_row(state) == None::<usize>,
{
    ratatui::widgets::ListState::default()
}

/// `ListState::select` with `Some(row)`: afterwards `row` is the selected row.
#[verifier::external_body]
pub(crate) fn select_row(state: &mut ratatui::widgets::ListState, row: usize)
    ensures
        selected_row(*final(state)) == Some(row),
{
    state.select(Some(row))
}

} // verus!
