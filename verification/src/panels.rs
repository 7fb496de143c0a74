//! What the panels of the interface show, as plain text and numbers: one line
//! for each log entry, and the place of the cursor in the command input.
//! Drawing them is left to the caller.

use crate::text::{trim, trimmed};
use crate::tui::{App, InputMode};
use vstd::prelude::*;
use vstd::string::{StringExecFns, StringSliceAdditionalSpecFns};
use vstd::utf8::encode_utf8;

verus! {

/// What stands between the time and the text of a log line.
pub open spec fn separator() -> Seq<char> {
    seq![' ', '|', ' ']
}

/// The line shown for a log entry: `clock`, the separator, and `text` without
/// the white space at its ends.
pub open spec fn panel_line_of(clock: Seq<char>, text: Seq<char>) -> Seq<char> {
    clock + separator() + trimmed(text)
}

/// Where the cursor stands in a command input that starts at column `x` and
/// row `y` and holds `bytes` bytes: one column behind the text, inside the
/// border, when a command is being edited and that place has a column and a
/// row. Otherwise there is no cursor.
pub open spec fn cursor_of(mode: InputMode, bytes: int, x: u16, y: u16) -> Option<(u16, u16)> {
    if mode == InputMode::Editing && x + bytes + 1 <= u16::MAX && y + 1 <= u16::MAX {
        Some(((x + bytes + 1) as u16, (y + 1) as u16))
    } else {
        None
    }
}

/// The line shown for a log entry with the time `clock` and the text `text`.
pub fn panel_line(clock: &str, text: &str) -> (line: String)
    ensures
        line@ == panel_line_of(clock@, text@),
{
    proof {
        reveal_strlit(" | ");
    }
    let mut line = String::from_str(clock);
    line.append(" | ");
    line.append(trim(text));
    line
}

impl App {
    /// The lines of the telemetry panel, one for each entry of the log and in
    /// its order: the time of the entry to the millisecond, the separator, and
    /// the trimmed text of the entry.
    pub fn i2c_panel_lines(&self) -> (shown: Vec<String>)
        ensures
            shown@.len() == self.i2c_logs@.len(),
            forall|i: int|
                0 <= i < shown@.len() ==> (#[trigger] shown@[i])@ == panel_line_of(
                    self.i2c_logs@[i].timestamp.clock_millis(),
                    self.i2c_logs@[i].data@,
                ),
    {
        let mut shown: Vec<String> = Vec::new();
        let mut i: usize = 0;
        while i < self.i2c_logs.len()
            invariant
                i <= self.i2c_logs@.len(),
                shown@.len() == i,
                forall|k: int|
                    0 <= k < i ==> (#[trigger] shown@[k])@ == panel_line_of(
                        self.i2c_logs@[k].timestamp.clock_millis(),
                        self.i2c_logs@[k].data@,
                    ),
            decreases self.i2c_logs@.len() - i,
        {
            let entry = &self.i2c_logs[i];
            let clock = entry.timestamp.to_clock_millis();
            shown.push(panel_line(clock.as_str(), entry.data.as_str()));
            i += 1;
        }
        shown
    }

    /// The lines of the status panel, one for each entry of the log and in its
    /// order: the time of the entry to the second, the separator, and the
    /// trimmed text of the entry.
    pub fn status_panel_lines(&self) -> (shown: Vec<String>)
        ensures
            shown@.len() == self.status_logs@.len(),
            forall|i: int|
                0 <= i < shown@.len() ==> (#[trigger] shown@[i])@ == panel_line_of(
                    self.status_logs@[i].timestamp.clock(),
                    self.status_logs@[i].message@,
                ),
    {
        let mut shown: Vec<String> = Vec::new();
        let mut i: usize = 0;
        while i < self.status_logs.len()
            invariant
                i <= self.status_logs@.len(),
                shown@.len() == i,
                forall|k: int|
                    0 <= k < i ==> (#[trigger] shown@[k])@ == panel_line_of(
                        self.status_logs@[k].timestamp.clock(),
                        self.status_logs@[k].message@,
                    ),
            decreases self.status_logs@.len() - i,
        {
            let entry = &self.status_logs[i];
            let clock = entry.timestamp.to_clock();
            shown.push(panel_line(clock.as_str(), entry.message.as_str()));
            i += 1;
        }
        shown
    }

    /// Where to show the cursor when the command input is drawn with its
    /// corner at column `x` and row `y`, if anywhere.
    pub fn cursor_position(&self, x: u16, y: u16) -> (place: Option<(u16, u16)>)
        ensures
            place == cursor_of(
                self.input_mode,
                encode_utf8(self.command_input@).len() as int,
                x,
                y,
            ),
    {
        if self.input_mode == InputMode::Editing {
            let bytes: usize = self.command_input.as_str().as_bytes().len();
            if bytes < 0xFFFF && x as usize + bytes + 1 <= 0xFFFF && y < 0xFFFF {
                Some(((x as usize + bytes + 1) as u16, y + 1))
            } else {
                None
            }
        } else {
            None
        }
    }
}

} // verus!
