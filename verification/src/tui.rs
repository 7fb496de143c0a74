//! The state behind the terminal interface: two bounded logs, the command
//! input with its editing mode, and the scroll cursors, together with the two
//! transitions that change them, one for an incoming message and one for a key.
//!
//! `AppView` is the mathematical model of that state. `AppView::after_message`
//! and `AppView::after_key` define the transitions on the model, and
//! `App::handle_message` and `App::handle_key_event` are proved to follow them.

use crate::text::{
    blank, is_blank, lines, lines_of, nonblank_lines, not_blank, trim, trimmed, unescape_newlines,
    unescaped, views,
};
use crate::clock::Timestamp;
use crate::trusted::{
    new_list_state, now, pop_char, push_char, select_row, selected_row, send_command,
};
use ratatui::widgets::ListState;
use tokio::sync::mpsc::UnboundedSender;
use vstd::prelude::*;

verus! {

/// How many entries the telemetry log holds at most.
pub const I2C_LOG_CAPACITY: usize = 1000;

/// How many entries the status log holds at most.
pub const STATUS_LOG_CAPACITY: usize = 100;

/// How far `PageUp` and `PageDown` move the telemetry cursor.
pub const PAGE_STEP: usize = 10;

/// The function key that quits while a command is being edited.
pub const EMERGENCY_QUIT_KEY: u8 = 12;

/// What reaches the interface from outside: a chunk of telemetry, a status
/// text from the device, or the answer to a command that was sent.
#[derive(Debug, Clone, PartialEq, Eq)]
pub enum AppMessage {
    I2CData(String),
    StatusUpdate(String),
    CommandResponse(String),
}

/// One line of telemetry and the moment it was logged.
#[derive(Debug, Clone, PartialEq, Eq)]
pub struct I2CLogEntry {
    pub timestamp: Timestamp,
    pub data: String,
}

/// One line of status text and the moment it was logged.
#[derive(Debug, Clone, PartialEq, Eq)]
pub struct StatusEntry {
    pub timestamp: Timestamp,
    pub message: String,
}

/// Whether keys steer the interface or edit the command input.
#[derive(Debug, Clone, Copy, PartialEq, Eq, Structural)]
pub enum InputMode {
    Normal,
    Editing,
}

/// A key as the interface tells keys apart. `Other` stands for every key that
/// has no meaning here.
#[derive(Debug, Clone, Copy, PartialEq, Eq, Structural)]
pub enum Key {
    Char(char),
    Up,
    Down,
    PageUp,
    PageDown,
    Enter,
    Backspace,
    Esc,
    F(u8),
    Other,
}

/// The state of the interface.
pub struct App {
    pub should_quit: bool,
    pub i2c_logs: Vec<I2CLogEntry>,
    pub status_logs: Vec<StatusEntry>,
    pub command_input: String,
    pub input_mode: InputMode,
    pub scroll_offset: usize,
    pub status_scroll_offset: usize,
    pub command_sender: UnboundedSender<String>,
    pub i2c_list_state: ListState,
    pub status_list_state: ListState,
}

/// The model of an `App`: the texts of its logs without their timestamps, and
/// everything else as it stands.
#[verifier::ext_equal]
pub struct AppView {
    pub should_quit: bool,
    pub i2c_lines: Seq<Seq<char>>,
    pub status_lines: Seq<Seq<char>>,
    pub command_input: Seq<char>,
    pub input_mode: InputMode,
    pub scroll_offset: int,
    pub status_scroll_offset: int,
    pub i2c_selected: Option<usize>,
    pub status_selected: Option<usize>,
}

/// The last `capacity` items of `s`, or all of `s` where it has no more.
pub open spec fn keep_last<A>(s: Seq<A>, capacity: int) -> Seq<A> {
    if s.len() > capacity {
        s.skip(s.len() - capacity)
    } else {
        s
    }
}

/// The index of the last of `len` items, or 0 where there is none.
pub open spec fn last_index(len: int) -> int {
    if len > 0 {
        len - 1
    } else {
        0
    }
}

/// The row selected in a list of `len` rows once it has been scrolled to its
/// end: the last one, or `previous` where the list is empty.
pub open spec fn selected_at_end(len: int, previous: Option<usize>) -> Option<usize> {
    if len > 0 {
        Some((len - 1) as usize)
    } else {
        previous
    }
}

/// The texts of the telemetry entries, in order.
pub open spec fn i2c_texts(entries: Seq<I2CLogEntry>) -> Seq<Seq<char>> {
    entries.map_values(|entry: I2CLogEntry| entry.data@)
}

/// The texts of the status entries, in order.
pub open spec fn status_texts(entries: Seq<StatusEntry>) -> Seq<Seq<char>> {
    entries.map_values(|entry: StatusEntry| entry.message@)
}

/// Whether the entries of `before` that `after` still holds stand there
/// unchanged and in order, when `added` entries were put behind `before` and
/// the oldest were dropped.
pub open spec fn carried_over<A>(before: Seq<A>, after: Seq<A>, added: int) -> bool {
    let dropped = before.len() + added - after.len();
    forall|i: int|
        0 <= i < after.len() && 0 <= i + dropped < before.len() ==> #[trigger] after[i] == before[i
            + dropped]
}

impl AppView {
    /// The state in which the interface starts.
    pub open spec fn initial() -> AppView {
        AppView {
            should_quit: false,
            i2c_lines: Seq::empty(),
            status_lines: Seq::empty(),
            command_input: Seq::empty(),
            input_mode: InputMode::Normal,
            scroll_offset: 0,
            status_scroll_offset: 0,
            i2c_selected: None,
            status_selected: None,
        }
    }

    /// The state after `text` has arrived as telemetry: its lines that are not
    /// blank stand at the end of the telemetry log, the oldest entries beyond
    /// the capacity are gone, and the cursor and the selection are on the last
    /// entry.
    pub open spec fn after_telemetry(self, text: Seq<char>) -> AppView {
        let log = keep_last(self.i2c_lines + nonblank_lines(text), I2C_LOG_CAPACITY as int);
        AppView {
            i2c_lines: log,
            scroll_offset: last_index(log.len() as int),
            i2c_selected: selected_at_end(log.len() as int, self.i2c_selected),
            ..self
        }
    }

    /// The state after `text` has arrived as a status or as the answer to a
    /// command: as for telemetry, on the status log, with each newline escape
    /// read as a line feed before the text is split.
    pub open spec fn after_status(self, text: Seq<char>) -> AppView {
        let log = keep_last(
            self.status_lines + nonblank_lines(unescaped(text)),
            STATUS_LOG_CAPACITY as int,
        );
        AppView {
            status_lines: log,
            status_scroll_offset: last_index(log.len() as int),
            status_selected: selected_at_end(log.len() as int, self.status_selected),
            ..self
        }
    }

    /// The state after `message` has been handled.
    pub open spec fn after_message(self, message: AppMessage) -> AppView {
        match message {
            AppMessage::I2CData(text) => self.after_telemetry(text@),
            AppMessage::StatusUpdate(text) => self.after_status(text@),
            AppMessage::CommandResponse(text) => self.after_status(text@),
        }
    }

    /// The telemetry cursor after `key` in normal mode. It moves by one or by
    /// a page and stops at the first and at the last entry.
    pub open spec fn scrolled(self, key: Key) -> int {
        let last = last_index(self.i2c_lines.len() as int);
        let at = self.scroll_offset;
        match key {
            Key::Up => if at >= 1 {
                at - 1
            } else {
                0
            },
            Key::Down => if at < last {
                at + 1
            } else {
                at
            },
            Key::PageUp => if at >= PAGE_STEP {
                at - PAGE_STEP
            } else {
                0
            },
            Key::PageDown => if at + PAGE_STEP < last {
                at + PAGE_STEP
            } else {
                last
            },
            _ => at,
        }
    }

    /// The state after `key` in normal mode.
    pub open spec fn after_normal_key(self, key: Key) -> AppView {
        match key {
            Key::Char(c) => if c == 'q' {
                AppView { should_quit: true, ..self }
            } else if c == 'c' {
                AppView { input_mode: InputMode::Editing, ..self }
            } else {
                self
            },
            _ => AppView { scroll_offset: self.scrolled(key), ..self },
        }
    }

    /// The state after `key` while a command is being edited.
    pub open spec fn after_editing_key(self, key: Key) -> AppView {
        match key {
            Key::Enter => if trimmed(self.command_input).len() > 0 {
                AppView { command_input: Seq::empty(), input_mode: InputMode::Normal, ..self }
            } else {
                AppView { input_mode: InputMode::Normal, ..self }
            },
            Key::Char(c) => AppView { command_input: self.command_input.push(c), ..self },
            Key::Backspace => if self.command_input.len() > 0 {
                AppView { command_input: self.command_input.drop_last(), ..self }
            } else {
                self
            },
            Key::Esc => AppView {
                command_input: Seq::empty(),
                input_mode: InputMode::Normal,
                ..self
            },
            Key::F(n) => if n == EMERGENCY_QUIT_KEY {
                AppView { should_quit: true, ..self }
            } else {
                self
            },
            _ => self,
        }
    }

    /// The state after `key` has been handled.
    pub open spec fn after_key(self, key: Key) -> AppView {
        match self.input_mode {
            InputMode::Normal => self.after_normal_key(key),
            InputMode::Editing => self.after_editing_key(key),
        }
    }

    /// The command that `key` sends off: the trimmed input when `Enter` ends
    /// the editing of an input that is not blank, and none otherwise.
    pub open spec fn command_on(self, key: Key) -> Option<Seq<char>> {
        if self.input_mode == InputMode::Editing && key == Key::Enter && trimmed(
            self.command_input,
        ).len() > 0 {
            Some(trimmed(self.command_input))
        } else {
            None
        }
    }

    /// Whether the state is one that the interface can be in: neither log
    /// holds more than its capacity or a blank line, each cursor is on an
    /// entry of its log, or 0 where the log is empty.
    pub open spec fn well_formed(self) -> bool {
        &&& self.i2c_lines.len() <= I2C_LOG_CAPACITY
        &&& self.status_lines.len() <= STATUS_LOG_CAPACITY
        &&& forall|i: int| 0 <= i < self.i2c_lines.len() ==> !blank(#[trigger] self.i2c_lines[i])
        &&& forall|i: int|
            0 <= i < self.status_lines.len() ==> !blank(#[trigger] self.status_lines[i])
        &&& 0 <= self.scroll_offset <= last_index(self.i2c_lines.len() as int)
        &&& 0 <= self.status_scroll_offset <= last_index(self.status_lines.len() as int)
    }
}

impl View for App {
    type V = AppView;

    open spec fn view(&self) -> AppView {
        AppView {
            should_quit: self.should_quit,
            i2c_lines: i2c_texts(self.i2c_logs@),
            status_lines: status_texts(self.status_logs@),
            command_input: self.command_input@,
            input_mode: self.input_mode,
            scroll_offset: self.scroll_offset as int,
            status_scroll_offset: self.status_scroll_offset as int,
            i2c_selected: selected_row(self.i2c_list_state),
            status_selected: selected_row(self.status_list_state),
        }
    }
}

/// The lines of `text` that are not blank.
fn fresh_lines(text: &str) -> (fresh: Vec<String>)
    ensures
        views(fresh@) == nonblank_lines(text@),
{
    let all = lines(text);
    let ghost split = views(all@);
    let mut fresh: Vec<String> = Vec::new();
    let mut i: usize = 0;
    while i < all.len()
        invariant
            i <= all.len(),
            split == views(all@),
            views(fresh@) == split.take(i as int).filter(not_blank()),
        decreases all.len() - i,
    {
        proof {
            assert(split.take(i + 1) =~= split.take(i as int).push(all@[i as int]@));
            split.take(i as int).lemma_filter_push(all@[i as int]@, not_blank());
        }
        if !is_blank(all[i].as_str()) {
            fresh.push(all[i].clone());
        }
        i += 1;
    }
    assert(split.take(all.len() as int) =~= split);
    fresh
}

/// Drops the oldest entries of `log` until no more than `capacity` are left.
fn evict<T>(log: &mut Vec<T>, capacity: usize)
    ensures
        final(log)@ == keep_last(old(log)@, capacity as int),
{
    let ghost full = log@;
    while log.len() > capacity
        invariant
            log@.len() <= full.len(),
            log@ == full.skip(full.len() - log@.len()),
            log@.len() >= capacity || log@.len() == full.len(),
        decreases log.len(),
    {
        log.remove(0);
    }
}

impl App {
    /// A fresh interface that sends its commands through `command_sender`.
    pub fn new(command_sender: UnboundedSender<String>) -> (app: App)
        ensures
            app@ == AppView::initial(),
            app@.well_formed(),
            app.command_sender == command_sender,
    {
        let app = App {
            should_quit: false,
            i2c_logs: Vec::new(),
            status_logs: Vec::new(),
            command_input: String::new(),
            input_mode: InputMode::Normal,
            scroll_offset: 0,
            status_scroll_offset: 0,
            command_sender,
            i2c_list_state: new_list_state(),
            status_list_state: new_list_state(),
        };
        app
    }

    /// Logs the lines of `text` that are not blank as telemetry, each with the
    /// time of its logging, and moves the cursor and the selection to the end.
    fn log_telemetry(&mut self, text: &str)
        ensures
            final(self)@ == old(self)@.after_telemetry(text@),
            carried_over(
                old(self).i2c_logs@,
                final(self).i2c_logs@,
                nonblank_lines(text@).len() as int,
            ),
            final(self).status_logs == old(self).status_logs,
            final(self).command_sender == old(self).command_sender,
    {
        let fresh = fresh_lines(text);
        let ghost before = self.i2c_logs@;
        let mut i: usize = 0;
        let ghost mut added: Seq<I2CLogEntry> = Seq::empty();
        while i < fresh.len()
            invariant
                i <= fresh.len(),
                self.i2c_logs@ == before + added,
                added.len() == i,
                i2c_texts(added) == views(fresh@).take(i as int),
                self.status_logs == old(self).status_logs,
                self.command_sender == old(self).command_sender,
                self.should_quit == old(self).should_quit,
                self.command_input == old(self).command_input,
                self.input_mode == old(self).input_mode,
                self.status_scroll_offset == old(self).status_scroll_offset,
                self.i2c_list_state == old(self).i2c_list_state,
                self.status_list_state == old(self).status_list_state,
            decreases fresh.len() - i,
        {
            let entry = I2CLogEntry { timestamp: now(), data: fresh[i].clone() };
            proof {
                added = added.push(entry);
            }
            self.i2c_logs.push(entry);
            i += 1;
        }
        evict(&mut self.i2c_logs, I2C_LOG_CAPACITY);
        let count: usize = self.i2c_logs.len();
        self.scroll_offset = if count > 0 {
            count - 1
        } else {
            0
        };
        if count > 0 {
            select_row(&mut self.i2c_list_state, count - 1);
        }
        assert(i2c_texts(before + added) =~= i2c_texts(before) + i2c_texts(added));
        assert(i2c_texts(keep_last(before + added, I2C_LOG_CAPACITY as int)) =~= keep_last(
            i2c_texts(before + added),
            I2C_LOG_CAPACITY as int,
        ));
    }

    /// Logs the lines of `text` that are not blank as status, each with the
    /// time of its logging, once its newline escapes have become line feeds,
    /// and moves the cursor and the selection to the end.
    fn log_status(&mut self, text: &str)
        ensures
            final(self)@ == old(self)@.after_status(text@),
            carried_over(
                old(self).status_logs@,
                final(self).status_logs@,
                nonblank_lines(unescaped(text@)).len() as int,
            ),
            final(self).i2c_logs == old(self).i2c_logs,
            final(self).command_sender == old(self).command_sender,
    {
        let processed = unescape_newlines(text);
        let fresh = fresh_lines(processed.as_str());
        let ghost before = self.status_logs@;
        let mut i: usize = 0;
        let ghost mut added: Seq<StatusEntry> = Seq::empty();
        while i < fresh.len()
            invariant
                i <= fresh.len(),
                self.status_logs@ == before + added,
                added.len() == i,
                status_texts(added) == views(fresh@).take(i as int),
                self.i2c_logs == old(self).i2c_logs,
                self.command_sender == old(self).command_sender,
                self.should_quit == old(self).should_quit,
                self.command_input == old(self).command_input,
                self.input_mode == old(self).input_mode,
                self.scroll_offset == old(self).scroll_offset,
                self.i2c_list_state == old(self).i2c_list_state,
                self.status_list_state == old(self).status_list_state,
            decreases fresh.len() - i,
        {
            let entry = StatusEntry { timestamp: now(), message: fresh[i].clone() };
            proof {
                added = added.push(entry);
            }
            self.status_logs.push(entry);
            i += 1;
        }
        evict(&mut self.status_logs, STATUS_LOG_CAPACITY);
        let count: usize = self.status_logs.len();
        self.status_scroll_offset = if count > 0 {
            count - 1
        } else {
            0
        };
        if count > 0 {
            select_row(&mut self.status_list_state, count - 1);
        }
        assert(status_texts(before + added) =~= status_texts(before) + status_texts(added));
        assert(status_texts(keep_last(before + added, STATUS_LOG_CAPACITY as int)) =~= keep_last(
            status_texts(before + added),
            STATUS_LOG_CAPACITY as int,
        ));
    }

    /// Takes `message` into the log it belongs to. Telemetry goes to the
    /// telemetry log; a status and the answer to a command go to the status
    /// log. The entries that stay in a log keep their place and their
    /// timestamp.
    pub fn handle_message(&mut self, message: AppMessage)
        ensures
            final(self)@ == old(self)@.after_message(message),
            old(self)@.well_formed() ==> final(self)@.well_formed(),
            message is I2CData ==> final(self).status_logs == old(self).status_logs && carried_over(
                old(self).i2c_logs@,
                final(self).i2c_logs@,
                nonblank_lines(message->I2CData_0@).len() as int,
            ),
            message is StatusUpdate ==> final(self).i2c_logs == old(self).i2c_logs && carried_over(
                old(self).status_logs@,
                final(self).status_logs@,
                nonblank_lines(unescaped(message->StatusUpdate_0@)).len() as int,
            ),
            message is CommandResponse ==> final(self).i2c_logs == old(self).i2c_logs
                && carried_over(
                old(self).status_logs@,
                final(self).status_logs@,
                nonblank_lines(unescaped(message->CommandResponse_0@)).len() as int,
            ),
            final(self).command_sender == old(self).command_sender,
    {
        proof {
            if self@.well_formed() {
                lemma_message_keeps_well_formed(self@, message);
            }
        }
        match message {
            AppMessage::I2CData(text) => self.log_telemetry(text.as_str()),
            AppMessage::StatusUpdate(text) => self.log_status(text.as_str()),
            AppMessage::CommandResponse(text) => self.log_status(text.as_str()),
        }
    }

    /// Moves the telemetry cursor as `key` asks in normal mode.
    fn scroll(&mut self, key: Key)
        ensures
            final(self).scroll_offset == old(self)@.scrolled(key),
            final(self)@ == (AppView { scroll_offset: old(self)@.scrolled(key), ..old(self)@ }),
            final(self).i2c_logs == old(self).i2c_logs,
            final(self).status_logs == old(self).status_logs,
            final(self).command_sender == old(self).command_sender,
    {
        let count: usize = self.i2c_logs.len();
        let last: usize = if count > 0 {
            count - 1
        } else {
            0
        };
        match key {
            Key::Up => {
                self.scroll_offset = self.scroll_offset.saturating_sub(1);
            },
            Key::Down => {
                if self.scroll_offset < last {
                    self.scroll_offset = self.scroll_offset + 1;
                }
            },
            Key::PageUp => {
                self.scroll_offset = self.scroll_offset.saturating_sub(PAGE_STEP);
            },
            Key::PageDown => {
                let target: usize = self.scroll_offset.saturating_add(PAGE_STEP);
                self.scroll_offset = if target < last {
                    target
                } else {
                    last
                };
            },
            _ => {},
        }
    }

    /// Applies `key` to the state and returns the command that it sends off,
    /// if it sends one. In normal mode `q` quits, `c` starts editing and the
    /// arrow and page keys scroll the telemetry log. While editing, a
    /// character goes to the end of the input, `Backspace` takes the last one
    /// away, `Esc` gives the input up, `F12` quits, and `Enter` returns to
    /// normal mode, sending the trimmed input off and emptying it unless it is
    /// blank.
    pub fn apply_key(&mut self, key: Key) -> (command: Option<String>)
        ensures
            final(self)@ == old(self)@.after_key(key),
            old(self)@.well_formed() ==> final(self)@.well_formed(),
            match old(self)@.command_on(key) {
                Some(text) => command matches Some(sent) && sent@ == text,
                None => command is None,
            },
            final(self).i2c_logs == old(self).i2c_logs,
            final(self).status_logs == old(self).status_logs,
            final(self).command_sender == old(self).command_sender,
    {
        proof {
            if self@.well_formed() {
                lemma_key_keeps_well_formed(self@, key);
            }
        }
        match self.input_mode {
            InputMode::Normal => {
                match key {
                    Key::Char(c) => {
                        if c == 'q' {
                            self.should_quit = true;
                        } else if c == 'c' {
                            self.input_mode = InputMode::Editing;
                        }
                    },
                    _ => {
                        self.scroll(key);
                    },
                }
                None
            },
            InputMode::Editing => {
                let mut command: Option<String> = None;
                match key {
                    Key::Enter => {
                        let sent = trim(self.command_input.as_str());
                        if !sent.is_empty() {
                            command = Some(sent.to_owned());
                            self.command_input = String::new();
                        }
                        self.input_mode = InputMode::Normal;
                    },
                    Key::Char(c) => {
                        push_char(&mut self.command_input, c);
                    },
                    Key::Backspace => {
                        let _ = pop_char(&mut self.command_input);
                    },
                    Key::Esc => {
                        self.command_input = String::new();
                        self.input_mode = InputMode::Normal;
                    },
                    Key::F(n) => {
                        if n == EMERGENCY_QUIT_KEY {
                            self.should_quit = true;
                        }
                    },
                    _ => {},
                }
                command
            },
        }
    }

    /// Applies `key` to the state, as `apply_key` does, and hands the command
    /// that it sends off, if any, to the command channel. Whether the channel
    /// took the command changes nothing.
    pub fn handle_key_event(&mut self, key: Key)
        ensures
            final(self)@ == old(self)@.after_key(key),
            old(self)@.well_formed() ==> final(self)@.well_formed(),
            final(self).i2c_logs == old(self).i2c_logs,
            final(self).status_logs == old(self).status_logs,
            final(self).command_sender == old(self).command_sender,
    {
        match self.apply_key(key) {
            Some(command) => {
                let _ = send_command(&self.command_sender, command);
            },
            None => {},
        }
    }
}

/// A message leaves a well-formed state well formed.
pub proof fn lemma_message_keeps_well_formed(state: AppView, message: AppMessage)
    requires
        state.well_formed(),
    ensures
        state.after_message(message).well_formed(),
{
    match message {
        AppMessage::I2CData(text) => {
            lemma_appended_lines_not_blank(state.i2c_lines, text@, I2C_LOG_CAPACITY as int);
        },
        AppMessage::StatusUpdate(text) => {
            lemma_appended_lines_not_blank(
                state.status_lines,
                unescaped(text@),
                STATUS_LOG_CAPACITY as int,
            );
        },
        AppMessage::CommandResponse(text) => {
            lemma_appended_lines_not_blank(
                state.status_lines,
                unescaped(text@),
                STATUS_LOG_CAPACITY as int,
            );
        },
    }
}

/// A log without blank lines has none after the lines of `text` that are not
/// blank are put behind it and it is cut to its last `capacity` entries, and
/// it then holds no more than `capacity`.
pub proof fn lemma_appended_lines_not_blank(log: Seq<Seq<char>>, text: Seq<char>, capacity: int)
    requires
        capacity >= 0,
        forall|i: int| 0 <= i < log.len() ==> !blank(#[trigger] log[i]),
    ensures
        keep_last(log + nonblank_lines(text), capacity).len() <= capacity,
        forall|i: int|
            0 <= i < keep_last(log + nonblank_lines(text), capacity).len() ==> !blank(
                #[trigger] keep_last(log + nonblank_lines(text), capacity)[i],
            ),
{
    let fresh = nonblank_lines(text);
    let all = log + fresh;
    let cut = keep_last(all, capacity);
    assert forall|i: int| 0 <= i < fresh.len() implies !blank(#[trigger] fresh[i]) by {
        lines_of(text).lemma_filter_pred(not_blank(), i);
    }
    assert forall|i: int| 0 <= i < cut.len() implies !blank(#[trigger] cut[i]) by {
        let j = if all.len() > capacity {
            i + all.len() - capacity
        } else {
            i
        };
        assert(cut[i] == all[j]);
    }
}

/// A key leaves a well-formed state well formed.
pub proof fn lemma_key_keeps_well_formed(state: AppView, key: Key)
    requires
        state.well_formed(),
    ensures
        state.after_key(key).well_formed(),
{
}

} // verus!
