use i2c_ble_client::bridge::command_response;
use i2c_ble_client::tui::{
    App, AppMessage, InputMode, Key, EMERGENCY_QUIT_KEY, I2C_LOG_CAPACITY, PAGE_STEP,
    STATUS_LOG_CAPACITY,
};
use tokio::sync::mpsc::error::TryRecvError;
use tokio::sync::mpsc::{unbounded_channel, UnboundedReceiver};

fn fresh() -> (App, UnboundedReceiver<String>) {
    let (sender, receiver) = unbounded_channel::<String>();
    (App::new(sender), receiver)
}

fn telemetry(app: &App) -> Vec<String> {
    app.i2c_logs.iter().map(|entry| entry.data.clone()).collect()
}

fn status(app: &App) -> Vec<String> {
    app.status_logs.iter().map(|entry| entry.message.clone()).collect()
}

fn type_text(app: &mut App, text: &str) {
    for c in text.chars() {
        app.handle_key_event(Key::Char(c));
    }
}

#[test]
fn a_new_app_is_empty_and_in_normal_mode() {
    let (app, mut receiver) = fresh();
    assert!(!app.should_quit);
    assert!(app.i2c_logs.is_empty());
    assert!(app.status_logs.is_empty());
    assert_eq!(app.command_input, "");
    assert_eq!(app.input_mode, InputMode::Normal);
    assert_eq!(app.scroll_offset, 0);
    assert_eq!(app.status_scroll_offset, 0);
    assert_eq!(app.i2c_list_state.selected(), None);
    assert_eq!(app.status_list_state.selected(), None);
    assert_eq!(receiver.try_recv(), Err(TryRecvError::Empty));
}

#[test]
fn telemetry_is_logged_line_by_line() {
    let (mut app, _receiver) = fresh();
    app.handle_message(AppMessage::I2CData("[0x42] READ: 0x10\n[0x43] WRITE: 0x11".to_string()));
    assert_eq!(telemetry(&app), vec!["[0x42] READ: 0x10", "[0x43] WRITE: 0x11"]);
    assert_eq!(app.scroll_offset, 1);
    assert_eq!(app.i2c_list_state.selected(), Some(1));
    assert!(app.status_logs.is_empty());
    assert_eq!(app.status_scroll_offset, 0);
    assert_eq!(app.status_list_state.selected(), None);
}

#[test]
fn telemetry_log_keeps_the_latest_thousand_lines() {
    let (mut app, _receiver) = fresh();
    for n in 0..1005 {
        app.handle_message(AppMessage::I2CData(format!("line {}", n)));
        assert!(app.i2c_logs.len() <= I2C_LOG_CAPACITY);
        assert_eq!(app.scroll_offset, app.i2c_logs.len() - 1);
        assert_eq!(app.i2c_list_state.selected(), Some(app.i2c_logs.len() - 1));
    }
    let expected: Vec<String> = (5..1005).map(|n| format!("line {}", n)).collect();
    assert_eq!(telemetry(&app), expected);
    assert_eq!(app.scroll_offset, 999);
}

#[test]
fn one_large_telemetry_message_is_cut_to_the_latest_thousand_lines() {
    let (mut app, _receiver) = fresh();
    app.handle_message(AppMessage::I2CData("old".to_string()));
    let text: Vec<String> = (0..1500).map(|n| format!("line {}", n)).collect();
    app.handle_message(AppMessage::I2CData(text.join("\n")));
    let expected: Vec<String> = (500..1500).map(|n| format!("line {}", n)).collect();
    assert_eq!(telemetry(&app), expected);
    assert_eq!(app.scroll_offset, 999);
    assert_eq!(app.i2c_list_state.selected(), Some(999));
}

#[test]
fn status_log_keeps_the_latest_hundred_lines() {
    let (mut app, _receiver) = fresh();
    for n in 0..70 {
        app.handle_message(AppMessage::StatusUpdate(format!("status {}", n)));
        app.handle_message(AppMessage::CommandResponse(format!("answer {}", n)));
        assert!(app.status_logs.len() <= STATUS_LOG_CAPACITY);
        assert_eq!(app.status_scroll_offset, app.status_logs.len() - 1);
        assert_eq!(app.status_list_state.selected(), Some(app.status_logs.len() - 1));
    }
    let mut expected: Vec<String> = Vec::new();
    for n in 20..70 {
        expected.push(format!("status {}", n));
        expected.push(format!("answer {}", n));
    }
    assert_eq!(status(&app), expected);
    assert!(app.i2c_logs.is_empty());
    assert_eq!(app.scroll_offset, 0);
}

#[test]
fn entries_that_stay_keep_their_timestamp() {
    let (mut app, _receiver) = fresh();
    for n in 0..100 {
        app.handle_message(AppMessage::StatusUpdate(format!("status {}", n)));
    }
    let before = app.status_logs.clone();
    app.handle_message(AppMessage::StatusUpdate("one\ntwo\nthree".to_string()));
    assert_eq!(app.status_logs.len(), 100);
    assert_eq!(app.status_logs[..97], before[3..]);
}

#[test]
fn blank_lines_are_never_logged() {
    let (mut app, _receiver) = fresh();
    app.handle_message(AppMessage::I2CData("a\n\n  \n\t\r\nb\n".to_string()));
    assert_eq!(telemetry(&app), vec!["a", "b"]);
    app.handle_message(AppMessage::I2CData("".to_string()));
    app.handle_message(AppMessage::I2CData(" \n ".to_string()));
    assert_eq!(telemetry(&app), vec!["a", "b"]);
    app.handle_message(AppMessage::StatusUpdate("\\n  \\n x \\n\n".to_string()));
    app.handle_message(AppMessage::CommandResponse("   ".to_string()));
    assert_eq!(status(&app), vec![" x "]);
    for entry in &app.i2c_logs {
        assert!(!entry.data.trim().is_empty());
    }
    for entry in &app.status_logs {
        assert!(!entry.message.trim().is_empty());
    }
}

#[test]
fn a_message_without_lines_still_moves_the_cursor_to_the_end() {
    let (mut app, _receiver) = fresh();
    app.handle_message(AppMessage::I2CData("a\nb\nc".to_string()));
    app.handle_key_event(Key::Up);
    app.handle_key_event(Key::Up);
    assert_eq!(app.scroll_offset, 0);
    app.handle_message(AppMessage::I2CData("  ".to_string()));
    assert_eq!(app.scroll_offset, 2);
}

#[test]
fn a_newline_escape_in_a_status_breaks_the_line() {
    let (mut app, _receiver) = fresh();
    app.handle_message(AppMessage::StatusUpdate("A\\nB".to_string()));
    assert_eq!(status(&app), vec!["A", "B"]);
    app.handle_message(AppMessage::CommandResponse("C\\nD\nE".to_string()));
    assert_eq!(status(&app), vec!["A", "B", "C", "D", "E"]);
    for entry in &app.status_logs {
        assert!(!entry.message.contains("\\n"));
    }
}

#[test]
fn a_newline_escape_in_telemetry_is_left_alone() {
    let (mut app, _receiver) = fresh();
    app.handle_message(AppMessage::I2CData("A\\nB".to_string()));
    assert_eq!(telemetry(&app), vec!["A\\nB"]);
}

#[test]
fn carriage_returns_before_line_feeds_are_dropped() {
    let (mut app, _receiver) = fresh();
    app.handle_message(AppMessage::I2CData("a\r\nb\r\n".to_string()));
    assert_eq!(telemetry(&app), vec!["a", "b"]);
}

#[test]
fn scrolling_stays_on_the_log() {
    let (mut app, _receiver) = fresh();
    let text: Vec<String> = (0..25).map(|n| format!("line {}", n)).collect();
    app.handle_message(AppMessage::I2CData(text.join("\n")));
    assert_eq!(app.scroll_offset, 24);
    app.handle_key_event(Key::Down);
    assert_eq!(app.scroll_offset, 24);
    app.handle_key_event(Key::PageDown);
    assert_eq!(app.scroll_offset, 24);
    app.handle_key_event(Key::Up);
    assert_eq!(app.scroll_offset, 23);
    app.handle_key_event(Key::PageUp);
    assert_eq!(app.scroll_offset, 23 - PAGE_STEP);
    app.handle_key_event(Key::PageUp);
    assert_eq!(app.scroll_offset, 3);
    app.handle_key_event(Key::PageUp);
    assert_eq!(app.scroll_offset, 0);
    app.handle_key_event(Key::Up);
    assert_eq!(app.scroll_offset, 0);
    app.handle_key_event(Key::Down);
    assert_eq!(app.scroll_offset, 1);
    app.handle_key_event(Key::PageDown);
    assert_eq!(app.scroll_offset, 11);
    app.handle_key_event(Key::PageDown);
    assert_eq!(app.scroll_offset, 21);
    app.handle_key_event(Key::PageDown);
    assert_eq!(app.scroll_offset, 24);
    assert_eq!(app.i2c_logs.len(), 25);
    assert_eq!(app.status_scroll_offset, 0);
}

#[test]
fn scrolling_an_empty_log_stays_at_zero() {
    let (mut app, _receiver) = fresh();
    for key in [Key::Up, Key::Down, Key::PageUp, Key::PageDown, Key::Down, Key::Up] {
        app.handle_key_event(key);
        assert_eq!(app.scroll_offset, 0);
    }
}

#[test]
fn page_down_near_the_largest_offset_stops_at_the_last_entry() {
    let (mut app, _receiver) = fresh();
    app.handle_message(AppMessage::I2CData("a\nb\nc".to_string()));
    app.scroll_offset = usize::MAX - 3;
    app.handle_key_event(Key::PageDown);
    assert_eq!(app.scroll_offset, 2);
}

#[test]
fn c_starts_editing_and_leaves_the_input_alone() {
    let (mut app, mut receiver) = fresh();
    app.command_input = "draft".to_string();
    app.handle_key_event(Key::Char('c'));
    assert_eq!(app.input_mode, InputMode::Editing);
    assert_eq!(app.command_input, "draft");
    assert!(!app.should_quit);
    assert_eq!(receiver.try_recv(), Err(TryRecvError::Empty));
}

#[test]
fn enter_on_a_blank_input_sends_nothing_and_returns_to_normal() {
    let (mut app, mut receiver) = fresh();
    app.handle_key_event(Key::Char('c'));
    app.handle_key_event(Key::Enter);
    assert_eq!(app.input_mode, InputMode::Normal);
    assert_eq!(app.command_input, "");
    assert_eq!(receiver.try_recv(), Err(TryRecvError::Empty));

    app.handle_key_event(Key::Char('c'));
    type_text(&mut app, "  \t");
    app.handle_key_event(Key::Enter);
    assert_eq!(app.input_mode, InputMode::Normal);
    assert_eq!(app.command_input, "  \t");
    assert_eq!(receiver.try_recv(), Err(TryRecvError::Empty));
}

#[test]
fn enter_sends_the_trimmed_input_once_and_clears_it() {
    let (mut app, mut receiver) = fresh();
    app.handle_key_event(Key::Char('c'));
    type_text(&mut app, "  ADD 0x08-0x77 ");
    assert_eq!(app.command_input, "  ADD 0x08-0x77 ");
    app.handle_key_event(Key::Enter);
    assert_eq!(app.input_mode, InputMode::Normal);
    assert_eq!(app.command_input, "");
    assert_eq!(receiver.try_recv(), Ok("ADD 0x08-0x77".to_string()));
    assert_eq!(receiver.try_recv(), Err(TryRecvError::Empty));
}

#[test]
fn typing_list_and_enter_sends_list_and_the_answer_is_logged() {
    let (mut app, mut receiver) = fresh();
    app.handle_key_event(Key::Char('c'));
    type_text(&mut app, "LIST");
    app.handle_key_event(Key::Enter);
    let command = receiver.try_recv();
    assert_eq!(command, Ok("LIST".to_string()));
    assert_eq!(receiver.try_recv(), Err(TryRecvError::Empty));

    let before = app.status_logs.len();
    app.handle_message(command_response(&command.unwrap(), Ok(())));
    assert_eq!(app.status_logs.len(), before + 1);
    assert_eq!(app.status_logs[before].message, "Sent: LIST");
    assert_eq!(app.status_scroll_offset, before);
}

#[test]
fn apply_key_returns_the_command_instead_of_sending_it() {
    let (mut app, mut receiver) = fresh();
    assert_eq!(app.apply_key(Key::Char('c')), None);
    assert_eq!(app.apply_key(Key::Char('H')), None);
    assert_eq!(app.apply_key(Key::Char('I')), None);
    assert_eq!(app.apply_key(Key::Char(' ')), None);
    assert_eq!(app.apply_key(Key::Enter), Some("HI".to_string()));
    assert_eq!(app.apply_key(Key::Enter), None);
    assert_eq!(receiver.try_recv(), Err(TryRecvError::Empty));
}

#[test]
fn a_closed_channel_does_not_stop_the_interface() {
    let (mut app, receiver) = fresh();
    drop(receiver);
    app.handle_key_event(Key::Char('c'));
    type_text(&mut app, "HELP");
    app.handle_key_event(Key::Enter);
    assert_eq!(app.input_mode, InputMode::Normal);
    assert_eq!(app.command_input, "");
}

#[test]
fn editing_keys_change_the_input() {
    let (mut app, mut receiver) = fresh();
    app.handle_key_event(Key::Char('c'));
    type_text(&mut app, "qc\u{e9}");
    assert_eq!(app.command_input, "qc\u{e9}");
    assert!(!app.should_quit);
    app.handle_key_event(Key::Backspace);
    assert_eq!(app.command_input, "qc");
    app.handle_key_event(Key::Backspace);
    app.handle_key_event(Key::Backspace);
    assert_eq!(app.command_input, "");
    app.handle_key_event(Key::Backspace);
    assert_eq!(app.command_input, "");
    assert_eq!(app.input_mode, InputMode::Editing);

    type_text(&mut app, "CLEAR");
    for key in [Key::Up, Key::Down, Key::PageUp, Key::PageDown, Key::Other, Key::F(1)] {
        app.handle_key_event(key);
    }
    assert_eq!(app.command_input, "CLEAR");
    assert_eq!(app.input_mode, InputMode::Editing);
    assert_eq!(app.scroll_offset, 0);
    assert!(!app.should_quit);

    app.handle_key_event(Key::Esc);
    assert_eq!(app.command_input, "");
    assert_eq!(app.input_mode, InputMode::Normal);
    assert_eq!(receiver.try_recv(), Err(TryRecvError::Empty));
}

#[test]
fn q_quits_in_normal_mode_only() {
    let (mut app, _receiver) = fresh();
    app.handle_key_event(Key::Char('c'));
    app.handle_key_event(Key::Char('q'));
    assert!(!app.should_quit);
    assert_eq!(app.command_input, "q");
    app.handle_key_event(Key::Esc);
    app.handle_key_event(Key::Char('q'));
    assert!(app.should_quit);
}

#[test]
fn f12_quits_while_editing_only() {
    let (mut app, _receiver) = fresh();
    assert_eq!(EMERGENCY_QUIT_KEY, 12);
    app.handle_key_event(Key::F(12));
    assert!(!app.should_quit);
    app.handle_key_event(Key::Char('c'));
    app.handle_key_event(Key::F(11));
    assert!(!app.should_quit);
    app.handle_key_event(Key::F(12));
    assert!(app.should_quit);
    assert_eq!(app.input_mode, InputMode::Editing);
}

#[test]
fn keys_without_meaning_change_nothing_in_normal_mode() {
    let (mut app, mut receiver) = fresh();
    app.handle_message(AppMessage::I2CData("a\nb".to_string()));
    for key in [Key::Enter, Key::Backspace, Key::Esc, Key::Other, Key::Char('x'), Key::F(12)] {
        app.handle_key_event(key);
    }
    assert!(!app.should_quit);
    assert_eq!(app.input_mode, InputMode::Normal);
    assert_eq!(app.command_input, "");
    assert_eq!(app.scroll_offset, 1);
    assert_eq!(receiver.try_recv(), Err(TryRecvError::Empty));
}

#[test]
fn new_entries_carry_a_time_of_day() {
    let (mut app, _receiver) = fresh();
    app.handle_message(AppMessage::I2CData("a".to_string()));
    app.handle_message(AppMessage::StatusUpdate("b".to_string()));
    let stamps = [app.i2c_logs[0].timestamp, app.status_logs[0].timestamp];
    for stamp in stamps {
        assert!(stamp.hour() < 24);
        assert!(stamp.minute() < 60);
        assert!(stamp.second() < 60);
        assert!(stamp.nanosecond() < 1_000_000_000);
    }
}
