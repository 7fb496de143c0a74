use chrono::NaiveTime;
use i2c_ble_client::clock::Timestamp;
use i2c_ble_client::panels::panel_line;
use i2c_ble_client::tui::{App, I2CLogEntry, Key, StatusEntry};
use tokio::sync::mpsc::unbounded_channel;

fn fresh() -> App {
    let (sender, _receiver) = unbounded_channel::<String>();
    App::new(sender)
}

fn at(hour: u32, minute: u32, second: u32, nanosecond: u32) -> Timestamp {
    Timestamp::new(hour, minute, second, nanosecond).unwrap()
}

#[test]
fn a_timestamp_is_a_time_of_day() {
    let stamp = at(23, 59, 58, 999_999_999);
    assert_eq!(stamp.hour(), 23);
    assert_eq!(stamp.minute(), 59);
    assert_eq!(stamp.second(), 58);
    assert_eq!(stamp.nanosecond(), 999_999_999);
    assert!(Timestamp::new(0, 0, 0, 0).is_some());
    assert!(Timestamp::new(23, 59, 59, 1_999_999_999).is_some());
    assert!(Timestamp::new(24, 0, 0, 0).is_none());
    assert!(Timestamp::new(0, 60, 0, 0).is_none());
    assert!(Timestamp::new(0, 0, 60, 0).is_none());
    assert!(Timestamp::new(0, 0, 0, 2_000_000_000).is_none());
    assert!(Timestamp::new(0, 0, 58, 1_000_000_000).is_none());
}

#[test]
fn timestamps_are_valid_exactly_when_chrono_takes_them() {
    let hours = [0, 1, 12, 23, 24, 25];
    let minutes = [0, 30, 59, 60];
    let seconds = [0, 58, 59, 60];
    let nanos = [0, 999_999_999, 1_000_000_000, 1_999_999_999, 2_000_000_000, u32::MAX];
    for hour in hours {
        for minute in minutes {
            for second in seconds {
                for nano in nanos {
                    assert_eq!(
                        Timestamp::new(hour, minute, second, nano).is_some(),
                        NaiveTime::from_hms_nano_opt(hour, minute, second, nano).is_some()
                    );
                }
            }
        }
    }
}

#[test]
fn the_clock_reads_as_chrono_formats_it() {
    let nanos = [0, 1, 999_999, 1_000_000, 123_456_789, 999_000_000, 999_999_999];
    for hour in 0..24 {
        for minute in [0, 1, 9, 10, 30, 59] {
            for second in [0, 5, 10, 58, 59] {
                for nano in nanos {
                    let time = NaiveTime::from_hms_nano_opt(hour, minute, second, nano).unwrap();
                    let stamp = at(hour, minute, second, nano);
                    assert_eq!(stamp.to_clock(), time.format("%H:%M:%S").to_string());
                    assert_eq!(
                        stamp.to_clock_millis(),
                        time.format("%H:%M:%S%.3f").to_string()
                    );
                }
            }
        }
    }
    let leap = NaiveTime::from_hms_nano_opt(23, 59, 59, 1_250_000_000).unwrap();
    let stamp = at(23, 59, 59, 1_250_000_000);
    assert_eq!(stamp.to_clock(), leap.format("%H:%M:%S").to_string());
    assert_eq!(stamp.to_clock(), "23:59:60");
    assert_eq!(stamp.to_clock_millis(), "23:59:60.250");
}

#[test]
fn the_clock_examples() {
    assert_eq!(at(0, 0, 0, 0).to_clock(), "00:00:00");
    assert_eq!(at(0, 0, 0, 0).to_clock_millis(), "00:00:00.000");
    assert_eq!(at(7, 8, 9, 10_000_000).to_clock(), "07:08:09");
    assert_eq!(at(7, 8, 9, 10_000_000).to_clock_millis(), "07:08:09.010");
    assert_eq!(at(23, 59, 59, 999_999_999).to_clock_millis(), "23:59:59.999");
}

#[test]
fn a_panel_line_joins_clock_and_trimmed_text() {
    assert_eq!(panel_line("12:00:00", "  text \n"), "12:00:00 | text");
    assert_eq!(panel_line("", ""), " | ");
    assert_eq!(panel_line("x", " a b "), "x | a b");
}

#[test]
fn telemetry_lines_show_the_time_to_the_millisecond() {
    let mut app = fresh();
    app.i2c_logs.push(I2CLogEntry {
        timestamp: at(12, 34, 56, 789_654_321),
        data: "[0x42] READ: 0x10 ".to_string(),
    });
    app.i2c_logs.push(I2CLogEntry { timestamp: at(0, 0, 0, 0), data: " x".to_string() });
    app.i2c_logs.push(I2CLogEntry {
        timestamp: at(9, 5, 7, 999_999),
        data: "below a millisecond".to_string(),
    });
    app.i2c_logs.push(I2CLogEntry {
        timestamp: at(23, 59, 59, 1_500_000_000),
        data: "leap".to_string(),
    });
    assert_eq!(
        app.i2c_panel_lines(),
        vec![
            "12:34:56.789 | [0x42] READ: 0x10",
            "00:00:00.000 | x",
            "09:05:07.000 | below a millisecond",
            "23:59:60.500 | leap",
        ]
    );
}

#[test]
fn status_lines_show_the_time_to_the_second() {
    let mut app = fresh();
    app.status_logs.push(StatusEntry {
        timestamp: at(12, 34, 56, 789_654_321),
        message: "Config updated".to_string(),
    });
    app.status_logs.push(StatusEntry {
        timestamp: at(1, 2, 3, 0),
        message: "  Sent: LIST  ".to_string(),
    });
    app.status_logs.push(StatusEntry {
        timestamp: at(23, 59, 59, 1_000_000_000),
        message: "leap".to_string(),
    });
    assert_eq!(
        app.status_panel_lines(),
        vec!["12:34:56 | Config updated", "01:02:03 | Sent: LIST", "23:59:60 | leap"]
    );
}

#[test]
fn empty_logs_show_no_lines() {
    let app = fresh();
    assert!(app.i2c_panel_lines().is_empty());
    assert!(app.status_panel_lines().is_empty());
}

#[test]
fn every_second_of_the_day_shows_as_two_digits_each() {
    let mut app = fresh();
    for hour in 0..24 {
        for minute in 0..60 {
            app.status_logs.clear();
            app.i2c_logs.clear();
            for second in 0..60 {
                let nano = (hour * 3600 + minute * 60 + second) * 11_574;
                app.status_logs.push(StatusEntry {
                    timestamp: at(hour, minute, second, nano),
                    message: "m".to_string(),
                });
                app.i2c_logs.push(I2CLogEntry {
                    timestamp: at(hour, minute, second, nano),
                    data: "d".to_string(),
                });
            }
            let status = app.status_panel_lines();
            let telemetry = app.i2c_panel_lines();
            for second in 0..60 {
                let nano = (hour * 3600 + minute * 60 + second) * 11_574;
                assert_eq!(
                    status[second as usize],
                    format!("{:02}:{:02}:{:02} | m", hour, minute, second)
                );
                assert_eq!(
                    telemetry[second as usize],
                    format!("{:02}:{:02}:{:02}.{:03} | d", hour, minute, second, nano / 1_000_000)
                );
            }
        }
    }
}

#[test]
fn the_cursor_stands_behind_the_input_while_editing() {
    let mut app = fresh();
    assert_eq!(app.cursor_position(5, 7), None);
    app.handle_key_event(Key::Char('c'));
    assert_eq!(app.cursor_position(5, 7), Some((6, 8)));
    for c in "abc".chars() {
        app.handle_key_event(Key::Char(c));
    }
    assert_eq!(app.cursor_position(5, 7), Some((9, 8)));
    assert_eq!(app.cursor_position(0, 0), Some((4, 1)));
    app.handle_key_event(Key::Char('\u{e9}'));
    assert_eq!(app.cursor_position(0, 0), Some((6, 1)));
    app.handle_key_event(Key::Esc);
    assert_eq!(app.cursor_position(5, 7), None);
}

#[test]
fn a_cursor_off_the_screen_is_not_shown() {
    let mut app = fresh();
    app.handle_key_event(Key::Char('c'));
    for c in "abc".chars() {
        app.handle_key_event(Key::Char(c));
    }
    assert_eq!(app.cursor_position(65531, 0), Some((65535, 1)));
    assert_eq!(app.cursor_position(65532, 0), None);
    assert_eq!(app.cursor_position(0, 65534), Some((4, 65535)));
    assert_eq!(app.cursor_position(0, 65535), None);
    app.command_input = "x".repeat(70000);
    assert_eq!(app.cursor_position(0, 0), None);
}
