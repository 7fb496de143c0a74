//! A terminal client for a logger of I2C traffic that is reached over
//! Bluetooth Low Energy.
//!
//! The library holds what the client decides: how a connection comes about
//! (`ble`), what an incoming notification means (`bridge`), how the state of
//! the interface changes with each message and each key (`tui`), in which
//! order the interface draws and listens (`render_loop`), and what its panels
//! show (`panels`, `clock`). `text` holds the operations on text that the rest
//! is built on, `history` what holds of the interface over a whole run, and
//! `trusted` what is assumed of the crates that the library calls. The radio
//! and the terminal themselves belong to the program around the library.

pub mod ble;
pub mod bridge;
pub mod clock;
pub mod history;
pub mod panels;
pub mod render_loop;
pub mod text;
pub mod trusted;
pub mod tui;
