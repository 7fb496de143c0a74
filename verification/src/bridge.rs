//! What travels from the device to the interface. A notification becomes a
//! message for the telemetry log or for the status log by what its text holds,
//! and the outcome of sending a command becomes the answer that the status
//! log shows.

use crate::text::{contains, occurs};
use crate::ble::decode_notification;
use crate::tui::AppMessage;
use vstd::prelude::*;
use vstd::string::StringExecFns;
use vstd::utf8::{encode_utf8, valid_utf8};

verus! {

/// The bracket that opens the address of a telemetry line.
pub open spec fn address_mark() -> Seq<char> {
    seq!['[']
}

/// What marks a telemetry line as a read.
pub open spec fn read_mark() -> Seq<char> {
    seq!['R', 'E', 'A', 'D', ':']
}

/// What marks a telemetry line as a write.
pub open spec fn write_mark() -> Seq<char> {
    seq!['W', 'R', 'I', 'T', 'E', ':']
}

/// What stands before a command in the answer to a command that was sent.
pub open spec fn sent_prefix() -> Seq<char> {
    seq!['S', 'e', 'n', 't', ':', ' ']
}

/// What stands before the error in the answer to a command that could not be
/// sent.
pub open spec fn failure_prefix() -> Seq<char> {
    seq![
        'E', 'r', 'r', 'o', 'r', ' ', 's', 'e', 'n', 'd', 'i', 'n', 'g', ' ', 'c', 'o', 'm', 'm',
        'a', 'n', 'd', ':', ' ',
    ]
}

/// Whether `text` reads as telemetry: it holds an opening bracket and the mark
/// of a read or of a write. Everything else is status.
pub open spec fn is_telemetry(text: Seq<char>) -> bool {
    occurs(text, address_mark()) && (occurs(text, read_mark()) || occurs(text, write_mark()))
}

/// The message that a notification with the text `text` becomes.
pub open spec fn classified(text: String) -> AppMessage {
    if is_telemetry(text@) {
        AppMessage::I2CData(text)
    } else {
        AppMessage::StatusUpdate(text)
    }
}

/// The text of the answer to a command: that `command` was sent, or the error
/// with which sending it failed.
pub open spec fn response_text(command: Seq<char>, outcome: Result<(), String>) -> Seq<char> {
    match outcome {
        Ok(_) => sent_prefix() + command,
        Err(error) => failure_prefix() + error@,
    }
}

/// Whether `text` reads as telemetry.
pub fn looks_like_telemetry(text: &str) -> (telemetry: bool)
    ensures
        telemetry == is_telemetry(text@),
{
    proof {
        reveal_strlit("[");
        reveal_strlit("READ:");
        reveal_strlit("WRITE:");
        assert("["@ =~= address_mark());
        assert("READ:"@ =~= read_mark());
        assert("WRITE:"@ =~= write_mark());
    }
    contains(text, "[") && (contains(text, "READ:") || contains(text, "WRITE:"))
}

/// Makes the text of a notification a message for the log it belongs to.
pub fn classify(text: String) -> (message: AppMessage)
    ensures
        message == classified(text),
{
    if looks_like_telemetry(text.as_str()) {
        AppMessage::I2CData(text)
    } else {
        AppMessage::StatusUpdate(text)
    }
}

/// Reads the payload of a notification as text and makes it a message. A
/// payload that is not valid UTF-8 is dropped.
pub fn notification_message(payload: Vec<u8>) -> (message: Option<AppMessage>)
    ensures
        message is Some <==> valid_utf8(payload@),
        message matches Some(m) ==> exists|text: String|
            #![trigger classified(text)]
            encode_utf8(text@) == payload@ && m == classified(text),
{
    match decode_notification(payload) {
        Some(text) => {
            let message = classify(text);
            Some(message)
        },
        None => None,
    }
}

/// The answer that the status log shows for `command`, given what sending it
/// came to: that it was sent, or the error.
pub fn command_response(command: &str, outcome: Result<(), String>) -> (message: AppMessage)
    ensures
        message matches AppMessage::CommandResponse(text) && text@ == response_text(
            command@,
            outcome,
        ),
{
    proof {
        reveal_strlit("Sent: ");
        reveal_strlit("Error sending command: ");
    }
    match outcome {
        Ok(_) => {
            let mut text = String::from_str("Sent: ");
            text.append(command);
            AppMessage::CommandResponse(text)
        },
        Err(error) => {
            let mut text = String::from_str("Error sending command: ");
            text.append(error.as_str());
            AppMessage::CommandResponse(text)
        },
    }
}

} // verus!
