//! The order in which the interface draws, takes messages and reads keys.
//!
//! The loop itself belongs to the caller, who owns the terminal and the
//! message channel. At each turn the caller does what the current `LoopStep`
//! asks, reports the outcome as a `LoopInput`, and `App::advance` changes the
//! state and names the next step. A pending message is taken before any key is
//! read, and the loop ends only after a key has been polled for.

use crate::tui::{App, AppMessage, AppView, Key};
use vstd::prelude::*;

verus! {

/// How long to wait for a key, in milliseconds, before drawing again.
pub const POLL_TIMEOUT_MS: u64 = 100;

/// A key event as the terminal reports it: the key, whether it went down
/// rather than up, and whether the control key was held.
#[derive(Debug, Clone, Copy, PartialEq, Eq, Structural)]
pub struct KeyEvent {
    pub code: Key,
    pub pressed: bool,
    pub control: bool,
}

/// What the loop asks of its caller next.
#[derive(Debug, Clone, Copy, PartialEq, Eq, Structural)]
pub enum LoopStep {
    /// Draw a frame from the current state.
    Draw,
    /// Take one message from the channel without waiting, if one is there.
    Receive,
    /// Wait up to `POLL_TIMEOUT_MS` for an event of the terminal.
    Poll,
    /// Leave the loop.
    Quit,
}

/// What the caller reports back.
#[derive(Debug, Clone, PartialEq, Eq)]
pub enum LoopInput {
    /// The frame was drawn.
    Drawn,
    /// The message that was pending, or none.
    Received(Option<AppMessage>),
    /// The key event that arrived in time, or none: the wait ran out, or what
    /// arrived was no key event.
    Polled(Option<KeyEvent>),
}

/// The state after a key event. A key going up changes nothing. Control with
/// `c` quits in either mode. Every other key going down is handled as the mode
/// says.
pub open spec fn after_key_event(state: AppView, event: KeyEvent) -> AppView {
    if !event.pressed {
        state
    } else if event.control && event.code == Key::Char('c') {
        AppView { should_quit: true, ..state }
    } else {
        state.after_key(event.code)
    }
}

/// The step that follows a poll: to quit where the state asks for it, and to
/// draw otherwise.
pub open spec fn after_poll(state: AppView) -> LoopStep {
    if state.should_quit {
        LoopStep::Quit
    } else {
        LoopStep::Draw
    }
}

/// The state after the caller has answered `step` with `input`. An answer
/// that does not belong to the step changes nothing.
pub open spec fn state_after(state: AppView, step: LoopStep, input: LoopInput) -> AppView {
    match (step, input) {
        (LoopStep::Receive, LoopInput::Received(Some(message))) => state.after_message(message),
        (LoopStep::Poll, LoopInput::Polled(Some(event))) => after_key_event(state, event),
        _ => state,
    }
}

/// The step after the caller has answered `step` with `input`. A drawn frame
/// is followed by a look at the channel. A message is followed by a new frame
/// at once; only where none was pending is a key polled for. After the poll
/// the loop quits or draws again. An answer that does not belong to the step
/// has the step asked again, and `Quit` is final.
pub open spec fn step_after(state: AppView, step: LoopStep, input: LoopInput) -> LoopStep {
    match (step, input) {
        (LoopStep::Draw, LoopInput::Drawn) => LoopStep::Receive,
        (LoopStep::Receive, LoopInput::Received(Some(_))) => LoopStep::Draw,
        (LoopStep::Receive, LoopInput::Received(None)) => LoopStep::Poll,
        (LoopStep::Poll, LoopInput::Polled(_)) => after_poll(state_after(state, step, input)),
        _ => step,
    }
}

/// The loop ends only after a poll, and only in a state that asks for it.
pub proof fn theorem_loop_quits_only_when_asked(state: AppView, step: LoopStep, input: LoopInput)
    requires
        step != LoopStep::Quit,
        step_after(state, step, input) == LoopStep::Quit,
    ensures
        step == LoopStep::Poll,
        input is Polled,
        state_after(state, step, input).should_quit,
{
}

/// A state that asks to quit ends the loop with the next poll, whatever the
/// poll brings.
pub proof fn theorem_quit_follows_the_next_poll(state: AppView, polled: Option<KeyEvent>)
    requires
        state.should_quit,
    ensures
        step_after(state, LoopStep::Poll, LoopInput::Polled(polled)) == LoopStep::Quit,
{
}

impl App {
    /// The step with which the loop starts.
    pub fn first_step() -> (step: LoopStep)
        ensures
            step == LoopStep::Draw,
    {
        LoopStep::Draw
    }

    /// Handles a key event of the terminal.
    pub fn handle_key_press(&mut self, event: KeyEvent)
        ensures
            final(self)@ == after_key_event(old(self)@, event),
            old(self)@.well_formed() ==> final(self)@.well_formed(),
            final(self).i2c_logs == old(self).i2c_logs,
            final(self).status_logs == old(self).status_logs,
            final(self).command_sender == old(self).command_sender,
    {
        if event.pressed {
            if event.control && event.code == Key::Char('c') {
                self.should_quit = true;
            } else {
                self.handle_key_event(event.code);
            }
        }
    }

    /// Takes the caller's answer to `step` and returns the next step.
    pub fn advance(&mut self, step: LoopStep, input: LoopInput) -> (next: LoopStep)
        ensures
            final(self)@ == state_after(old(self)@, step, input),
            next == step_after(old(self)@, step, input),
            old(self)@.well_formed() ==> final(self)@.well_formed(),
            final(self).command_sender == old(self).command_sender,
    {
        match step {
            LoopStep::Draw => match input {
                LoopInput::Drawn => LoopStep::Receive,
                _ => step,
            },
            LoopStep::Receive => match input {
                LoopInput::Received(Some(message)) => {
                    self.handle_message(message);
                    LoopStep::Draw
                },
                LoopInput::Received(None) => LoopStep::Poll,
                _ => step,
            },
            LoopStep::Poll => match input {
                LoopInput::Polled(polled) => {
                    match polled {
                        Some(event) => self.handle_key_press(event),
                        None => {},
                    }
                    if self.should_quit {
                        LoopStep::Quit
                    } else {
                        LoopStep::Draw
                    }
                },
                _ => step,
            },
            LoopStep::Quit => step,
        }
    }
}

/// What running the interface comes to once the terminal has been restored:
/// the failure to restore it where that failed, and otherwise what the loop
/// itself came to.
pub fn shutdown_result<E>(run: Result<(), E>, restore: Result<(), E>) -> (outcome: Result<(), E>)
    ensures
        outcome == (match restore {
            Err(failure) => Err(failure),
            Ok(_) => run,
        }),
{
    match restore {
        Err(failure) => Err(failure),
        Ok(_) => run,
    }
}

} // verus!
