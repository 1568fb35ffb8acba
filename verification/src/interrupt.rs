//! Debouncing of interrupt signals while the debugger runs.
//!
//! A single interrupt is usually meant for the debugged program, so the
//! launcher absorbs it. Only a second interrupt that follows within the
//! debounce window ends the launcher itself.

use vstd::prelude::*;

verus! {

/// Length of the debounce window in nanoseconds: one second.
pub const DEBOUNCE_WINDOW_NANOS: u128 = 1_000_000_000;

/// What the launcher does on an interrupt signal.
#[derive(Clone, Copy, Debug, PartialEq, Eq, Structural)]
pub enum InterruptAction {
    /// The signal is left to the debugger; the launcher goes on.
    Absorb,
    /// A deliberate double interrupt: the launcher ends at once.
    Terminate,
}

/// The clock read earlier than the recorded time of the last interrupt.
#[derive(Clone, Copy, Debug, PartialEq, Eq, Structural)]
pub enum InterruptError {
    ClockWentBackwards,
}

/// The time of the last absorbed interrupt, in nanoseconds since a fixed
/// epoch. It starts as the time at which the handler was installed.
#[derive(Clone, Copy, Debug, PartialEq, Eq, Structural)]
pub struct InterruptDebounce {
    pub last: u128,
}

/// Whether more than the debounce window lies between `last` and `now`.
pub open spec fn outside_window(last: u128, now: u128) -> bool {
    now - last > DEBOUNCE_WINDOW_NANOS
}

/// The action on an interrupt at `now` when the last one was at `last`.
pub open spec fn action_spec(last: u128, now: u128) -> Result<InterruptAction, InterruptError> {
    if now < last {
        Err(InterruptError::ClockWentBackwards)
    } else if outside_window(last, now) {
        Ok(InterruptAction::Absorb)
    } else {
        Ok(InterruptAction::Terminate)
    }
}

/// The recorded time after an interrupt at `now`: `now` when the interrupt is
/// absorbed, else unchanged.
pub open spec fn recorded_spec(last: u128, now: u128) -> u128 {
    if action_spec(last, now) == Ok::<InterruptAction, InterruptError>(InterruptAction::Absorb) {
        now
    } else {
        last
    }
}

impl InterruptDebounce {
    /// The state at the time the handler is installed.
    pub fn new(installed_at: u128) -> (state: InterruptDebounce)
        ensures
            state.last == installed_at,
    {
        InterruptDebounce { last: installed_at }
    }

    /// Handles an interrupt signal received at `now`.
    ///
    /// If more than the debounce window has passed since the recorded time,
    /// `now` is recorded and the signal is absorbed. Within the window the
    /// launcher is to terminate. A clock that went backwards is reported and
    /// changes nothing.
    pub fn on_interrupt(&mut self, now: u128) -> (result: Result<InterruptAction, InterruptError>)
        ensures
            result == action_spec(old(self).last, now),
            final(self).last == recorded_spec(old(self).last, now),
    {
        if now < self.last {
            Err(InterruptError::ClockWentBackwards)
        } else if now - self.last > DEBOUNCE_WINDOW_NANOS {
            self.last = now;
            Ok(InterruptAction::Absorb)
        } else {
            Ok(InterruptAction::Terminate)
        }
    }
}

/// Two interrupts that each come more than the debounce window after the
/// time recorded before them are both absorbed.
pub proof fn lemma_spaced_interrupts_are_absorbed(last: u128, first: u128, second: u128)
    requires
        first - last > DEBOUNCE_WINDOW_NANOS,
        second - first > DEBOUNCE_WINDOW_NANOS,
    ensures
        action_spec(last, first) == Ok::<InterruptAction, InterruptError>(InterruptAction::Absorb),
        recorded_spec(last, first) == first,
        action_spec(recorded_spec(last, first), second) == Ok::<InterruptAction, InterruptError>(
            InterruptAction::Absorb,
        ),
        recorded_spec(recorded_spec(last, first), second) == second,
{
}

/// An interrupt that follows an absorbed one within the debounce window
/// terminates the launcher.
pub proof fn lemma_double_interrupt_terminates(last: u128, first: u128, second: u128)
    requires
        first - last > DEBOUNCE_WINDOW_NANOS,
        first <= second,
        second - first <= DEBOUNCE_WINDOW_NANOS,
    ensures
        action_spec(last, first) == Ok::<InterruptAction, InterruptError>(InterruptAction::Absorb),
        action_spec(recorded_spec(last, first), second) == Ok::<InterruptAction, InterruptError>(
            InterruptAction::Terminate,
        ),
{
}

} // verus!
