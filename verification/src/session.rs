//! The Pomodoro session state machine.
//!
//! A session holds a phase (`Work`, `Pause`, or `Break`) together with the
//! remaining and total time of the countdown, in whole seconds. All phase
//! changes requested by the keyboard go through the pure transition function
//! [`transition`]; the remaining time is decremented only by [`Session::tick`],
//! which the controller alone calls.

use vstd::prelude::*;

verus! {

/// A session lasts 25 minutes unless the caller asks for another total.
pub const DEFAULT_TOTAL_SECS: u64 = 25 * 60;

/// The mode of a Pomodoro session.
///
/// `Break` is the terminal mode: once a session reaches it, no transition and
/// no tick changes the session again.
#[derive(Clone, Copy, Debug, PartialEq, Eq, Structural)]
pub enum PomodoroState {
    Work,
    Pause,
    Break,
}

/// A key press classified by the input listener.
#[derive(Clone, Copy, Debug, PartialEq, Eq, Structural)]
pub enum SessionEvent {
    ToggleRequested,
    CancelRequested,
    Unrecognized,
}

/// The transition table of the state machine: pure and total over
/// phase and event.
///
/// A toggle swaps `Work` and `Pause` and is ignored once the session is over;
/// a cancel ends the session from any phase; an unrecognized key changes
/// nothing.
pub open spec fn transition(phase: PomodoroState, event: SessionEvent) -> PomodoroState {
    match event {
        SessionEvent::ToggleRequested => match phase {
            PomodoroState::Work => PomodoroState::Pause,
            PomodoroState::Pause => PomodoroState::Work,
            PomodoroState::Break => PomodoroState::Break,
        },
        SessionEvent::CancelRequested => PomodoroState::Break,
        SessionEvent::Unrecognized => phase,
    }
}

/// What one countdown tick leaves as the remaining time: one second less
/// while the session is working, clamped at zero; untouched otherwise.
pub open spec fn tick_remaining(s: Session) -> u64 {
    if s.phase is Work && s.remaining_secs > 0 {
        (s.remaining_secs - 1) as u64
    } else {
        s.remaining_secs
    }
}

/// The single source of truth shared by the input listener and the
/// controller.
pub struct Session {
    pub phase: PomodoroState,
    pub remaining_secs: u64,
    pub total_secs: u64,
}

impl Session {
    /// The session invariant: the countdown never exceeds the fixed total.
    pub open spec fn wf(self) -> bool {
        self.remaining_secs <= self.total_secs
    }

    /// A fresh session starts working with the full countdown ahead of it.
    pub fn new(total_secs: u64) -> (s: Session)
        ensures
            s.phase is Work,
            s.remaining_secs == total_secs,
            s.total_secs == total_secs,
            s.wf(),
    {
        Session { phase: PomodoroState::Work, remaining_secs: total_secs, total_secs }
    }

    /// The current phase, read without any other effect.
    pub fn read(&self) -> (p: PomodoroState)
        ensures
            p == self.phase,
    {
        self.phase
    }

    /// Applies the pure transition function to the current phase and stores
    /// the result; the remaining and total time are untouched. Returns the
    /// phase after the transition.
    pub fn try_transition(&mut self, event: SessionEvent) -> (p: PomodoroState)
        ensures
            final(self).phase == transition(old(self).phase, event),
            final(self).remaining_secs == old(self).remaining_secs,
            final(self).total_secs == old(self).total_secs,
            p == final(self).phase,
    {
        let next = match event {
            SessionEvent::ToggleRequested => match self.phase {
                PomodoroState::Work => PomodoroState::Pause,
                PomodoroState::Pause => PomodoroState::Work,
                PomodoroState::Break => PomodoroState::Break,
            },
            SessionEvent::CancelRequested => PomodoroState::Break,
            SessionEvent::Unrecognized => self.phase,
        };
        self.phase = next;
        next
    }

    /// One second of countdown: decrements the remaining time if the session
    /// is working, clamped at zero, and returns the phase and remaining time
    /// after the tick. Only the controller calls this.
    pub fn tick(&mut self) -> (r: (PomodoroState, u64))
        ensures
            final(self).phase == old(self).phase,
            final(self).total_secs == old(self).total_secs,
            final(self).remaining_secs == tick_remaining(*old(self)),
            r.0 == final(self).phase,
            r.1 == final(self).remaining_secs,
            old(self).wf() ==> final(self).wf(),
    {
        if matches!(self.phase, PomodoroState::Work) {
            if self.remaining_secs > 0 {
                self.remaining_secs = self.remaining_secs - 1;
            }
        }
        (self.phase, self.remaining_secs)
    }
}

} // verus!
