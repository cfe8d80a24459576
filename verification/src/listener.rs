//! The input listener's decisions: classifying a key press and applying it to
//! the shared session.
//!
//! The blocking read from the terminal, and the raw-mode guard around it,
//! live outside the library; for every key press they hand the library the
//! pressed character and whether the control modifier was held. The library
//! decides what the press means and what the listener must do next.

use vstd::prelude::*;

use crate::session::Session;
use crate::session::SessionEvent;
use crate::session::transition;

verus! {

/// How the listener classifies a pressed character: `q`, or `c` with the
/// control modifier, asks to cancel; the space bar asks to toggle between
/// work and pause; every other key is unrecognized.
pub open spec fn classify_spec(ch: char, ctrl: bool) -> SessionEvent {
    if ch == 'q' || (ctrl && ch == 'c') {
        SessionEvent::CancelRequested
    } else if ch == ' ' {
        SessionEvent::ToggleRequested
    } else {
        SessionEvent::Unrecognized
    }
}

/// Maps one key press to the event it requests.
pub fn classify_key(ch: char, ctrl: bool) -> (event: SessionEvent)
    ensures
        event == classify_spec(ch, ctrl),
{
    if ch == 'q' || (ctrl && ch == 'c') {
        SessionEvent::CancelRequested
    } else if ch == ' ' {
        SessionEvent::ToggleRequested
    } else {
        SessionEvent::Unrecognized
    }
}

/// One iteration of the listener: classifies the key press and applies the
/// requested transition to the session, touching nothing but the phase.
/// Returns true exactly when the press asked to cancel, after which the
/// listener must stop reading keys.
pub fn listener_step(s: &mut Session, ch: char, ctrl: bool) -> (done: bool)
    ensures
        final(s).phase == transition(old(s).phase, classify_spec(ch, ctrl)),
        final(s).remaining_secs == old(s).remaining_secs,
        final(s).total_secs == old(s).total_secs,
        done <==> classify_spec(ch, ctrl) is CancelRequested,
        done ==> final(s).phase is Break,
{
    let event = classify_key(ch, ctrl);
    s.try_transition(event);
    matches!(event, SessionEvent::CancelRequested)
}

} // verus!
