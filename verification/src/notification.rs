//! The notification payload.
//!
//! Delivering a notification over the desktop bus is the collaborator's
//! business and stays outside the library; the library only assembles the
//! payload. [`pomodoro_complete`] is the fixed payload the controller hands
//! to the collaborator on the one completion edge of a session.

use vstd::prelude::*;
use vstd::string::StringExecFns;

verus! {

/// Everything a desktop notification carries.
pub struct Notification {
    pub app_name: String,
    pub replaces_id: u32,
    pub title: String,
    pub body: String,
    pub icon: String,
    pub timeout: i32,
}

impl Notification {
    /// Assembles a notification from its parts, changing none of them.
    pub fn new(
        app_name: String,
        replaces_id: u32,
        title: String,
        body: String,
        icon: String,
        timeout: i32,
    ) -> (n: Notification)
        ensures
            n.app_name == app_name,
            n.replaces_id == replaces_id,
            n.title == title,
            n.body == body,
            n.icon == icon,
            n.timeout == timeout,
    {
        Notification { app_name, replaces_id, title, body, icon, timeout }
    }
}

/// The payload delivered when a session's countdown completes: a fixed
/// title, body and icon, shown for ten seconds.
pub fn pomodoro_complete() -> (n: Notification)
    ensures
        n.app_name@ == "Pomodoro"@,
        n.replaces_id == 0,
        n.title@ == "Time's up!"@,
        n.body@ == "Take a short break."@,
        n.icon@ == "dialog-information"@,
        n.timeout == 10000,
{
    Notification::new(
        String::from_str("Pomodoro"),
        0,
        String::from_str("Time's up!"),
        String::from_str("Take a short break."),
        String::from_str("dialog-information"),
        10000,
    )
}

} // verus!
