//! The command-line surface, as plain data.
//!
//! Argument parsing itself happens outside the library; the parsed command
//! arrives here as one of these values. [`pomodoro_total_secs`] turns the
//! requested session length in minutes into the second count a session is
//! created with.

use vstd::prelude::*;

use crate::icons::IconSet;

verus! {

/// A parsed invocation of the program.
pub struct Cli {
    pub command: Commands,
}

/// The program's subcommands: send one notification, list icon catalogs, or
/// run a Pomodoro session.
pub enum Commands {
    Notify {
        app_name: String,
        replaces_id: u32,
        title: String,
        body: String,
        icon: String,
        timeout: i32,
    },
    ListIcons {
        set: IconSet,
    },
    Pomodoro {
        minutes: u64,
    },
}

/// The second count of a session of the given length in minutes, saturating
/// at the largest representable count rather than overflowing.
pub fn pomodoro_total_secs(minutes: u64) -> (t: u64)
    ensures
        t == if minutes * 60 <= u64::MAX {
            minutes * 60
        } else {
            u64::MAX as int
        },
{
    if minutes <= u64::MAX / 60 {
        proof {
            assert(minutes * 60 <= u64::MAX) by (nonlinear_arith)
                requires
                    minutes <= u64::MAX / 60,
            ;
        }
        minutes * 60
    } else {
        proof {
            assert(minutes * 60 > u64::MAX) by (nonlinear_arith)
                requires
                    minutes > u64::MAX / 60,
            ;
        }
        u64::MAX
    }
}

} // verus!
