//! A desktop-notification helper with a Pomodoro focus timer.
//!
//! The heart of the crate is the Pomodoro session state machine: a single
//! shared `Session` cell holding the current phase and the remaining time,
//! mutated only through a pure, total transition function and a single-writer
//! countdown tick. The decision logic of both activities (the keyboard
//! listener and the controller loop) lives here with full contracts; the
//! surrounding I/O (terminal input, sleeping, progress rendering, and the
//! notification bus) stays outside the library.

pub mod cli;
pub mod controller;
pub mod icons;
pub mod listener;
pub mod notification;
pub mod session;
pub mod timefmt;

pub use cli::Cli;
pub use cli::Commands;
pub use controller::ControllerAction;
pub use controller::controller_step;
pub use icons::IconCatalog;
pub use icons::IconSet;
pub use notification::Notification;
pub use session::DEFAULT_TOTAL_SECS;
pub use session::PomodoroState;
pub use session::Session;
pub use session::SessionEvent;
