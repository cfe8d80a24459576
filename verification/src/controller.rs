//! The controller's per-tick decision, and the model of a whole session as a
//! sequence of interleaved controller ticks and listener events.
//!
//! The controller loop itself — sleeping, rendering progress, and delivering
//! the completion notification — lives outside the library. Each of its
//! iterations calls [`controller_step`], which performs the countdown tick
//! and decides what the loop must do next; the contract pins both the new
//! session state and the decision down exactly. The notification is sent
//! precisely when the step returns [`ControllerAction::Completed`], and the
//! lemmas below show that no interleaving of ticks and key events yields that
//! decision more than once.

use vstd::prelude::*;

use crate::session::PomodoroState;
use crate::session::Session;
use crate::session::SessionEvent;
use crate::session::tick_remaining;
use crate::session::transition;

verus! {

/// What the controller loop must do after one tick.
#[derive(Clone, Copy, Debug, PartialEq, Eq, Structural)]
pub enum ControllerAction {
    /// Keep counting down: report work progress and sleep again.
    ContinueWork,
    /// The session is paused: report that and sleep again, leaving the
    /// remaining time alone.
    ContinuePaused,
    /// The countdown just reached zero: deliver the completion notification
    /// — this is the only action on which it is ever delivered — and stop.
    Completed,
    /// The session was cancelled from outside: stop without notifying.
    Stopped,
}

/// The decision the controller takes when it wakes and finds the session in
/// state `s`: stop if the session is over, report a pause, and otherwise
/// count down, completing when the tick exhausts the remaining time.
pub open spec fn controller_action(s: Session) -> ControllerAction {
    match s.phase {
        PomodoroState::Break => ControllerAction::Stopped,
        PomodoroState::Pause => ControllerAction::ContinuePaused,
        PomodoroState::Work => if s.remaining_secs <= 1 {
            ControllerAction::Completed
        } else {
            ControllerAction::ContinueWork
        },
    }
}

/// The session state one controller iteration leaves behind: the countdown
/// tick, and the move to `Break` on the completion edge — atomically with the
/// decision to notify, so that `Break` alone is ever observed afterwards.
pub open spec fn controller_next(s: Session) -> Session {
    match s.phase {
        PomodoroState::Break => s,
        PomodoroState::Pause => s,
        PomodoroState::Work => Session {
            phase: if s.remaining_secs <= 1 {
                PomodoroState::Break
            } else {
                PomodoroState::Work
            },
            remaining_secs: tick_remaining(s),
            ..s
        },
    }
}

/// One iteration of the controller: ticks the countdown and returns the
/// action the loop must take. `Completed` is returned exactly when the
/// session was working and the tick brought the remaining time to zero, and
/// the phase then moves to `Break` in the same step, so a later iteration can
/// never return `Completed` again.
pub fn controller_step(s: &mut Session) -> (a: ControllerAction)
    ensures
        *final(s) == controller_next(*old(s)),
        a == controller_action(*old(s)),
        a is Completed <==> old(s).phase is Work && final(s).remaining_secs == 0,
        a is Completed ==> final(s).phase is Break,
        old(s).phase is Break ==> *final(s) == *old(s),
        old(s).wf() ==> final(s).wf(),
{
    let (phase, remaining) = s.tick();
    match phase {
        PomodoroState::Break => ControllerAction::Stopped,
        PomodoroState::Pause => ControllerAction::ContinuePaused,
        PomodoroState::Work => {
            if remaining == 0 {
                s.phase = PomodoroState::Break;
                ControllerAction::Completed
            } else {
                ControllerAction::ContinueWork
            }
        },
    }
}

/// One step of either activity, as the shared session cell sees it: a
/// controller tick, or a key event applied by the input listener.
pub enum SessionOp {
    Tick,
    Key(SessionEvent),
}

/// The effect of one step on the session.
pub open spec fn apply_op(s: Session, op: SessionOp) -> Session {
    match op {
        SessionOp::Tick => controller_next(s),
        SessionOp::Key(event) => Session { phase: transition(s.phase, event), ..s },
    }
}

/// The session left after an arbitrary interleaving of steps from both
/// activities.
pub open spec fn run_ops(s: Session, ops: Seq<SessionOp>) -> Session
    decreases ops.len(),
{
    if ops.len() == 0 {
        s
    } else {
        run_ops(apply_op(s, ops[0]), ops.drop_first())
    }
}

/// Whether one step delivers the completion notification: only a controller
/// tick does, and only on the completion edge.
pub open spec fn op_notifies(s: Session, op: SessionOp) -> bool {
    op is Tick && controller_action(s) is Completed
}

/// How many steps of an interleaving deliver the notification.
pub open spec fn notify_count(s: Session, ops: Seq<SessionOp>) -> nat
    decreases ops.len(),
{
    if ops.len() == 0 {
        0
    } else {
        (if op_notifies(s, ops[0]) {
            1nat
        } else {
            0nat
        }) + notify_count(apply_op(s, ops[0]), ops.drop_first())
    }
}

/// No interleaving of controller ticks and listener events breaks the
/// session invariant, changes the fixed total, or increases the remaining
/// time; and once the countdown reaches zero it stays there, however many
/// further ticks arrive.
pub proof fn lemma_interleaving_wf(s: Session, ops: Seq<SessionOp>)
    ensures
        s.wf() ==> run_ops(s, ops).wf(),
        run_ops(s, ops).total_secs == s.total_secs,
        run_ops(s, ops).remaining_secs <= s.remaining_secs,
        s.remaining_secs == 0 ==> run_ops(s, ops).remaining_secs == 0,
    decreases ops.len(),
{
    if ops.len() > 0 {
        lemma_interleaving_wf(apply_op(s, ops[0]), ops.drop_first());
    }
}

/// The remaining time is changed only by the controller's tick: a run made of
/// key events alone leaves it exactly where it was.
pub proof fn lemma_keys_preserve_remaining(s: Session, ops: Seq<SessionOp>)
    requires
        forall|i: int| 0 <= i < ops.len() ==> ops[i] is Key,
    ensures
        run_ops(s, ops).remaining_secs == s.remaining_secs,
        run_ops(s, ops).total_secs == s.total_secs,
    decreases ops.len(),
{
    if ops.len() > 0 {
        assert(ops[0] is Key);
        lemma_keys_preserve_remaining(apply_op(s, ops[0]), ops.drop_first());
    }
}

/// `Break` is terminal and write-once: from it, no interleaving of ticks and
/// key events changes the session at all.
pub proof fn lemma_break_terminal(s: Session, ops: Seq<SessionOp>)
    requires
        s.phase is Break,
    ensures
        run_ops(s, ops) == s,
    decreases ops.len(),
{
    if ops.len() > 0 {
        assert(apply_op(s, ops[0]) == s);
        lemma_break_terminal(s, ops.drop_first());
    }
}

/// A session that is already over never notifies: every controller tick taken
/// from `Break` decides `Stopped`.
pub proof fn lemma_break_no_notify(s: Session, ops: Seq<SessionOp>)
    requires
        s.phase is Break,
    ensures
        notify_count(s, ops) == 0,
    decreases ops.len(),
{
    if ops.len() > 0 {
        assert(apply_op(s, ops[0]) == s);
        lemma_break_no_notify(s, ops.drop_first());
    }
}

/// At most one completion notification per session: whatever the starting
/// state and however controller ticks and key events interleave, the
/// completion edge is crossed at most once, because crossing it moves the
/// phase to the terminal `Break` in the same step.
pub proof fn lemma_at_most_one_notification(s: Session, ops: Seq<SessionOp>)
    ensures
        notify_count(s, ops) <= 1,
    decreases ops.len(),
{
    if ops.len() > 0 {
        let next = apply_op(s, ops[0]);
        if op_notifies(s, ops[0]) {
            assert(next.phase is Break);
            lemma_break_no_notify(next, ops.drop_first());
        } else {
            lemma_at_most_one_notification(next, ops.drop_first());
        }
    }
}

/// A working session that is granted at least as many controller ticks as it
/// has seconds left is notified about exactly once: the completion edge is
/// reached, and never reached again.
pub proof fn lemma_full_countdown_notifies_once(s: Session, ops: Seq<SessionOp>)
    requires
        s.phase is Work,
        ops.len() >= s.remaining_secs,
        ops.len() >= 1,
        forall|i: int| 0 <= i < ops.len() ==> ops[i] is Tick,
    ensures
        notify_count(s, ops) == 1,
    decreases ops.len(),
{
    assert(ops[0] is Tick);
    let next = apply_op(s, ops[0]);
    if s.remaining_secs <= 1 {
        assert(op_notifies(s, ops[0]));
        assert(next.phase is Break);
        lemma_break_no_notify(next, ops.drop_first());
    } else {
        assert(!op_notifies(s, ops[0]));
        assert(next.phase is Work);
        assert(next.remaining_secs == s.remaining_secs - 1);
        assert(forall|i: int|
            0 <= i < ops.drop_first().len() ==> ops.drop_first()[i] is Tick);
        lemma_full_countdown_notifies_once(next, ops.drop_first());
    }
}

/// Pausing and immediately resuming is a round trip: two toggles in a row
/// return the session, remaining time included, to exactly where it was.
pub proof fn lemma_toggle_round_trip(s: Session)
    ensures
        run_ops(
            s,
            seq![
                SessionOp::Key(SessionEvent::ToggleRequested),
                SessionOp::Key(SessionEvent::ToggleRequested),
            ],
        ) == s,
{
    let ops = seq![
        SessionOp::Key(SessionEvent::ToggleRequested),
        SessionOp::Key(SessionEvent::ToggleRequested),
    ];
    let s1 = apply_op(s, ops[0]);
    let rest = ops.drop_first();
    assert(run_ops(s, ops) == run_ops(s1, rest));
    let s2 = apply_op(s1, rest[0]);
    assert(run_ops(s1, rest) == run_ops(s2, rest.drop_first()));
    assert(rest.drop_first().len() == 0);
    assert(run_ops(s2, rest.drop_first()) == s2);
    assert(s2 == s);
}

/// A cancel ends the session from every phase, and the controller's next
/// observation of it decides `Stopped` — never `Completed`, so a cancelled
/// session is not notified about.
pub proof fn lemma_cancel_always_ends(s: Session)
    ensures
        transition(s.phase, SessionEvent::CancelRequested) is Break,
        controller_action(
            apply_op(s, SessionOp::Key(SessionEvent::CancelRequested)),
        ) is Stopped,
{
}

} // verus!
