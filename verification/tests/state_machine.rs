use pomodoro_notify::ControllerAction;
use pomodoro_notify::PomodoroState;
use pomodoro_notify::Session;
use pomodoro_notify::SessionEvent;
use pomodoro_notify::controller_step;
use pomodoro_notify::listener::classify_key;
use pomodoro_notify::listener::listener_step;

fn session_in(phase: PomodoroState, remaining: u64, total: u64) -> Session {
    let mut s = Session::new(total);
    s.remaining_secs = remaining;
    s.phase = phase;
    s
}

#[test]
fn transition_table_work() {
    let mut s = session_in(PomodoroState::Work, 5, 10);
    assert_eq!(s.try_transition(SessionEvent::ToggleRequested), PomodoroState::Pause);

    let mut s = session_in(PomodoroState::Work, 5, 10);
    assert_eq!(s.try_transition(SessionEvent::CancelRequested), PomodoroState::Break);

    let mut s = session_in(PomodoroState::Work, 5, 10);
    assert_eq!(s.try_transition(SessionEvent::Unrecognized), PomodoroState::Work);
}

#[test]
fn transition_table_pause() {
    let mut s = session_in(PomodoroState::Pause, 5, 10);
    assert_eq!(s.try_transition(SessionEvent::ToggleRequested), PomodoroState::Work);

    let mut s = session_in(PomodoroState::Pause, 5, 10);
    assert_eq!(s.try_transition(SessionEvent::CancelRequested), PomodoroState::Break);

    let mut s = session_in(PomodoroState::Pause, 5, 10);
    assert_eq!(s.try_transition(SessionEvent::Unrecognized), PomodoroState::Pause);
}

#[test]
fn transition_table_break() {
    let mut s = session_in(PomodoroState::Break, 5, 10);
    assert_eq!(s.try_transition(SessionEvent::ToggleRequested), PomodoroState::Break);

    let mut s = session_in(PomodoroState::Break, 5, 10);
    assert_eq!(s.try_transition(SessionEvent::CancelRequested), PomodoroState::Break);

    let mut s = session_in(PomodoroState::Break, 5, 10);
    assert_eq!(s.try_transition(SessionEvent::Unrecognized), PomodoroState::Break);
}

#[test]
fn transition_never_touches_remaining() {
    for phase in [PomodoroState::Work, PomodoroState::Pause, PomodoroState::Break] {
        for event in [
            SessionEvent::ToggleRequested,
            SessionEvent::CancelRequested,
            SessionEvent::Unrecognized,
        ] {
            let mut s = session_in(phase, 7, 10);
            s.try_transition(event);
            assert_eq!(s.remaining_secs, 7);
            assert_eq!(s.total_secs, 10);
        }
    }
}

#[test]
fn tick_counts_down_while_working() {
    let mut s = Session::new(3);
    assert_eq!(s.tick(), (PomodoroState::Work, 2));
    assert_eq!(s.tick(), (PomodoroState::Work, 1));
    assert_eq!(s.tick(), (PomodoroState::Work, 0));
}

#[test]
fn tick_clamps_at_zero() {
    let mut s = Session::new(1);
    s.tick();
    assert_eq!(s.remaining_secs, 0);
    for _ in 0..5 {
        let (phase, remaining) = s.tick();
        assert_eq!(phase, PomodoroState::Work);
        assert_eq!(remaining, 0);
    }
}

#[test]
fn tick_skips_paused_sessions() {
    let mut s = session_in(PomodoroState::Pause, 8, 10);
    assert_eq!(s.tick(), (PomodoroState::Pause, 8));
    let mut s = session_in(PomodoroState::Break, 8, 10);
    assert_eq!(s.tick(), (PomodoroState::Break, 8));
}

#[test]
fn completion_notifies_exactly_once() {
    let mut s = session_in(PomodoroState::Work, 1, 10);
    assert_eq!(controller_step(&mut s), ControllerAction::Completed);
    assert_eq!(s.remaining_secs, 0);
    assert_eq!(s.phase, PomodoroState::Break);
    // A spurious extra tick after the completion edge must not notify again.
    assert_eq!(controller_step(&mut s), ControllerAction::Stopped);
}

#[test]
fn toggle_round_trip_is_a_no_op() {
    let mut s = Session::new(10);
    s.try_transition(SessionEvent::ToggleRequested);
    assert_eq!(s.phase, PomodoroState::Pause);
    s.try_transition(SessionEvent::ToggleRequested);
    assert_eq!(s.phase, PomodoroState::Work);
    assert_eq!(s.remaining_secs, 10);
}

#[test]
fn cancel_ends_from_every_phase() {
    for phase in [PomodoroState::Work, PomodoroState::Pause, PomodoroState::Break] {
        let mut s = session_in(phase, 5, 10);
        assert_eq!(s.try_transition(SessionEvent::CancelRequested), PomodoroState::Break);
        // The controller's next observation exits without notifying.
        assert_eq!(controller_step(&mut s), ControllerAction::Stopped);
    }
}

#[test]
fn interleaving_changes_remaining_only_on_ticks() {
    let mut s = Session::new(10);
    s.try_transition(SessionEvent::Unrecognized);
    assert_eq!(s.remaining_secs, 10);
    controller_step(&mut s);
    assert_eq!(s.remaining_secs, 9);
    s.try_transition(SessionEvent::ToggleRequested);
    assert_eq!(s.remaining_secs, 9);
    controller_step(&mut s);
    assert_eq!(s.remaining_secs, 9);
    s.try_transition(SessionEvent::ToggleRequested);
    controller_step(&mut s);
    assert_eq!(s.remaining_secs, 8);
    assert!(s.remaining_secs <= s.total_secs);
}

#[test]
fn three_second_session_completes_after_third_tick() {
    let mut s = Session::new(3);
    let mut completions = 0;
    assert_eq!(controller_step(&mut s), ControllerAction::ContinueWork);
    assert_eq!(controller_step(&mut s), ControllerAction::ContinueWork);
    let third = controller_step(&mut s);
    if third == ControllerAction::Completed {
        completions += 1;
    }
    assert_eq!(completions, 1);
    assert_eq!(s.remaining_secs, 0);
    assert_eq!(s.phase, PomodoroState::Break);
}

#[test]
fn pause_freezes_the_countdown() {
    let mut s = Session::new(10);
    let mut completions = 0;
    for _ in 0..2 {
        if controller_step(&mut s) == ControllerAction::Completed {
            completions += 1;
        }
    }
    assert_eq!(s.remaining_secs, 8);
    s.try_transition(SessionEvent::ToggleRequested);
    for _ in 0..3 {
        assert_eq!(controller_step(&mut s), ControllerAction::ContinuePaused);
    }
    assert_eq!(s.remaining_secs, 8);
    s.try_transition(SessionEvent::ToggleRequested);
    for _ in 0..8 {
        if controller_step(&mut s) == ControllerAction::Completed {
            completions += 1;
        }
    }
    assert_eq!(completions, 1);
    assert_eq!(s.remaining_secs, 0);
}

#[test]
fn classify_key_maps_the_bound_keys() {
    assert_eq!(classify_key('q', false), SessionEvent::CancelRequested);
    assert_eq!(classify_key('q', true), SessionEvent::CancelRequested);
    assert_eq!(classify_key('c', true), SessionEvent::CancelRequested);
    assert_eq!(classify_key('c', false), SessionEvent::Unrecognized);
    assert_eq!(classify_key(' ', false), SessionEvent::ToggleRequested);
    assert_eq!(classify_key('x', false), SessionEvent::Unrecognized);
}

#[test]
fn listener_step_applies_and_stops_on_cancel() {
    let mut s = Session::new(10);
    assert!(!listener_step(&mut s, ' ', false));
    assert_eq!(s.phase, PomodoroState::Pause);
    assert!(!listener_step(&mut s, 'x', false));
    assert_eq!(s.phase, PomodoroState::Pause);
    assert!(listener_step(&mut s, 'q', false));
    assert_eq!(s.phase, PomodoroState::Break);
    assert_eq!(s.remaining_secs, 10);
}

#[test]
fn new_session_starts_working() {
    let s = Session::new(1500);
    assert_eq!(s.read(), PomodoroState::Work);
    assert_eq!(s.remaining_secs, 1500);
    assert_eq!(s.total_secs, 1500);
    assert_eq!(pomodoro_notify::DEFAULT_TOTAL_SECS, 1500);
}

#[test]
fn zero_length_session_completes_immediately() {
    let mut s = Session::new(0);
    assert_eq!(controller_step(&mut s), ControllerAction::Completed);
    assert_eq!(s.phase, PomodoroState::Break);
    assert_eq!(controller_step(&mut s), ControllerAction::Stopped);
}
