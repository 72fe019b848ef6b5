use obsidian_ui::transition::{BistableTransition, BistableTransitionState};

#[test]
fn create_closed_starts_exited() {
    let c = BistableTransition::new(false, 300);
    assert_eq!(c.state, BistableTransitionState::Exited);
    assert_eq!(c.elapsed, 300);
    assert_eq!(c.duration, 300);
    assert!(!c.observed_open);
}

#[test]
fn create_open_starts_entered() {
    let c = BistableTransition::new(true, 300);
    assert_eq!(c.state, BistableTransitionState::Entered);
    assert_eq!(c.elapsed, 300);
}

#[test]
fn create_closed_zero_duration() {
    let c = BistableTransition::new(false, 0);
    assert_eq!(c.state, BistableTransitionState::Exited);
    assert_eq!(c.elapsed, 0);
}

#[test]
fn enter_sequence_reaches_entered_never_before() {
    let mut c = BistableTransition::new(false, 300);
    c.tick(true, 100);
    assert_eq!(c.state, BistableTransitionState::EnterStart);
    assert_eq!(c.elapsed, 0);
    c.tick(true, 100);
    assert_eq!(c.state, BistableTransitionState::Entering);
    assert_eq!(c.elapsed, 100);
    c.tick(true, 100);
    assert_eq!(c.state, BistableTransitionState::Entering);
    assert_eq!(c.elapsed, 200);
    c.tick(true, 100);
    assert_eq!(c.state, BistableTransitionState::Entered);
    assert_eq!(c.elapsed, 300);
}

#[test]
fn exit_sequence_reaches_exited() {
    let mut c = BistableTransition::new(true, 300);
    c.tick(false, 100);
    assert_eq!(c.state, BistableTransitionState::ExitStart);
    assert_eq!(c.elapsed, 0);
    c.tick(false, 100);
    assert_eq!(c.state, BistableTransitionState::Exiting);
    assert_eq!(c.elapsed, 100);
    c.tick(false, 100);
    assert_eq!(c.state, BistableTransitionState::Exiting);
    assert_eq!(c.elapsed, 200);
    c.tick(false, 100);
    assert_eq!(c.state, BistableTransitionState::Exited);
    assert_eq!(c.elapsed, 300);
}

#[test]
fn zero_duration_snaps_in_one_tick() {
    let mut c = BistableTransition::new(false, 0);
    c.tick(true, 50);
    assert_eq!(c.state, BistableTransitionState::Entered);
    assert_eq!(c.elapsed, 0);
    c.tick(false, 50);
    assert_eq!(c.state, BistableTransitionState::Exited);
}

#[test]
fn flip_mid_flight_passes_through_start_phase() {
    let mut c = BistableTransition::new(false, 300);
    c.tick(true, 100);
    c.tick(true, 100);
    assert_eq!(c.state, BistableTransitionState::Entering);
    // Closing while still entering restarts the opposite animation from
    // scratch: the controller passes through ExitStart, never resuming
    // partway.
    c.tick(false, 100);
    assert_eq!(c.state, BistableTransitionState::ExitStart);
    assert_eq!(c.elapsed, 0);
}

#[test]
fn double_flip_within_tick_honors_final_value() {
    // A signal that flips away and back between two ticks is observed with
    // its final value only: nothing changes.
    let mut c = BistableTransition::new(true, 300);
    c.tick(true, 100);
    assert_eq!(c.state, BistableTransitionState::Entered);
    assert_eq!(c.elapsed, 300);
}

#[test]
fn terminal_states_are_stable() {
    let mut c = BistableTransition::new(true, 300);
    for _ in 0..5 {
        c.tick(true, 1000);
        assert_eq!(c.state, BistableTransitionState::Entered);
        assert_eq!(c.elapsed, 300);
    }
}

#[test]
fn large_delta_crosses_in_one_animating_tick() {
    let mut c = BistableTransition::new(false, 300);
    c.tick(true, 0);
    assert_eq!(c.state, BistableTransitionState::EnterStart);
    c.tick(true, 1000);
    assert_eq!(c.state, BistableTransitionState::Entered);
    assert_eq!(c.elapsed, 300);
}
