use obsidian_ui::animate::PropertyKind;
use obsidian_ui::colors;
use obsidian_ui::dialog::{
    content_mounted, create_dialog_transition, dialog_tick, overlay_alpha_target, scale_target,
    DIALOG_TRANSITION_MS, OVERLAY_ALPHA, SCALE_FULL,
};
use obsidian_ui::transition::BistableTransitionState;
use BistableTransitionState::{EnterStart, Entered, Entering, ExitStart, Exited, Exiting};

const OVERLAY: u64 = 10;
const CONTENT: u64 = 11;

fn open_overlay_channels() -> Vec<u32> {
    colors::background().with_alpha(OVERLAY_ALPHA).channels()
}

fn full_scale_channels() -> Vec<u32> {
    vec![SCALE_FULL, SCALE_FULL, SCALE_FULL]
}

#[test]
fn create_closed_dialog_triggers_nothing() {
    let (controller, store) = create_dialog_transition(false, DIALOG_TRANSITION_MS);
    assert_eq!(controller.state, BistableTransitionState::Exited);
    assert_eq!(store.active_count(), 0);
}

#[test]
fn create_open_dialog_triggers_nothing() {
    let (controller, store) = create_dialog_transition(true, DIALOG_TRANSITION_MS);
    assert_eq!(controller.state, BistableTransitionState::Entered);
    assert_eq!(store.active_count(), 0);
}

#[test]
fn targets_per_phase() {
    for s in [Entering, Entered, ExitStart] {
        assert_eq!(overlay_alpha_target(s), OVERLAY_ALPHA);
        assert_eq!(scale_target(s), SCALE_FULL);
    }
    for s in [EnterStart, Exiting, Exited] {
        assert_eq!(overlay_alpha_target(s), 0);
        assert_eq!(scale_target(s), 0);
    }
    for s in [EnterStart, Entering, Entered, ExitStart, Exiting] {
        assert!(content_mounted(s));
    }
    assert!(!content_mounted(Exited));
}

#[test]
fn closing_scenario_over_ticks() {
    // Duration 300 ms, driving signal flips to false at the first tick,
    // 100 ms steps.  States: ExitStart, Exiting (overlay about two thirds
    // of the way open), Exiting (about one third), Exited with the closed
    // value applied exactly.
    let (mut controller, mut store) = create_dialog_transition(true, DIALOG_TRANSITION_MS);
    let overlay_current = open_overlay_channels();
    let scale_current = full_scale_channels();

    // Tick at 0 ms: flip observed.
    let r = dialog_tick(
        &mut controller,
        &mut store,
        OVERLAY,
        CONTENT,
        false,
        100,
        &overlay_current,
        &scale_current,
    );
    assert_eq!(controller.state, BistableTransitionState::ExitStart);
    assert!(r.mounted);
    assert!(!r.exited_now);
    // ExitStart still targets the open values: the overlay holds.
    assert_eq!(r.writes.len(), 2);
    assert_eq!(r.writes[0].entity, OVERLAY);
    assert_eq!(r.writes[0].kind, PropertyKind::BackgroundColor);
    assert_eq!(r.writes[0].value, vec![118_000, 118_000, 133_000, 700_000]);
    assert_eq!(r.writes[1].entity, CONTENT);
    assert_eq!(r.writes[1].value, vec![1_000_000, 1_000_000, 1_000_000]);

    // Tick at 100 ms: Exiting, value about 67 percent toward open.
    let r = dialog_tick(
        &mut controller,
        &mut store,
        OVERLAY,
        CONTENT,
        false,
        100,
        &overlay_current,
        &scale_current,
    );
    assert_eq!(controller.state, BistableTransitionState::Exiting);
    assert!(r.mounted);
    assert_eq!(r.writes[0].value, vec![118_000, 118_000, 133_000, 466_667]);
    assert_eq!(r.writes[1].value, vec![666_667, 666_667, 666_667]);

    // Tick at 200 ms: Exiting, value about 33 percent.
    let r = dialog_tick(
        &mut controller,
        &mut store,
        OVERLAY,
        CONTENT,
        false,
        100,
        &overlay_current,
        &scale_current,
    );
    assert_eq!(controller.state, BistableTransitionState::Exiting);
    assert_eq!(r.writes[0].value, vec![118_000, 118_000, 133_000, 233_334]);
    assert_eq!(r.writes[1].value, vec![333_334, 333_334, 333_334]);

    // Tick at 300 ms: Exited, the closed value applied exactly, the
    // transitions finished and dropped, the content unmounted, and the
    // closing callback owed.
    let r = dialog_tick(
        &mut controller,
        &mut store,
        OVERLAY,
        CONTENT,
        false,
        100,
        &overlay_current,
        &scale_current,
    );
    assert_eq!(controller.state, BistableTransitionState::Exited);
    assert!(!r.mounted);
    assert!(r.exited_now);
    assert!(r.writes[0].finished);
    assert_eq!(r.writes[0].value, vec![118_000, 118_000, 133_000, 0]);
    assert!(r.writes[1].finished);
    assert_eq!(r.writes[1].value, vec![0, 0, 0]);
    assert_eq!(store.active_count(), 0);

    // Later ticks are quiet: the exit completion is reported once.
    let r = dialog_tick(
        &mut controller,
        &mut store,
        OVERLAY,
        CONTENT,
        false,
        100,
        &overlay_current,
        &scale_current,
    );
    assert!(!r.exited_now);
    assert_eq!(r.writes.len(), 0);
}

#[test]
fn opening_fades_the_overlay_in() {
    let (mut controller, mut store) = create_dialog_transition(false, DIALOG_TRANSITION_MS);
    let overlay_current = colors::background().with_alpha(0).channels();
    let scale_current = vec![0, 0, 0];

    let r = dialog_tick(
        &mut controller,
        &mut store,
        OVERLAY,
        CONTENT,
        true,
        100,
        &overlay_current,
        &scale_current,
    );
    // EnterStart pins the closed values so the first animated frame has a
    // defined start distinct from the open values.
    assert_eq!(controller.state, BistableTransitionState::EnterStart);
    assert_eq!(r.writes[0].value, vec![118_000, 118_000, 133_000, 0]);

    let r = dialog_tick(
        &mut controller,
        &mut store,
        OVERLAY,
        CONTENT,
        true,
        100,
        &overlay_current,
        &scale_current,
    );
    assert_eq!(controller.state, BistableTransitionState::Entering);
    assert_eq!(r.writes[0].value, vec![118_000, 118_000, 133_000, 233_333]);
    assert_eq!(r.writes[1].value, vec![333_333, 333_333, 333_333]);

    let _ = dialog_tick(
        &mut controller,
        &mut store,
        OVERLAY,
        CONTENT,
        true,
        100,
        &overlay_current,
        &scale_current,
    );
    let r = dialog_tick(
        &mut controller,
        &mut store,
        OVERLAY,
        CONTENT,
        true,
        100,
        &overlay_current,
        &scale_current,
    );
    assert_eq!(controller.state, BistableTransitionState::Entered);
    assert!(r.writes[0].finished);
    assert_eq!(r.writes[0].value, vec![118_000, 118_000, 133_000, 700_000]);
    assert_eq!(r.writes[1].value, vec![1_000_000, 1_000_000, 1_000_000]);
}

#[test]
fn zero_duration_dialog_snaps() {
    let (mut controller, mut store) = create_dialog_transition(false, 0);
    let overlay_current = colors::background().with_alpha(0).channels();
    let scale_current = vec![0, 0, 0];
    let r = dialog_tick(
        &mut controller,
        &mut store,
        OVERLAY,
        CONTENT,
        true,
        100,
        &overlay_current,
        &scale_current,
    );
    // The start phase collapses to Entered within the tick, and the
    // zero-length animations complete immediately with exact open values.
    assert_eq!(controller.state, BistableTransitionState::Entered);
    assert!(r.writes[0].finished);
    assert_eq!(r.writes[0].value, vec![118_000, 118_000, 133_000, 700_000]);
    assert!(r.writes[1].finished);
    assert_eq!(r.writes[1].value, vec![1_000_000, 1_000_000, 1_000_000]);
    assert_eq!(store.active_count(), 0);
}

#[test]
fn reopening_mid_exit_reverses_smoothly() {
    let (mut controller, mut store) = create_dialog_transition(true, DIALOG_TRANSITION_MS);
    let overlay_current = open_overlay_channels();
    let scale_current = full_scale_channels();
    for _ in 0..2 {
        dialog_tick(
            &mut controller,
            &mut store,
            OVERLAY,
            CONTENT,
            false,
            100,
            &overlay_current,
            &scale_current,
        );
    }
    assert_eq!(controller.state, BistableTransitionState::Exiting);
    // Reopen: the controller passes through EnterStart and the overlay
    // animation reverses from its current alpha, not from a jump.
    let r = dialog_tick(
        &mut controller,
        &mut store,
        OVERLAY,
        CONTENT,
        true,
        100,
        &overlay_current,
        &scale_current,
    );
    assert_eq!(controller.state, BistableTransitionState::EnterStart);
    let alpha = r.writes[0].value[3];
    assert!(alpha <= 466_667);
    let r = dialog_tick(
        &mut controller,
        &mut store,
        OVERLAY,
        CONTENT,
        true,
        100,
        &overlay_current,
        &scale_current,
    );
    assert_eq!(controller.state, BistableTransitionState::Entering);
    // Rising again, and never outside the hull of closed and open values.
    assert!(r.writes[0].value[3] <= 700_000);
}
