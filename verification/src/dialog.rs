//! The modal dialog's transition wiring: the decisions its widget layer
//! makes each tick, separated from the host engine's scene graph.
//!
//! A dialog is driven by a boolean "open" signal.  A bistable transition
//! controller turns that signal into the six-phase lifecycle; from the
//! phase this module derives the animation targets for the backdrop
//! overlay's background color and the dialog content's scale, whether the
//! dialog is mounted at all, and when the exit animation has completed so
//! the host can run its closing callback.  [`dialog_tick`] composes those
//! decisions in the required order: the controller advances first, targets
//! are assigned second, the animations advance last.

use crate::animate::{
    channels_of,
    start_model,
    tick_keep_model,
    tick_writes_model,
    writes_model,
    PropertyKind,
    PropertyWrite,
    TransitionStore,
    CHANNEL_MAX,
    DURATION_MAX,
};
use crate::colors;
use crate::transition::{step_spec, BistableTransition, BistableTransitionState};
use vstd::prelude::*;

verus! {

/// How long a dialog's enter and exit animations run, in milliseconds.
pub const DIALOG_TRANSITION_MS: u64 = 300;

/// Backdrop overlay alpha while the dialog is shown.
pub const OVERLAY_ALPHA: u32 = 700_000;

/// Full content scale, in fixed-point millionths.
pub const SCALE_FULL: u32 = 1_000_000;

/// The alpha the backdrop overlay animates toward in a given phase.  The
/// `*Start` phases assign the value the upcoming animation starts from:
/// `EnterStart` pins the overlay transparent so the fade-in that begins
/// with `Entering` has a defined start distinct from its end, and
/// `ExitStart` still holds it opaque so the fade-out starting with
/// `Exiting` leaves from there.
pub open spec fn overlay_alpha_target_spec(state: BistableTransitionState) -> u32 {
    match state {
        BistableTransitionState::Entering => OVERLAY_ALPHA,
        BistableTransitionState::Entered => OVERLAY_ALPHA,
        BistableTransitionState::ExitStart => OVERLAY_ALPHA,
        BistableTransitionState::EnterStart => 0,
        BistableTransitionState::Exiting => 0,
        BistableTransitionState::Exited => 0,
    }
}

/// The backdrop overlay's color target in a given phase: the background
/// color with [`overlay_alpha_target_spec`] as alpha.
pub open spec fn overlay_target_spec(state: BistableTransitionState) -> Seq<int> {
    seq![
        118_000int,
        118_000int,
        133_000int,
        overlay_alpha_target_spec(state) as int,
    ]
}

/// The scale the dialog content animates toward in a given phase, splatted
/// across all three axes; the `*Start` phases assign the upcoming
/// animation's start value, as with the overlay alpha.
pub open spec fn scale_target_spec(state: BistableTransitionState) -> u32 {
    match state {
        BistableTransitionState::Entering => SCALE_FULL,
        BistableTransitionState::Entered => SCALE_FULL,
        BistableTransitionState::ExitStart => SCALE_FULL,
        BistableTransitionState::EnterStart => 0,
        BistableTransitionState::Exiting => 0,
        BistableTransitionState::Exited => 0,
    }
}

/// The dialog content's scale target in a given phase, one channel per
/// axis.
pub open spec fn scale_target_channels_spec(state: BistableTransitionState) -> Seq<int> {
    seq![
        scale_target_spec(state) as int,
        scale_target_spec(state) as int,
        scale_target_spec(state) as int,
    ]
}

/// Whether the dialog's content is mounted in a given phase.  `Exited` is
/// the only phase in which the dialog and its backdrop are detached; in
/// every other phase they stay in the scene so the exit animation can be
/// seen.
pub open spec fn content_mounted_spec(state: BistableTransitionState) -> bool {
    state != BistableTransitionState::Exited
}

/// Exec counterpart of [`overlay_alpha_target_spec`].
pub fn overlay_alpha_target(state: BistableTransitionState) -> (r: u32)
    ensures
        r == overlay_alpha_target_spec(state),
{
    match state {
        BistableTransitionState::Entering => OVERLAY_ALPHA,
        BistableTransitionState::Entered => OVERLAY_ALPHA,
        BistableTransitionState::ExitStart => OVERLAY_ALPHA,
        BistableTransitionState::EnterStart => 0,
        BistableTransitionState::Exiting => 0,
        BistableTransitionState::Exited => 0,
    }
}

/// The backdrop overlay's color target, as a property value.
pub fn overlay_target(state: BistableTransitionState) -> (r: Vec<u32>)
    ensures
        channels_of(r@) == overlay_target_spec(state),
        r@.len() == 4,
        forall|i: int| 0 <= i < r@.len() ==> #[trigger] r@[i] <= CHANNEL_MAX,
{
    let alpha = overlay_alpha_target(state);
    let r = colors::background().with_alpha(alpha).channels();
    proof {
        assert(channels_of(r@) =~= overlay_target_spec(state));
    }
    r
}

/// Exec counterpart of [`scale_target_spec`].
pub fn scale_target(state: BistableTransitionState) -> (r: u32)
    ensures
        r == scale_target_spec(state),
{
    match state {
        BistableTransitionState::Entering => SCALE_FULL,
        BistableTransitionState::Entered => SCALE_FULL,
        BistableTransitionState::ExitStart => SCALE_FULL,
        BistableTransitionState::EnterStart => 0,
        BistableTransitionState::Exiting => 0,
        BistableTransitionState::Exited => 0,
    }
}

/// The dialog content's scale target, as a property value.
pub fn scale_target_channels(state: BistableTransitionState) -> (r: Vec<u32>)
    ensures
        channels_of(r@) == scale_target_channels_spec(state),
        r@.len() == 3,
        forall|i: int| 0 <= i < r@.len() ==> #[trigger] r@[i] <= CHANNEL_MAX,
{
    let s = scale_target(state);
    let mut r: Vec<u32> = Vec::new();
    r.push(s);
    r.push(s);
    r.push(s);
    proof {
        assert(channels_of(r@) =~= scale_target_channels_spec(state));
    }
    r
}

/// Exec counterpart of [`content_mounted_spec`]: the condition the host
/// branches on to mount or unmount the dialog's subtree.
pub fn content_mounted(state: BistableTransitionState) -> (r: bool)
    ensures
        r == content_mounted_spec(state),
{
    match state {
        BistableTransitionState::Exited => false,
        _ => true,
    }
}

/// Create the transition machinery for a dialog whose driving signal
/// currently reads `initial_open`.  No animation plays for the initial
/// value: the controller starts in a terminal phase and the store starts
/// empty, so no property transition has been triggered.
pub fn create_dialog_transition(initial_open: bool, duration: u64) -> (r: (
    BistableTransition,
    TransitionStore,
))
    ensures
        r.0.wf(),
        r.0.observed_open == initial_open,
        r.0.duration == duration,
        r.0.state == if initial_open {
            BistableTransitionState::Entered
        } else {
            BistableTransitionState::Exited
        },
        r.1.wf(),
        r.1.model().len() == 0,
{
    (BistableTransition::new(initial_open, duration), TransitionStore::new())
}

/// What one dialog tick hands back to the host.
pub struct DialogTick {
    /// The property writes to apply to the scene, one per live animation.
    pub writes: Vec<PropertyWrite>,
    /// Whether the dialog's subtree is mounted after this tick.
    pub mounted: bool,
    /// True exactly when this tick completed the closing lifecycle: the
    /// host runs the dialog's closing callback on it.
    pub exited_now: bool,
}

/// One scheduling tick of a dialog, in the required order: the transition
/// controller advances first; if its phase changed, the dependent effects
/// re-run and assign the overlay color and content scale targets for the
/// new phase (a no-op for a target already converged on); the property
/// animations advance last and emit this tick's writes.  `overlay_current`
/// and `scale_current` are the present property values read from the
/// scene; they seed an animation's start only when none is in flight.
pub fn dialog_tick(
    controller: &mut BistableTransition,
    store: &mut TransitionStore,
    overlay_entity: u64,
    content_entity: u64,
    open_now: bool,
    delta: u64,
    overlay_current: &Vec<u32>,
    scale_current: &Vec<u32>,
) -> (r: DialogTick)
    requires
        old(controller).wf(),
        old(controller).duration <= DURATION_MAX,
        old(store).wf(),
        overlay_current@.len() == 4,
        scale_current@.len() == 3,
        forall|i: int|
            0 <= i < overlay_current@.len() ==> #[trigger] overlay_current@[i] <= CHANNEL_MAX,
        forall|i: int|
            0 <= i < scale_current@.len() ==> #[trigger] scale_current@[i] <= CHANNEL_MAX,
    ensures
        *final(controller) == step_spec(*old(controller), open_now, delta),
        final(controller).wf(),
        final(store).wf(),
        ({
            let st = step_spec(*old(controller), open_now, delta).state;
            let mid = if st == old(controller).state {
                old(store).model()
            } else {
                start_model(
                    start_model(
                        old(store).model(),
                        overlay_entity,
                        PropertyKind::BackgroundColor,
                        channels_of(overlay_current@),
                        overlay_target_spec(st),
                        old(controller).duration as int,
                    ),
                    content_entity,
                    PropertyKind::Scale,
                    channels_of(scale_current@),
                    scale_target_channels_spec(st),
                    old(controller).duration as int,
                )
            };
            &&& final(store).model() == tick_keep_model(mid, delta as int)
            &&& writes_model(r.writes@) == tick_writes_model(mid, delta as int)
            &&& r.mounted == content_mounted_spec(st)
            &&& r.exited_now == (st == BistableTransitionState::Exited && old(controller).state
                != BistableTransitionState::Exited)
        }),
{
    let prev_state = controller.state;
    let was_exited = match prev_state {
        BistableTransitionState::Exited => true,
        _ => false,
    };
    controller.tick(open_now, delta);
    let st = controller.state;
    if st != prev_state {
        let overlay_tv = overlay_target(st);
        store.start(
            overlay_entity,
            PropertyKind::BackgroundColor,
            overlay_current,
            overlay_tv,
            controller.duration,
        );
        let scale_tv = scale_target_channels(st);
        store.start(
            content_entity,
            PropertyKind::Scale,
            scale_current,
            scale_tv,
            controller.duration,
        );
    }
    let writes = store.tick(delta);
    let mounted = content_mounted(st);
    let is_exited = match st {
        BistableTransitionState::Exited => true,
        _ => false,
    };
    DialogTick { writes, mounted, exited_now: is_exited && !was_exited }
}

} // verus!
