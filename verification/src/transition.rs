//! The bistable transition controller: a timed state machine that converts a
//! boolean "wanted open" driving signal plus a fixed duration into a
//! six-phase lifecycle signal.
//!
//! The `*Start` phases exist for exactly one scheduling tick, so that
//! dependent effects can observe the beginning of a transition (and set the
//! animation's target) before interpolation begins.  A duration of zero
//! collapses a `*Start` phase into its terminal state within the same tick.

use vstd::prelude::*;

verus! {

/// The six phases of a bistable transition, forming a cycle
/// `EnterStart -> Entering -> Entered -> ExitStart -> Exiting -> Exited`,
/// with direct `Entered -> ExitStart` and `Exited -> EnterStart` edges and,
/// when the driving signal flips mid-flight, a redirect from any phase to
/// the opposite `*Start` phase.
#[derive(Clone, Copy, Debug, PartialEq, Eq, Structural)]
pub enum BistableTransitionState {
    /// First tick of an opening transition; interpolation has not begun.
    EnterStart,
    /// Opening: elapsed time is strictly below the duration.
    Entering,
    /// Fully open; stable until the driving signal flips.
    Entered,
    /// First tick of a closing transition; interpolation has not begun.
    ExitStart,
    /// Closing: elapsed time is strictly below the duration.
    Exiting,
    /// Fully closed; the only phase in which dependent content may be
    /// detached.  Stable until the driving signal flips.
    Exited,
}

impl BistableTransitionState {
    /// The two stable end states of the cycle.
    pub open spec fn is_terminal(self) -> bool {
        self == BistableTransitionState::Entered || self == BistableTransitionState::Exited
    }

    /// The phases that belong to an opening (or open) controller.
    pub open spec fn is_enter_side(self) -> bool {
        self == BistableTransitionState::EnterStart
            || self == BistableTransitionState::Entering
            || self == BistableTransitionState::Entered
    }
}

/// A bistable transition controller.  One instance is owned by the scene
/// entity whose enter/exit animation it drives; the host scheduler calls
/// [`BistableTransition::tick`] once per frame with the latest value of the
/// driving signal and the frame's delta time in milliseconds.
#[derive(Clone, Copy, Debug, PartialEq, Eq, Structural)]
pub struct BistableTransition {
    /// Latest observed value of the driving signal.
    pub observed_open: bool,
    /// Transition length in milliseconds.
    pub duration: u64,
    /// Milliseconds since the current phase began, clamped to `duration`.
    pub elapsed: u64,
    /// Current phase of the lifecycle.
    pub state: BistableTransitionState,
}

impl BistableTransition {
    /// Well-formedness: elapsed time is clamped to the duration, `*Start`
    /// phases are fresh (and only occur with a nonzero duration), animating
    /// phases are strictly unfinished, terminal phases are exactly finished,
    /// and the phase always agrees in direction with the observed signal.
    pub open spec fn wf(self) -> bool {
        &&& self.elapsed <= self.duration
        &&& (self.state == BistableTransitionState::EnterStart
            || self.state == BistableTransitionState::ExitStart) ==> (self.elapsed == 0
            && self.duration > 0)
        &&& (self.state == BistableTransitionState::Entering
            || self.state == BistableTransitionState::Exiting) ==> self.elapsed < self.duration
        &&& self.state.is_terminal() ==> self.elapsed == self.duration
        &&& self.observed_open == self.state.is_enter_side()
    }
}

/// One tick of progress while animating: add the delta to the elapsed time;
/// on reaching the duration, clamp and move to the terminal phase `done`,
/// otherwise move to (or stay in) the animating phase `mid`.
pub open spec fn step_animating_spec(
    c: BistableTransition,
    delta: u64,
    mid: BistableTransitionState,
    done: BistableTransitionState,
) -> BistableTransition {
    if c.elapsed + delta >= c.duration {
        BistableTransition { elapsed: c.duration, state: done, ..c }
    } else {
        BistableTransition { elapsed: (c.elapsed + delta) as u64, state: mid, ..c }
    }
}

/// One scheduling tick of the controller.  A flip of the driving signal
/// redirects to the opposite `*Start` phase with elapsed time zero, never
/// resuming partway; with a zero duration the `*Start` phase collapses to
/// its terminal state within the same tick.  Without a flip, animating
/// phases accumulate the delta and terminal phases are stable.
pub open spec fn step_spec(c: BistableTransition, open_now: bool, delta: u64) -> BistableTransition {
    if open_now != c.observed_open {
        let s = if c.duration == 0 {
            if open_now {
                BistableTransitionState::Entered
            } else {
                BistableTransitionState::Exited
            }
        } else {
            if open_now {
                BistableTransitionState::EnterStart
            } else {
                BistableTransitionState::ExitStart
            }
        };
        BistableTransition { observed_open: open_now, elapsed: 0, state: s, ..c }
    } else {
        match c.state {
            BistableTransitionState::EnterStart => step_animating_spec(
                c,
                delta,
                BistableTransitionState::Entering,
                BistableTransitionState::Entered,
            ),
            BistableTransitionState::Entering => step_animating_spec(
                c,
                delta,
                BistableTransitionState::Entering,
                BistableTransitionState::Entered,
            ),
            BistableTransitionState::Entered => c,
            BistableTransitionState::ExitStart => step_animating_spec(
                c,
                delta,
                BistableTransitionState::Exiting,
                BistableTransitionState::Exited,
            ),
            BistableTransitionState::Exiting => step_animating_spec(
                c,
                delta,
                BistableTransitionState::Exiting,
                BistableTransitionState::Exited,
            ),
            BistableTransitionState::Exited => c,
        }
    }
}

/// A tick never breaks the controller's invariant.
pub proof fn lemma_step_preserves_wf(c: BistableTransition, open_now: bool, delta: u64)
    requires
        c.wf(),
    ensures
        step_spec(c, open_now, delta).wf(),
{
}

/// The controller after a whole sequence of ticks, the driving signal
/// holding the value `open_now` throughout.
pub open spec fn run_spec(c: BistableTransition, open_now: bool, deltas: Seq<u64>) -> BistableTransition
    decreases deltas.len(),
{
    if deltas.len() == 0 {
        c
    } else {
        run_spec(step_spec(c, open_now, deltas[0]), open_now, deltas.drop_first())
    }
}

/// Total time carried by a sequence of per-tick deltas.
pub open spec fn sum_deltas(deltas: Seq<u64>) -> int
    decreases deltas.len(),
{
    if deltas.len() == 0 {
        0
    } else {
        deltas[0] + sum_deltas(deltas.drop_first())
    }
}

proof fn lemma_sum_deltas_nonneg(deltas: Seq<u64>)
    ensures
        sum_deltas(deltas) >= 0,
    decreases deltas.len(),
{
    if deltas.len() > 0 {
        lemma_sum_deltas_nonneg(deltas.drop_first());
    }
}

/// A terminal controller is stable: while the driving signal keeps its
/// observed value, no number of ticks changes it.
pub proof fn lemma_terminal_stable_run(c: BistableTransition, open_now: bool, deltas: Seq<u64>)
    requires
        c.wf(),
        c.state.is_terminal(),
        open_now == c.observed_open,
    ensures
        run_spec(c, open_now, deltas) == c,
    decreases deltas.len(),
{
    if deltas.len() > 0 {
        lemma_terminal_stable_run(c, open_now, deltas.drop_first());
    }
}

proof fn lemma_enter_run(c: BistableTransition, deltas: Seq<u64>)
    requires
        c.wf(),
        c.observed_open,
        c.state == BistableTransitionState::EnterStart || c.state
            == BistableTransitionState::Entering,
    ensures
        ({
            let r = run_spec(c, true, deltas);
            &&& r.wf()
            &&& r.observed_open
            &&& r.duration == c.duration
            &&& deltas.len() == 0 ==> r == c
            &&& deltas.len() > 0 && c.elapsed + sum_deltas(deltas) >= c.duration ==> (r.state
                == BistableTransitionState::Entered && r.elapsed == c.duration)
            &&& deltas.len() > 0 && c.elapsed + sum_deltas(deltas) < c.duration ==> (r.state
                == BistableTransitionState::Entering && r.elapsed == c.elapsed + sum_deltas(
                deltas,
            ))
        }),
    decreases deltas.len(),
{
    if deltas.len() > 0 {
        let c1 = step_spec(c, true, deltas[0]);
        lemma_step_preserves_wf(c, true, deltas[0]);
        lemma_sum_deltas_nonneg(deltas.drop_first());
        if c.elapsed + deltas[0] >= c.duration {
            lemma_terminal_stable_run(c1, true, deltas.drop_first());
        } else {
            lemma_enter_run(c1, deltas.drop_first());
        }
    }
}

proof fn lemma_exit_run(c: BistableTransition, deltas: Seq<u64>)
    requires
        c.wf(),
        !c.observed_open,
        c.state == BistableTransitionState::ExitStart || c.state
            == BistableTransitionState::Exiting,
    ensures
        ({
            let r = run_spec(c, false, deltas);
            &&& r.wf()
            &&& !r.observed_open
            &&& r.duration == c.duration
            &&& deltas.len() == 0 ==> r == c
            &&& deltas.len() > 0 && c.elapsed + sum_deltas(deltas) >= c.duration ==> (r.state
                == BistableTransitionState::Exited && r.elapsed == c.duration)
            &&& deltas.len() > 0 && c.elapsed + sum_deltas(deltas) < c.duration ==> (r.state
                == BistableTransitionState::Exiting && r.elapsed == c.elapsed + sum_deltas(
                deltas,
            ))
        }),
    decreases deltas.len(),
{
    if deltas.len() > 0 {
        let c1 = step_spec(c, false, deltas[0]);
        lemma_step_preserves_wf(c, false, deltas[0]);
        lemma_sum_deltas_nonneg(deltas.drop_first());
        if c.elapsed + deltas[0] >= c.duration {
            lemma_terminal_stable_run(c1, false, deltas.drop_first());
        } else {
            lemma_exit_run(c1, deltas.drop_first());
        }
    }
}

/// Law: for a positive duration, flipping the driving signal to true makes
/// the controller pass through the sequence `EnterStart, Entering, ...,
/// Entered` over time.  The flip tick shows `EnterStart`; later ticks show
/// `Entering` while the accumulated time is below the duration, and
/// `Entered` from the tick where it reaches the duration on — never before,
/// as the last clause states.
pub proof fn lemma_enter_sequence(c: BistableTransition, flip_delta: u64, deltas: Seq<u64>)
    requires
        c.wf(),
        !c.observed_open,
        c.duration > 0,
    ensures
        ({
            let c1 = step_spec(c, true, flip_delta);
            let r = run_spec(c1, true, deltas);
            &&& c1.state == BistableTransitionState::EnterStart
            &&& c1.elapsed == 0
            &&& r.wf()
            &&& r.duration == c.duration
            &&& deltas.len() == 0 ==> r == c1
            &&& deltas.len() > 0 && sum_deltas(deltas) >= c.duration ==> (r.state
                == BistableTransitionState::Entered && r.elapsed == c.duration)
            &&& deltas.len() > 0 && sum_deltas(deltas) < c.duration ==> (r.state
                == BistableTransitionState::Entering && r.elapsed == sum_deltas(deltas))
            &&& r.state == BistableTransitionState::Entered ==> sum_deltas(deltas) >= c.duration
        }),
{
    let c1 = step_spec(c, true, flip_delta);
    lemma_step_preserves_wf(c, true, flip_delta);
    lemma_enter_run(c1, deltas);
    lemma_sum_deltas_nonneg(deltas);
}

/// Law: the closing counterpart of [`lemma_enter_sequence`].  Flipping the
/// driving signal to false makes the controller pass through `ExitStart,
/// Exiting, ..., Exited`, reaching `Exited` exactly when the accumulated
/// time reaches the duration.
pub proof fn lemma_exit_sequence(c: BistableTransition, flip_delta: u64, deltas: Seq<u64>)
    requires
        c.wf(),
        c.observed_open,
        c.duration > 0,
    ensures
        ({
            let c1 = step_spec(c, false, flip_delta);
            let r = run_spec(c1, false, deltas);
            &&& c1.state == BistableTransitionState::ExitStart
            &&& c1.elapsed == 0
            &&& r.wf()
            &&& r.duration == c.duration
            &&& deltas.len() == 0 ==> r == c1
            &&& deltas.len() > 0 && sum_deltas(deltas) >= c.duration ==> (r.state
                == BistableTransitionState::Exited && r.elapsed == c.duration)
            &&& deltas.len() > 0 && sum_deltas(deltas) < c.duration ==> (r.state
                == BistableTransitionState::Exiting && r.elapsed == sum_deltas(deltas))
            &&& r.state == BistableTransitionState::Exited ==> sum_deltas(deltas) >= c.duration
        }),
{
    let c1 = step_spec(c, false, flip_delta);
    lemma_step_preserves_wf(c, false, flip_delta);
    lemma_exit_run(c1, deltas);
    lemma_sum_deltas_nonneg(deltas);
}

impl BistableTransition {
    /// Create a controller for a driving signal whose current value is
    /// `initial_open`.  The initial state is `Entered` if the signal is
    /// true, `Exited` otherwise: no animation plays for the initial value.
    pub fn new(initial_open: bool, duration: u64) -> (r: Self)
        ensures
            r.wf(),
            r.observed_open == initial_open,
            r.duration == duration,
            r.elapsed == duration,
            r.state == if initial_open {
                BistableTransitionState::Entered
            } else {
                BistableTransitionState::Exited
            },
    {
        BistableTransition {
            observed_open: initial_open,
            duration,
            elapsed: duration,
            state: if initial_open {
                BistableTransitionState::Entered
            } else {
                BistableTransitionState::Exited
            },
        }
    }

    /// One scheduling tick: observe the driving signal's value for this
    /// tick and advance by `delta` milliseconds, exactly as [`step_spec`]
    /// describes.  If the signal flipped more than once since the last
    /// tick, only the final value is honored, because only that value is
    /// observed here.
    pub fn tick(&mut self, open_now: bool, delta: u64)
        requires
            old(self).wf(),
        ensures
            *final(self) == step_spec(*old(self), open_now, delta),
            final(self).wf(),
    {
        if open_now != self.observed_open {
            self.observed_open = open_now;
            self.elapsed = 0;
            self.state = if self.duration == 0 {
                if open_now {
                    BistableTransitionState::Entered
                } else {
                    BistableTransitionState::Exited
                }
            } else {
                if open_now {
                    BistableTransitionState::EnterStart
                } else {
                    BistableTransitionState::ExitStart
                }
            };
        } else {
            match self.state {
                BistableTransitionState::EnterStart | BistableTransitionState::Entering => {
                    let remaining = self.duration - self.elapsed;
                    if delta >= remaining {
                        self.elapsed = self.duration;
                        self.state = BistableTransitionState::Entered;
                    } else {
                        self.elapsed = self.elapsed + delta;
                        self.state = BistableTransitionState::Entering;
                    }
                },
                BistableTransitionState::ExitStart | BistableTransitionState::Exiting => {
                    let remaining = self.duration - self.elapsed;
                    if delta >= remaining {
                        self.elapsed = self.duration;
                        self.state = BistableTransitionState::Exited;
                    } else {
                        self.elapsed = self.elapsed + delta;
                        self.state = BistableTransitionState::Exiting;
                    }
                },
                _ => {
                },
            }
        }
    }
}

} // verus!
