//! Restartable linear interpolation of entity properties.
//!
//! A property value is a short vector of fixed-point channels (for example
//! four color channels or three scale axes), each an integer number of
//! millionths: `1_000_000` stands for `1.0`.  An [`AnimatedTransition`]
//! interpolates such a value from a captured start to a target over a fixed
//! duration in milliseconds, and can be restarted mid-flight without a
//! visual jump: the new start value is the value interpolated at the moment
//! of the restart.
//!
//! A [`TransitionStore`] holds at most one live transition per
//! (entity, property kind) pair.  Once per frame the host calls
//! [`TransitionStore::tick`], applies the returned property writes to the
//! scene, and lets the store drop transitions that have finished — a
//! finished transition writes its target value exactly.

use vstd::arithmetic::div_mod::{lemma_div_pos_is_pos, lemma_multiply_divide_le};
use vstd::arithmetic::mul::lemma_mul_inequality;
use vstd::prelude::*;

verus! {

/// Largest magnitude a property channel may carry: a thousand in fixed
/// point, far beyond any color channel or scale factor in use.
pub const CHANNEL_MAX: u32 = 1_000_000_000;

/// Largest duration in milliseconds a transition may be given: a bit over
/// eleven days.  Together with [`CHANNEL_MAX`] this keeps the interpolation
/// arithmetic inside sixty-four bits.
pub const DURATION_MAX: u64 = 1_000_000_000;

/// Linear interpolation from `a` toward `b`, `e` milliseconds into a
/// transition `d` milliseconds long.  At or past the duration (including
/// the degenerate `d == 0`) the result is `b` exactly; before it, the
/// result moves from `a` toward `b` in proportion `e / d`, rounding toward
/// `a`.
pub open spec fn lerp_spec(a: int, b: int, e: int, d: int) -> int {
    if e >= d {
        b
    } else if b >= a {
        a + (b - a) * e / d
    } else {
        a - (a - b) * e / d
    }
}

/// For a positive duration, interpolation begins exactly at the start
/// value.
pub proof fn lemma_lerp_zero(a: int, b: int, d: int)
    requires
        0 < d,
    ensures
        lerp_spec(a, b, 0, d) == a,
{
    if b >= a {
        assert((b - a) * 0 == 0) by (nonlinear_arith);
    } else {
        assert((a - b) * 0 == 0) by (nonlinear_arith);
    }
}

/// At or past the duration the interpolated value is the target, exactly.
pub proof fn lemma_lerp_terminal(a: int, b: int, e: int, d: int)
    requires
        e >= d,
    ensures
        lerp_spec(a, b, e, d) == b,
{
}

/// The interpolated value never leaves the closed interval between start
/// and target.
pub proof fn lemma_lerp_in_hull(a: int, b: int, e: int, d: int)
    requires
        0 <= a,
        0 <= b,
        0 <= e,
    ensures
        lerp_spec(a, b, e, d) >= if a <= b {
            a
        } else {
            b
        },
        lerp_spec(a, b, e, d) <= if a <= b {
            b
        } else {
            a
        },
{
    if e < d {
        if b >= a {
            lemma_div_pos_is_pos((b - a) * e, d);
            lemma_mul_inequality(e, d, b - a);
            assert((b - a) * e == e * (b - a)) by (nonlinear_arith);
            assert((b - a) * d == d * (b - a)) by (nonlinear_arith);
            lemma_multiply_divide_le((b - a) * e, d, b - a);
        } else {
            lemma_div_pos_is_pos((a - b) * e, d);
            lemma_mul_inequality(e, d, a - b);
            assert((a - b) * e == e * (a - b)) by (nonlinear_arith);
            assert((a - b) * d == d * (a - b)) by (nonlinear_arith);
            lemma_multiply_divide_le((a - b) * e, d, a - b);
        }
    }
}

/// The channels of a property value, as mathematical integers.
pub open spec fn channels_of(v: Seq<u32>) -> Seq<int> {
    v.map(|i: int, c: u32| c as int)
}

/// The mathematical model of an in-flight interpolation.
#[verifier::ext_equal]
pub struct AnimModel {
    /// Captured start value, one integer per channel.
    pub start: Seq<int>,
    /// Target value, one integer per channel.
    pub target: Seq<int>,
    /// Milliseconds since the interpolation (last) started.
    pub elapsed: int,
    /// Length of the interpolation in milliseconds.
    pub duration: int,
}

impl AnimModel {
    /// Channels are paired off, bounded and nonnegative, and the elapsed
    /// time is clamped to a bounded duration.
    pub open spec fn wf(self) -> bool {
        &&& self.start.len() == self.target.len()
        &&& forall|i: int| 0 <= i < self.start.len() ==> 0 <= #[trigger] self.start[i] <= CHANNEL_MAX
        &&& forall|i: int|
            0 <= i < self.target.len() ==> 0 <= #[trigger] self.target[i] <= CHANNEL_MAX
        &&& 0 <= self.elapsed <= self.duration <= DURATION_MAX
    }

    /// The value the interpolation stands at: each channel interpolated
    /// `elapsed` milliseconds of the way from start to target.
    pub open spec fn current(self) -> Seq<int> {
        Seq::new(
            self.start.len(),
            |i: int| lerp_spec(self.start[i], self.target[i], self.elapsed, self.duration),
        )
    }

    /// A restart toward a new target: the current interpolated value
    /// becomes the new start — so the restart causes no visual jump — and
    /// the elapsed time resets to zero.
    pub open spec fn restarted(self, target: Seq<int>, duration: int) -> AnimModel {
        AnimModel { start: self.current(), target, elapsed: 0, duration }
    }

    /// One tick of progress: the delta is added to the elapsed time,
    /// clamped to the duration.
    pub open spec fn advanced(self, delta: int) -> AnimModel {
        AnimModel {
            elapsed: if self.elapsed + delta >= self.duration {
                self.duration
            } else {
                self.elapsed + delta
            },
            ..self
        }
    }
}

/// Law: when the elapsed time has reached the duration, the interpolated
/// value is the target value, exactly — no floating-point undershoot can
/// occur, because there is no floating point.
pub proof fn lemma_terminal_exact(m: AnimModel)
    requires
        m.start.len() == m.target.len(),
        m.elapsed >= m.duration,
    ensures
        m.current() =~= m.target,
{
    assert forall|i: int| 0 <= i < m.current().len() implies m.current()[i] == m.target[i] by {
        lemma_lerp_terminal(m.start[i], m.target[i], m.elapsed, m.duration);
    }
}

/// Law: a restart is continuous.  Starting a transition toward a new
/// target captures the interpolated value of the old one, so immediately
/// after the restart the transition stands exactly where it stood
/// immediately before — whatever the new target and (positive) duration.
pub proof fn lemma_restart_continuous(m: AnimModel, target: Seq<int>, duration: int)
    requires
        target.len() == m.start.len(),
        duration > 0,
    ensures
        m.restarted(target, duration).current() =~= m.current(),
{
    let r = m.restarted(target, duration);
    assert forall|i: int| 0 <= i < r.current().len() implies r.current()[i] == m.current()[i] by {
        lemma_lerp_zero(m.current()[i], target[i], duration);
    }
}

/// Law: restarting toward the target a transition already converges to is
/// idempotent as far as the final value goes.  It may only reset timing:
/// both before and after the second restart, the value applied on
/// completion is the target, exactly.
pub proof fn lemma_restart_idempotent(m: AnimModel, target: Seq<int>, duration: int)
    requires
        target.len() == m.start.len(),
        duration > 0,
    ensures
        ({
            let once = m.restarted(target, duration);
            let twice = once.restarted(target, duration);
            &&& twice.target =~= once.target
            &&& once.advanced(once.duration).current() =~= target
            &&& twice.advanced(twice.duration).current() =~= target
        }),
{
    let once = m.restarted(target, duration);
    let twice = once.restarted(target, duration);
    lemma_terminal_exact(once.advanced(once.duration));
    lemma_terminal_exact(twice.advanced(twice.duration));
}

/// The smaller of three integers.
pub open spec fn min3(a: int, b: int, c: int) -> int {
    if a <= b && a <= c {
        a
    } else if b <= c {
        b
    } else {
        c
    }
}

/// The larger of three integers.
pub open spec fn max3(a: int, b: int, c: int) -> int {
    if a >= b && a >= c {
        a
    } else if b >= c {
        b
    } else {
        c
    }
}

/// Law: two consecutive restarts never escape the convex hull.  Restart a
/// transition toward `b`, let it run for any time `e1`, restart it toward
/// `c`, and let it run for any time `e2`: every channel of every value
/// sampled after the second restart — and the value handed over at the
/// second restart itself — lies between the smallest and largest of the
/// value captured at the first restart, `b`, and `c`.
pub proof fn lemma_double_restart_hull(
    m: AnimModel,
    b: Seq<int>,
    d1: int,
    e1: int,
    c: Seq<int>,
    d2: int,
    e2: int,
    i: int,
)
    requires
        m.wf(),
        b.len() == m.start.len(),
        c.len() == m.start.len(),
        forall|j: int| 0 <= j < b.len() ==> 0 <= #[trigger] b[j] <= CHANNEL_MAX,
        forall|j: int| 0 <= j < c.len() ==> 0 <= #[trigger] c[j] <= CHANNEL_MAX,
        0 <= d1,
        0 <= e1,
        0 <= d2,
        0 <= e2,
        0 <= i < m.start.len(),
    ensures
        ({
            let first = m.restarted(b, d1);
            let handed = first.advanced(e1).current()[i];
            let after = first.advanced(e1).restarted(c, d2).advanced(e2).current()[i];
            let lo = min3(first.start[i], b[i], c[i]);
            let hi = max3(first.start[i], b[i], c[i]);
            &&& lo <= handed <= hi
            &&& lo <= after <= hi
        }),
{
    let first = m.restarted(b, d1);
    let sampled = first.advanced(e1);
    let second = sampled.restarted(c, d2);
    lemma_lerp_in_hull(m.start[i], m.target[i], m.elapsed, m.duration);
    lemma_lerp_in_hull(first.start[i], b[i], sampled.elapsed, d1);
    lemma_lerp_in_hull(second.start[i], c[i], second.advanced(e2).elapsed, d2);
}

/// Channel-level linear interpolation, exactly [`lerp_spec`].
pub fn lerp_channel(a: u32, b: u32, e: u64, d: u64) -> (r: u32)
    requires
        a <= CHANNEL_MAX,
        b <= CHANNEL_MAX,
        d <= DURATION_MAX,
    ensures
        r == lerp_spec(a as int, b as int, e as int, d as int),
        r <= CHANNEL_MAX,
{
    proof {
        lemma_lerp_in_hull(a as int, b as int, e as int, d as int);
    }
    if e >= d {
        b
    } else if b >= a {
        let diff: u64 = (b - a) as u64;
        proof {
            assert(diff as int * e as int <= 1_000_000_000int * 1_000_000_000int)
                by (nonlinear_arith)
                requires
                    0 <= diff as int <= 1_000_000_000int,
                    0 <= e as int <= 1_000_000_000int,
            ;
        }
        let q: u64 = diff * (e as u64) / d;
        proof {
            lemma_div_pos_is_pos(diff as int * e as int, d as int);
            lemma_mul_inequality(e as int, d as int, diff as int);
            assert(diff as int * e as int == e as int * diff as int) by (nonlinear_arith);
            assert(diff as int * d as int == d as int * diff as int) by (nonlinear_arith);
            lemma_multiply_divide_le(diff as int * e as int, d as int, diff as int);
        }
        a + (q as u32)
    } else {
        let diff: u64 = (a - b) as u64;
        proof {
            assert(diff as int * e as int <= 1_000_000_000int * 1_000_000_000int)
                by (nonlinear_arith)
                requires
                    0 <= diff as int <= 1_000_000_000int,
                    0 <= e as int <= 1_000_000_000int,
            ;
        }
        let q: u64 = diff * (e as u64) / d;
        proof {
            lemma_div_pos_is_pos(diff as int * e as int, d as int);
            lemma_mul_inequality(e as int, d as int, diff as int);
            assert(diff as int * e as int == e as int * diff as int) by (nonlinear_arith);
            assert(diff as int * d as int == d as int * diff as int) by (nonlinear_arith);
            lemma_multiply_divide_le(diff as int * e as int, d as int, diff as int);
        }
        a - (q as u32)
    }
}

/// The property kinds this crate animates on an entity.
#[derive(Clone, Copy, Debug, PartialEq, Eq, Hash, Structural)]
pub enum PropertyKind {
    /// Background color: four channels, red, green, blue, alpha.
    BackgroundColor,
    /// Scale: three channels, one per axis.
    Scale,
}

/// How many channels a property of the given kind carries.
pub open spec fn channel_count(kind: PropertyKind) -> int {
    match kind {
        PropertyKind::BackgroundColor => 4,
        PropertyKind::Scale => 3,
    }
}

/// One in-flight interpolation, the executable counterpart of
/// [`AnimModel`].
#[derive(Debug)]
pub struct AnimatedTransition {
    /// Captured start value, one fixed-point integer per channel.
    pub start_value: Vec<u32>,
    /// Target value, applied exactly when the transition completes.
    pub target_value: Vec<u32>,
    /// Milliseconds since the transition (last) started.
    pub elapsed: u64,
    /// Length of the transition in milliseconds.
    pub duration: u64,
}

impl AnimatedTransition {
    /// The mathematical model of this transition.
    pub open spec fn model(self) -> AnimModel {
        AnimModel {
            start: channels_of(self.start_value@),
            target: channels_of(self.target_value@),
            elapsed: self.elapsed as int,
            duration: self.duration as int,
        }
    }

    pub open spec fn wf(self) -> bool {
        self.model().wf()
    }

    /// A fresh transition from `start_value` toward `target_value`.
    pub fn begin(start_value: Vec<u32>, target_value: Vec<u32>, duration: u64) -> (r: Self)
        requires
            start_value@.len() == target_value@.len(),
            forall|i: int| 0 <= i < start_value@.len() ==> #[trigger] start_value@[i] <= CHANNEL_MAX,
            forall|i: int|
                0 <= i < target_value@.len() ==> #[trigger] target_value@[i] <= CHANNEL_MAX,
            duration <= DURATION_MAX,
        ensures
            r.wf(),
            r.model() == (AnimModel {
                start: channels_of(start_value@),
                target: channels_of(target_value@),
                elapsed: 0,
                duration: duration as int,
            }),
    {
        AnimatedTransition { start_value, target_value, elapsed: 0, duration }
    }

    /// The value the transition stands at right now, each channel
    /// interpolated.
    pub fn current_value(&self) -> (r: Vec<u32>)
        requires
            self.wf(),
        ensures
            channels_of(r@) =~= self.model().current(),
            r@.len() == self.start_value@.len(),
            forall|i: int| 0 <= i < r@.len() ==> #[trigger] r@[i] <= CHANNEL_MAX,
    {
        let n = self.start_value.len();
        let mut r: Vec<u32> = Vec::new();
        let mut i: usize = 0;
        while i < n
            invariant
                i <= n,
                n == self.start_value@.len(),
                self.wf(),
                r@.len() == i,
                forall|j: int| 0 <= j < i ==> #[trigger] r@[j] <= CHANNEL_MAX,
                forall|j: int|
                    0 <= j < i ==> #[trigger] r@[j] as int == self.model().current()[j],
            decreases n - i,
        {
            proof {
                assert(self.model().start[i as int] == self.start_value@[i as int] as int);
                assert(self.model().target[i as int] == self.target_value@[i as int] as int);
            }
            let c = lerp_channel(
                self.start_value[i],
                self.target_value[i],
                self.elapsed,
                self.duration,
            );
            r.push(c);
            i = i + 1;
        }
        r
    }

    /// One tick of progress: add the delta to the elapsed time, clamped to
    /// the duration.
    pub fn advance(&mut self, delta: u64)
        requires
            old(self).wf(),
        ensures
            final(self).wf(),
            final(self).model() == old(self).model().advanced(delta as int),
    {
        let remaining = self.duration - self.elapsed;
        if delta >= remaining {
            self.elapsed = self.duration;
        } else {
            self.elapsed = self.elapsed + delta;
        }
    }

    /// Restart toward a new target: the current interpolated value becomes
    /// the new start value, so the change causes no visual jump, and the
    /// elapsed time resets to zero.
    pub fn restart(&mut self, target_value: Vec<u32>, duration: u64)
        requires
            old(self).wf(),
            target_value@.len() == old(self).start_value@.len(),
            forall|i: int|
                0 <= i < target_value@.len() ==> #[trigger] target_value@[i] <= CHANNEL_MAX,
            duration <= DURATION_MAX,
        ensures
            final(self).wf(),
            final(self).model() == old(self).model().restarted(
                channels_of(target_value@),
                duration as int,
            ),
    {
        let cur = self.current_value();
        self.start_value = cur;
        self.target_value = target_value;
        self.elapsed = 0;
        self.duration = duration;
        proof {
            assert(self.model() =~= old(self).model().restarted(
                channels_of(target_value@),
                duration as int,
            ));
        }
    }
}

/// One live transition attached to an (entity, property kind) pair.
#[derive(Debug)]
pub struct TransitionRecord {
    /// The scene entity whose property is animated.
    pub entity: u64,
    /// The property kind being animated.
    pub kind: PropertyKind,
    /// The interpolation itself.
    pub anim: AnimatedTransition,
}

/// The mathematical model of a [`TransitionRecord`].
#[verifier::ext_equal]
pub struct RecordModel {
    pub entity: u64,
    pub kind: PropertyKind,
    pub anim: AnimModel,
}

impl TransitionRecord {
    pub open spec fn model(self) -> RecordModel {
        RecordModel { entity: self.entity, kind: self.kind, anim: self.anim.model() }
    }
}

/// One property write the host must apply to the scene this tick.
#[derive(Debug)]
pub struct PropertyWrite {
    /// The entity to write to.  If the entity has been destroyed in the
    /// meantime, the host simply discards the write; that is not an error.
    pub entity: u64,
    /// The property to write.
    pub kind: PropertyKind,
    /// The value to write, one fixed-point integer per channel.
    pub value: Vec<u32>,
    /// True when this write completes its transition: the value is then
    /// the target value, exactly, and the record has been dropped.
    pub finished: bool,
}

/// The mathematical model of a [`PropertyWrite`].
#[verifier::ext_equal]
pub struct WriteModel {
    pub entity: u64,
    pub kind: PropertyKind,
    pub value: Seq<int>,
    pub finished: bool,
}

impl PropertyWrite {
    pub open spec fn model(self) -> WriteModel {
        WriteModel {
            entity: self.entity,
            kind: self.kind,
            value: channels_of(self.value@),
            finished: self.finished,
        }
    }
}

/// The models of a sequence of records.
pub open spec fn records_model(s: Seq<TransitionRecord>) -> Seq<RecordModel> {
    s.map(|i: int, r: TransitionRecord| r.model())
}

/// The models of a sequence of property writes.
pub open spec fn writes_model(s: Seq<PropertyWrite>) -> Seq<WriteModel> {
    s.map(|i: int, w: PropertyWrite| w.model())
}

/// Whether some record carries the given key.
pub open spec fn model_has(s: Seq<RecordModel>, entity: u64, kind: PropertyKind) -> bool {
    exists|i: int| 0 <= i < s.len() && s[i].entity == entity && s[i].kind == kind
}

/// The index of the record carrying the given key; meaningful whenever
/// [`model_has`] holds and the keys are unique.
pub open spec fn model_index(s: Seq<RecordModel>, entity: u64, kind: PropertyKind) -> int {
    choose|i: int| 0 <= i < s.len() && s[i].entity == entity && s[i].kind == kind
}

/// A well-formed store: every transition is well formed, carries the
/// channel count of its property kind, and no key occurs twice.
pub open spec fn model_wf(s: Seq<RecordModel>) -> bool {
    &&& forall|i: int| 0 <= i < s.len() ==> (#[trigger] s[i].anim).wf()
    &&& forall|i: int|
        0 <= i < s.len() ==> (#[trigger] s[i].anim).start.len() == channel_count(s[i].kind)
    &&& forall|i: int, j: int|
        0 <= i < j < s.len() ==> !((#[trigger] s[i]).entity == (#[trigger] s[j]).entity && s[i].kind
            == s[j].kind)
}

/// What starting a transition does to the store.  With no record under the
/// key, a fresh one is appended, its start value the property's current
/// value as read by the host.  With a record already converging to the
/// same target, nothing changes.  Otherwise the record is restarted toward
/// the new target from its current interpolated value.
pub open spec fn start_model(
    s: Seq<RecordModel>,
    entity: u64,
    kind: PropertyKind,
    current: Seq<int>,
    target: Seq<int>,
    duration: int,
) -> Seq<RecordModel> {
    if model_has(s, entity, kind) {
        let i = model_index(s, entity, kind);
        if s[i].anim.target == target {
            s
        } else {
            s.update(i, RecordModel { entity, kind, anim: s[i].anim.restarted(target, duration) })
        }
    } else {
        s.push(
            RecordModel {
                entity,
                kind,
                anim: AnimModel { start: current, target, elapsed: 0, duration },
            },
        )
    }
}

/// The property write a record emits on a tick: its value advanced by the
/// delta — the target value, exactly, if that completes the transition.
pub open spec fn write_of(r: RecordModel, delta: int) -> WriteModel {
    WriteModel {
        entity: r.entity,
        kind: r.kind,
        value: r.anim.advanced(delta).current(),
        finished: r.anim.elapsed + delta >= r.anim.duration,
    }
}

/// The writes a tick emits: one per record, in store order.
pub open spec fn tick_writes_model(s: Seq<RecordModel>, delta: int) -> Seq<WriteModel>
    decreases s.len(),
{
    if s.len() == 0 {
        Seq::empty()
    } else {
        tick_writes_model(s.drop_last(), delta).push(write_of(s.last(), delta))
    }
}

/// The records that survive a tick: those the delta does not complete,
/// each advanced; completed ones are dropped.
pub open spec fn tick_keep_model(s: Seq<RecordModel>, delta: int) -> Seq<RecordModel>
    decreases s.len(),
{
    if s.len() == 0 {
        Seq::empty()
    } else {
        let rest = tick_keep_model(s.drop_last(), delta);
        if s.last().anim.elapsed + delta >= s.last().anim.duration {
            rest
        } else {
            rest.push(RecordModel { anim: s.last().anim.advanced(delta), ..s.last() })
        }
    }
}

/// The records that survive the destruction of an entity: all but those
/// attached to it, in order.
pub open spec fn drop_entity_model(s: Seq<RecordModel>, entity: u64) -> Seq<RecordModel>
    decreases s.len(),
{
    if s.len() == 0 {
        Seq::empty()
    } else {
        let rest = drop_entity_model(s.drop_last(), entity);
        if s.last().entity == entity {
            rest
        } else {
            rest.push(s.last())
        }
    }
}

proof fn lemma_tick_keep_wf(s: Seq<RecordModel>, delta: int)
    requires
        model_wf(s),
        delta >= 0,
    ensures
        model_wf(tick_keep_model(s, delta)),
        forall|e: u64, k: PropertyKind|
            #[trigger] model_has(tick_keep_model(s, delta), e, k) ==> model_has(s, e, k),
    decreases s.len(),
{
    if s.len() > 0 {
        let head = s.drop_last();
        let last = s.last();
        assert(model_wf(head));
        lemma_tick_keep_wf(head, delta);
        let rest = tick_keep_model(head, delta);
        assert forall|e: u64, k: PropertyKind| #[trigger]
            model_has(tick_keep_model(s, delta), e, k) implies model_has(s, e, k) by {
            let t = tick_keep_model(s, delta);
            let i = choose|i: int| 0 <= i < t.len() && t[i].entity == e && t[i].kind == k;
            if i < rest.len() {
                assert(model_has(rest, e, k));
                let j = choose|j: int| 0 <= j < head.len() && head[j].entity == e && head[j].kind
                    == k;
                assert(s[j] == head[j]);
            } else {
                assert(t[i].entity == last.entity && t[i].kind == last.kind);
                assert(s[s.len() - 1] == last);
            }
        }
        if !(last.anim.elapsed + delta >= last.anim.duration) {
            let kept_last = RecordModel { anim: last.anim.advanced(delta), ..last };
            let t = rest.push(kept_last);
            assert forall|i: int, j: int| 0 <= i < j < t.len() implies !((#[trigger] t[i]).entity
                == (#[trigger] t[j]).entity && t[i].kind == t[j].kind) by {
                if j == t.len() - 1 {
                    if t[i].entity == last.entity && t[i].kind == last.kind {
                        assert(model_has(rest, last.entity, last.kind));
                        assert(model_has(head, last.entity, last.kind));
                        let m = choose|m: int|
                            0 <= m < head.len() && head[m].entity == last.entity && head[m].kind
                                == last.kind;
                        assert(s[m] == head[m]);
                        assert(s[s.len() - 1] == last);
                    }
                }
            }
        }
    }
}

proof fn lemma_drop_entity_wf(s: Seq<RecordModel>, entity: u64)
    requires
        model_wf(s),
    ensures
        model_wf(drop_entity_model(s, entity)),
        forall|e: u64, k: PropertyKind|
            #[trigger] model_has(drop_entity_model(s, entity), e, k) ==> model_has(s, e, k),
    decreases s.len(),
{
    if s.len() > 0 {
        let head = s.drop_last();
        let last = s.last();
        assert(model_wf(head));
        lemma_drop_entity_wf(head, entity);
        let rest = drop_entity_model(head, entity);
        assert forall|e: u64, k: PropertyKind| #[trigger]
            model_has(drop_entity_model(s, entity), e, k) implies model_has(s, e, k) by {
            let t = drop_entity_model(s, entity);
            let i = choose|i: int| 0 <= i < t.len() && t[i].entity == e && t[i].kind == k;
            if i < rest.len() {
                assert(model_has(rest, e, k));
                let j = choose|j: int| 0 <= j < head.len() && head[j].entity == e && head[j].kind
                    == k;
                assert(s[j] == head[j]);
            } else {
                assert(s[s.len() - 1] == last);
            }
        }
        if last.entity != entity {
            let t = rest.push(last);
            assert forall|i: int, j: int| 0 <= i < j < t.len() implies !((#[trigger] t[i]).entity
                == (#[trigger] t[j]).entity && t[i].kind == t[j].kind) by {
                if j == t.len() - 1 {
                    if t[i].entity == last.entity && t[i].kind == last.kind {
                        assert(model_has(rest, last.entity, last.kind));
                        assert(model_has(head, last.entity, last.kind));
                        let m = choose|m: int|
                            0 <= m < head.len() && head[m].entity == last.entity && head[m].kind
                                == last.kind;
                        assert(s[m] == head[m]);
                        assert(s[s.len() - 1] == last);
                    }
                }
            }
        }
    }
}

/// Every channel of the current interpolated value stays within the
/// channel bound.
proof fn lemma_current_bounded(m: AnimModel)
    requires
        m.wf(),
    ensures
        m.current().len() == m.start.len(),
        forall|i: int| 0 <= i < m.current().len() ==> 0 <= #[trigger] m.current()[i] <= CHANNEL_MAX,
{
    assert forall|i: int| 0 <= i < m.current().len() implies 0 <= #[trigger] m.current()[i]
        <= CHANNEL_MAX by {
        lemma_lerp_in_hull(m.start[i], m.target[i], m.elapsed, m.duration);
    }
}

fn copy_channels(v: &Vec<u32>) -> (r: Vec<u32>)
    ensures
        r@ == v@,
{
    let n = v.len();
    let mut r: Vec<u32> = Vec::new();
    let mut i: usize = 0;
    while i < n
        invariant
            i <= n,
            n == v@.len(),
            r@ == v@.take(i as int),
        decreases n - i,
    {
        r.push(v[i]);
        proof {
            assert(r@ =~= v@.take(i + 1));
        }
        i = i + 1;
    }
    proof {
        assert(v@.take(n as int) =~= v@);
    }
    r
}

fn channels_equal(a: &Vec<u32>, b: &Vec<u32>) -> (r: bool)
    ensures
        r == (a@ =~= b@),
{
    if a.len() != b.len() {
        return false;
    }
    let n = a.len();
    let mut i: usize = 0;
    while i < n
        invariant
            i <= n,
            n == a@.len(),
            a@.len() == b@.len(),
            forall|j: int| 0 <= j < i ==> a@[j] == b@[j],
        decreases n - i,
    {
        if a[i] != b[i] {
            return false;
        }
        i = i + 1;
    }
    proof {
        assert(a@ =~= b@);
    }
    true
}

proof fn lemma_channels_of_injective(a: Seq<u32>, b: Seq<u32>)
    requires
        channels_of(a) == channels_of(b),
    ensures
        a =~= b,
{
    assert(channels_of(a).len() == a.len());
    assert(channels_of(b).len() == b.len());
    assert forall|i: int| 0 <= i < a.len() implies a[i] == b[i] by {
        assert(channels_of(a)[i] == a[i] as int);
        assert(channels_of(b)[i] == b[i] as int);
    }
}

/// All live transitions, at most one per (entity, property kind) pair.
/// The host creates one store for the scene, calls
/// [`TransitionStore::start`] from its effects and
/// [`TransitionStore::tick`] once per frame, and applies the returned
/// writes.
#[derive(Debug)]
pub struct TransitionStore {
    /// The live records, in order of creation.
    pub records: Vec<TransitionRecord>,
}

impl TransitionStore {
    /// The mathematical model of the store.
    pub open spec fn model(self) -> Seq<RecordModel> {
        records_model(self.records@)
    }

    pub open spec fn wf(self) -> bool {
        model_wf(self.model())
    }

    /// An empty store: no transition is in flight.
    pub fn new() -> (r: Self)
        ensures
            r.wf(),
            r.model() =~= Seq::<RecordModel>::empty(),
    {
        TransitionStore { records: Vec::new() }
    }

    /// How many transitions are in flight.
    pub fn active_count(&self) -> (r: usize)
        ensures
            r == self.model().len(),
    {
        self.records.len()
    }

    /// Whether a transition is in flight for the pair.
    pub fn is_animating(&self, entity: u64, kind: PropertyKind) -> (r: bool)
        ensures
            r == model_has(self.model(), entity, kind),
    {
        match self.find(entity, kind) {
            Option::Some(_) => true,
            Option::None => false,
        }
    }

    fn find(&self, entity: u64, kind: PropertyKind) -> (r: Option<usize>)
        ensures
            match r {
                Option::Some(i) => i < self.records@.len() && self.records@[i as int].entity
                    == entity && self.records@[i as int].kind == kind && model_has(
                    self.model(),
                    entity,
                    kind,
                ),
                Option::None => !model_has(self.model(), entity, kind),
            },
    {
        let n = self.records.len();
        let mut i: usize = 0;
        while i < n
            invariant
                i <= n,
                n == self.records@.len(),
                forall|j: int|
                    0 <= j < i ==> !((#[trigger] self.records@[j]).entity == entity
                        && self.records@[j].kind == kind),
            decreases n - i,
        {
            if self.records[i].entity == entity && self.records[i].kind == kind {
                proof {
                    assert(self.model()[i as int] == self.records@[i as int].model());
                }
                return Option::Some(i);
            }
            i = i + 1;
        }
        proof {
            assert forall|j: int| 0 <= j < self.model().len() implies !((#[trigger] self.model()[
                j
            ]).entity == entity && self.model()[j].kind == kind) by {
                assert(self.model()[j] == self.records@[j].model());
            }
        }
        Option::None
    }

    /// Start (or retarget) a transition on the pair, exactly as
    /// [`start_model`] describes.  `current` is the property's present
    /// value as read from the scene by the host; it seeds the start value
    /// only when no transition is in flight for the pair — a restart
    /// captures its start from the in-flight interpolation instead, and a
    /// transition already converging to this target is left untouched.
    pub fn start(
        &mut self,
        entity: u64,
        kind: PropertyKind,
        current: &Vec<u32>,
        target: Vec<u32>,
        duration: u64,
    )
        requires
            old(self).wf(),
            current@.len() == channel_count(kind),
            target@.len() == channel_count(kind),
            forall|i: int| 0 <= i < current@.len() ==> #[trigger] current@[i] <= CHANNEL_MAX,
            forall|i: int| 0 <= i < target@.len() ==> #[trigger] target@[i] <= CHANNEL_MAX,
            duration <= DURATION_MAX,
        ensures
            final(self).wf(),
            final(self).model() == start_model(
                old(self).model(),
                entity,
                kind,
                channels_of(current@),
                channels_of(target@),
                duration as int,
            ),
    {
        let found = self.find(entity, kind);
        match found {
            Option::Some(i) => {
                proof {
                    let m = self.model();
                    assert(m[i as int] == self.records@[i as int].model());
                    let j = model_index(m, entity, kind);
                    assert(0 <= j < m.len() && m[j].entity == entity && m[j].kind == kind);
                    if j < i as int {
                        assert(!(m[j].entity == m[i as int].entity && m[j].kind == m[
                            i as int
                        ].kind));
                    } else if (i as int) < j {
                        assert(!(m[i as int].entity == m[j].entity && m[i as int].kind
                            == m[j].kind));
                    }
                    assert(j == i as int);
                }
                let same = channels_equal(&self.records[i].anim.target_value, &target);
                if same {
                    proof {
                        assert(self.model()[i as int].anim.target == channels_of(target@));
                    }
                } else {
                    proof {
                        assert(self.model()[i as int] == self.records@[i as int].model());
                        if self.model()[i as int].anim.target == channels_of(target@) {
                            lemma_channels_of_injective(
                                self.records@[i as int].anim.target_value@,
                                target@,
                            );
                        }
                        assert(self.records@[i as int].anim.wf());
                        lemma_current_bounded(self.records@[i as int].anim.model());
                    }
                    let cur = self.records[i].anim.current_value();
                    let rec = TransitionRecord {
                        entity,
                        kind,
                        anim: AnimatedTransition {
                            start_value: cur,
                            target_value: target,
                            elapsed: 0,
                            duration,
                        },
                    };
                    self.records.set(i, rec);
                    proof {
                        let m = old(self).model();
                        let restarted = RecordModel {
                            entity,
                            kind,
                            anim: m[i as int].anim.restarted(
                                channels_of(target@),
                                duration as int,
                            ),
                        };
                        assert forall|p: int| 0 <= p < self.model().len() implies self.model()[p]
                            == m.update(i as int, restarted)[p] by {
                            assert(self.model()[p] == self.records@[p].model());
                            if p == i as int {
                                assert(self.records@[p].model() =~= restarted);
                            } else {
                                assert(self.records@[p] == old(self).records@[p]);
                                assert(m[p] == old(self).records@[p].model());
                            }
                        }
                        assert(self.model() =~= m.update(i as int, restarted));
                        let t = self.model();
                        assert forall|p: int, q: int| 0 <= p < q < t.len() implies !((
                        #[trigger] t[p]).entity == (#[trigger] t[q]).entity && t[p].kind
                            == t[q].kind) by {
                            assert(t[p].entity == m[p].entity && t[p].kind == m[p].kind);
                            assert(t[q].entity == m[q].entity && t[q].kind == m[q].kind);
                        }
                        assert(model_wf(t));
                    }
                }
            },
            Option::None => {
                let rec = TransitionRecord {
                    entity,
                    kind,
                    anim: AnimatedTransition {
                        start_value: copy_channels(current),
                        target_value: target,
                        elapsed: 0,
                        duration,
                    },
                };
                self.records.push(rec);
                proof {
                    let m = old(self).model();
                    let fresh = RecordModel {
                        entity,
                        kind,
                        anim: AnimModel {
                            start: channels_of(current@),
                            target: channels_of(target@),
                            elapsed: 0,
                            duration: duration as int,
                        },
                    };
                    assert forall|p: int| 0 <= p < self.model().len() implies self.model()[p]
                        == m.push(fresh)[p] by {
                        assert(self.model()[p] == self.records@[p].model());
                        if p < m.len() {
                            assert(self.records@[p] == old(self).records@[p]);
                            assert(m[p] == old(self).records@[p].model());
                        } else {
                            assert(self.records@[p].model() =~= fresh);
                        }
                    }
                    assert(self.model() =~= m.push(fresh));
                    let t = self.model();
                    assert forall|p: int, q: int| 0 <= p < q < t.len() implies !((
                    #[trigger] t[p]).entity == (#[trigger] t[q]).entity && t[p].kind
                        == t[q].kind) by {
                        if q == t.len() - 1 {
                            if t[p].entity == entity && t[p].kind == kind {
                                assert(model_has(m, entity, kind));
                            }
                        }
                    }
                    assert(model_wf(t));
                }
            },
        }
    }

    /// One scheduling tick: every live transition advances by `delta`
    /// milliseconds and emits one property write, in store order; a
    /// transition the delta completes writes its target value exactly and
    /// is dropped.
    pub fn tick(&mut self, delta: u64) -> (writes: Vec<PropertyWrite>)
        requires
            old(self).wf(),
        ensures
            final(self).wf(),
            final(self).model() == tick_keep_model(old(self).model(), delta as int),
            writes_model(writes@) == tick_writes_model(old(self).model(), delta as int),
    {
        let ghost m = self.model();
        let n = self.records.len();
        let mut kept: Vec<TransitionRecord> = Vec::new();
        let mut writes: Vec<PropertyWrite> = Vec::new();
        let mut idx: usize = 0;
        while idx < n
            invariant
                idx <= n,
                n == self.records@.len(),
                self.records@ == old(self).records@,
                m == records_model(self.records@),
                model_wf(m),
                records_model(kept@) == tick_keep_model(m.take(idx as int), delta as int),
                writes_model(writes@) == tick_writes_model(m.take(idx as int), delta as int),
            decreases n - idx,
        {
            proof {
                assert(m[idx as int] == self.records@[idx as int].model());
                assert(m.take(idx as int + 1).drop_last() =~= m.take(idx as int));
                assert(m.take(idx as int + 1).last() == m[idx as int]);
            }
            let ghost rm = m[idx as int];
            let r = &self.records[idx];
            let remaining = r.anim.duration - r.anim.elapsed;
            if delta >= remaining {
                let w = PropertyWrite {
                    entity: r.entity,
                    kind: r.kind,
                    value: copy_channels(&r.anim.target_value),
                    finished: true,
                };
                proof {
                    lemma_terminal_exact(rm.anim.advanced(delta as int));
                    assert(w.model() =~= write_of(rm, delta as int));
                }
                writes.push(w);
                proof {
                    assert forall|p: int| 0 <= p < writes_model(writes@).len() implies
                        writes_model(writes@)[p] == tick_writes_model(
                        m.take(idx as int + 1),
                        delta as int,
                    )[p] by {
                        assert(writes_model(writes@)[p] == writes@[p].model());
                    }
                    assert(writes_model(writes@) =~= tick_writes_model(
                        m.take(idx as int + 1),
                        delta as int,
                    ));
                }
            } else {
                let new_anim = AnimatedTransition {
                    start_value: copy_channels(&r.anim.start_value),
                    target_value: copy_channels(&r.anim.target_value),
                    elapsed: r.anim.elapsed + delta,
                    duration: r.anim.duration,
                };
                proof {
                    assert(new_anim.model() =~= rm.anim.advanced(delta as int));
                }
                let val = new_anim.current_value();
                let w = PropertyWrite {
                    entity: r.entity,
                    kind: r.kind,
                    value: val,
                    finished: false,
                };
                proof {
                    assert(w.model() =~= write_of(rm, delta as int));
                }
                writes.push(w);
                kept.push(TransitionRecord { entity: r.entity, kind: r.kind, anim: new_anim });
                proof {
                    assert forall|p: int| 0 <= p < writes_model(writes@).len() implies
                        writes_model(writes@)[p] == tick_writes_model(
                        m.take(idx as int + 1),
                        delta as int,
                    )[p] by {
                        assert(writes_model(writes@)[p] == writes@[p].model());
                    }
                    assert(writes_model(writes@) =~= tick_writes_model(
                        m.take(idx as int + 1),
                        delta as int,
                    ));
                    assert forall|p: int| 0 <= p < records_model(kept@).len() implies
                        records_model(kept@)[p] == tick_keep_model(
                        m.take(idx as int + 1),
                        delta as int,
                    )[p] by {
                        assert(records_model(kept@)[p] == kept@[p].model());
                        if p == records_model(kept@).len() - 1 {
                            assert(kept@[p].model() =~= (RecordModel {
                                anim: rm.anim.advanced(delta as int),
                                ..rm
                            }));
                        }
                    }
                    assert(records_model(kept@) =~= tick_keep_model(
                        m.take(idx as int + 1),
                        delta as int,
                    ));
                }
            }
            idx = idx + 1;
        }
        proof {
            assert(m.take(n as int) =~= m);
            lemma_tick_keep_wf(m, delta as int);
        }
        self.records = kept;
        writes
    }

    /// Drop every transition attached to an entity, silently: the host
    /// calls this when the entity is destroyed with transitions pending,
    /// which is a structural consequence of entity lifetime, not a fault.
    pub fn drop_entity(&mut self, entity: u64)
        requires
            old(self).wf(),
        ensures
            final(self).wf(),
            final(self).model() == drop_entity_model(old(self).model(), entity),
    {
        let ghost m = self.model();
        let n = self.records.len();
        let mut kept: Vec<TransitionRecord> = Vec::new();
        let mut idx: usize = 0;
        while idx < n
            invariant
                idx <= n,
                n == self.records@.len(),
                self.records@ == old(self).records@,
                m == records_model(self.records@),
                records_model(kept@) == drop_entity_model(m.take(idx as int), entity),
            decreases n - idx,
        {
            proof {
                assert(m[idx as int] == self.records@[idx as int].model());
                assert(m.take(idx as int + 1).drop_last() =~= m.take(idx as int));
                assert(m.take(idx as int + 1).last() == m[idx as int]);
            }
            let r = &self.records[idx];
            if r.entity != entity {
                kept.push(
                    TransitionRecord {
                        entity: r.entity,
                        kind: r.kind,
                        anim: AnimatedTransition {
                            start_value: copy_channels(&r.anim.start_value),
                            target_value: copy_channels(&r.anim.target_value),
                            elapsed: r.anim.elapsed,
                            duration: r.anim.duration,
                        },
                    },
                );
                proof {
                    assert forall|p: int| 0 <= p < records_model(kept@).len() implies
                        records_model(kept@)[p] == drop_entity_model(
                        m.take(idx as int + 1),
                        entity,
                    )[p] by {
                        assert(records_model(kept@)[p] == kept@[p].model());
                        if p == records_model(kept@).len() - 1 {
                            assert(kept@[p].model() =~= m[idx as int]);
                        }
                    }
                    assert(records_model(kept@) =~= drop_entity_model(
                        m.take(idx as int + 1),
                        entity,
                    ));
                }
            }
            idx = idx + 1;
        }
        proof {
            assert(m.take(n as int) =~= m);
            lemma_drop_entity_wf(m, entity);
        }
        self.records = kept;
    }
}

} // verus!
