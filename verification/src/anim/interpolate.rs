//! A value on its way to a target.

use vstd::prelude::*;
use crate::fixed::{Fixed, lemma_plus_zero, lemma_times_zero};
use crate::vec2::Vec2;
use crate::anim::easing::{Easing, EasingModel, lemma_curve_ends};

verus! {

/// A kind of value that can be animated.
pub trait Interpolation: Sized {
    /// The values.
    type FrontEnd: Copy;

    /// The value the fraction `fac` of the way from `from` to `to`.
    spec fn spec_lerp(from: Self::FrontEnd, to: Self::FrontEnd, fac: Fixed) -> Self::FrontEnd;

    /// At the fraction zero the value is still the one started from.
    proof fn lerp_at_zero(from: Self::FrontEnd, to: Self::FrontEnd)
        ensures
            Self::spec_lerp(from, to, Fixed::zero()) == from,
    ;

    /// The value the fraction `fac` of the way from `from` to `to`.
    fn lerp(from: Self::FrontEnd, to: Self::FrontEnd, fac: Fixed) -> (r: Self::FrontEnd)
        ensures
            r == Self::spec_lerp(from, to, fac),
    ;

    /// Whether two values are the same.
    fn same(a: Self::FrontEnd, b: Self::FrontEnd) -> (r: bool)
        ensures
            r == (a == b),
    ;
}

/// The number the fraction `fac` of the way from `from` to `to`:
/// `from + (to − from)·fac`.
pub open spec fn spec_lerp_fixed(from: Fixed, to: Fixed, fac: Fixed) -> Fixed {
    from.plus(to.minus(from).times(fac))
}

/// The number the fraction `fac` of the way from `from` to `to`.
#[verifier::when_used_as_spec(spec_lerp_fixed)]
pub fn lerp_fixed(from: Fixed, to: Fixed, fac: Fixed) -> (r: Fixed)
    ensures
        r == spec_lerp_fixed(from, to, fac),
{
    from.plus(to.minus(from).times(fac))
}

/// The vector the fraction `fac` of the way from `from` to `to`, by component.
pub open spec fn spec_lerp_vec2(from: Vec2, to: Vec2, fac: Fixed) -> Vec2 {
    Vec2 { x: lerp_fixed(from.x, to.x, fac), y: lerp_fixed(from.y, to.y, fac) }
}

/// The vector the fraction `fac` of the way from `from` to `to`, by component.
#[verifier::when_used_as_spec(spec_lerp_vec2)]
pub fn lerp_vec2(from: Vec2, to: Vec2, fac: Fixed) -> (r: Vec2)
    ensures
        r == spec_lerp_vec2(from, to, fac),
{
    Vec2 { x: lerp_fixed(from.x, to.x, fac), y: lerp_fixed(from.y, to.y, fac) }
}

/// A colour: red, green, blue and opacity, each from zero to one.
#[derive(Clone, Copy, Debug, PartialEq, Eq, Structural)]
pub struct Color {
    pub red: Fixed,
    pub green: Fixed,
    pub blue: Fixed,
    pub alpha: Fixed,
}

/// The offset of a node from its parent's anchor, animated.
pub struct Offset;

/// The scale of a node, animated.
pub struct Scale;

/// The angle of a node in radians, animated.
pub struct Rotation;

/// The position in a sheet of frames, animated.
pub struct Index;

/// The index the fraction `fac` of the way from `from` to `to`, rounded
/// toward `from`; `fac` is first held within zero and one.
pub open spec fn spec_lerp_index(from: usize, to: usize, fac: Fixed) -> usize {
    let f = crate::anim::easing::spec_unit_clamp(fac)@;
    if to >= from {
        (from + ((to - from) * f) / 1_000_000) as usize
    } else {
        (from - ((from - to) * f) / 1_000_000) as usize
    }
}

/// The index the fraction `fac` of the way from `from` to `to`.
#[verifier::when_used_as_spec(spec_lerp_index)]
pub fn lerp_index(from: usize, to: usize, fac: Fixed) -> (r: usize)
    ensures
        r == spec_lerp_index(from, to, fac),
        from <= to ==> from <= r <= to,
        to <= from ==> to <= r <= from,
{
    let f: u128 = crate::anim::easing::unit_clamp(fac).raw as u128;
    if to >= from {
        let span: u128 = (to - from) as u128;
        assert(span * f <= span * 1_000_000) by (nonlinear_arith)
            requires
                f <= 1_000_000,
        ;
        assert(span * 1_000_000 <= 0xffff_ffff_ffff_ffff * 1_000_000) by (nonlinear_arith)
            requires
                span <= 0xffff_ffff_ffff_ffff,
        ;
        let part: u128 = (span * f) / 1_000_000;
        assert(part <= span) by (nonlinear_arith)
            requires
                part == (span * f) / 1_000_000,
                span * f <= span * 1_000_000,
        ;
        from + (part as usize)
    } else {
        let span: u128 = (from - to) as u128;
        assert(span * f <= span * 1_000_000) by (nonlinear_arith)
            requires
                f <= 1_000_000,
        ;
        assert(span * 1_000_000 <= 0xffff_ffff_ffff_ffff * 1_000_000) by (nonlinear_arith)
            requires
                span <= 0xffff_ffff_ffff_ffff,
        ;
        let part: u128 = (span * f) / 1_000_000;
        assert(part <= span) by (nonlinear_arith)
            requires
                part == (span * f) / 1_000_000,
                span * f <= span * 1_000_000,
        ;
        from - (part as usize)
    }
}

impl Interpolation for Index {
    type FrontEnd = usize;

    open spec fn spec_lerp(from: usize, to: usize, fac: Fixed) -> usize {
        lerp_index(from, to, fac)
    }

    proof fn lerp_at_zero(from: usize, to: usize) {
        assert((to - from) * 0 == 0);
        assert((from - to) * 0 == 0);
    }

    fn lerp(from: usize, to: usize, fac: Fixed) -> (r: usize) {
        lerp_index(from, to, fac)
    }

    fn same(a: usize, b: usize) -> (r: bool) {
        a == b
    }
}

/// How opaque a node is.
#[derive(Clone, Copy, Debug, PartialEq, Eq, Structural)]
pub struct Opacity {
    /// The opacity of the node itself, from zero to one.
    pub opacity: Fixed,
    /// The opacity that results with the ancestors' taken in.
    pub computed_opacity: Fixed,
    /// Whether the node or an ancestor takes no input.
    pub disabled: bool,
    /// Whether something covers the node.
    pub occluded: bool,
}

/// Whether a node is drawn.
#[derive(Clone, Copy, Debug, PartialEq, Eq, Structural)]
pub enum Visibility {
    /// As the parent.
    Inherited,
    /// Not drawn.
    Hidden,
}

impl Opacity {
    /// A node of the opacity `opacity`, enabled and uncovered.
    pub fn new(opacity: Fixed) -> (r: Opacity)
        ensures
            r == (Opacity { opacity, computed_opacity: opacity, disabled: false, occluded: false }),
    {
        Opacity { opacity, computed_opacity: opacity, disabled: false, occluded: false }
    }

    /// The opacity that results with the ancestors' taken in.
    pub fn get(&self) -> (r: Fixed)
        ensures
            r == self.computed_opacity,
    {
        self.computed_opacity
    }

    /// Whether the node takes no input.
    pub fn is_disabled(&self) -> (r: bool)
        ensures
            r == self.disabled,
    {
        self.disabled
    }

    /// Whether the node is drawn: a node that is not opaque at all is hidden.
    pub fn visibility(&self) -> (r: Visibility)
        ensures
            r == if self.computed_opacity@ <= 0 {
                Visibility::Hidden
            } else {
                Visibility::Inherited
            },
    {
        if self.computed_opacity.raw <= 0 {
            Visibility::Hidden
        } else {
            Visibility::Inherited
        }
    }
}

/// The colour of a node.
#[derive(Clone, Copy, Debug, PartialEq, Eq, Structural)]
pub struct Coloring {
    /// The colour.
    pub color: Color,
}

impl Coloring {
    /// The colour as drawn under the opacity `opacity`: its own opacity times
    /// the node's.
    pub fn faded(&self, opacity: &Opacity) -> (r: Color)
        ensures
            r == (Color { alpha: self.color.alpha.times(opacity.computed_opacity), ..self.color }),
    {
        Color { alpha: self.color.alpha.times(opacity.get()), ..self.color }
    }
}

impl Interpolation for Offset {
    type FrontEnd = Vec2;

    open spec fn spec_lerp(from: Vec2, to: Vec2, fac: Fixed) -> Vec2 {
        lerp_vec2(from, to, fac)
    }

    proof fn lerp_at_zero(from: Vec2, to: Vec2) {
        lemma_times_zero(to.x.minus(from.x));
        lemma_times_zero(to.y.minus(from.y));
        lemma_plus_zero(from.x);
        lemma_plus_zero(from.y);
    }

    fn lerp(from: Vec2, to: Vec2, fac: Fixed) -> (r: Vec2) {
        lerp_vec2(from, to, fac)
    }

    fn same(a: Vec2, b: Vec2) -> (r: bool) {
        a == b
    }
}

impl Interpolation for Scale {
    type FrontEnd = Vec2;

    open spec fn spec_lerp(from: Vec2, to: Vec2, fac: Fixed) -> Vec2 {
        lerp_vec2(from, to, fac)
    }

    proof fn lerp_at_zero(from: Vec2, to: Vec2) {
        lemma_times_zero(to.x.minus(from.x));
        lemma_times_zero(to.y.minus(from.y));
        lemma_plus_zero(from.x);
        lemma_plus_zero(from.y);
    }

    fn lerp(from: Vec2, to: Vec2, fac: Fixed) -> (r: Vec2) {
        lerp_vec2(from, to, fac)
    }

    fn same(a: Vec2, b: Vec2) -> (r: bool) {
        a == b
    }
}

impl Interpolation for crate::dimension::Dimension {
    type FrontEnd = Vec2;

    open spec fn spec_lerp(from: Vec2, to: Vec2, fac: Fixed) -> Vec2 {
        lerp_vec2(from, to, fac)
    }

    proof fn lerp_at_zero(from: Vec2, to: Vec2) {
        lemma_times_zero(to.x.minus(from.x));
        lemma_times_zero(to.y.minus(from.y));
        lemma_plus_zero(from.x);
        lemma_plus_zero(from.y);
    }

    fn lerp(from: Vec2, to: Vec2, fac: Fixed) -> (r: Vec2) {
        lerp_vec2(from, to, fac)
    }

    fn same(a: Vec2, b: Vec2) -> (r: bool) {
        a == b
    }
}

impl Interpolation for Rotation {
    type FrontEnd = Fixed;

    open spec fn spec_lerp(from: Fixed, to: Fixed, fac: Fixed) -> Fixed {
        lerp_fixed(from, to, fac)
    }

    proof fn lerp_at_zero(from: Fixed, to: Fixed) {
        lemma_times_zero(to.minus(from));
        lemma_plus_zero(from);
    }

    fn lerp(from: Fixed, to: Fixed, fac: Fixed) -> (r: Fixed) {
        lerp_fixed(from, to, fac)
    }

    fn same(a: Fixed, b: Fixed) -> (r: bool) {
        a == b
    }
}

impl Interpolation for Opacity {
    type FrontEnd = Fixed;

    open spec fn spec_lerp(from: Fixed, to: Fixed, fac: Fixed) -> Fixed {
        lerp_fixed(from, to, fac)
    }

    proof fn lerp_at_zero(from: Fixed, to: Fixed) {
        lemma_times_zero(to.minus(from));
        lemma_plus_zero(from);
    }

    fn lerp(from: Fixed, to: Fixed, fac: Fixed) -> (r: Fixed) {
        lerp_fixed(from, to, fac)
    }

    fn same(a: Fixed, b: Fixed) -> (r: bool) {
        a == b
    }
}

impl Interpolation for Color {
    type FrontEnd = Color;

    open spec fn spec_lerp(from: Color, to: Color, fac: Fixed) -> Color {
        Color {
            red: lerp_fixed(from.red, to.red, fac),
            green: lerp_fixed(from.green, to.green, fac),
            blue: lerp_fixed(from.blue, to.blue, fac),
            alpha: lerp_fixed(from.alpha, to.alpha, fac),
        }
    }

    proof fn lerp_at_zero(from: Color, to: Color) {
        lemma_times_zero(to.red.minus(from.red));
        lemma_times_zero(to.green.minus(from.green));
        lemma_times_zero(to.blue.minus(from.blue));
        lemma_times_zero(to.alpha.minus(from.alpha));
        lemma_plus_zero(from.red);
        lemma_plus_zero(from.green);
        lemma_plus_zero(from.blue);
        lemma_plus_zero(from.alpha);
    }

    fn lerp(from: Color, to: Color, fac: Fixed) -> (r: Color) {
        Color {
            red: lerp_fixed(from.red, to.red, fac),
            green: lerp_fixed(from.green, to.green, fac),
            blue: lerp_fixed(from.blue, to.blue, fac),
            alpha: lerp_fixed(from.alpha, to.alpha, fac),
        }
    }

    fn same(a: Color, b: Color) -> (r: bool) {
        a == b
    }
}

/// A value of the kind `T` on its way from a source to a target.
pub struct Interpolate<T: Interpolation> {
    /// The curve that the value follows.
    pub easing: Easing,
    /// Where the value set out from.
    pub source: T::FrontEnd,
    /// Where the value is headed.
    pub target: T::FrontEnd,
    /// Seconds since the value set out, never more than `duration`.
    pub elapsed: Fixed,
    /// Seconds that the way takes.
    pub duration: Fixed,
}

/// An [`Interpolate`] as a mathematical value.
pub struct InterpolateModel<T: Interpolation> {
    /// The curve that the value follows.
    pub easing: EasingModel,
    /// Where the value set out from.
    pub source: T::FrontEnd,
    /// Where the value is headed.
    pub target: T::FrontEnd,
    /// Seconds since the value set out.
    pub elapsed: Fixed,
    /// Seconds that the way takes.
    pub duration: Fixed,
}

impl<T: Interpolation> View for Interpolate<T> {
    type V = InterpolateModel<T>;

    open spec fn view(&self) -> InterpolateModel<T> {
        InterpolateModel {
            easing: self.easing@,
            source: self.source,
            target: self.target,
            elapsed: self.elapsed,
            duration: self.duration,
        }
    }
}

impl<T: Interpolation> InterpolateModel<T> {
    /// Whether the curve is usable and the times make sense.
    pub open spec fn wf(self) -> bool {
        &&& self.easing.wf()
        &&& 0 <= self.elapsed@ <= self.duration@
    }

    /// Whether the value has reached its target.
    pub open spec fn arrived(self) -> bool {
        self.elapsed@ >= self.duration@
    }

    /// The value now: the target once arrived, and before that the point
    /// between source and target that the curve gives for the fraction of the
    /// time that has passed.
    pub open spec fn get(self) -> T::FrontEnd {
        if self.arrived() {
            self.target
        } else {
            T::spec_lerp(
                self.source,
                self.target,
                self.easing.value(self.elapsed.over(self.duration)),
            )
        }
    }

    /// The state after `dt` more seconds: the elapsed time grows by `dt`, up
    /// to the duration. A negative `dt` counts as zero.
    pub open spec fn updated(self, dt: Fixed) -> InterpolateModel<T> {
        let step = if dt@ < 0 {
            Fixed::zero()
        } else {
            dt
        };
        InterpolateModel { elapsed: self.elapsed.plus(step).smaller(self.duration), ..self }
    }

    /// The state after the target was changed to `to`: nothing changes if
    /// that is the target already; otherwise the value sets out anew from
    /// where it is now.
    pub open spec fn retargeted(self, to: T::FrontEnd) -> InterpolateModel<T> {
        if self.target == to {
            self
        } else {
            InterpolateModel { source: self.get(), target: to, elapsed: Fixed::zero(), ..self }
        }
    }

    /// The state with the value at rest at `value`.
    pub open spec fn resting_at(self, value: T::FrontEnd) -> InterpolateModel<T> {
        InterpolateModel { source: value, target: value, elapsed: self.duration, ..self }
    }

    /// The state after each of the time steps `steps` in turn.
    pub open spec fn after_steps(self, steps: Seq<Fixed>) -> InterpolateModel<T>
        decreases steps.len(),
    {
        if steps.len() == 0 {
            self
        } else {
            self.after_steps(steps.drop_last()).updated(steps.last())
        }
    }
}

/// The sum of the time steps, negative ones counted as zero.
pub open spec fn total_time(steps: Seq<Fixed>) -> int
    decreases steps.len(),
{
    if steps.len() == 0 {
        0
    } else {
        total_time(steps.drop_last()) + if steps.last()@ < 0 {
            0
        } else {
            steps.last()@
        }
    }
}

impl<T: Interpolation> Interpolate<T> {
    /// A value at rest at `position` that will take `duration` seconds for
    /// each way, along the curve `easing`. A negative duration counts as
    /// zero.
    pub fn new(easing: Easing, position: T::FrontEnd, duration: Fixed) -> (r: Interpolate<T>)
        ensures
            easing@.wf() ==> r@.wf(),
            r@.easing == easing@,
            r@.source == position,
            r@.target == position,
            r@.duration == duration.larger(Fixed::zero()),
            r@.elapsed == r@.duration,
    {
        let duration = duration.larger(Fixed::zero());
        Interpolate { easing, source: position, target: position, elapsed: duration, duration }
    }

    /// Whether the value has reached its target.
    pub fn arrived(&self) -> (r: bool)
        ensures
            r == self@.arrived(),
    {
        self.elapsed.raw >= self.duration.raw
    }

    /// The value now; see [`InterpolateModel::get`].
    pub fn get(&self) -> (r: T::FrontEnd)
        ensures
            r == self@.get(),
    {
        if self.elapsed.raw >= self.duration.raw {
            self.target
        } else {
            let fac = self.easing.value(self.elapsed.over(self.duration));
            T::lerp(self.source, self.target, fac)
        }
    }

    /// Where the value set out from.
    pub fn source(&self) -> (r: T::FrontEnd)
        ensures
            r == self@.source,
    {
        self.source
    }

    /// Where the value is headed.
    pub fn target(&self) -> (r: T::FrontEnd)
        ensures
            r == self@.target,
    {
        self.target
    }

    /// Lets `dt` seconds pass and tells whether the value reached its target
    /// in this step.
    pub fn update(&mut self, dt: Fixed) -> (r: bool)
        ensures
            final(self)@ == old(self)@.updated(dt),
            old(self)@.wf() ==> final(self)@.wf(),
            r == (!old(self)@.arrived() && final(self)@.arrived()),
    {
        let before = self.elapsed.raw >= self.duration.raw;
        let step = if dt.raw < 0 {
            Fixed::zero()
        } else {
            dt
        };
        self.elapsed = self.elapsed.plus(step).smaller(self.duration);
        !before && self.elapsed.raw >= self.duration.raw
    }

    /// Changes the target to `to`. The value goes on from where it is now, so
    /// it does not jump; see [`InterpolateModel::retargeted`].
    pub fn interpolate_to(&mut self, to: T::FrontEnd)
        ensures
            final(self)@ == old(self)@.retargeted(to),
            old(self)@.wf() ==> final(self)@.wf(),
    {
        if !T::same(self.target, to) {
            let now = self.get();
            self.source = now;
            self.target = to;
            self.elapsed = Fixed::zero();
        }
    }

    /// Puts the value at rest at `value`, without any way in between.
    pub fn set(&mut self, value: T::FrontEnd)
        ensures
            final(self)@ == old(self)@.resting_at(value),
            old(self)@.wf() ==> final(self)@.wf(),
    {
        self.source = value;
        self.target = value;
        self.elapsed = self.duration;
    }

    /// Puts the value at rest at its target and returns the target.
    pub fn take_target(&mut self) -> (r: T::FrontEnd)
        ensures
            r == old(self)@.target,
            final(self)@ == old(self)@.resting_at(old(self)@.target),
            old(self)@.wf() ==> final(self)@.wf(),
    {
        let target = self.target;
        self.source = target;
        self.elapsed = self.duration;
        target
    }
}

/// Changing the target never makes the value jump: right after the change
/// the value is what it was right before. This needs a way that takes time;
/// with a duration of zero the value is at its new target at once.
pub proof fn lemma_retarget_is_continuous<T: Interpolation>(
    it: InterpolateModel<T>,
    to: T::FrontEnd,
)
    requires
        it.wf(),
        it.duration@ > 0,
    ensures
        it.retargeted(to).get() == it.get(),
        it.retargeted(to).wf(),
{
    if it.target != to {
        let next = it.retargeted(to);
        assert(!next.arrived());
        assert(Fixed::zero().over(it.duration) == Fixed::zero()) by {
            assert(0 * 1_000_000 == 0);
            assert(0int / it.duration@ == 0) by (nonlinear_arith)
                requires
                    it.duration@ > 0,
            ;
        }
        lemma_curve_ends(it.easing);
        T::lerp_at_zero(it.get(), to);
    }
}

/// Once the duration has passed the value is its target, exactly.
pub proof fn lemma_arrives<T: Interpolation>(it: InterpolateModel<T>, dt: Fixed)
    requires
        it.wf(),
        it.elapsed@ + dt@ >= it.duration@,
    ensures
        it.updated(dt).arrived(),
        it.updated(dt).get() == it.target,
{
}

/// Time never runs backwards and the target stays: a step keeps the state
/// well formed, keeps source and target, and never lowers the elapsed time.
pub proof fn lemma_step_keeps<T: Interpolation>(it: InterpolateModel<T>, dt: Fixed)
    requires
        it.wf(),
    ensures
        it.updated(dt).wf(),
        it.updated(dt).target == it.target,
        it.updated(dt).source == it.source,
        it.updated(dt).duration == it.duration,
        it.updated(dt).elapsed@ >= it.elapsed@,
        it.updated(dt).elapsed@ == it.duration@ || it.updated(dt).elapsed@ >= it.elapsed@ + (if dt@
            < 0 {
            0
        } else {
            dt@
        }),
{
}

/// After any run of time steps that add up to the duration or more, with no
/// change of target in between, the value is its target, exactly.
pub proof fn lemma_converges<T: Interpolation>(it: InterpolateModel<T>, steps: Seq<Fixed>)
    requires
        it.wf(),
        it.elapsed@ + total_time(steps) >= it.duration@,
    ensures
        it.after_steps(steps).get() == it.target,
{
    lemma_run(it, steps);
}

/// What a run of time steps does: the state stays well formed with the same
/// target and duration, and the elapsed time is the duration or has grown by
/// at least the total of the steps.
pub proof fn lemma_run<T: Interpolation>(it: InterpolateModel<T>, steps: Seq<Fixed>)
    requires
        it.wf(),
    ensures
        it.after_steps(steps).wf(),
        it.after_steps(steps).target == it.target,
        it.after_steps(steps).duration == it.duration,
        it.after_steps(steps).elapsed@ == it.duration@ || it.after_steps(steps).elapsed@
            >= it.elapsed@ + total_time(steps),
    decreases steps.len(),
{
    if steps.len() > 0 {
        lemma_run(it, steps.drop_last());
        lemma_step_keeps(it.after_steps(steps.drop_last()), steps.last());
    }
}

} // verus!
