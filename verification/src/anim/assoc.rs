//! The link between a field of a component and the animation that drives it.
//!
//! A field can be written directly or through an animation. An
//! [`AttrItem`] hides the difference: where the node has an animation for
//! the field, setting the field moves the animation's target and reading it
//! gives the animated value; where it has none, the field itself is written
//! and read.

use vstd::prelude::*;
use crate::fixed::Fixed;
use crate::vec2::Vec2;
use crate::scaling::{Size2, SizeUnit};
use crate::dimension::{Dimension, DimensionType};
use crate::transform::Transform2D;
use crate::anim::interpolate::{Color, Coloring, Index, Interpolate, Interpolation, Offset,
    Opacity, Scale};

verus! {

/// Says which field of which component a kind of animation drives.
pub trait InterpolateAssociation {
    /// The component.
    type Component;

    /// The kind of animation.
    type Interpolation: Interpolation;

    /// Whether the field can be read from `component`.
    spec fn readable(component: Self::Component) -> bool;

    /// The field of `component`.
    spec fn spec_get(component: Self::Component) -> <Self::Interpolation as Interpolation>::FrontEnd;

    /// `component` with the field replaced by `value`.
    spec fn spec_set(
        component: Self::Component,
        value: <Self::Interpolation as Interpolation>::FrontEnd,
    ) -> Self::Component;

    /// A field that was set reads as the value it was set to, and stays
    /// readable.
    proof fn set_then_get(
        component: Self::Component,
        value: <Self::Interpolation as Interpolation>::FrontEnd,
    )
        requires
            Self::readable(component),
        ensures
            Self::readable(Self::spec_set(component, value)),
            Self::spec_get(Self::spec_set(component, value)) == value,
    ;

    /// Whether the field can be read from `component`.
    fn can_get(component: &Self::Component) -> (r: bool)
        ensures
            r == Self::readable(*component),
    ;

    /// Replaces the field of `component` by `value`.
    fn set(component: &mut Self::Component, value: <Self::Interpolation as Interpolation>::FrontEnd)
        ensures
            *final(component) == Self::spec_set(*old(component), value),
    ;

    /// The field of `component`.
    fn get(component: &Self::Component) -> (r: <Self::Interpolation as Interpolation>::FrontEnd)
        requires
            Self::readable(*component),
        ensures
            r == Self::spec_get(*component),
    ;
}

/// Brings the field that `X` names up to the animated value: the field is
/// written only if it differs.
pub fn apply_interpolation<X: InterpolateAssociation>(
    component: &mut X::Component,
    inter: &Interpolate<X::Interpolation>,
)
    requires
        X::readable(*old(component)),
    ensures
        *final(component) == if X::spec_get(*old(component)) == inter@.get() {
            *old(component)
        } else {
            X::spec_set(*old(component), inter@.get())
        },
        X::readable(*final(component)),
        X::spec_get(*final(component)) == inter@.get(),
{
    let now = inter.get();
    let held = X::get(component);
    if !<X::Interpolation as Interpolation>::same(held, now) {
        proof {
            X::set_then_get(*component, now);
        }
        X::set(component, now);
    }
}

/// The field follows its animation to the end: once the time steps since the
/// last change of target add up to the duration or more, the field that was
/// brought up to the animation is the target, exactly.
pub proof fn lemma_field_arrives<X: InterpolateAssociation>(
    component: X::Component,
    it: crate::anim::interpolate::InterpolateModel<X::Interpolation>,
    steps: Seq<Fixed>,
)
    requires
        X::readable(component),
        it.wf(),
        it.elapsed@ + crate::anim::interpolate::total_time(steps) >= it.duration@,
    ensures
        X::spec_get(spec_applied::<X>(component, it.after_steps(steps))) == it.target,
{
    crate::anim::interpolate::lemma_converges(it, steps);
    X::set_then_get(component, it.target);
}

/// `component` with the field that `X` names brought up to the animation
/// `it`: unchanged where the field is the animated value already.
pub open spec fn spec_applied<X: InterpolateAssociation>(
    component: X::Component,
    it: crate::anim::interpolate::InterpolateModel<X::Interpolation>,
) -> X::Component {
    if X::spec_get(component) == it.get() {
        component
    } else {
        X::spec_set(component, it.get())
    }
}

impl InterpolateAssociation for (Transform2D, Offset) {
    type Component = Transform2D;

    type Interpolation = Offset;

    open spec fn readable(component: Transform2D) -> bool {
        true
    }

    open spec fn spec_get(component: Transform2D) -> Vec2 {
        component.offset.raw
    }

    open spec fn spec_set(component: Transform2D, value: Vec2) -> Transform2D {
        Transform2D {
            offset: Size2::of(component.offset.x, component.offset.y, value),
            ..component
        }
    }

    proof fn set_then_get(component: Transform2D, value: Vec2) {
    }

    fn can_get(component: &Transform2D) -> (r: bool) {
        true
    }

    fn set(component: &mut Transform2D, value: Vec2) {
        component.offset.raw = value;
    }

    fn get(component: &Transform2D) -> (r: Vec2) {
        component.offset.raw()
    }
}

impl InterpolateAssociation for (Transform2D, Scale) {
    type Component = Transform2D;

    type Interpolation = Scale;

    open spec fn readable(component: Transform2D) -> bool {
        true
    }

    open spec fn spec_get(component: Transform2D) -> Vec2 {
        component.scale
    }

    open spec fn spec_set(component: Transform2D, value: Vec2) -> Transform2D {
        Transform2D { scale: value, ..component }
    }

    proof fn set_then_get(component: Transform2D, value: Vec2) {
    }

    fn can_get(component: &Transform2D) -> (r: bool) {
        true
    }

    fn set(component: &mut Transform2D, value: Vec2) {
        component.scale = value;
    }

    fn get(component: &Transform2D) -> (r: Vec2) {
        component.scale
    }
}

impl InterpolateAssociation for (Dimension, Dimension) {
    type Component = Dimension;

    type Interpolation = Dimension;

    /// Only a size that the node states has numbers to animate.
    open spec fn readable(component: Dimension) -> bool {
        component.dimension is Owned
    }

    open spec fn spec_get(component: Dimension) -> Vec2 {
        match component.dimension {
            DimensionType::Owned(v) => v.raw,
            _ => Vec2::zero(),
        }
    }

    open spec fn spec_set(component: Dimension, value: Vec2) -> Dimension {
        Dimension {
            dimension: match component.dimension {
                DimensionType::Owned(v) => DimensionType::Owned(Size2::of(v.x, v.y, value)),
                other => other,
            },
            ..component
        }
    }

    proof fn set_then_get(component: Dimension, value: Vec2) {
    }

    fn can_get(component: &Dimension) -> (r: bool) {
        component.is_owned()
    }

    fn set(component: &mut Dimension, value: Vec2) {
        component.set_raw(value);
    }

    fn get(component: &Dimension) -> (r: Vec2) {
        component.raw()
    }
}

impl InterpolateAssociation for (Opacity, Opacity) {
    type Component = Opacity;

    type Interpolation = Opacity;

    open spec fn readable(component: Opacity) -> bool {
        true
    }

    open spec fn spec_get(component: Opacity) -> Fixed {
        component.opacity
    }

    open spec fn spec_set(component: Opacity, value: Fixed) -> Opacity {
        Opacity { opacity: value, ..component }
    }

    proof fn set_then_get(component: Opacity, value: Fixed) {
    }

    fn can_get(component: &Opacity) -> (r: bool) {
        true
    }

    fn set(component: &mut Opacity, value: Fixed) {
        component.opacity = value;
    }

    fn get(component: &Opacity) -> (r: Fixed) {
        component.opacity
    }
}

impl InterpolateAssociation for (Coloring, Color) {
    type Component = Coloring;

    type Interpolation = Color;

    open spec fn readable(component: Coloring) -> bool {
        true
    }

    open spec fn spec_get(component: Coloring) -> Color {
        component.color
    }

    open spec fn spec_set(component: Coloring, value: Color) -> Coloring {
        Coloring { color: value }
    }

    proof fn set_then_get(component: Coloring, value: Color) {
    }

    fn can_get(component: &Coloring) -> (r: bool) {
        true
    }

    fn set(component: &mut Coloring, value: Color) {
        component.color = value;
    }

    fn get(component: &Coloring) -> (r: Color) {
        component.color
    }
}

/// The frame of a sheet that a node shows.
#[derive(Clone, Copy, Debug, PartialEq, Eq, Structural)]
pub struct AtlasFrame {
    /// The position of the frame in the sheet.
    pub index: usize,
}

impl InterpolateAssociation for (AtlasFrame, Index) {
    type Component = AtlasFrame;

    type Interpolation = Index;

    open spec fn readable(component: AtlasFrame) -> bool {
        true
    }

    open spec fn spec_get(component: AtlasFrame) -> usize {
        component.index
    }

    open spec fn spec_set(component: AtlasFrame, value: usize) -> AtlasFrame {
        AtlasFrame { index: value }
    }

    proof fn set_then_get(component: AtlasFrame, value: usize) {
    }

    fn can_get(component: &AtlasFrame) -> (r: bool) {
        true
    }

    fn set(component: &mut AtlasFrame, value: usize) {
        component.index = value;
    }

    fn get(component: &AtlasFrame) -> (r: usize) {
        component.index
    }
}

/// A field of the component `A` together with the animation of kind `B` that
/// drives it, if the node has one.
pub struct AttrItem<'a, A, B: Interpolation> {
    /// The component.
    pub component: &'a mut A,
    /// The animation.
    pub interpolate: Option<&'a mut Interpolate<B>>,
}

impl<'a, A, B: Interpolation> AttrItem<'a, A, B> where
    (A, B): InterpolateAssociation<Component = A, Interpolation = B>,
 {
    /// Whether the animation, if there is one, is well formed.
    pub open spec fn wf(&self) -> bool {
        self.interpolate matches Some(i) ==> i@.wf()
    }

    /// Sets the field: with an animation its target is moved and the field is
    /// left to follow; without one the field is written.
    pub fn set(&mut self, value: B::FrontEnd)
        ensures
            old(self).wf() ==> final(self).wf(),
            *final(final(self).component) == *final(old(self).component),
            old(self).interpolate is Some ==> final(self).interpolate is Some
                && *final(final(self).interpolate->0) == *final(old(self).interpolate->0),
            old(self).interpolate is Some ==> {
                &&& final(self).interpolate is Some
                &&& final(self).interpolate->0@ == old(self).interpolate->0@.retargeted(value)
                &&& *final(self).component == *old(self).component
            },
            old(self).interpolate is None ==> {
                &&& final(self).interpolate is None
                &&& *final(self).component == <(A, B)>::spec_set(*old(self).component, value)
            },
    {
        match &mut self.interpolate {
            Some(interpolate) => {
                interpolate.interpolate_to(value);
            },
            None => {
                <(A, B)>::set(self.component, value);
            },
        }
    }

    /// Sets the field at once: the field is written, and an animation is put
    /// at rest at the value.
    pub fn force_set(&mut self, value: B::FrontEnd)
        ensures
            old(self).wf() ==> final(self).wf(),
            *final(final(self).component) == *final(old(self).component),
            old(self).interpolate is Some ==> final(self).interpolate is Some
                && *final(final(self).interpolate->0) == *final(old(self).interpolate->0),
            *final(self).component == <(A, B)>::spec_set(*old(self).component, value),
            old(self).interpolate is Some ==> {
                &&& final(self).interpolate is Some
                &&& final(self).interpolate->0@ == old(self).interpolate->0@.resting_at(value)
            },
            old(self).interpolate is None ==> final(self).interpolate is None,
    {
        match &mut self.interpolate {
            Some(interpolate) => {
                interpolate.set(value);
            },
            None => {},
        }
        <(A, B)>::set(self.component, value);
    }

    /// The field now: the animated value if there is an animation, the field
    /// itself otherwise.
    pub fn get(&self) -> (r: B::FrontEnd)
        requires
            self.interpolate is None ==> <(A, B)>::readable(*self.component),
        ensures
            r == match self.interpolate {
                Some(i) => i@.get(),
                None => <(A, B)>::spec_get(*old(self.component)),
            },
    {
        match &self.interpolate {
            Some(interpolate) => interpolate.get(),
            None => <(A, B)>::get(self.component),
        }
    }

    /// Where the field is headed: the target of the animation, which is put
    /// at rest there; without an animation, the field itself.
    pub fn take(&mut self) -> (r: B::FrontEnd)
        requires
            old(self).interpolate is None ==> <(A, B)>::readable(*old(self).component),
        ensures
            old(self).wf() ==> final(self).wf(),
            *final(final(self).component) == *final(old(self).component),
            old(self).interpolate is Some ==> final(self).interpolate is Some
                && *final(final(self).interpolate->0) == *final(old(self).interpolate->0),
            *final(self).component == *old(self).component,
            old(self).interpolate is Some ==> {
                &&& r == old(self).interpolate->0@.target
                &&& final(self).interpolate is Some
                &&& final(self).interpolate->0@ == old(self).interpolate->0@.resting_at(r)
            },
            old(self).interpolate is None ==> {
                &&& r == <(A, B)>::spec_get(*old(self).component)
                &&& final(self).interpolate is None
            },
    {
        match &mut self.interpolate {
            Some(interpolate) => interpolate.take_target(),
            None => <(A, B)>::get(self.component),
        }
    }
}

impl<'a, A, B: Interpolation<FrontEnd = Vec2>> AttrItem<'a, A, B> where
    (A, B): InterpolateAssociation<Component = A, Interpolation = B>,
 {
    /// Sets the horizontal part of the field and keeps the vertical part:
    /// that of the animation's target if there is an animation, that of the
    /// field otherwise.
    pub fn set_x(&mut self, value: Fixed)
        requires
            old(self).interpolate is None ==> <(A, B)>::readable(*old(self).component),
        ensures
            old(self).wf() ==> final(self).wf(),
            *final(final(self).component) == *final(old(self).component),
            old(self).interpolate is Some ==> final(self).interpolate is Some
                && *final(final(self).interpolate->0) == *final(old(self).interpolate->0),
            old(self).interpolate is Some ==> {
                &&& final(self).interpolate is Some
                &&& final(self).interpolate->0@ == old(self).interpolate->0@.retargeted(
                    Vec2 { x: value, y: old(self).interpolate->0@.target.y },
                )
                &&& *final(self).component == *old(self).component
            },
            old(self).interpolate is None ==> {
                &&& final(self).interpolate is None
                &&& *final(self).component == <(A, B)>::spec_set(
                    *old(self).component,
                    Vec2 { x: value, y: <(A, B)>::spec_get(*old(self).component).y },
                )
            },
    {
        match &mut self.interpolate {
            Some(interpolate) => {
                let target = interpolate.target().y;
                interpolate.interpolate_to(Vec2::new(value, target));
            },
            None => {
                let y = <(A, B)>::get(self.component).y;
                <(A, B)>::set(self.component, Vec2::new(value, y));
            },
        }
    }

    /// Sets the vertical part of the field and keeps the horizontal part.
    pub fn set_y(&mut self, value: Fixed)
        requires
            old(self).interpolate is None ==> <(A, B)>::readable(*old(self).component),
        ensures
            old(self).wf() ==> final(self).wf(),
            *final(final(self).component) == *final(old(self).component),
            old(self).interpolate is Some ==> final(self).interpolate is Some
                && *final(final(self).interpolate->0) == *final(old(self).interpolate->0),
            old(self).interpolate is Some ==> {
                &&& final(self).interpolate is Some
                &&& final(self).interpolate->0@ == old(self).interpolate->0@.retargeted(
                    Vec2 { x: old(self).interpolate->0@.target.x, y: value },
                )
                &&& *final(self).component == *old(self).component
            },
            old(self).interpolate is None ==> {
                &&& final(self).interpolate is None
                &&& *final(self).component == <(A, B)>::spec_set(
                    *old(self).component,
                    Vec2 { x: <(A, B)>::spec_get(*old(self).component).x, y: value },
                )
            },
    {
        match &mut self.interpolate {
            Some(interpolate) => {
                let target = interpolate.target().x;
                interpolate.interpolate_to(Vec2::new(target, value));
            },
            None => {
                let x = <(A, B)>::get(self.component).x;
                <(A, B)>::set(self.component, Vec2::new(x, value));
            },
        }
    }
}

impl<'a> AttrItem<'a, Transform2D, Offset> {
    /// The offset now, in pixels: the animated value as it is if there is an
    /// animation, the offset converted from its units otherwise.
    pub fn get_pixels(&self, parent: Vec2, em: Fixed, rem: Fixed) -> (r: Vec2)
        ensures
            r == match self.interpolate {
                Some(i) => i@.get(),
                None => old(self.component).offset.as_pixels(parent, em, rem),
            },
    {
        match &self.interpolate {
            Some(interpolate) => interpolate.get(),
            None => self.component.offset.as_pixels(parent, em, rem),
        }
    }

    /// Sets the offset at once to `value` pixels: an animation is put at rest
    /// there, and the offset becomes `value` in pixels.
    pub fn force_set_pixels(&mut self, value: Vec2)
        ensures
            old(self).wf() ==> final(self).wf(),
            *final(final(self).component) == *final(old(self).component),
            old(self).interpolate is Some ==> final(self).interpolate is Some
                && *final(final(self).interpolate->0) == *final(old(self).interpolate->0),
            *final(self).component == (Transform2D {
                offset: Size2::of(SizeUnit::Pixels, SizeUnit::Pixels, value),
                ..*old(self).component
            }),
            old(self).interpolate is Some ==> {
                &&& final(self).interpolate is Some
                &&& final(self).interpolate->0@ == old(self).interpolate->0@.resting_at(value)
            },
            old(self).interpolate is None ==> final(self).interpolate is None,
    {
        match &mut self.interpolate {
            Some(interpolate) => {
                interpolate.set(value);
            },
            None => {},
        }
        self.component.offset = Size2::pixels(value.x, value.y);
    }
}

impl<'a> AttrReadOnlyItem<'a, Transform2D, Offset> {
    /// The offset now, in pixels: the animated value as it is if there is an
    /// animation, the offset converted from its units otherwise.
    pub fn get_pixels(&self, parent: Vec2, em: Fixed, rem: Fixed) -> (r: Vec2)
        ensures
            r == match self.interpolate {
                Some(i) => i@.get(),
                None => self.component.offset.as_pixels(parent, em, rem),
            },
    {
        match &self.interpolate {
            Some(interpolate) => interpolate.get(),
            None => self.component.offset.as_pixels(parent, em, rem),
        }
    }
}

/// A field of the component `A` together with the animation of kind `B` that
/// drives it, for reading only.
pub struct AttrReadOnlyItem<'a, A, B: Interpolation> {
    /// The component.
    pub component: &'a A,
    /// The animation.
    pub interpolate: Option<&'a Interpolate<B>>,
}

impl<'a, A, B: Interpolation> AttrReadOnlyItem<'a, A, B> where
    (A, B): InterpolateAssociation<Component = A, Interpolation = B>,
 {
    /// The field now: the animated value if there is an animation, the field
    /// itself otherwise.
    pub fn get(&self) -> (r: B::FrontEnd)
        requires
            self.interpolate is None ==> <(A, B)>::readable(*self.component),
        ensures
            r == match self.interpolate {
                Some(i) => i@.get(),
                None => <(A, B)>::spec_get(*self.component),
            },
    {
        match &self.interpolate {
            Some(interpolate) => interpolate.get(),
            None => <(A, B)>::get(self.component),
        }
    }
}

} // verus!
