//! Sizes with units.
//!
//! A size is a number together with the unit that gives it meaning: pixels,
//! multiples of the font size, multiples of the root font size, a fraction of
//! the parent's size, or the parent's whole size plus an absolute amount.
//! Resolving a size to pixels takes the parent's size, the current font size
//! (`em`) and the root font size (`rem`), and nothing else.

use vstd::prelude::*;
use vstd::std_specs::convert::FromSpecImpl;
use crate::fixed::Fixed;
use crate::vec2::Vec2;

verus! {

/// The root font size of the window, `16` pixels unless set otherwise.
#[derive(Clone, Copy, Debug, PartialEq, Eq, Structural)]
pub struct RectrayRem {
    /// The root font size in pixels.
    pub value: Fixed,
}

impl RectrayRem {
    /// The root font size in pixels.
    pub fn get(&self) -> (r: Fixed)
        ensures
            r == self.value,
    {
        self.value
    }

    /// Sets the root font size in pixels.
    pub fn set(&mut self, rem: Fixed)
        ensures
            final(self).value == rem,
    {
        self.value = rem
    }
}

impl Default for RectrayRem {
    fn default() -> (r: RectrayRem)
        ensures
            r.value == Fixed::from_int(16),
    {
        RectrayRem { value: Fixed::from_int(16) }
    }
}

/// The font size that a node asks for.
#[derive(Clone, Copy, Debug, PartialEq, Eq, Structural)]
pub enum FontSize {
    /// The font size of the parent.
    Inherit,
    /// A size in pixels.
    Pixels(Fixed),
    /// A multiple of the parent's font size.
    Ems(Fixed),
    /// A multiple of the root font size.
    Rems(Fixed),
}

impl FontSize {
    /// Whether the font size holds a number.
    pub open spec fn spec_has_raw(self) -> bool {
        !(self is Inherit)
    }

    /// Whether the font size holds a number.
    #[verifier::when_used_as_spec(spec_has_raw)]
    pub fn has_raw(self) -> (r: bool)
        ensures
            r == self.spec_has_raw(),
    {
        match self {
            FontSize::Inherit => false,
            _ => true,
        }
    }

    /// The number held, whatever its unit.
    pub open spec fn spec_raw(self) -> Fixed
        recommends
            self.spec_has_raw(),
    {
        match self {
            FontSize::Inherit => Fixed::zero(),
            FontSize::Pixels(f) => f,
            FontSize::Ems(f) => f,
            FontSize::Rems(f) => f,
        }
    }

    /// The same unit with the number `value`.
    pub open spec fn spec_with_raw(self, value: Fixed) -> FontSize {
        match self {
            FontSize::Inherit => FontSize::Inherit,
            FontSize::Pixels(_) => FontSize::Pixels(value),
            FontSize::Ems(_) => FontSize::Ems(value),
            FontSize::Rems(_) => FontSize::Rems(value),
        }
    }

    /// Mutable access to the number held. An inherited font size holds none.
    pub fn raw_mut(&mut self) -> (r: &mut Fixed)
        requires
            old(self).spec_has_raw(),
        ensures
            *r == old(self).spec_raw(),
            *final(self) == old(self).spec_with_raw(*final(r)),
    {
        match self {
            FontSize::Inherit => vstd::pervasive::unreached(),
            FontSize::Pixels(f) => f,
            FontSize::Ems(f) => f,
            FontSize::Rems(f) => f,
        }
    }

    /// The font size in pixels of a node whose parent has the font size
    /// `parent_em`, under the root font size `rem`.
    pub open spec fn spec_resolve(self, parent_em: Fixed, rem: Fixed) -> Fixed {
        match self {
            FontSize::Inherit => parent_em,
            FontSize::Pixels(f) => f,
            FontSize::Ems(f) => f.times(parent_em),
            FontSize::Rems(f) => f.times(rem),
        }
    }

    /// The font size in pixels of a node whose parent has the font size
    /// `parent_em`, under the root font size `rem`.
    #[verifier::when_used_as_spec(spec_resolve)]
    pub fn resolve(self, parent_em: Fixed, rem: Fixed) -> (r: Fixed)
        ensures
            r == self.spec_resolve(parent_em, rem),
    {
        match self {
            FontSize::Inherit => parent_em,
            FontSize::Pixels(f) => f,
            FontSize::Ems(f) => f.times(parent_em),
            FontSize::Rems(f) => f.times(rem),
        }
    }
}

impl Default for FontSize {
    fn default() -> (r: FontSize)
        ensures
            r == FontSize::Inherit,
    {
        FontSize::Inherit
    }
}

impl From<Fixed> for FontSize {
    fn from(value: Fixed) -> (r: FontSize) {
        FontSize::Pixels(value)
    }
}

impl FromSpecImpl<Fixed> for FontSize {
    open spec fn obeys_from_spec() -> bool {
        true
    }

    open spec fn from_spec(value: Fixed) -> FontSize {
        FontSize::Pixels(value)
    }
}

/// The unit of a size.
#[derive(Clone, Copy, Debug, PartialEq, Eq, Structural)]
pub enum SizeUnit {
    /// Pixels.
    Pixels,
    /// Multiples of the font size.
    Em,
    /// Multiples of the root font size.
    Rem,
    /// A fraction of the parent's size.
    Percent,
    /// The parent's size plus pixels.
    MarginPx,
    /// The parent's size plus multiples of the font size.
    MarginEm,
    /// The parent's size plus multiples of the root font size.
    MarginRem,
}

impl SizeUnit {
    /// Whether a size of this unit depends on the parent's size.
    pub open spec fn spec_is_relative(&self) -> bool {
        matches!(
            self,
            SizeUnit::Percent | SizeUnit::MarginPx | SizeUnit::MarginEm | SizeUnit::MarginRem
        )
    }

    /// Whether a size of this unit depends on the parent's size.
    #[verifier::when_used_as_spec(spec_is_relative)]
    pub fn is_relative(&self) -> (r: bool)
        ensures
            r == self.spec_is_relative(),
            r <==> !(self is Pixels || self is Em || self is Rem),
    {
        matches!(
            self,
            SizeUnit::Percent | SizeUnit::MarginPx | SizeUnit::MarginEm | SizeUnit::MarginRem
        )
    }

    /// The size `value` of this unit in pixels, for a parent of size `parent`
    /// and the font sizes `em` and `rem`.
    pub open spec fn spec_as_pixels(self, value: Fixed, parent: Fixed, em: Fixed, rem: Fixed)
        -> Fixed {
        match self {
            SizeUnit::Pixels => value,
            SizeUnit::Em => value.times(em),
            SizeUnit::Rem => value.times(rem),
            SizeUnit::Percent => value.times(parent),
            SizeUnit::MarginPx => parent.plus(value),
            SizeUnit::MarginEm => parent.plus(value.times(em)),
            SizeUnit::MarginRem => parent.plus(value.times(rem)),
        }
    }

    /// The size `value` of this unit in pixels, for a parent of size `parent`
    /// and the font sizes `em` and `rem`.
    #[verifier::when_used_as_spec(spec_as_pixels)]
    pub fn as_pixels(self, value: Fixed, parent: Fixed, em: Fixed, rem: Fixed) -> (r: Fixed)
        ensures
            r == self.spec_as_pixels(value, parent, em, rem),
    {
        match self {
            SizeUnit::Pixels => value,
            SizeUnit::Em => value.times(em),
            SizeUnit::Rem => value.times(rem),
            SizeUnit::Percent => value.times(parent),
            SizeUnit::MarginPx => parent.plus(value),
            SizeUnit::MarginEm => parent.plus(value.times(em)),
            SizeUnit::MarginRem => parent.plus(value.times(rem)),
        }
    }
}

impl Default for SizeUnit {
    fn default() -> (r: SizeUnit)
        ensures
            r == SizeUnit::Pixels,
    {
        SizeUnit::Pixels
    }
}

/// A number with a unit.
#[derive(Clone, Copy, Debug, PartialEq, Eq, Structural)]
pub struct Size {
    /// The unit.
    pub unit: SizeUnit,
    /// The number.
    pub value: Fixed,
}

impl Size {
    /// The size `value` of the unit `unit`.
    pub open spec fn spec_new(unit: SizeUnit, value: Fixed) -> Size {
        Size { unit, value }
    }

    /// The size `value` of the unit `unit`.
    #[verifier::when_used_as_spec(spec_new)]
    pub fn new(unit: SizeUnit, value: Fixed) -> (r: Size)
        ensures
            r == Size::spec_new(unit, value),
    {
        Size { unit, value }
    }

    /// The size in pixels, for a parent of size `parent` and the font sizes
    /// `em` and `rem`.
    pub open spec fn spec_as_pixels(self, parent: Fixed, em: Fixed, rem: Fixed) -> Fixed {
        self.unit.as_pixels(self.value, parent, em, rem)
    }

    /// The size in pixels, for a parent of size `parent` and the font sizes
    /// `em` and `rem`.
    #[verifier::when_used_as_spec(spec_as_pixels)]
    pub fn as_pixels(self, parent: Fixed, em: Fixed, rem: Fixed) -> (r: Fixed)
        ensures
            r == self.spec_as_pixels(parent, em, rem),
    {
        self.unit.as_pixels(self.value, parent, em, rem)
    }
}

impl Default for Size {
    fn default() -> (r: Size)
        ensures
            r == Size::spec_new(SizeUnit::Pixels, Fixed::zero()),
    {
        Size { unit: SizeUnit::Pixels, value: Fixed::zero() }
    }
}

/// A pair of numbers with a unit each: a width and a height, or an offset.
#[derive(Clone, Copy, Debug, PartialEq, Eq, Structural)]
pub struct Size2 {
    /// Unit of the horizontal number.
    pub x: SizeUnit,
    /// Unit of the vertical number.
    pub y: SizeUnit,
    /// The two numbers.
    pub raw: Vec2,
}

/// One hundred, the divisor that turns a percentage into a fraction.
pub open spec fn spec_hundred() -> Fixed {
    Fixed { raw: 100_000_000 }
}

/// One hundred.
#[verifier::when_used_as_spec(spec_hundred)]
pub fn hundred() -> (r: Fixed)
    ensures
        r == spec_hundred(),
{
    Fixed { raw: 100_000_000 }
}

impl Size2 {
    /// The size with the horizontal part `x` and the vertical part `y`.
    pub open spec fn spec_new(x: Size, y: Size) -> Size2 {
        Size2 { x: x.unit, y: y.unit, raw: Vec2 { x: x.value, y: y.value } }
    }

    /// The size with the horizontal part `x` and the vertical part `y`.
    #[verifier::when_used_as_spec(spec_new)]
    pub fn new(x: Size, y: Size) -> (r: Size2)
        ensures
            r == Size2::spec_new(x, y),
    {
        Size2 { x: x.unit, y: y.unit, raw: Vec2::new(x.value, y.value) }
    }

    /// The size with both parts equal to `x`.
    pub open spec fn spec_splat(x: Size) -> Size2 {
        Size2::spec_new(x, x)
    }

    /// The size with both parts equal to `x`.
    #[verifier::when_used_as_spec(spec_splat)]
    pub fn splat(x: Size) -> (r: Size2)
        ensures
            r == Size2::spec_splat(x),
    {
        Size2 { x: x.unit, y: x.unit, raw: Vec2::new(x.value, x.value) }
    }

    /// The size of the given units and numbers.
    pub open spec fn of(x: SizeUnit, y: SizeUnit, raw: Vec2) -> Size2 {
        Size2 { x, y, raw }
    }

    /// Nothing, in pixels.
    pub fn zero() -> (r: Size2)
        ensures
            r == Size2::of(SizeUnit::Pixels, SizeUnit::Pixels, Vec2::zero()),
    {
        Size2 { x: SizeUnit::Pixels, y: SizeUnit::Pixels, raw: Vec2::zero() }
    }

    /// The largest size in pixels.
    pub fn max() -> (r: Size2)
        ensures
            r == Size2::of(
                SizeUnit::Pixels,
                SizeUnit::Pixels,
                Vec2::splat(Fixed { raw: crate::fixed::RAW_MAX }),
            ),
    {
        Size2 {
            x: SizeUnit::Pixels,
            y: SizeUnit::Pixels,
            raw: Vec2::splat(Fixed { raw: crate::fixed::RAW_MAX }),
        }
    }

    /// The whole size of the parent.
    pub fn full() -> (r: Size2)
        ensures
            r == Size2::of(SizeUnit::Percent, SizeUnit::Percent, Vec2::one()),
    {
        Size2 { x: SizeUnit::Percent, y: SizeUnit::Percent, raw: Vec2::one() }
    }

    /// A size in pixels.
    pub fn pixels(x: Fixed, y: Fixed) -> (r: Size2)
        ensures
            r == Size2::of(SizeUnit::Pixels, SizeUnit::Pixels, Vec2 { x, y }),
    {
        Size2 { x: SizeUnit::Pixels, y: SizeUnit::Pixels, raw: Vec2::new(x, y) }
    }

    /// A size in multiples of the font size.
    pub fn em(x: Fixed, y: Fixed) -> (r: Size2)
        ensures
            r == Size2::of(SizeUnit::Em, SizeUnit::Em, Vec2 { x, y }),
    {
        Size2 { x: SizeUnit::Em, y: SizeUnit::Em, raw: Vec2::new(x, y) }
    }

    /// A size in multiples of the root font size.
    pub fn rem(x: Fixed, y: Fixed) -> (r: Size2)
        ensures
            r == Size2::of(SizeUnit::Rem, SizeUnit::Rem, Vec2 { x, y }),
    {
        Size2 { x: SizeUnit::Rem, y: SizeUnit::Rem, raw: Vec2::new(x, y) }
    }

    /// A size in percent of the parent's size: `50` is half of it. The numbers
    /// held are the fractions, a hundredth of the percentages.
    pub fn percent(x: Fixed, y: Fixed) -> (r: Size2)
        ensures
            r == Size2::of(
                SizeUnit::Percent,
                SizeUnit::Percent,
                Vec2 { x: x.over(hundred()), y: y.over(hundred()) },
            ),
    {
        Size2 {
            x: SizeUnit::Percent,
            y: SizeUnit::Percent,
            raw: Vec2::new(x.over(hundred()), y.over(hundred())),
        }
    }

    /// The size in pixels, for a parent of size `parent` and the font sizes
    /// `em` and `rem`. Each axis is resolved by itself.
    pub open spec fn spec_as_pixels(&self, parent: Vec2, em: Fixed, rem: Fixed) -> Vec2 {
        Vec2 {
            x: self.x.as_pixels(self.raw.x, parent.x, em, rem),
            y: self.y.as_pixels(self.raw.y, parent.y, em, rem),
        }
    }

    /// The size in pixels, for a parent of size `parent` and the font sizes
    /// `em` and `rem`. Each axis is resolved by itself.
    #[verifier::when_used_as_spec(spec_as_pixels)]
    pub fn as_pixels(&self, parent: Vec2, em: Fixed, rem: Fixed) -> (r: Vec2)
        ensures
            r == self.spec_as_pixels(parent, em, rem),
    {
        Vec2::new(
            self.x.as_pixels(self.raw.x, parent.x, em, rem),
            self.y.as_pixels(self.raw.y, parent.y, em, rem),
        )
    }

    /// The units of the horizontal and the vertical part.
    pub fn units(&self) -> (r: (SizeUnit, SizeUnit))
        ensures
            r == (self.x, self.y),
    {
        (self.x, self.y)
    }

    /// The two numbers, if both are in pixels.
    pub fn get_pixels(&self) -> (r: Option<Vec2>)
        ensures
            r == if self.x is Pixels && self.y is Pixels {
                Some(self.raw)
            } else {
                None
            },
    {
        match (self.x, self.y) {
            (SizeUnit::Pixels, SizeUnit::Pixels) => Some(self.raw),
            _ => None,
        }
    }

    /// The two numbers, whatever their units.
    pub fn raw(&self) -> (r: Vec2)
        ensures
            r == self.raw,
    {
        self.raw
    }

    /// Mutable access to the two numbers; the units stay.
    pub fn raw_mut(&mut self) -> (r: &mut Vec2)
        ensures
            *r == old(self).raw,
            *final(self) == Size2::of(old(self).x, old(self).y, *final(r)),
    {
        &mut self.raw
    }

    /// Replaces the two numbers by what `f` makes of them; the units stay.
    pub fn edit_raw<F: FnOnce(Vec2) -> Vec2>(&mut self, f: F)
        requires
            f.requires((old(self).raw,)),
        ensures
            f.ensures((old(self).raw,), final(self).raw),
            final(self).x == old(self).x,
            final(self).y == old(self).y,
    {
        self.raw = f(self.raw);
    }
}

impl Default for Size2 {
    fn default() -> (r: Size2)
        ensures
            r == Size2::of(SizeUnit::Pixels, SizeUnit::Pixels, Vec2::zero()),
    {
        Size2 { x: SizeUnit::Pixels, y: SizeUnit::Pixels, raw: Vec2::zero() }
    }
}

impl From<Vec2> for Size2 {
    fn from(value: Vec2) -> (r: Size2) {
        Size2 { x: SizeUnit::Pixels, y: SizeUnit::Pixels, raw: value }
    }
}

impl FromSpecImpl<Vec2> for Size2 {
    open spec fn obeys_from_spec() -> bool {
        true
    }

    open spec fn from_spec(value: Vec2) -> Size2 {
        Size2 { x: SizeUnit::Pixels, y: SizeUnit::Pixels, raw: value }
    }
}

/// A percentage of a whole multiple of a hundred millionths resolves to the exact
/// share of the parent: `percent` of `parent` is `percent · parent / 100`
/// whenever that product is a whole number of millionths and fits.
pub proof fn lemma_percent_exact(percent: Fixed, parent: Fixed)
    requires
        percent@ % 100 == 0,
        percent@ >= 0,
        parent@ >= 0,
        (percent@ / 100) * parent@ % 1_000_000 == 0,
        (percent@ / 100) * parent@ / 1_000_000 <= crate::fixed::RAW_MAX,
    ensures
        SizeUnit::Percent.as_pixels(percent.over(hundred()), parent, Fixed::zero(), Fixed::zero())@
            == percent@ * parent@ / 100_000_000,
{
    let f = percent.over(hundred());
    let q = percent@ / 100;
    assert(percent@ == q * 100);
    assert(percent@ * 1_000_000 == q * 100_000_000) by (nonlinear_arith)
        requires
            percent@ == q * 100,
    ;
    assert((q * 100_000_000) / 100_000_000 == q) by (nonlinear_arith);
    assert(f@ == q);
    assert(q >= 0) by (nonlinear_arith)
        requires
            percent@ >= 0,
            q == percent@ / 100,
    ;
    assert(q * parent@ >= 0) by (nonlinear_arith)
        requires
            q >= 0,
            parent@ >= 0,
    ;
    assert(percent@ * parent@ == (q * parent@) * 100) by (nonlinear_arith)
        requires
            percent@ == q * 100,
    ;
    let m = q * parent@;
    assert((m * 100) / 100_000_000 == m / 1_000_000) by (nonlinear_arith)
        requires
            m >= 0,
    ;
}

} // verus!
