//! Values as descriptions write them: named positions, one number for two,
//! sizes by unit.

use vstd::prelude::*;
use vstd::std_specs::convert::FromSpecImpl;
use crate::fixed::Fixed;
use crate::vec2::Vec2;
use crate::rect::Anchor;
use crate::scaling::{FontSize, Size, Size2, SizeUnit, hundred};
use crate::layout::{Alignment, LayoutDir};
use crate::dsl::convert::{DslConvert, DslFrom, DslInto};

verus! {

/// How a node keeps the proportions of what it shows.
#[derive(Debug, Clone, Copy, PartialEq, Eq, Structural)]
pub enum Aspect {
    /// Not at all.
    Free,
    /// The proportions of the source are kept.
    Preserve,
    /// A ratio of width to height is given.
    Owned(Fixed),
}

impl Default for Aspect {
    fn default() -> (r: Aspect)
        ensures
            r == Aspect::Free,
    {
        Aspect::Free
    }
}

impl DslFrom<i32> for Aspect {
    open spec fn dfrom_ok(value: i32) -> bool {
        true
    }

    open spec fn spec_dfrom(value: i32) -> Aspect {
        Aspect::Owned(Fixed::from_int(value))
    }

    fn dfrom(value: i32) -> (r: Aspect) {
        Aspect::Owned(Fixed::from_int(value))
    }
}

impl DslFrom<Fixed> for Aspect {
    open spec fn dfrom_ok(value: Fixed) -> bool {
        true
    }

    open spec fn spec_dfrom(value: Fixed) -> Aspect {
        Aspect::Owned(value)
    }

    fn dfrom(value: Fixed) -> (r: Aspect) {
        Aspect::Owned(value)
    }
}

/// One set of names for anchors, alignments and directions.
///
/// `Left` also stands for `CenterLeft`, and likewise for the other sides.
#[derive(Debug, Clone, Copy, PartialEq, Eq, Structural)]
pub enum SpacialConst {
    TopLeft,
    TopCenter,
    TopRight,
    CenterLeft,
    Center,
    CenterRight,
    BottomLeft,
    BottomCenter,
    BottomRight,
    Top,
    Bottom,
    Left,
    Right,
    LeftToRight,
    RightToLeft,
    TopToBottom,
    BottomToTop,
}

impl SpacialConst {
    /// Whether the name is that of an anchor.
    pub open spec fn spec_is_anchor(self) -> bool {
        !(self is LeftToRight || self is RightToLeft || self is TopToBottom || self is BottomToTop)
    }

    /// Whether the name is that of an anchor.
    #[verifier::when_used_as_spec(spec_is_anchor)]
    pub fn is_anchor(self) -> (r: bool)
        ensures
            r == self.spec_is_anchor(),
    {
        !matches!(
            self,
            SpacialConst::LeftToRight | SpacialConst::RightToLeft | SpacialConst::TopToBottom
                | SpacialConst::BottomToTop
        )
    }

    /// Whether the name is that of an alignment.
    pub open spec fn spec_is_alignment(self) -> bool {
        self is Center || self is Top || self is Bottom || self is Left || self is Right
    }

    /// Whether the name is that of an alignment.
    #[verifier::when_used_as_spec(spec_is_alignment)]
    pub fn is_alignment(self) -> (r: bool)
        ensures
            r == self.spec_is_alignment(),
    {
        matches!(
            self,
            SpacialConst::Center | SpacialConst::Top | SpacialConst::Bottom | SpacialConst::Left
                | SpacialConst::Right
        )
    }

    /// Whether the name is that of a direction.
    pub open spec fn spec_is_direction(self) -> bool {
        self is LeftToRight || self is RightToLeft || self is TopToBottom || self is BottomToTop
    }

    /// Whether the name is that of a direction.
    #[verifier::when_used_as_spec(spec_is_direction)]
    pub fn is_direction(self) -> (r: bool)
        ensures
            r == self.spec_is_direction(),
    {
        matches!(
            self,
            SpacialConst::LeftToRight | SpacialConst::RightToLeft | SpacialConst::TopToBottom
                | SpacialConst::BottomToTop
        )
    }

    /// The anchor of this name; the centre for a name that is no anchor.
    pub open spec fn anchor(self) -> Anchor {
        match self {
            SpacialConst::TopLeft => Anchor::preset(-500_000, 500_000),
            SpacialConst::TopCenter => Anchor::preset(0, 500_000),
            SpacialConst::TopRight => Anchor::preset(500_000, 500_000),
            SpacialConst::CenterLeft => Anchor::preset(-500_000, 0),
            SpacialConst::Center => Anchor::preset(0, 0),
            SpacialConst::CenterRight => Anchor::preset(500_000, 0),
            SpacialConst::BottomLeft => Anchor::preset(-500_000, -500_000),
            SpacialConst::BottomCenter => Anchor::preset(0, -500_000),
            SpacialConst::BottomRight => Anchor::preset(500_000, -500_000),
            SpacialConst::Top => Anchor::preset(0, 500_000),
            SpacialConst::Bottom => Anchor::preset(0, -500_000),
            SpacialConst::Left => Anchor::preset(-500_000, 0),
            SpacialConst::Right => Anchor::preset(500_000, 0),
            _ => Anchor::preset(0, 0),
        }
    }

    /// The alignment of this name; the centre for a name that is none.
    pub open spec fn alignment(self) -> Alignment {
        match self {
            SpacialConst::Top => Alignment::Top,
            SpacialConst::Bottom => Alignment::Bottom,
            SpacialConst::Left => Alignment::Left,
            SpacialConst::Right => Alignment::Right,
            _ => Alignment::Center,
        }
    }

    /// The direction of this name; left to right for a name that is none.
    pub open spec fn direction(self) -> LayoutDir {
        match self {
            SpacialConst::RightToLeft => LayoutDir::RightToLeft,
            SpacialConst::TopToBottom => LayoutDir::TopToBottom,
            SpacialConst::BottomToTop => LayoutDir::BottomToTop,
            _ => LayoutDir::LeftToRight,
        }
    }
}

impl DslFrom<SpacialConst> for Anchor {
    open spec fn dfrom_ok(value: SpacialConst) -> bool {
        value.is_anchor()
    }

    open spec fn spec_dfrom(value: SpacialConst) -> Anchor {
        value.anchor()
    }

    fn dfrom(value: SpacialConst) -> (r: Anchor) {
        match value {
            SpacialConst::TopLeft => Anchor::top_left(),
            SpacialConst::TopCenter => Anchor::top_center(),
            SpacialConst::TopRight => Anchor::top_right(),
            SpacialConst::CenterLeft => Anchor::center_left(),
            SpacialConst::Center => Anchor::center(),
            SpacialConst::CenterRight => Anchor::center_right(),
            SpacialConst::BottomLeft => Anchor::bottom_left(),
            SpacialConst::BottomCenter => Anchor::bottom_center(),
            SpacialConst::BottomRight => Anchor::bottom_right(),
            SpacialConst::Top => Anchor::top_center(),
            SpacialConst::Bottom => Anchor::bottom_center(),
            SpacialConst::Left => Anchor::center_left(),
            SpacialConst::Right => Anchor::center_right(),
            _ => vstd::pervasive::unreached(),
        }
    }
}

impl DslFrom<SpacialConst> for Option<Anchor> {
    open spec fn dfrom_ok(value: SpacialConst) -> bool {
        value.is_anchor()
    }

    open spec fn spec_dfrom(value: SpacialConst) -> Option<Anchor> {
        Some(value.anchor())
    }

    fn dfrom(value: SpacialConst) -> (r: Option<Anchor>) {
        Some(<Anchor as DslFrom<SpacialConst>>::dfrom(value))
    }
}

impl DslFrom<SpacialConst> for crate::systems::SpriteAnchor {
    open spec fn dfrom_ok(value: SpacialConst) -> bool {
        value.is_anchor()
    }

    open spec fn spec_dfrom(value: SpacialConst) -> crate::systems::SpriteAnchor {
        crate::systems::spec_copy_anchor(value.anchor())
    }

    fn dfrom(value: SpacialConst) -> (r: crate::systems::SpriteAnchor) {
        crate::systems::copy_anchor(<Anchor as DslFrom<SpacialConst>>::dfrom(value))
    }
}

impl DslFrom<SpacialConst> for Alignment {
    open spec fn dfrom_ok(value: SpacialConst) -> bool {
        value.is_alignment()
    }

    open spec fn spec_dfrom(value: SpacialConst) -> Alignment {
        value.alignment()
    }

    fn dfrom(value: SpacialConst) -> (r: Alignment) {
        match value {
            SpacialConst::Center => Alignment::Center,
            SpacialConst::Top => Alignment::Top,
            SpacialConst::Bottom => Alignment::Bottom,
            SpacialConst::Left => Alignment::Left,
            SpacialConst::Right => Alignment::Right,
            _ => vstd::pervasive::unreached(),
        }
    }
}

impl DslFrom<SpacialConst> for Option<Alignment> {
    open spec fn dfrom_ok(value: SpacialConst) -> bool {
        value.is_alignment()
    }

    open spec fn spec_dfrom(value: SpacialConst) -> Option<Alignment> {
        Some(value.alignment())
    }

    fn dfrom(value: SpacialConst) -> (r: Option<Alignment>) {
        Some(<Alignment as DslFrom<SpacialConst>>::dfrom(value))
    }
}

impl DslFrom<SpacialConst> for LayoutDir {
    open spec fn dfrom_ok(value: SpacialConst) -> bool {
        value.is_direction()
    }

    open spec fn spec_dfrom(value: SpacialConst) -> LayoutDir {
        value.direction()
    }

    fn dfrom(value: SpacialConst) -> (r: LayoutDir) {
        match value {
            SpacialConst::LeftToRight => LayoutDir::LeftToRight,
            SpacialConst::RightToLeft => LayoutDir::RightToLeft,
            SpacialConst::TopToBottom => LayoutDir::TopToBottom,
            SpacialConst::BottomToTop => LayoutDir::BottomToTop,
            _ => vstd::pervasive::unreached(),
        }
    }
}

impl DslFrom<SpacialConst> for Option<LayoutDir> {
    open spec fn dfrom_ok(value: SpacialConst) -> bool {
        value.is_direction()
    }

    open spec fn spec_dfrom(value: SpacialConst) -> Option<LayoutDir> {
        Some(value.direction())
    }

    fn dfrom(value: SpacialConst) -> (r: Option<LayoutDir>) {
        Some(<LayoutDir as DslFrom<SpacialConst>>::dfrom(value))
    }
}

/// The factor that turns degrees into radians, in billionths.
pub const RADIANS_PER_DEGREE_E9: i128 = 17_453_293;

/// An angle given in degrees, in radians: the degrees times π/180, with the
/// factor taken to nine decimal places and the result rounded toward zero.
pub open spec fn spec_degrees(f: Fixed) -> Fixed {
    Fixed { raw: crate::fixed::trunc_div(f@ * RADIANS_PER_DEGREE_E9 as int, 1_000_000_000) as i64 }
}

/// An angle given in degrees, in radians.
#[verifier::when_used_as_spec(spec_degrees)]
pub fn degrees(f: Fixed) -> (r: Fixed)
    ensures
        r == spec_degrees(f),
{
    let wide: i128 = f.raw as i128;
    let scaled: i128 = wide * RADIANS_PER_DEGREE_E9;
    let q: i128 = scaled / 1_000_000_000;
    assert(-0x8000_0000_0000_0000 <= q <= 0x7fff_ffff_ffff_ffff);
    Fixed { raw: q as i64 }
}

/// A size in pixels.
pub fn px(f: Fixed) -> (r: Size)
    ensures
        r == Size::new(SizeUnit::Pixels, f),
{
    Size::new(SizeUnit::Pixels, f)
}

/// A size in multiples of the font size.
pub fn em(f: Fixed) -> (r: Size)
    ensures
        r == Size::new(SizeUnit::Em, f),
{
    Size::new(SizeUnit::Em, f)
}

/// A size in multiples of the root font size.
pub fn rem(f: Fixed) -> (r: Size)
    ensures
        r == Size::new(SizeUnit::Rem, f),
{
    Size::new(SizeUnit::Rem, f)
}

/// A size in percent of the parent's size: write `40`, not `0.4`.
pub fn percent(f: Fixed) -> (r: Size)
    ensures
        r == Size::new(SizeUnit::Percent, f.over(hundred())),
{
    Size::new(SizeUnit::Percent, f.over(hundred()))
}

impl DslFrom<Size> for FontSize {
    open spec fn dfrom_ok(value: Size) -> bool {
        value.unit is Pixels || value.unit is Em || value.unit is Rem
    }

    open spec fn spec_dfrom(value: Size) -> FontSize {
        match value.unit {
            SizeUnit::Em => FontSize::Ems(value.value),
            SizeUnit::Rem => FontSize::Rems(value.value),
            _ => FontSize::Pixels(value.value),
        }
    }

    fn dfrom(value: Size) -> (r: FontSize) {
        match value.unit {
            SizeUnit::Pixels => FontSize::Pixels(value.value),
            SizeUnit::Em => FontSize::Ems(value.value),
            SizeUnit::Rem => FontSize::Rems(value.value),
            _ => vstd::pervasive::unreached(),
        }
    }
}

/// A pair that may be written as one number, which then counts for both.
#[derive(Debug, Clone, Copy, PartialEq, Eq)]
pub struct OneOrTwo<T>(pub T);

impl<T: Default> Default for OneOrTwo<T> {
    fn default() -> (r: OneOrTwo<T>) {
        OneOrTwo(T::default())
    }
}

impl<A, T> DslConvert<OneOrTwo<T>, 2> for A where A: DslInto<T> {
    open spec fn parse_ok(self) -> bool {
        self.dinto_ok()
    }

    open spec fn spec_parse(self) -> OneOrTwo<T> {
        OneOrTwo(self.spec_dinto())
    }

    fn parse(self) -> (r: OneOrTwo<T>) {
        OneOrTwo(self.dinto())
    }
}

impl DslFrom<i32> for OneOrTwo<Vec2> {
    open spec fn dfrom_ok(value: i32) -> bool {
        true
    }

    open spec fn spec_dfrom(value: i32) -> OneOrTwo<Vec2> {
        OneOrTwo(Vec2::from_ints(value, value))
    }

    fn dfrom(value: i32) -> (r: OneOrTwo<Vec2>) {
        OneOrTwo(Vec2::from_ints(value, value))
    }
}

impl DslFrom<Fixed> for OneOrTwo<Vec2> {
    open spec fn dfrom_ok(value: Fixed) -> bool {
        true
    }

    open spec fn spec_dfrom(value: Fixed) -> OneOrTwo<Vec2> {
        OneOrTwo(Vec2::splat(value))
    }

    fn dfrom(value: Fixed) -> (r: OneOrTwo<Vec2>) {
        OneOrTwo(Vec2::splat(value))
    }
}

impl DslFrom<i32> for OneOrTwo<Size2> {
    open spec fn dfrom_ok(value: i32) -> bool {
        true
    }

    open spec fn spec_dfrom(value: i32) -> OneOrTwo<Size2> {
        OneOrTwo(Size2::of(SizeUnit::Pixels, SizeUnit::Pixels, Vec2::from_ints(value, value)))
    }

    fn dfrom(value: i32) -> (r: OneOrTwo<Size2>) {
        OneOrTwo(Size2::pixels(Fixed::from_int(value), Fixed::from_int(value)))
    }
}

impl DslFrom<Fixed> for OneOrTwo<Size2> {
    open spec fn dfrom_ok(value: Fixed) -> bool {
        true
    }

    open spec fn spec_dfrom(value: Fixed) -> OneOrTwo<Size2> {
        OneOrTwo(Size2::of(SizeUnit::Pixels, SizeUnit::Pixels, Vec2::splat(value)))
    }

    fn dfrom(value: Fixed) -> (r: OneOrTwo<Size2>) {
        OneOrTwo(Size2::pixels(value, value))
    }
}

impl DslFrom<Size> for OneOrTwo<Size2> {
    open spec fn dfrom_ok(value: Size) -> bool {
        true
    }

    open spec fn spec_dfrom(value: Size) -> OneOrTwo<Size2> {
        OneOrTwo(Size2::spec_new(value, value))
    }

    fn dfrom(value: Size) -> (r: OneOrTwo<Size2>) {
        OneOrTwo(Size2::new(value, value))
    }
}

/// A scale, which is one unless said otherwise.
#[derive(Debug, Clone, Copy, PartialEq, Eq, Structural)]
pub struct Scale(pub Vec2);

impl Default for Scale {
    fn default() -> (r: Scale)
        ensures
            r == Scale(Vec2::one()),
    {
        Scale(Vec2::one())
    }
}

impl<A> DslConvert<Scale, 3> for A where A: DslInto<Vec2> {
    open spec fn parse_ok(self) -> bool {
        self.dinto_ok()
    }

    open spec fn spec_parse(self) -> Scale {
        Scale(self.spec_dinto())
    }

    fn parse(self) -> (r: Scale) {
        Scale(self.dinto())
    }
}

impl DslFrom<i32> for Scale {
    open spec fn dfrom_ok(value: i32) -> bool {
        true
    }

    open spec fn spec_dfrom(value: i32) -> Scale {
        Scale(Vec2::from_ints(value, value))
    }

    fn dfrom(value: i32) -> (r: Scale) {
        Scale(Vec2::from_ints(value, value))
    }
}

impl DslFrom<Fixed> for Scale {
    open spec fn dfrom_ok(value: Fixed) -> bool {
        true
    }

    open spec fn spec_dfrom(value: Fixed) -> Scale {
        Scale(Vec2::splat(value))
    }

    fn dfrom(value: Fixed) -> (r: Scale) {
        Scale(Vec2::splat(value))
    }
}

/// The anchor on the parent, which is inherited unless said otherwise.
#[derive(Debug, Clone, Copy, PartialEq, Eq, Structural)]
pub struct ParentAnchor(pub Anchor);

impl Default for ParentAnchor {
    fn default() -> (r: ParentAnchor)
        ensures
            r == ParentAnchor(Anchor::Inherit),
    {
        ParentAnchor(Anchor::Inherit)
    }
}

impl From<Anchor> for ParentAnchor {
    fn from(value: Anchor) -> (r: ParentAnchor) {
        ParentAnchor(value)
    }
}

impl FromSpecImpl<Anchor> for ParentAnchor {
    open spec fn obeys_from_spec() -> bool {
        true
    }

    open spec fn from_spec(value: Anchor) -> ParentAnchor {
        ParentAnchor(value)
    }
}

impl<A> DslConvert<ParentAnchor, 4> for A where A: DslInto<Anchor> {
    open spec fn parse_ok(self) -> bool {
        self.dinto_ok()
    }

    open spec fn spec_parse(self) -> ParentAnchor {
        ParentAnchor(self.spec_dinto())
    }

    fn parse(self) -> (r: ParentAnchor) {
        ParentAnchor(self.dinto())
    }
}

/// Something that shows text and can be given new text.
pub trait WidgetWrite: Sized {
    /// Whether the widget shows `s` after it was written to.
    spec fn shows(self, s: Seq<char>) -> bool;

    /// Replaces the text shown by `s` and hands the widget back.
    fn write(self, s: String) -> (r: Self)
        ensures
            r.shows(s@),
    ;
}

/// A piece of text shown by a node.
#[derive(Debug, Clone)]
pub struct TextFragment {
    /// The text.
    pub text: String,
}

impl WidgetWrite for TextFragment {
    open spec fn shows(self, s: Seq<char>) -> bool {
        self.text@ == s
    }

    fn write(self, s: String) -> (r: TextFragment) {
        TextFragment { text: s }
    }
}

} // verus!
