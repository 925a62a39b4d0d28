//! Fixed-point scalars.
//!
//! Every length, factor, angle and timestamp of the engine is a [`Fixed`]: a
//! signed decimal number with six fractional digits, held as an `i64` count
//! of millionths. Arithmetic never panics and never wraps: a result that
//! leaves the representable range sticks to the nearest bound, and a quotient
//! by zero sticks to the bound on the dividend's side.

use vstd::prelude::*;

verus! {

/// Raw units in one whole.
pub const SCALE: i64 = 1_000_000;

/// Smallest raw value.
pub const RAW_MIN: i64 = -0x8000_0000_0000_0000;

/// Largest raw value.
pub const RAW_MAX: i64 = 0x7fff_ffff_ffff_ffff;

/// The quotient of `a` by a non-zero `b`, rounded toward zero.
pub open spec fn trunc_div(a: int, b: int) -> int
    recommends
        b != 0,
{
    if a >= 0 {
        a / b
    } else {
        -((-a) / b)
    }
}

/// `v` moved to the nearest representable raw value.
pub open spec fn saturate(v: int) -> int {
    if v < RAW_MIN {
        RAW_MIN as int
    } else if v > RAW_MAX {
        RAW_MAX as int
    } else {
        v
    }
}

/// Whether `v` is representable without saturation.
pub open spec fn in_range(v: int) -> bool {
    RAW_MIN <= v <= RAW_MAX
}

/// The raw sum of two raw values.
pub open spec fn raw_plus(a: int, b: int) -> int {
    saturate(a + b)
}

/// The raw difference of two raw values.
pub open spec fn raw_minus(a: int, b: int) -> int {
    saturate(a - b)
}

/// The raw product of two raw values: the exact product, scaled back and
/// rounded toward zero.
pub open spec fn raw_times(a: int, b: int) -> int {
    saturate(trunc_div(a * b, SCALE as int))
}

/// The raw quotient of two raw values, rounded toward zero. A quotient by zero
/// is the bound on the dividend's side, and zero for a zero dividend.
pub open spec fn raw_over(a: int, b: int) -> int {
    if b == 0 {
        if a > 0 {
            RAW_MAX as int
        } else if a < 0 {
            RAW_MIN as int
        } else {
            0
        }
    } else {
        saturate(trunc_div(a * SCALE, b))
    }
}

/// A signed decimal number with six fractional digits.
#[derive(Clone, Copy, Debug, PartialEq, Eq, Structural, Hash)]
pub struct Fixed {
    /// The number in millionths.
    pub raw: i64,
}

impl View for Fixed {
    type V = int;

    /// The number in millionths, as a mathematical integer.
    open spec fn view(&self) -> int {
        self.raw as int
    }
}

fn clamp_wide(v: i128) -> (r: i64)
    ensures
        r as int == saturate(v as int),
{
    if v < RAW_MIN as i128 {
        RAW_MIN
    } else if v > RAW_MAX as i128 {
        RAW_MAX
    } else {
        v as i64
    }
}

fn wide_product(a: i64, b: i64) -> (r: i128)
    ensures
        r as int == a as int * b as int,
        -0x4000_0000_0000_0000_0000_0000_0000_0000 <= r
            <= 0x4000_0000_0000_0000_0000_0000_0000_0000,
{
    let x: i128 = a as i128;
    let y: i128 = b as i128;
    assert(-0x4000_0000_0000_0000_0000_0000_0000_0000 <= x * y
        <= 0x4000_0000_0000_0000_0000_0000_0000_0000) by (nonlinear_arith)
        requires
            -0x8000_0000_0000_0000 <= x <= 0x7fff_ffff_ffff_ffff,
            -0x8000_0000_0000_0000 <= y <= 0x7fff_ffff_ffff_ffff,
    ;
    x * y
}

fn wide_quotient(a: i128, b: i128) -> (r: i128)
    requires
        b != 0,
        -0x4000_0000_0000_0000_0000_0000_0000_0000 <= a
            <= 0x4000_0000_0000_0000_0000_0000_0000_0000,
    ensures
        r as int == trunc_div(a as int, b as int),
{
    proof {
        lemma_quotient_bound(if a >= 0 { a as int } else { -(a as int) }, b as int);
    }
    a / b
}

/// A quotient of a non-negative number is no larger in magnitude than the
/// number itself.
proof fn lemma_quotient_bound(a: int, b: int)
    requires
        a >= 0,
        b != 0,
    ensures
        -a <= a / b <= a,
{
    if b > 0 {
        vstd::arithmetic::div_mod::lemma_div_pos_is_pos(a, b);
        vstd::arithmetic::div_mod::lemma_div_is_ordered_by_denominator(a, 1, b);
        vstd::arithmetic::div_mod::lemma_div_basics(a);
    } else {
        vstd::arithmetic::div_mod::lemma_fundamental_div_mod(a, b);
        let q = a / b;
        let r = a % b;
        assert(0 <= r < -b) by {
            vstd::arithmetic::div_mod::lemma_mod_pos_bound(a, -b);
        }
        assert(-a <= q <= a) by (nonlinear_arith)
            requires
                a == b * q + r,
                0 <= r < -b,
                b < 0,
                a >= 0,
        ;
    }
}

impl Fixed {
    /// The number whose raw value is the bit pattern given.
    pub open spec fn spec_from_raw(raw: i64) -> Fixed {
        Fixed { raw }
    }

    /// The number with the given count of millionths.
    #[verifier::when_used_as_spec(spec_from_raw)]
    pub fn from_raw(raw: i64) -> (r: Fixed)
        ensures
            r == Fixed::spec_from_raw(raw),
    {
        Fixed { raw }
    }

    /// The whole number `n`.
    pub open spec fn spec_from_int(n: i32) -> Fixed {
        Fixed { raw: (n as int * SCALE as int) as i64 }
    }

    /// The whole number `n`.
    #[verifier::when_used_as_spec(spec_from_int)]
    pub fn from_int(n: i32) -> (r: Fixed)
        ensures
            r == Fixed::spec_from_int(n),
            r@ == n as int * 1_000_000,
    {
        let wide: i64 = n as i64;
        Fixed { raw: wide * SCALE }
    }

    /// The whole number `n`.
    pub open spec fn spec_from_u32(n: u32) -> Fixed {
        Fixed { raw: (n as int * SCALE as int) as i64 }
    }

    /// The whole number `n`.
    #[verifier::when_used_as_spec(spec_from_u32)]
    pub fn from_u32(n: u32) -> (r: Fixed)
        ensures
            r == Fixed::spec_from_u32(n),
            r@ == n as int * 1_000_000,
    {
        let wide: i64 = n as i64;
        Fixed { raw: wide * SCALE }
    }

    /// Zero.
    pub open spec fn spec_zero() -> Fixed {
        Fixed { raw: 0 }
    }

    /// Zero.
    #[verifier::when_used_as_spec(spec_zero)]
    pub fn zero() -> (r: Fixed)
        ensures
            r == Fixed::spec_zero(),
    {
        Fixed { raw: 0 }
    }

    /// One.
    pub open spec fn spec_one() -> Fixed {
        Fixed { raw: 1_000_000 }
    }

    /// One.
    #[verifier::when_used_as_spec(spec_one)]
    pub fn one() -> (r: Fixed)
        ensures
            r == Fixed::spec_one(),
    {
        Fixed { raw: SCALE }
    }

    /// The saturating sum.
    pub open spec fn spec_plus(self, other: Fixed) -> Fixed {
        Fixed { raw: raw_plus(self@, other@) as i64 }
    }

    /// The saturating sum.
    #[verifier::when_used_as_spec(spec_plus)]
    pub fn plus(self, other: Fixed) -> (r: Fixed)
        ensures
            r == self.spec_plus(other),
            r@ == raw_plus(self@, other@),
    {
        let wide: i128 = self.raw as i128 + other.raw as i128;
        Fixed { raw: clamp_wide(wide) }
    }

    /// The saturating difference.
    pub open spec fn spec_minus(self, other: Fixed) -> Fixed {
        Fixed { raw: raw_minus(self@, other@) as i64 }
    }

    /// The saturating difference.
    #[verifier::when_used_as_spec(spec_minus)]
    pub fn minus(self, other: Fixed) -> (r: Fixed)
        ensures
            r == self.spec_minus(other),
            r@ == raw_minus(self@, other@),
    {
        let wide: i128 = self.raw as i128 - other.raw as i128;
        Fixed { raw: clamp_wide(wide) }
    }

    /// The number negated, saturating at the upper bound.
    pub open spec fn spec_negated(self) -> Fixed {
        Fixed { raw: saturate(-self@) as i64 }
    }

    /// The number negated, saturating at the upper bound.
    #[verifier::when_used_as_spec(spec_negated)]
    pub fn negated(self) -> (r: Fixed)
        ensures
            r == self.spec_negated(),
            r@ == saturate(-self@),
    {
        let wide: i128 = -(self.raw as i128);
        Fixed { raw: clamp_wide(wide) }
    }

    /// The saturating product, rounded toward zero.
    pub open spec fn spec_times(self, other: Fixed) -> Fixed {
        Fixed { raw: raw_times(self@, other@) as i64 }
    }

    /// The saturating product, rounded toward zero.
    #[verifier::when_used_as_spec(spec_times)]
    pub fn times(self, other: Fixed) -> (r: Fixed)
        ensures
            r == self.spec_times(other),
            r@ == raw_times(self@, other@),
    {
        let product: i128 = wide_product(self.raw, other.raw);
        let scaled: i128 = wide_quotient(product, SCALE as i128);
        Fixed { raw: clamp_wide(scaled) }
    }

    /// The saturating quotient, rounded toward zero.
    pub open spec fn spec_over(self, other: Fixed) -> Fixed {
        Fixed { raw: raw_over(self@, other@) as i64 }
    }

    /// The saturating quotient, rounded toward zero; see [`raw_over`] for a
    /// zero divisor.
    #[verifier::when_used_as_spec(spec_over)]
    pub fn over(self, other: Fixed) -> (r: Fixed)
        ensures
            r == self.spec_over(other),
            r@ == raw_over(self@, other@),
    {
        if other.raw == 0 {
            if self.raw > 0 {
                Fixed { raw: RAW_MAX }
            } else if self.raw < 0 {
                Fixed { raw: RAW_MIN }
            } else {
                Fixed { raw: 0 }
            }
        } else {
            let product: i128 = wide_product(self.raw, SCALE);
            let quotient: i128 = wide_quotient(product, other.raw as i128);
            Fixed { raw: clamp_wide(quotient) }
        }
    }

    /// Whether the number is below `other`.
    pub open spec fn spec_below(self, other: Fixed) -> bool {
        self@ < other@
    }

    /// Whether the number is below `other`.
    #[verifier::when_used_as_spec(spec_below)]
    pub fn below(self, other: Fixed) -> (r: bool)
        ensures
            r == self.spec_below(other),
    {
        self.raw < other.raw
    }

    /// Whether the number is at most `other`.
    pub open spec fn spec_at_most(self, other: Fixed) -> bool {
        self@ <= other@
    }

    /// Whether the number is at most `other`.
    #[verifier::when_used_as_spec(spec_at_most)]
    pub fn at_most(self, other: Fixed) -> (r: bool)
        ensures
            r == self.spec_at_most(other),
    {
        self.raw <= other.raw
    }

    /// The larger of two numbers.
    pub open spec fn spec_larger(self, other: Fixed) -> Fixed {
        if self@ >= other@ {
            self
        } else {
            other
        }
    }

    /// The larger of two numbers.
    #[verifier::when_used_as_spec(spec_larger)]
    pub fn larger(self, other: Fixed) -> (r: Fixed)
        ensures
            r == self.spec_larger(other),
    {
        if self.raw >= other.raw {
            self
        } else {
            other
        }
    }

    /// The smaller of two numbers.
    pub open spec fn spec_smaller(self, other: Fixed) -> Fixed {
        if self@ <= other@ {
            self
        } else {
            other
        }
    }

    /// The smaller of two numbers.
    #[verifier::when_used_as_spec(spec_smaller)]
    pub fn smaller(self, other: Fixed) -> (r: Fixed)
        ensures
            r == self.spec_smaller(other),
    {
        if self.raw <= other.raw {
            self
        } else {
            other
        }
    }

    /// The magnitude, saturating at the upper bound.
    pub open spec fn spec_magnitude(self) -> Fixed {
        if self@ < 0 {
            self.spec_negated()
        } else {
            self
        }
    }

    /// The magnitude, saturating at the upper bound.
    #[verifier::when_used_as_spec(spec_magnitude)]
    pub fn magnitude(self) -> (r: Fixed)
        ensures
            r == self.spec_magnitude(),
            r@ >= 0,
    {
        if self.raw < 0 {
            self.negated()
        } else {
            self
        }
    }
}

impl Default for Fixed {
    fn default() -> (r: Fixed)
        ensures
            r == Fixed::spec_zero(),
    {
        Fixed { raw: 0 }
    }
}

/// Adding zero changes nothing.
pub proof fn lemma_plus_zero(a: Fixed)
    ensures
        a.plus(Fixed::zero()) == a,
        Fixed::zero().plus(a) == a,
{
}

/// Multiplying by one changes nothing.
pub proof fn lemma_times_one(a: Fixed)
    ensures
        a.times(Fixed::one()) == a,
        Fixed::one().times(a) == a,
{
    assert(a@ * 1_000_000 == 1_000_000 * a@);
    if a@ >= 0 {
        assert((a@ * 1_000_000) / 1_000_000 == a@);
    } else {
        assert(((-(a@ * 1_000_000)) / 1_000_000) == -a@);
    }
}

/// Multiplying by zero gives zero.
pub proof fn lemma_times_zero(a: Fixed)
    ensures
        a.times(Fixed::zero()) == Fixed::zero(),
        Fixed::zero().times(a) == Fixed::zero(),
{
    assert(a@ * 0 == 0);
    assert(0 * a@ == 0);
}

/// Rounding toward zero treats a number and its negative alike.
pub proof fn lemma_trunc_div_negated(a: int, b: int)
    requires
        b > 0,
    ensures
        trunc_div(-a, b) == -trunc_div(a, b),
{
    if a == 0 {
        assert(0int / b == 0) by (nonlinear_arith)
            requires
                b > 0,
        ;
    }
}

/// The magnitude of a product scaled back is at most the magnitude of one
/// factor times the magnitude bound of the other, scaled back.
pub proof fn lemma_times_bound(a: Fixed, b: Fixed, k: int, m: int)
    requires
        0 <= k,
        0 <= m,
        -k <= a@ <= k,
        -m <= b@ <= m,
    ensures
        -((k * m) / 1_000_000) <= trunc_div(a@ * b@, 1_000_000) <= (k * m) / 1_000_000,
{
    let x = a@ * b@;
    assert(-(k * m) <= x <= k * m) by (nonlinear_arith)
        requires
            x == a@ * b@,
            0 <= k,
            0 <= m,
            -k <= a@ <= k,
            -m <= b@ <= m,
    ;
    if x >= 0 {
        vstd::arithmetic::div_mod::lemma_div_is_ordered(x, k * m, 1_000_000);
        vstd::arithmetic::div_mod::lemma_div_pos_is_pos(x, 1_000_000);
        vstd::arithmetic::div_mod::lemma_div_pos_is_pos(k * m, 1_000_000);
    } else {
        vstd::arithmetic::div_mod::lemma_div_is_ordered(-x, k * m, 1_000_000);
        vstd::arithmetic::div_mod::lemma_div_pos_is_pos(-x, 1_000_000);
    }
}

/// A product by a negated factor is the negated product, as long as nothing
/// sticks to a bound.
pub proof fn lemma_times_negated(a: Fixed, b: Fixed)
    requires
        b@ > RAW_MIN,
        in_range(trunc_div(a@ * b@, 1_000_000)),
        trunc_div(a@ * b@, 1_000_000) > RAW_MIN,
    ensures
        a.times(b.negated()) == a.times(b).negated(),
{
    assert(a@ * (-b@) == -(a@ * b@)) by (nonlinear_arith);
    lemma_trunc_div_negated(a@ * b@, 1_000_000);
}

} // verus!
