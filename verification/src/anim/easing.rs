//! Easing curves.
//!
//! A curve maps the fraction of time that has passed to the fraction of the
//! way that was covered. Besides the straight line a curve can be given by
//! samples at equal distances, between which it runs straight; this is how a
//! curve computed elsewhere is brought in.

use vstd::prelude::*;
use crate::fixed::{Fixed, SCALE};

verus! {

/// An easing curve.
#[derive(Clone, Debug)]
pub enum Easing {
    /// The curve that covers the way at constant speed.
    Linear,
    /// The curve through the given values at equally spaced times from zero
    /// to one.
    Sampled(Vec<Fixed>),
}

/// An easing curve as a mathematical value.
pub enum EasingModel {
    /// The straight line.
    Linear,
    /// The curve through the given samples.
    Sampled(Seq<Fixed>),
}

impl View for Easing {
    type V = EasingModel;

    open spec fn view(&self) -> EasingModel {
        match self {
            Easing::Linear => EasingModel::Linear,
            Easing::Sampled(s) => EasingModel::Sampled(s@),
        }
    }
}

/// `t` held within zero and one.
pub open spec fn spec_unit_clamp(t: Fixed) -> Fixed {
    if t@ < 0 {
        Fixed::zero()
    } else if t@ > SCALE {
        Fixed::one()
    } else {
        t
    }
}

/// `t` held within zero and one.
#[verifier::when_used_as_spec(spec_unit_clamp)]
pub fn unit_clamp(t: Fixed) -> (r: Fixed)
    ensures
        r == spec_unit_clamp(t),
        0 <= r@ <= SCALE,
{
    if t.raw < 0 {
        Fixed::zero()
    } else if t.raw > SCALE {
        Fixed::one()
    } else {
        t
    }
}

/// The value at `t` of the curve that runs straight between the samples `s`,
/// placed at equal distances from time zero to time one. `t` lies within zero
/// and one and there are at least two samples.
///
/// With `n` gaps between the samples, `t·n` splits into the whole number `i`
/// of gaps passed and the fraction `f` of the gap under way; the value is
/// `s[i] + (s[i+1] − s[i])·f`.
pub open spec fn sampled_value(s: Seq<Fixed>, t: Fixed) -> Fixed
    recommends
        s.len() >= 2,
        0 <= t@ <= SCALE,
{
    let gaps = s.len() - 1;
    let place = t@ * gaps;
    let i = place / (SCALE as int);
    let f = Fixed { raw: (place % (SCALE as int)) as i64 };
    if i >= gaps {
        s[gaps]
    } else {
        s[i].plus(s[i + 1].minus(s[i]).times(f))
    }
}

impl EasingModel {
    /// Whether the curve is usable: a sampled curve has at least two samples,
    /// starts at zero and ends at one.
    pub open spec fn wf(self) -> bool {
        match self {
            EasingModel::Linear => true,
            EasingModel::Sampled(s) => {
                &&& 2 <= s.len()
                &&& s[0] == Fixed::zero()
                &&& s[s.len() - 1] == Fixed::one()
            },
        }
    }

    /// The fraction of the way covered when the fraction `t` of the time has
    /// passed; `t` is first held within zero and one. A curve without samples
    /// is the straight line, and a curve with one sample stays at it.
    pub open spec fn value(self, t: Fixed) -> Fixed {
        let t = spec_unit_clamp(t);
        match self {
            EasingModel::Linear => t,
            EasingModel::Sampled(s) => if s.len() == 0 {
                t
            } else if s.len() == 1 {
                s[0]
            } else {
                sampled_value(s, t)
            },
        }
    }
}

impl Easing {
    /// Whether the curve is usable; see [`EasingModel::wf`].
    pub fn is_wf(&self) -> (r: bool)
        ensures
            r == self@.wf(),
    {
        match self {
            Easing::Linear => true,
            Easing::Sampled(s) => {
                let n = s.len();
                2 <= n && s[0].raw == 0 && s[n - 1].raw == SCALE
            },
        }
    }

    /// The fraction of the way covered when the fraction `t` of the time has
    /// passed.
    pub fn value(&self, t: Fixed) -> (r: Fixed)
        ensures
            r == self@.value(t),
    {
        let t = unit_clamp(t);
        match self {
            Easing::Linear => t,
            Easing::Sampled(s) => {
                if s.len() == 0 {
                    return t;
                }
                if s.len() == 1 {
                    return s[0];
                }
                let gaps: usize = s.len() - 1;
                let wide_t: i128 = t.raw as i128;
                let wide_gaps: i128 = gaps as i128;
                assert(0 <= wide_t * wide_gaps <= 1_000_000 * 0xffff_ffff_ffff_ffff) by (nonlinear_arith)
                    requires
                        0 <= wide_t <= 1_000_000,
                        0 <= wide_gaps <= 0xffff_ffff_ffff_ffff,
                ;
                let place: i128 = wide_t * wide_gaps;
                let i: i128 = place / (SCALE as i128);
                let f: i128 = place % (SCALE as i128);
                if i >= wide_gaps {
                    s[gaps]
                } else {
                    let at: usize = i as usize;
                    let frac = Fixed { raw: f as i64 };
                    s[at].plus(s[at + 1].minus(s[at]).times(frac))
                }
            },
        }
    }
}

/// Every usable curve starts at zero and ends at one.
pub proof fn lemma_curve_ends(e: EasingModel)
    requires
        e.wf(),
    ensures
        e.value(Fixed::zero()) == Fixed::zero(),
        e.value(Fixed::one()) == Fixed::one(),
{
    match e {
        EasingModel::Linear => {},
        EasingModel::Sampled(s) => {
            let gaps = s.len() - 1;
            assert(0 * gaps == 0);
            assert(0int / 1_000_000 == 0);
            assert(0int % 1_000_000 == 0);
            crate::fixed::lemma_times_zero(s[1].minus(s[0]));
            assert((1_000_000 * gaps) / 1_000_000 == gaps) by (nonlinear_arith);
        },
    }
}

} // verus!
