//! The conversion traits.

use vstd::prelude::*;

verus! {

/// A value that can be made from a `T`.
pub trait DslFrom<T>: Sized {
    /// Whether `value` has a counterpart in `Self`.
    spec fn dfrom_ok(value: T) -> bool;

    /// The counterpart of `value`.
    spec fn spec_dfrom(value: T) -> Self;

    /// The counterpart of `value`.
    fn dfrom(value: T) -> (r: Self)
        requires
            Self::dfrom_ok(value),
        ensures
            r == Self::spec_dfrom(value),
    ;
}

/// A value that can be turned into a `T`.
pub trait DslInto<T>: Sized {
    /// Whether the value has a counterpart in `T`.
    spec fn dinto_ok(self) -> bool;

    /// The counterpart of the value.
    spec fn spec_dinto(self) -> T;

    /// The counterpart of the value.
    fn dinto(self) -> (r: T)
        requires
            self.dinto_ok(),
        ensures
            r == self.spec_dinto(),
    ;
}

impl<T, U> DslInto<U> for T where U: DslFrom<T> {
    open spec fn dinto_ok(self) -> bool {
        U::dfrom_ok(self)
    }

    open spec fn spec_dinto(self) -> U {
        U::spec_dfrom(self)
    }

    fn dinto(self) -> (r: U) {
        U::dfrom(self)
    }
}

/// A value that a field of type `B` accepts. The number `N` only keeps apart
/// the ways in which one type can be accepted.
pub trait DslConvert<B, const N: u8>: Sized {
    /// Whether the value has a counterpart in `B`.
    spec fn parse_ok(self) -> bool;

    /// The counterpart of the value.
    spec fn spec_parse(self) -> B;

    /// The counterpart of the value.
    fn parse(self) -> (r: B)
        requires
            self.parse_ok(),
        ensures
            r == self.spec_parse(),
    ;
}

impl<T, U> DslConvert<U, 0> for T where T: DslInto<U> {
    open spec fn parse_ok(self) -> bool {
        self.dinto_ok()
    }

    open spec fn spec_parse(self) -> U {
        self.spec_dinto()
    }

    fn parse(self) -> (r: U) {
        self.dinto()
    }
}

/// Turns `item` into the value that a field of type `B` accepts for it.
pub fn parse<A, B, const N: u8>(item: A) -> (r: B) where A: DslConvert<B, N>
    requires
        item.parse_ok(),
    ensures
        r == item.spec_parse(),
{
    item.parse()
}

} // verus!
