//! An option of the library's own, and the assets a description may name.

use vstd::prelude::*;
use crate::dsl::convert::DslConvert;

verus! {

/// An optional value.
///
/// Foreign types cannot be given a conversion into a standard option, so the
/// descriptions use this one: any type that implements [`DslFromOptionEx`]
/// for `T` accepts a plain `T` where an `OptionEx` of it is expected.
#[derive(Debug, Clone, Copy, PartialEq, Eq)]
pub enum OptionEx<T> {
    /// A value.
    Given(T),
    /// No value.
    Absent,
}

impl<T> OptionEx<T> {
    /// The value held. There must be one.
    pub fn expect(self, s: &str) -> (r: T)
        requires
            self is Given,
        ensures
            self == OptionEx::Given(r),
    {
        match self {
            OptionEx::Given(v) => v,
            OptionEx::Absent => vstd::pervasive::unreached(),
        }
    }

    /// The value held, or `or` where there is none.
    pub fn unwrap_or(self, or: T) -> (r: T)
        ensures
            r == match self {
                OptionEx::Given(v) => v,
                OptionEx::Absent => or,
            },
    {
        match self {
            OptionEx::Given(v) => v,
            OptionEx::Absent => or,
        }
    }

    /// The value held, or what `or` returns where there is none. `or` is
    /// called only then.
    pub fn unwrap_or_else<F: FnOnce() -> T>(self, or: F) -> (r: T)
        requires
            self is Absent ==> or.requires(()),
        ensures
            match self {
                OptionEx::Given(v) => r == v,
                OptionEx::Absent => or.ensures((), r),
            },
    {
        match self {
            OptionEx::Given(v) => v,
            OptionEx::Absent => or(),
        }
    }

    /// The same as a standard option.
    pub fn into_option(self) -> (r: Option<T>)
        ensures
            r == match self {
                OptionEx::Given(v) => Some(v),
                OptionEx::Absent => None,
            },
    {
        match self {
            OptionEx::Given(x) => Some(x),
            OptionEx::Absent => None,
        }
    }
}

impl<T> Default for OptionEx<T> {
    fn default() -> (r: OptionEx<T>)
        ensures
            r is Absent,
    {
        OptionEx::Absent
    }
}

/// A value that can be made from a `T` where an [`OptionEx`] of it is
/// expected.
pub trait DslFromOptionEx<T>: Sized {
    /// The counterpart of `value`.
    spec fn spec_dfrom_option(value: T) -> Self;

    /// The counterpart of `value`.
    fn dfrom_option(value: T) -> (r: Self)
        ensures
            r == Self::spec_dfrom_option(value),
    ;
}

impl<T, U> DslConvert<OptionEx<U>, 5> for T where U: DslFromOptionEx<T> {
    open spec fn parse_ok(self) -> bool {
        true
    }

    open spec fn spec_parse(self) -> OptionEx<U> {
        OptionEx::Given(U::spec_dfrom_option(self))
    }

    fn parse(self) -> (r: OptionEx<U>) {
        OptionEx::Given(U::dfrom_option(self))
    }
}

/// An asset as a description may name it: not at all, by value, by a handle
/// `H` that the host gave out, or by its path.
#[derive(Debug, Clone, PartialEq)]
pub enum IntoAsset<T, H> {
    /// No asset.
    Absent,
    /// The asset itself.
    Raw(T),
    /// A handle to an asset that the host holds.
    Handle(H),
    /// The path to load the asset from.
    Path(String),
}

impl<T, H> IntoAsset<T, H> {
    /// Whether an asset is named.
    pub fn is_some(&self) -> (r: bool)
        ensures
            r == !(self is Absent),
    {
        !matches!(self, Self::Absent)
    }

    /// Whether no asset is named.
    pub fn is_none(&self) -> (r: bool)
        ensures
            r == (self is Absent),
    {
        matches!(self, Self::Absent)
    }
}

/// What the host has to do to get the handle of an asset.
#[derive(Debug, Clone, PartialEq)]
pub enum AssetSource<T, H> {
    /// Hand out the default handle.
    Default,
    /// Store the asset and hand out its handle.
    Add(T),
    /// Hand out this handle.
    Handle(H),
    /// Load the asset from this path and hand out its handle.
    Load(String),
}

impl<T, H> IntoAsset<T, H> {
    /// How to get the handle of the asset, if one is named: an asset given by
    /// value is stored, a handle is passed on, a path is loaded.
    pub fn try_load(self) -> (r: Option<AssetSource<T, H>>)
        ensures
            r == match self {
                IntoAsset::Absent => None,
                IntoAsset::Raw(val) => Some(AssetSource::Add(val)),
                IntoAsset::Handle(handle) => Some(AssetSource::Handle(handle)),
                IntoAsset::Path(path) => Some(AssetSource::Load(path)),
            },
    {
        match self {
            IntoAsset::Absent => None,
            IntoAsset::Raw(val) => Some(AssetSource::Add(val)),
            IntoAsset::Handle(handle) => Some(AssetSource::Handle(handle)),
            IntoAsset::Path(path) => Some(AssetSource::Load(path)),
        }
    }

    /// How to get the handle of the asset, with the default handle for no
    /// asset.
    pub fn load_or_default(self) -> (r: AssetSource<T, H>)
        ensures
            r == match self {
                IntoAsset::Absent => AssetSource::Default,
                IntoAsset::Raw(val) => AssetSource::Add(val),
                IntoAsset::Handle(handle) => AssetSource::Handle(handle),
                IntoAsset::Path(path) => AssetSource::Load(path),
            },
    {
        match self {
            IntoAsset::Absent => AssetSource::Default,
            IntoAsset::Raw(val) => AssetSource::Add(val),
            IntoAsset::Handle(handle) => AssetSource::Handle(handle),
            IntoAsset::Path(path) => AssetSource::Load(path),
        }
    }

    /// How to get the handle of an asset that has to be named.
    pub fn load_or_panic(self, err_msg: &str) -> (r: AssetSource<T, H>)
        requires
            !(self is Absent),
        ensures
            r == match self {
                IntoAsset::Raw(val) => AssetSource::Add(val),
                IntoAsset::Handle(handle) => AssetSource::Handle(handle),
                IntoAsset::Path(path) => AssetSource::Load(path),
                IntoAsset::Absent => AssetSource::Default,
            },
    {
        match self {
            IntoAsset::Absent => vstd::pervasive::unreached(),
            IntoAsset::Raw(val) => AssetSource::Add(val),
            IntoAsset::Handle(handle) => AssetSource::Handle(handle),
            IntoAsset::Path(path) => AssetSource::Load(path),
        }
    }
}

impl<T, H> Default for IntoAsset<T, H> {
    fn default() -> (r: IntoAsset<T, H>)
        ensures
            r is Absent,
    {
        IntoAsset::Absent
    }
}

} // verus!
