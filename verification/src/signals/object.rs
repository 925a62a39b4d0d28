//! Values of any payload type behind one type.

use vstd::prelude::*;
use crate::fixed::Fixed;
use crate::vec2::Vec2;

verus! {

/// A value whose type is known only at run time.
#[derive(Clone, Copy, Debug, PartialEq, Eq, Structural)]
pub enum Object {
    /// No information beyond the fact of the signal.
    Unit,
    /// A truth value.
    Flag(bool),
    /// A whole number.
    Int(i64),
    /// A fixed-point number.
    Number(Fixed),
    /// A vector.
    Point(Vec2),
}

/// A type whose values can travel as an [`Object`].
pub trait AsObject: Sized {
    /// The value as an object.
    spec fn spec_to_object(self) -> Object;

    /// The value that an object holds, if it is of this type.
    spec fn spec_from_object(obj: Object) -> Option<Self>;

    /// A value comes back out of the object it was put in.
    proof fn round_trip(self)
        ensures
            Self::spec_from_object(self.spec_to_object()) == Some(self),
    ;

    /// The value as an object.
    fn to_object(self) -> (r: Object)
        ensures
            r == self.spec_to_object(),
    ;

    /// The value that an object holds, if it is of this type.
    fn from_object(obj: Object) -> (r: Option<Self>)
        ensures
            r == Self::spec_from_object(obj),
    ;
}

impl Object {
    /// The object that holds `item`.
    pub fn new<T: AsObject>(item: T) -> (r: Object)
        ensures
            r == item.spec_to_object(),
    {
        item.to_object()
    }

    /// The value held, if it is a `T`.
    pub fn get<T: AsObject>(self) -> (r: Option<T>)
        ensures
            r == T::spec_from_object(self),
    {
        T::from_object(self)
    }
}

impl AsObject for Object {
    open spec fn spec_to_object(self) -> Object {
        self
    }

    open spec fn spec_from_object(obj: Object) -> Option<Object> {
        Some(obj)
    }

    proof fn round_trip(self) {
    }

    fn to_object(self) -> (r: Object) {
        self
    }

    fn from_object(obj: Object) -> (r: Option<Object>) {
        Some(obj)
    }
}

impl AsObject for () {
    open spec fn spec_to_object(self) -> Object {
        Object::Unit
    }

    open spec fn spec_from_object(obj: Object) -> Option<()> {
        match obj {
            Object::Unit => Some(()),
            _ => None,
        }
    }

    proof fn round_trip(self) {
    }

    fn to_object(self) -> (r: Object) {
        Object::Unit
    }

    fn from_object(obj: Object) -> (r: Option<()>) {
        match obj {
            Object::Unit => Some(()),
            _ => None,
        }
    }
}

impl AsObject for bool {
    open spec fn spec_to_object(self) -> Object {
        Object::Flag(self)
    }

    open spec fn spec_from_object(obj: Object) -> Option<bool> {
        match obj {
            Object::Flag(b) => Some(b),
            _ => None,
        }
    }

    proof fn round_trip(self) {
    }

    fn to_object(self) -> (r: Object) {
        Object::Flag(self)
    }

    fn from_object(obj: Object) -> (r: Option<bool>) {
        match obj {
            Object::Flag(b) => Some(b),
            _ => None,
        }
    }
}

impl AsObject for i64 {
    open spec fn spec_to_object(self) -> Object {
        Object::Int(self)
    }

    open spec fn spec_from_object(obj: Object) -> Option<i64> {
        match obj {
            Object::Int(n) => Some(n),
            _ => None,
        }
    }

    proof fn round_trip(self) {
    }

    fn to_object(self) -> (r: Object) {
        Object::Int(self)
    }

    fn from_object(obj: Object) -> (r: Option<i64>) {
        match obj {
            Object::Int(n) => Some(n),
            _ => None,
        }
    }
}

impl AsObject for Fixed {
    open spec fn spec_to_object(self) -> Object {
        Object::Number(self)
    }

    open spec fn spec_from_object(obj: Object) -> Option<Fixed> {
        match obj {
            Object::Number(n) => Some(n),
            _ => None,
        }
    }

    proof fn round_trip(self) {
    }

    fn to_object(self) -> (r: Object) {
        Object::Number(self)
    }

    fn from_object(obj: Object) -> (r: Option<Fixed>) {
        match obj {
            Object::Number(n) => Some(n),
            _ => None,
        }
    }
}

impl AsObject for Vec2 {
    open spec fn spec_to_object(self) -> Object {
        Object::Point(self)
    }

    open spec fn spec_from_object(obj: Object) -> Option<Vec2> {
        match obj {
            Object::Point(v) => Some(v),
            _ => None,
        }
    }

    proof fn round_trip(self) {
    }

    fn to_object(self) -> (r: Object) {
        Object::Point(self)
    }

    fn from_object(obj: Object) -> (r: Option<Vec2>) {
        match obj {
            Object::Point(v) => Some(v),
            _ => None,
        }
    }
}

} // verus!
