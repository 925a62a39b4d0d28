//! One value handed out several times.

use vstd::prelude::*;
use vstd::pervasive::cloned;

verus! {

/// A shape that can be filled with clones of one value: the value itself, a
/// pair or a triple of it.
pub trait CloneSplit<T: Clone>: Sized {
    /// Whether every part of the shape is a clone of `item`.
    spec fn filled_with(self, item: T) -> bool;

    /// The shape filled with clones of `item`.
    fn clone_split(item: T) -> (r: Self)
        ensures
            r.filled_with(item),
    ;
}

impl<T: Clone> CloneSplit<T> for T {
    open spec fn filled_with(self, item: T) -> bool {
        self == item
    }

    fn clone_split(item: T) -> (r: T) {
        item
    }
}

impl<T: Clone> CloneSplit<T> for (T, T) {
    open spec fn filled_with(self, item: T) -> bool {
        cloned(item, self.0) && self.1 == item
    }

    fn clone_split(item: T) -> (r: (T, T)) {
        let first = item.clone();
        (first, item)
    }
}

impl<T: Clone> CloneSplit<T> for (T, T, T) {
    open spec fn filled_with(self, item: T) -> bool {
        cloned(item, self.0) && cloned(item, self.1) && self.2 == item
    }

    fn clone_split(item: T) -> (r: (T, T, T)) {
        let first = item.clone();
        let second = item.clone();
        (first, second, item)
    }
}

/// Something that stands for the children of a node: one child, maybe a
/// child, or a list of children.
pub trait IntoChildren: Sized {
    /// The children, in order.
    spec fn children(self) -> Seq<crate::events::cursor::NodeId>;

    /// The children, in order.
    fn into_entities(self) -> (r: Vec<crate::events::cursor::NodeId>)
        ensures
            r@ == self.children(),
    ;
}

impl IntoChildren for crate::events::cursor::NodeId {
    open spec fn children(self) -> Seq<crate::events::cursor::NodeId> {
        seq![self]
    }

    fn into_entities(self) -> (r: Vec<crate::events::cursor::NodeId>) {
        let mut out = Vec::new();
        out.push(self);
        out
    }
}

impl IntoChildren for Option<crate::events::cursor::NodeId> {
    open spec fn children(self) -> Seq<crate::events::cursor::NodeId> {
        match self {
            Some(id) => seq![id],
            None => Seq::empty(),
        }
    }

    fn into_entities(self) -> (r: Vec<crate::events::cursor::NodeId>) {
        let mut out = Vec::new();
        match self {
            Some(id) => {
                out.push(id);
            },
            None => {},
        }
        out
    }
}

impl IntoChildren for Vec<crate::events::cursor::NodeId> {
    open spec fn children(self) -> Seq<crate::events::cursor::NodeId> {
        self@
    }

    fn into_entities(self) -> (r: Vec<crate::events::cursor::NodeId>) {
        self
    }
}

/// The children that `entity` stands for.
pub fn into_children<E: IntoChildren>(entity: E) -> (r: Vec<crate::events::cursor::NodeId>)
    ensures
        r@ == entity.children(),
{
    entity.into_entities()
}

} // verus!
