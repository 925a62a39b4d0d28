//! Reactions of widgets to the pointer and to their own state: which colour,
//! offset or size a widget heads for.

pub mod colors;
pub mod toggle;
pub mod input;
pub mod shadow;
pub mod material;
pub mod atlas;
