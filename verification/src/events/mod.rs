//! Pointer events: the interaction flags a node opts into and the state
//! machine that turns one frame of pointer input into focus and action markers.

pub mod flags;
pub mod cursor;
pub mod laws;
