//! A retained-mode 2D layout, pointer-dispatch and animation core, computed in
//! fixed-point arithmetic and verified.
//!
//! Every frame the host hands over its input and its tree of nodes as plain
//! values and gets plain values back:
//!
//! - [`scaling`], [`dimension`], [`transform`], [`rect`]: sizes with units,
//!   the sizing of a node, its placement relative to its parent, and the
//!   rectangle that results;
//! - [`layout`]: stacks, spans, paragraphs and paddings;
//! - [`propagate`]: the walk from the root down that resolves every node;
//! - [`events`]: the pointer state machine with its focus, drag, click and
//!   drop rules;
//! - [`anim`]: values on their way to a target, and the fields they drive;
//! - [`signals`]: latest-value slots between senders and receivers;
//! - [`dsl`], [`widgets`], [`systems`]: what descriptions of nodes and
//!   widgets come to, and the per-node steps that keep the host's
//!   components in line.
//!
//! All numbers are [`fixed::Fixed`]: no step of the core depends on
//! floating-point rounding, and nothing in it panics.

pub mod fixed;
pub mod vec2;
pub mod rect;
pub mod events;
pub mod scaling;
pub mod layout;
pub mod dsl;
pub mod signals;
pub mod dimension;
pub mod transform;
pub mod propagate;
pub mod anim;
pub mod widgets;
pub mod systems;
