//! Signals: value slots that decouple the nodes that produce a value from the
//! nodes and the application code that consume it.
//!
//! A slot keeps the latest value written to it. Every handle to the slot
//! remembers the last write it has seen; a poll returns the value if there was
//! a write since, and nothing otherwise. Nobody waits and nothing queues up.

pub mod object;
pub mod pool;
pub mod channel;
pub mod roles;
pub mod ids;
pub mod table;
