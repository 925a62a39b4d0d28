//! Conversions that let a declarative description of a node take values in
//! whatever form is convenient to write.

pub mod convert;
pub mod converters;
pub mod util;
pub mod split;
pub mod builders;
pub mod widgets;
