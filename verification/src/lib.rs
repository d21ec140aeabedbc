//! Runtime support for compiled Scheme programs: the tagged value
//! representation, the condition-code primitives, and the module host.

pub mod host;
pub mod primitives;
pub mod render;
pub mod tags;
