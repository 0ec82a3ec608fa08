//! The Python binding plan.
pub mod primitives;
pub mod type_shape;
