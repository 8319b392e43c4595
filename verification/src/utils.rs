//! Arithmetic and oracle helpers shared by the operations.
pub mod general;
pub mod math;
