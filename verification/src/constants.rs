//! Fixed parameters of the platform.
pub mod general;
pub mod seeds;
