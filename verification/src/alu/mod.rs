//! Arithmetic and compare instructions.
pub mod scalar;
