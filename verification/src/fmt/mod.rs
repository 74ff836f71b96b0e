//! The instruction encodings, one module each.
pub mod sop1;
pub mod sop2;
pub mod sopc;
pub mod sopp;
pub mod vop1;
