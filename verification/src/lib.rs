//! Decoding of a small subset of the RDNA2 scalar instruction set, and an
//! emulator for one wave that executes the decoded instructions.
pub mod bits;
pub mod operand;
pub mod fmt;
pub mod decode;
pub mod wave;
pub mod alu;
pub mod flow;
pub mod exec;
