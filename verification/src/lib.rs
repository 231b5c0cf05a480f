//! Core of a small virtual machine for an 8-bit-style interpreted
//! architecture: a register file, a call stack, byte-addressable memory, a
//! monochrome XOR display plane, and a closed instruction set decoded from
//! 16-bit words.
//!
//! The crate is a pure state-transition library: the caller supplies program
//! bytes and drives the fetch-decode-execute loop; all I/O (loading a program
//! image from disk, presenting the pixel grid) stays outside.

pub mod error;
pub mod instruction;
pub mod mem;
