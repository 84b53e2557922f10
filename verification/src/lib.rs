//! Register bank of a Game-Boy-class 8-bit CPU emulator: an accumulator, a
//! condition-flag register whose low nibble always reads as zero, six
//! general-purpose 8-bit registers viewable as the 16-bit pairs BC, DE and HL,
//! a stack pointer and a program counter.
//!
//! The register file has no control flow of its own: an external instruction
//! executor reads and mutates it through the accessors of
//! [`registers::Registers`], once per emulated instruction step.

pub mod flags;
pub mod registers;
