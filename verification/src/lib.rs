//! A partial simulator for the Intel 8086 16-bit instruction set.
//!
//! The crate decodes a stream of 8086 machine code into a structured
//! instruction representation suitable for textual disassembly, and executes
//! the decoded instructions against a small architectural state: eleven
//! 16-bit registers and a four-flag status subset.

pub mod cpu;
pub mod decoder;
pub mod instruction;
pub mod render;
