//! A CHIP-8 disassembler core: a total decoder from a raw 16-bit opcode word
//! to its fixed bit fields, a renderer from a decoded instruction to one line
//! of assembly-like text, and a linear sweep that turns a program image (a
//! byte sequence of consecutive big-endian words) into a listing.
//!
//! The crate performs no I/O: callers hand it bytes and receive text lines.

pub mod hex;
pub mod instr;
pub mod render;
pub mod sweep;

pub use instr::Instruction;
pub use render::RenderOutcome;
pub use sweep::SweepResult;
pub use sweep::SweepStatus;
