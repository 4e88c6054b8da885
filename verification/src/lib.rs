//! A verified CHIP-8 interpreter core.
//!
//! The machine fetches, decodes and executes fixed-width two-byte
//! instructions against a small private state: 4096 bytes of memory,
//! sixteen 8-bit registers plus a 12-bit index register, a bounded call
//! stack, two countdown timers, a sixteen-key keypad map and a 64x32
//! monochrome framebuffer. Every public operation carries a contract that
//! pins its effect on an abstract model of that state.

pub mod cpu;
pub mod laws;
pub mod model;

pub use cpu::CPU;
pub use cpu::Opcode;
pub use model::VmError;
