//! An interpreter engine for the CHIP-8 virtual machine: sixteen 8-bit
//! registers, 4096 bytes of memory, a sixteen-entry call stack, two timers, a
//! 64x32 monochrome display and a sixteen-key keypad.
//!
//! Every function is verified against a mathematical model of the machine
//! (see [`machine`]); the only unproved item is the draw of a random byte.

pub mod cpu;
pub mod display;
pub mod font;
pub mod instructions;
pub mod keyboard;
pub mod machine;
pub mod op_code;
mod random;
