//! A CHIP-8 virtual machine: instruction decoder, processor state and
//! execution engine, with the timer cadence and key input as plain values.

pub mod chip;
pub mod cpu;
pub mod laws;
pub mod model;
pub mod opcode;
pub mod terminal;
pub mod text;
