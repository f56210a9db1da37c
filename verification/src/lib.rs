//! A CHIP-8 virtual machine: an instruction decoder and an execution engine
//! whose behaviour is stated in contracts and proved.

pub mod chip8_instruction_set;
pub mod state;
pub mod cli;
pub mod chip8;
pub mod laws;
