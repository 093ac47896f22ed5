//! A CHIP-8 virtual machine: instruction decoding, execution, sprite drawing,
//! timers and the key latch, with every transition stated as a contract.

pub mod font;
pub mod instruction;
pub mod laws;
pub mod machine;
pub mod model;
pub mod sprite;

