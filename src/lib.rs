//! An interpreter core for the CHIP-8 virtual machine: instruction decoding,
//! execution semantics and the machine state they act on.
pub mod instruction;
pub mod state;
pub mod machine;
pub mod laws;
