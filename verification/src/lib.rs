//! A small word-oriented virtual machine: a fixed 4000-word signed-integer
//! memory, an accumulator and extension register, six index registers, a
//! comparison flag and a program counter, driven by a ten-opcode instruction
//! set through a fetch-decode-execute loop with strict bounds checking.

pub mod machine;
pub mod instructions;
pub mod execution;
pub mod laws;
