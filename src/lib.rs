//! An emulator for a small 16-bit instructional computer: a register file,
//! a word-addressed memory with a memory-mapped keyboard, and a
//! fetch-decode-execute step whose effect is stated as a function of the
//! machine state and the console input it consumes.
pub mod bits;
pub mod engine;
pub mod image;
pub mod instr;
pub mod machine;
pub mod theorems;
