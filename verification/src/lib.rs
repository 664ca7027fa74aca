//! A small register-based bytecode virtual machine: a fixed-size memory
//! image, sixteen 32-bit registers (register 0 doubling as the instruction
//! pointer), and a fetch-decode-execute loop over an eight-opcode
//! instruction set. Companion modules hold a few small verified utilities
//! that live beside the machine: a Fibonacci function, string helpers, and
//! an LED-matrix colour/image model.

pub mod fib;
pub mod format;
pub mod led;
pub mod machine;
pub mod semantics;
pub mod sink;
pub mod strings;
pub mod words;
