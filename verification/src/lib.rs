//! A verified model of an 8086-class processor core.
//!
//! The core takes one already-parsed instruction per step, resolves its
//! operands, executes the state transition on a register/flag file and a
//! flat 1 MiB byte memory, and can independently render an instruction
//! into the exact machine-code bytes the processor would store.  Every
//! state transition, table lookup and encoding is specified and proved:
//! truncating 16-bit addition with the 8086 carry and overflow rules,
//! little-endian memory access with explicit range errors, base/index
//! effective-address computation, and the opcode/ModRM byte layouts.
//!
//! The textual grammar, label bookkeeping and any transport around the
//! core are external collaborators; they hand the core plain operand
//! nodes and read the state back through the accessors.

pub mod add;
pub mod assembler;
pub mod common;
pub mod cpucontext;
pub mod errors;
pub mod hardware;
pub mod inc;
pub mod jmp;
pub mod memory;
pub mod mov;
pub mod org;
pub mod parser;
pub mod resolver;
