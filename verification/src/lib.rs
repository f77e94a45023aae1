//! Instruction-set simulator core for a 16-bit MSP430-class microcontroller.
//!
//! The crate models a byte-addressable 64KB memory with little-endian word
//! accessors and optional per-page write protection, a register file of 16
//! words with the architectural aliases (program counter, stack pointer,
//! status register, constant generator), an instruction decoder for the
//! three instruction formats, an addressing-mode resolver with the
//! register-dependent special cases, the execution dispatch with flag
//! computation, and the trap state machine that lets guest code request
//! host-mediated input and output and signal termination.

pub mod cpu;
pub mod disasm;
pub mod input;
pub mod isa;
pub mod memory;
