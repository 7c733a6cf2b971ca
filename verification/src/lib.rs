//! Message-protocol layer for a register-based hypercall convention: typed
//! call descriptions for each supported extension, their encoding to and
//! decoding from the eight-word register frame, translation of raw outcome
//! codes into a typed error taxonomy, and the state machines of the memory
//! conversion and interrupt-file migration handshakes.

pub mod consts;
pub mod cove_guest;
pub mod cove_interrupt;
pub mod debug_console;
pub mod error;
pub mod imsic_binding;
pub mod interrupt_gate;
pub mod memory_conversion;
pub mod message;
pub mod nacl;
pub mod reset;
pub mod rivos_test;
pub mod salus;
pub mod vendor;
