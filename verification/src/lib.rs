//! Verified core of a multi-system emulator: processor decoders and
//! interpreters, memory components and peripheral state machines.
pub mod mos6502;
pub mod bounded;
pub mod chip8;
pub mod intel8080;
pub mod m6502;
pub mod memory;
mod random;
pub mod riot;
