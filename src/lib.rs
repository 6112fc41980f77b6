//! Low level access to the PicoRV32 soft-core RISC-V processor.
//!
//! - `insn`: the custom interrupt instructions and their bit-exact encodings.
//! - `machine`: the processor's interrupt registers as plain values.
//! - `interrupt`: disabling, enabling and critical sections, built on the
//!   single mask read-and-replace instruction.

pub mod insn;
pub mod interrupt;
pub mod machine;
