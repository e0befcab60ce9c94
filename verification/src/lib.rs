//! Register file of a 16-bit x86-family (8086-class) processor.
//!
//! The core of this crate is the register-aliasing model: general-purpose
//! registers addressable both as full 16-bit words and as independent
//! high/low 8-bit halves, a bank of control/status flags, and a flat,
//! zero-initialized byte buffer standing for main memory. Every mutation
//! goes through a single named-write primitive whose exact semantics are
//! stated as contracts and proved.

pub mod cpu;
pub mod laws;
pub mod mem;
