//! Typed, bounds-checked core of a C-ABI surface for filesystem extended
//! attributes.
//!
//! The raw entry points hand this library plain values: the length the
//! caller declared, the raw flag word, and what the system call answered.
//! The library decides how much of the shared transfer buffer is lent to
//! the system call, which prefix of it may be copied to the caller, and
//! which integer the entry point returns.

pub mod buffer;
pub mod flags;
pub mod laws;
pub mod reply;
