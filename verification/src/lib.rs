//! A verified boundary shim for a dictionary-lookup tool.
//!
//! The library holds the shim's logic: wrapping 32-bit addition, the
//! echo-style round-trip string, the decision core of the subprocess
//! lookup flow, and a registry that models the exactly-once-release
//! discipline for string handles handed across the foreign boundary.
//! The unverified foreign entry points and the actual process spawning
//! live outside the library and drive it with plain values.

pub mod arith;
pub mod echo;
pub mod handles;
pub mod lookup;
