//! Compilation of a policy's patterns into matchers.

pub mod compiled_policy;
pub mod compiler;
