//! Front-end pieces that feed the compiler.

pub mod error;
