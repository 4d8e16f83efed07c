//! The top-level circuit descriptions.

pub mod tornado;
