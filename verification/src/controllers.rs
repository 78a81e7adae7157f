//! The controllers that work on top of the connection layer.

pub mod errors;
