//! Error types of a client of the PulseAudio sound server: the errors of
//! the connection layer, and those of the controllers built on top of it.

pub mod controllers;
pub mod errors;
pub mod text;

pub use controllers::errors::ControllerError;
pub use errors::PulseCtlError;
