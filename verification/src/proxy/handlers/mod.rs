//! Handlers that ship with the library.

pub mod log;
