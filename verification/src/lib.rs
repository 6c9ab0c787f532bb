//! Error classification and response decoding for a client of a
//! Subsonic-style media server.

pub mod decimal;
pub mod error;
pub mod field;
pub mod json;
pub mod render;
pub mod song;
