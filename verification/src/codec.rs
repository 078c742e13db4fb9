//! Utilities for encoding and decoding video and audio formats.
pub mod common;
pub mod decoder;
pub mod encoder;
pub mod error;
