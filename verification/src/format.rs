//! Utilities for muxing and demuxing into various container formats.
pub mod buffer;
pub mod common;
pub mod error;
pub mod stream;
pub mod demuxer;
pub mod muxer;
