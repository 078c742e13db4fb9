//! Multimedia primitives: bit and byte readers, audio and pixel formats,
//! packets, frames, codec registries and container muxing/demuxing helpers.
pub mod align;
pub mod bitstream;
pub mod codec;
pub mod data;
pub mod format;
pub mod text;
