//! Bytes and bitstream reading/writing functionality.
pub mod endian;
pub mod byteread;
pub mod bytewrite;
pub mod bitmodel;
pub mod bitread;
pub mod bitlaws;
