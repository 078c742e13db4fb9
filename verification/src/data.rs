//! Structs and traits to interact with multimedia data.
pub mod audiosample;
pub mod colorspace;
pub mod pixel;
pub mod rational;
pub mod timeinfo;
pub mod packet;
pub mod value;
pub mod params;
pub mod frame;
pub mod buffer_ref;
pub mod buffer;
