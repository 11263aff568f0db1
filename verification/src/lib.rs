//! Codec for a point-to-point binary control protocol for broadcast encoders:
//! element layouts, checksum, transparency, and the frame format.

pub mod buffer;
pub mod checksum;
pub mod defs;
pub mod ebulatin;
pub mod format;
pub mod logic;
pub mod protocol;
pub mod roundtrip;
pub mod transparency;
