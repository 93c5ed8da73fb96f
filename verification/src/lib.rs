//! Safe, verified core of a binding layer around a native multimedia
//! library: flag bitmask types, error-code translation, C-string path
//! conversion, the options-dictionary ownership bridge, and the state
//! machines that drive the native open/alloc call sequences for input
//! (demuxer) and output (muxer) format contexts.
//!
//! The native calls themselves (allocation, probing, I/O) live outside
//! this crate; the logic here decides, for every native return code,
//! what happens next, and guarantees that no path leaks an allocation
//! or keeps the options dictionary from its owner.

pub mod context;
pub mod cstring;
pub mod dictionary;
pub mod error;
pub mod format;

pub mod frame;
pub mod packet;
pub mod resampling;
