//! Waveform-audio output on Windows: device capabilities, wave formats, and the
//! double-buffered playback protocol, as verified logic on plain values.
//!
//! The library decides; its caller performs. Every call into the native sound
//! interface is described by a [`wave::Request`], which the caller carries out and
//! whose status code it hands back.
pub mod device;
pub mod error;
pub mod util;
pub mod wave;

pub use error::DecodeError;
pub use error::Error;
