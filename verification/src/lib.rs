//! Core engine of an on-screen handwriting input method.
//!
//! The library holds the verified logic: the stroke-capture state machine,
//! the canvas sizing policy, the input-method session discipline (serials,
//! preedit staging, commit), and the line-oriented protocol spoken with the
//! recognizer subprocess. Everything that touches the compositor, the shared
//! raster buffer or the subprocess pipes lives outside the library and drives
//! it through plain values.

pub mod codec;
pub mod engine;
pub mod events;
pub mod ink;
pub mod linebuf;
pub mod registry;
pub mod keys;
pub mod laws;
