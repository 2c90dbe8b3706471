//! A terminal session controller for a full-screen text editor.
//!
//! The crate decides; its caller performs. Every function here maps plain
//! values to plain values: the attributes to apply to the terminal, the bytes
//! of a frame to write, what to do with the outcome of a read. The caller owns
//! the standard streams and the terminal device, carries out each action and
//! reports back what happened.

pub mod attributes;
pub mod driver;
pub mod error;
pub mod geometry;
pub mod input;
pub mod screen;
pub mod session;
