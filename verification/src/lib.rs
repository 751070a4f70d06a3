//! A pixel-accurate camera helper for fixed-resolution rendering.
//!
//! A scene is rendered to an off-screen target at a fixed virtual resolution
//! and then scaled onto a window of arbitrary physical size, preserving the
//! aspect ratio by letterboxing or pillarboxing. The [`texture`] module holds
//! the camera configuration and its one-time setup state machine; the [`fit`]
//! module holds the scale-and-viewport calculator together with the proofs of
//! its geometric guarantees.

pub mod fit;
pub mod texture;
