//! A drawing backend for an off-screen 2D canvas surface.
//!
//! The library translates abstract drawing primitives (pixels, lines, text)
//! into the exact sequence of 2D-context operations that realises them:
//! fill/stroke styles as CSS `rgba(...)` strings, path construction, text
//! alignment and rotation transforms. The translation is pure and fully
//! specified, so a host-side adapter only has to replay the resulting
//! command sequence onto a concrete rendering context.

pub mod backend;
pub mod color;
pub mod commands;
pub mod error;
pub mod laws;
pub mod style;
