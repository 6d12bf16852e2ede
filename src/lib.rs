//! Typed access to the native GUI toolkit's events, colors, constants and
//! callback slots.
pub mod error;
pub mod native;
pub mod style;
pub mod event;
pub mod color;
pub mod callback;
