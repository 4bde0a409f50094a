//! Verified core of a small PNG cropping tool: decoding and validating the
//! source image, cutting the fixed-size square out of it, encoding the result,
//! and the state machine that drives the user interface.

pub mod app;
pub mod crop;
pub mod text;
