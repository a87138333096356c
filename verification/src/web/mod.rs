//! The generated site.

pub mod json;
pub mod templates;
