//! ANSI Select Graphic Rendition styling for terminal text.
//!
//! A [`Style`] holds an optional foreground [`Color`] and four decorations;
//! [`Style::format`] wraps a text in the escape sequence that renders it so.

mod color;
pub mod laws;
pub mod sgr;
mod style;

pub use color::Color;
pub use style::{style_format, Style};
