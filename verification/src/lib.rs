//! Renders a recorded conversation between a person and an assistant as a
//! Markdown document, and decides the small questions around it: which
//! stored sessions a command means, and when a key opens the file picker.
//!
//! Every function is stated over the mathematical view of its arguments and
//! proved to compute exactly what is stated.
//!
//! - [`text`]: operations on characters: trimming, searching, replacing,
//!   numerals.
//! - [`value`]: structured argument values and their rendering as lists.
//! - [`message`]: messages, content items and tool results.
//! - [`export`]: the rendering of one message and of each kind of content.
//! - [`transcript`]: the whole document, section by section.
//! - [`laws`]: what holds of every rendering.
//! - [`sessions`]: choosing and listing stored sessions.
//! - [`file_picker_handler`]: the Tab key and the file picker.

pub mod export;
pub mod file_picker_handler;
pub mod laws;
pub mod message;
pub mod sessions;
pub mod text;
pub mod transcript;
pub mod value;
