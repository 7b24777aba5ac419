//! Positional, line-by-line comparison of two texts.
//!
//! `compare_lines` pairs the lines of two texts by index and classifies every
//! position as matched or differing; the rendering functions turn the resulting
//! records into a plain-text report.
pub mod difference;
pub mod lemmas;
pub mod line;
pub mod render;
pub mod text;
