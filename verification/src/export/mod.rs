//! The text side of the PDF export.
//!
//! A report body is markdown. [`markdown::to_blocks`] flattens it into layout
//! [`markdown::Block`]s whose inline content is a list of styled [`text::Run`]s;
//! [`coverage::sanitize`] maps every character to one the chosen face can draw;
//! [`text::split_words`] breaks styled spans into the words the line wrapper
//! places. Measuring, wrapping to a width and drawing the page are the
//! renderer's business and stay outside this library.

pub mod coverage;
pub mod document;
pub mod markdown;
pub mod style;
pub mod text;
