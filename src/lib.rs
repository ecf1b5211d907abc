//! Borders for images: exact aspect-ratio matching, canvas sizing and
//! compositing of an image onto a border-colored canvas.
pub mod ratio;
pub mod matching;
pub mod canvas;
pub mod image;
pub mod pipeline;
pub mod naming;
