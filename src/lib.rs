//! Rendering of stored article bodies into HTML and a table of contents,
//! together with the small pieces of site logic around it.
pub mod json;
pub mod html;
pub mod document;
pub mod render;
pub mod config;
pub mod random;
pub mod utils;
pub mod pages;
pub mod articles;
