//! A text-mode console driver: a fixed grid of character cells, each a byte
//! and a colour attribute, written line by line with scrolling.

mod cell;
pub mod colour;
pub mod writer;
pub mod laws;
