//! Rendering and navigation core of a small terminal text viewer.
//!
//! The library keeps an in-memory document of text rows, tracks a cursor in
//! document coordinates (grapheme-cluster column, row index), computes the
//! scrolled viewport onto a fixed terminal grid, and composes each frame's
//! visible lines.  All terminal input and output stays outside, in the
//! surrounding program.

pub mod document;
pub mod editor;
pub mod geometry;
pub mod grapheme;
pub mod numfmt;
pub mod row;
pub mod screen;
