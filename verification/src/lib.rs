//! A terminal clock library: formats the current time as `HH:MM:SS`,
//! renders it as large ASCII-art glyphs with a fixed bitmap font, and
//! computes a centered layout region for drawing it into a viewport.
//! The render loop's decisions (draw, skip, quit) are a state machine
//! whose transitions are stated and proved here; the terminal itself
//! is driven by an unverified front end.

pub mod clock;
pub mod engine;
pub mod glyph;
pub mod layout;
