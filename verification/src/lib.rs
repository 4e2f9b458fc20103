pub mod board;
pub mod density;
pub mod export;
pub mod glyph;
pub mod svg_out;
