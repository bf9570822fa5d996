//! What stands between the layout and the outside: the font that a layout is
//! set in, and what is written into an image beside the drawing.

pub mod opentype;
pub mod svg;
