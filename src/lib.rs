//! A falling-column "digital rain" of nucleotide letters: the per-column
//! animation state, the colours of its trail, and the frame step that turns
//! every column into the cells to paint.

pub mod column;
pub mod palette;
pub mod scene;
mod random;
