//! Rendering of rectangular grids of multi-line text cells into box-drawn
//! terminal tables, with per-edge line styles negotiated between neighbours.
use vstd::prelude::*;

pub mod cell;
pub mod render;
pub mod style;
pub mod table;
pub mod text;

pub use cell::FancyCell;
pub use table::FancyTable;
