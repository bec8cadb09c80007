//! Presentation attributes shared by cells and tables.
use vstd::prelude::*;

pub mod border;

verus! {

/// Where a cell's lines sit when its row is taller than the cell.
#[derive(Debug, PartialEq, Eq, Structural, Copy, Clone, Default)]
pub enum VerticalAlignment {
    #[default]
    Top,
    Center,
    Bottom,
}

/// Where a cell's line sits when its column is wider than the line.
#[derive(Debug, PartialEq, Eq, Structural, Copy, Clone, Default)]
pub enum HorizontalAlignment {
    #[default]
    Left,
    Center,
    Right,
}

/// How wide a column is drawn.
///
/// `Dynamic` makes a column as wide as its widest padded line; `Fixed(w)`
/// wraps every line at `w` display columns and pads it by one column on
/// each side, so the column is `w + 2` wide.
#[derive(Debug, PartialEq, Eq, Structural, Copy, Clone, Default)]
pub enum ColumnWidth {
    #[default]
    Dynamic,
    Fixed(usize),
}

} // verus!
