//! Line styles, line weights and the choice of box-drawing glyphs.
//!
//! Each cell declares a line style per edge. Two cells that share an edge
//! negotiate it with [`merge_edge`], and the weight of the gridline the edge
//! lies on decides between single and double glyphs.
use vstd::prelude::*;

use crate::cell::FancyCell;
use crate::table::FancyTable;
use crate::text::char_string;

verus! {

/// The thickness of a whole gridline.
///
/// `Double` draws every visible segment solid: dashes and dots only exist
/// in single weight.
#[derive(Debug, PartialEq, Eq, Structural, Copy, Clone, Default)]
pub enum BorderStyle {
    #[default]
    Single,
    Double,
}

/// The line style of one edge of a cell.
///
/// Ordered `Solid < Dashed < Dotted < NoLine`: where two cells share an edge,
/// the larger of their two declarations is drawn.
#[derive(Debug, PartialEq, Eq, Structural, Copy, Clone, Default, PartialOrd, Ord)]
pub enum BorderLineStyle {
    #[default]
    Solid,
    Dashed,
    Dotted,
    NoLine,
}

/// The line styles of the four edges of one cell.
#[derive(Debug, PartialEq, Eq, Structural, Copy, Clone, Default)]
pub struct CellBorderStyle {
    pub top: BorderLineStyle,
    pub left: BorderLineStyle,
    pub right: BorderLineStyle,
    pub bottom: BorderLineStyle,
}

/// The axis a straight segment runs along.
#[derive(Debug, PartialEq, Eq, Structural, Copy, Clone)]
pub enum Axis {
    Horizontal,
    Vertical,
}

/// The position of a line style in the merge order.
pub open spec fn precedence(s: BorderLineStyle) -> nat {
    match s {
        BorderLineStyle::Solid => 0,
        BorderLineStyle::Dashed => 1,
        BorderLineStyle::Dotted => 2,
        BorderLineStyle::NoLine => 3,
    }
}

/// The style drawn on an edge that two cells declare as `a` and `b`: the
/// larger of the two.
pub open spec fn merged(a: BorderLineStyle, b: BorderLineStyle) -> BorderLineStyle {
    if precedence(a) >= precedence(b) {
        a
    } else {
        b
    }
}

/// The style of all four edges of a cell that declares none.
pub open spec fn solid_border() -> CellBorderStyle {
    CellBorderStyle {
        top: BorderLineStyle::Solid,
        left: BorderLineStyle::Solid,
        right: BorderLineStyle::Solid,
        bottom: BorderLineStyle::Solid,
    }
}

/// Negotiates the style of an edge that two adjacent cells declare as `a`
/// and `b`.
pub fn merge_edge(a: BorderLineStyle, b: BorderLineStyle) -> (r: BorderLineStyle)
    ensures
        r == merged(a, b),
{
    if rank(a) >= rank(b) {
        a
    } else {
        b
    }
}

fn rank(s: BorderLineStyle) -> (r: u8)
    ensures
        r as nat == precedence(s),
{
    match s {
        BorderLineStyle::Solid => 0,
        BorderLineStyle::Dashed => 1,
        BorderLineStyle::Dotted => 2,
        BorderLineStyle::NoLine => 3,
    }
}

/// Merging is commutative.
pub proof fn lemma_merge_commutative(a: BorderLineStyle, b: BorderLineStyle)
    ensures
        merged(a, b) == merged(b, a),
{
}

/// Merging is associative, so three declarations merged in any grouping
/// give the same style.
pub proof fn lemma_merge_associative(a: BorderLineStyle, b: BorderLineStyle, c: BorderLineStyle)
    ensures
        merged(merged(a, b), c) == merged(a, merged(b, c)),
{
}

/// An edge that either side declares `NoLine` is not drawn.
pub proof fn lemma_merge_none_absorbs(x: BorderLineStyle)
    ensures
        merged(x, BorderLineStyle::NoLine) == BorderLineStyle::NoLine,
        merged(BorderLineStyle::NoLine, x) == BorderLineStyle::NoLine,
{
}

/// The glyph of a straight segment of style `line` on a gridline of weight
/// `weight` running along `axis`.
pub open spec fn segment_glyph(line: BorderLineStyle, weight: BorderStyle, axis: Axis) -> char {
    match (line, weight, axis) {
        (BorderLineStyle::NoLine, _, _) => ' ',
        (_, BorderStyle::Double, Axis::Horizontal) => '═',
        (_, BorderStyle::Double, Axis::Vertical) => '║',
        (BorderLineStyle::Solid, _, Axis::Horizontal) => '─',
        (BorderLineStyle::Solid, _, Axis::Vertical) => '│',
        (BorderLineStyle::Dashed, _, Axis::Horizontal) => '╴',
        (BorderLineStyle::Dashed, _, Axis::Vertical) => '╵',
        (BorderLineStyle::Dotted, _, Axis::Horizontal) => '┄',
        (BorderLineStyle::Dotted, _, Axis::Vertical) => '┆',
    }
}

/// Computes [`segment_glyph`].
pub fn segment_char(line: BorderLineStyle, weight: BorderStyle, axis: Axis) -> (c: char)
    ensures
        c == segment_glyph(line, weight, axis),
{
    match (line, weight, axis) {
        (BorderLineStyle::NoLine, _, _) => ' ',
        (_, BorderStyle::Double, Axis::Horizontal) => '═',
        (_, BorderStyle::Double, Axis::Vertical) => '║',
        (BorderLineStyle::Solid, _, Axis::Horizontal) => '─',
        (BorderLineStyle::Solid, _, Axis::Vertical) => '│',
        (BorderLineStyle::Dashed, _, Axis::Horizontal) => '╴',
        (BorderLineStyle::Dashed, _, Axis::Vertical) => '╵',
        (BorderLineStyle::Dotted, _, Axis::Horizontal) => '┄',
        (BorderLineStyle::Dotted, _, Axis::Vertical) => '┆',
    }
}

/// The glyph of a horizontal segment of style `line` on a gridline of
/// weight `style`.
pub fn get_horizontal_symbol(line: &BorderLineStyle, style: &BorderStyle) -> (r: String)
    ensures
        r@ == seq![segment_glyph(*line, *style, Axis::Horizontal)],
{
    char_string(segment_char(*line, *style, Axis::Horizontal))
}

/// The glyph of a vertical segment of style `line` on a gridline of weight
/// `style`.
pub fn get_vertical_symbol(line: &BorderLineStyle, style: &BorderStyle) -> (r: String)
    ensures
        r@ == seq![segment_glyph(*line, *style, Axis::Vertical)],
{
    char_string(segment_char(*line, *style, Axis::Vertical))
}

/// Picks one of four variants by the weights of the horizontal and the
/// vertical gridline: single/single, double/single, single/double,
/// double/double (horizontal first).
pub open spec fn by_weights<T>(hor: BorderStyle, vert: BorderStyle, ss: T, ds: T, sd: T, dd: T) -> T {
    match (hor, vert) {
        (BorderStyle::Single, BorderStyle::Single) => ss,
        (BorderStyle::Double, BorderStyle::Single) => ds,
        (BorderStyle::Single, BorderStyle::Double) => sd,
        (BorderStyle::Double, BorderStyle::Double) => dd,
    }
}

/// Picks, as a new string, the variant of `ss`, `ds`, `sd`, `dd` that the
/// weights of the horizontal and the vertical gridline select.
pub fn style_based_selection(
    hor_style: BorderStyle,
    vert_style: BorderStyle,
    ss: &str,
    ds: &str,
    sd: &str,
    dd: &str,
) -> (r: String)
    ensures
        r@ == by_weights(hor_style, vert_style, ss@, ds@, sd@, dd@),
{
    let chosen = match (hor_style, vert_style) {
        (BorderStyle::Single, BorderStyle::Single) => ss,
        (BorderStyle::Double, BorderStyle::Single) => ds,
        (BorderStyle::Single, BorderStyle::Double) => sd,
        (BorderStyle::Double, BorderStyle::Double) => dd,
    };
    String::from_str(chosen)
}

fn select_char(
    hor: BorderStyle,
    vert: BorderStyle,
    ss: char,
    ds: char,
    sd: char,
    dd: char,
) -> (c: char)
    ensures
        c == by_weights(hor, vert, ss, ds, sd, dd),
{
    match (hor, vert) {
        (BorderStyle::Single, BorderStyle::Single) => ss,
        (BorderStyle::Double, BorderStyle::Single) => ds,
        (BorderStyle::Single, BorderStyle::Double) => sd,
        (BorderStyle::Double, BorderStyle::Double) => dd,
    }
}

/// The glyph where gridlines meet, from which of the four directions a
/// segment leaves the junction and the weights of the horizontal (`hor`)
/// and vertical (`vert`) gridline through it.
///
/// Shapes that turn or cross take both weights; straight lines and end
/// caps take the weight of their own axis. No segment gives a blank.
pub open spec fn junction_glyph(
    top: bool,
    left: bool,
    right: bool,
    bottom: bool,
    hor: BorderStyle,
    vert: BorderStyle,
) -> char {
    match (top, left, right, bottom) {
        (false, false, false, false) => ' ',
        (true, true, true, true) => by_weights(hor, vert, '┼', '╪', '╫', '╬'),
        (false, true, true, true) => by_weights(hor, vert, '┬', '╤', '╥', '╦'),
        (true, true, true, false) => by_weights(hor, vert, '┴', '╧', '╨', '╩'),
        (true, false, true, true) => by_weights(hor, vert, '├', '╞', '╟', '╠'),
        (true, true, false, true) => by_weights(hor, vert, '┤', '╡', '╢', '╣'),
        (false, true, true, false) => by_weights(hor, vert, '─', '═', '─', '═'),
        (true, false, false, true) => by_weights(hor, vert, '│', '│', '║', '║'),
        (false, false, true, true) => by_weights(hor, vert, '┌', '╒', '╓', '╔'),
        (false, true, false, true) => by_weights(hor, vert, '┐', '╕', '╖', '╗'),
        (true, false, true, false) => by_weights(hor, vert, '└', '╘', '╙', '╚'),
        (true, true, false, false) => by_weights(hor, vert, '┘', '╛', '╜', '╝'),
        (true, false, false, false) => by_weights(hor, vert, '╵', '╵', '║', '║'),
        (false, true, false, false) => by_weights(hor, vert, '╴', '═', '╴', '═'),
        (false, false, true, false) => by_weights(hor, vert, '╶', '═', '╶', '═'),
        (false, false, false, true) => by_weights(hor, vert, '╷', '╷', '║', '║'),
    }
}

/// Computes [`junction_glyph`].
pub fn junction_char(
    top: bool,
    left: bool,
    right: bool,
    bottom: bool,
    hor: BorderStyle,
    vert: BorderStyle,
) -> (c: char)
    ensures
        c == junction_glyph(top, left, right, bottom, hor, vert),
{
    match (top, left, right, bottom) {
        (false, false, false, false) => ' ',
        (true, true, true, true) => select_char(hor, vert, '┼', '╪', '╫', '╬'),
        (false, true, true, true) => select_char(hor, vert, '┬', '╤', '╥', '╦'),
        (true, true, true, false) => select_char(hor, vert, '┴', '╧', '╨', '╩'),
        (true, false, true, true) => select_char(hor, vert, '├', '╞', '╟', '╠'),
        (true, true, false, true) => select_char(hor, vert, '┤', '╡', '╢', '╣'),
        (false, true, true, false) => select_char(hor, vert, '─', '═', '─', '═'),
        (true, false, false, true) => select_char(hor, vert, '│', '│', '║', '║'),
        (false, false, true, true) => select_char(hor, vert, '┌', '╒', '╓', '╔'),
        (false, true, false, true) => select_char(hor, vert, '┐', '╕', '╖', '╗'),
        (true, false, true, false) => select_char(hor, vert, '└', '╘', '╙', '╚'),
        (true, true, false, false) => select_char(hor, vert, '┘', '╛', '╜', '╝'),
        (true, false, false, false) => select_char(hor, vert, '╵', '╵', '║', '║'),
        (false, true, false, false) => select_char(hor, vert, '╴', '═', '╴', '═'),
        (false, false, true, false) => select_char(hor, vert, '╶', '═', '╶', '═'),
        (false, false, false, true) => select_char(hor, vert, '╷', '╷', '║', '║'),
    }
}

/// The glyph where gridlines meet, as a string: see [`junction_glyph`].
pub fn get_center_symbol(
    top: bool,
    left: bool,
    right: bool,
    bottom: bool,
    hor_style: BorderStyle,
    vert_style: BorderStyle,
) -> (r: String)
    ensures
        r@ == seq![junction_glyph(top, left, right, bottom, hor_style, vert_style)],
{
    char_string(junction_char(top, left, right, bottom, hor_style, vert_style))
}

/// Whether a segment leaves a junction along an edge whose two sides
/// declare `a` and `b` (`None` where no cell lies on that side): it does
/// where the merged style is visible, and never without a cell.
pub open spec fn segment_present(a: Option<BorderLineStyle>, b: Option<BorderLineStyle>) -> bool {
    match (a, b) {
        (Some(x), Some(y)) => merged(x, y) != BorderLineStyle::NoLine,
        (Some(x), None) => x != BorderLineStyle::NoLine,
        (None, Some(y)) => y != BorderLineStyle::NoLine,
        (None, None) => false,
    }
}

/// The edge that `pick` selects of a cell's border, where there is a cell.
pub open spec fn edge_of(
    border: Option<CellBorderStyle>,
    pick: spec_fn(CellBorderStyle) -> BorderLineStyle,
) -> Option<BorderLineStyle> {
    match border {
        Some(b) => Some(pick(b)),
        None => None,
    }
}

/// The border of a cell, where there is one.
pub open spec fn border_of(cell: Option<&FancyCell>) -> Option<CellBorderStyle> {
    match cell {
        Some(c) => Some(c.border_style),
        None => None,
    }
}

/// The glyph of the junction whose four diagonal neighbours have the
/// borders `top_left`, `top_right`, `bottom_left`, `bottom_right` (`None`
/// where there is no cell), on gridlines of weight `hor` and `vert`.
///
/// The segment above the junction runs between the top two cells, the one
/// on the left between the left two, and so on.
pub open spec fn corner_glyph(
    top_left: Option<CellBorderStyle>,
    top_right: Option<CellBorderStyle>,
    bottom_left: Option<CellBorderStyle>,
    bottom_right: Option<CellBorderStyle>,
    hor: BorderStyle,
    vert: BorderStyle,
) -> char {
    let right_side = |b: CellBorderStyle| b.right;
    let left_side = |b: CellBorderStyle| b.left;
    let top_side = |b: CellBorderStyle| b.top;
    let bottom_side = |b: CellBorderStyle| b.bottom;
    junction_glyph(
        segment_present(edge_of(top_left, right_side), edge_of(top_right, left_side)),
        segment_present(edge_of(top_left, bottom_side), edge_of(bottom_left, top_side)),
        segment_present(edge_of(top_right, bottom_side), edge_of(bottom_right, top_side)),
        segment_present(edge_of(bottom_left, right_side), edge_of(bottom_right, left_side)),
        hor,
        vert,
    )
}

fn edge_present(a: Option<BorderLineStyle>, b: Option<BorderLineStyle>) -> (r: bool)
    ensures
        r == segment_present(a, b),
{
    match (a, b) {
        (Some(x), Some(y)) => merge_edge(x, y) != BorderLineStyle::NoLine,
        (Some(x), None) => x != BorderLineStyle::NoLine,
        (None, Some(y)) => y != BorderLineStyle::NoLine,
        (None, None) => false,
    }
}

/// Computes [`corner_glyph`] from the four cells around a junction.
pub fn corner_char(
    top_left: Option<&FancyCell>,
    top_right: Option<&FancyCell>,
    bottom_left: Option<&FancyCell>,
    bottom_right: Option<&FancyCell>,
    hor_style: BorderStyle,
    vert_style: BorderStyle,
) -> (c: char)
    ensures
        c == corner_glyph(
            border_of(top_left),
            border_of(top_right),
            border_of(bottom_left),
            border_of(bottom_right),
            hor_style,
            vert_style,
        ),
{
    let tl = match top_left {
        Some(c) => Some(c.border_style),
        None => None,
    };
    let tr = match top_right {
        Some(c) => Some(c.border_style),
        None => None,
    };
    let bl = match bottom_left {
        Some(c) => Some(c.border_style),
        None => None,
    };
    let br = match bottom_right {
        Some(c) => Some(c.border_style),
        None => None,
    };
    let top = edge_present(
        match tl {
            Some(b) => Some(b.right),
            None => None,
        },
        match tr {
            Some(b) => Some(b.left),
            None => None,
        },
    );
    let left = edge_present(
        match tl {
            Some(b) => Some(b.bottom),
            None => None,
        },
        match bl {
            Some(b) => Some(b.top),
            None => None,
        },
    );
    let right = edge_present(
        match tr {
            Some(b) => Some(b.bottom),
            None => None,
        },
        match br {
            Some(b) => Some(b.top),
            None => None,
        },
    );
    let bottom = edge_present(
        match bl {
            Some(b) => Some(b.right),
            None => None,
        },
        match br {
            Some(b) => Some(b.left),
            None => None,
        },
    );
    junction_char(top, left, right, bottom, hor_style, vert_style)
}

/// The glyph, as a string, of the junction between the four given cells:
/// see [`corner_glyph`].
pub fn get_common_cell_border_symbol(
    top_left: Option<&FancyCell>,
    top_right: Option<&FancyCell>,
    bottom_left: Option<&FancyCell>,
    bottom_right: Option<&FancyCell>,
    hor_style: BorderStyle,
    vert_style: BorderStyle,
) -> (r: String)
    ensures
        r@ == seq![
            corner_glyph(
                border_of(top_left),
                border_of(top_right),
                border_of(bottom_left),
                border_of(bottom_right),
                hor_style,
                vert_style,
            ),
        ],
{
    char_string(corner_char(top_left, top_right, bottom_left, bottom_right, hor_style, vert_style))
}

/// The glyphs of the four segments around the cell at row `cell_row`,
/// column `cell_col` of `table`, in the order top, left, right, bottom.
/// Each edge is merged with the facing edge of the neighbour across it and
/// drawn in the weight of its gridline; a missing cell counts as solid.
pub fn get_cell_border_symbols(table: &FancyTable, cell_row: usize, cell_col: usize) -> (r: (
    String,
    String,
    String,
    String,
))
    requires
        cell_row < usize::MAX,
        cell_col < usize::MAX,
    ensures
        r.0@ == seq![table.top_glyph(cell_row as int, cell_col as int)],
        r.1@ == seq![table.left_glyph(cell_row as int, cell_col as int)],
        r.2@ == seq![table.right_glyph(cell_row as int, cell_col as int)],
        r.3@ == seq![table.bottom_glyph(cell_row as int, cell_col as int)],
{
    (
        char_string(table.top_char(cell_row, cell_col)),
        char_string(table.left_char(cell_row, cell_col)),
        char_string(table.right_char(cell_row, cell_col)),
        char_string(table.bottom_char(cell_row, cell_col)),
    )
}

} // verus!
