//! Drawing a table: column widths and row heights, the border line above
//! each row, and the content lines of each row.
use vstd::prelude::*;

use crate::cell::{clamp_usize, spaces, FancyCell};
use crate::style::border::{
    border_of, corner_char, corner_glyph, merge_edge, merged, segment_char, segment_glyph, solid_border,
    Axis, BorderLineStyle, BorderStyle, CellBorderStyle,
};
use crate::style::{HorizontalAlignment, VerticalAlignment};
use crate::table::{weight_in, FancyTable};
use crate::text::{push_repeated, repeat_char};

verus! {

/// The line of its row that a cell `room` lines shorter than the row
/// starts on: the first, the middle (the upper one where `room` is odd),
/// or the one that leaves no line below the cell.
pub open spec fn v_offset(align: VerticalAlignment, room: nat) -> nat {
    match align {
        VerticalAlignment::Top => 0,
        VerticalAlignment::Center => room / 2,
        VerticalAlignment::Bottom => room,
    }
}

/// `text` with `fill` blank columns on its right, its left, or split
/// between both sides (the odd one on the right).
pub open spec fn aligned(text: Seq<char>, fill: nat, align: HorizontalAlignment) -> Seq<char> {
    match align {
        HorizontalAlignment::Left => text + spaces(fill),
        HorizontalAlignment::Right => spaces(fill) + text,
        HorizontalAlignment::Center => spaces(fill / 2) + text + spaces((fill - fill / 2) as nat),
    }
}

impl FancyTable {
    /// The border of the cell at row `r`, column `c`: all solid where there
    /// is no cell, which gives way to any neighbour.
    pub open spec fn border_at(&self, r: int, c: int) -> CellBorderStyle {
        match self.cell_at(r, c) {
            Some(cell) => cell.border_style,
            None => solid_border(),
        }
    }

    /// The weight of horizontal gridline `i`.
    pub open spec fn hor_weight(&self, i: int) -> BorderStyle {
        weight_in(self.horizontal_lines(), i)
    }

    /// The weight of vertical gridline `i`.
    pub open spec fn vert_weight(&self, i: int) -> BorderStyle {
        weight_in(self.vertical_lines(), i)
    }

    /// The glyph of the segment above the cell at `(r, c)`.
    pub open spec fn top_glyph(&self, r: int, c: int) -> char {
        segment_glyph(
            merged(self.border_at(r, c).top, self.border_at(r - 1, c).bottom),
            self.hor_weight(r),
            Axis::Horizontal,
        )
    }

    /// The glyph of the segment below the cell at `(r, c)`.
    pub open spec fn bottom_glyph(&self, r: int, c: int) -> char {
        segment_glyph(
            merged(self.border_at(r, c).bottom, self.border_at(r + 1, c).top),
            self.hor_weight(r + 1),
            Axis::Horizontal,
        )
    }

    /// The glyph of the segment left of the cell at `(r, c)`.
    pub open spec fn left_glyph(&self, r: int, c: int) -> char {
        segment_glyph(
            merged(self.border_at(r, c).left, self.border_at(r, c - 1).right),
            self.vert_weight(c),
            Axis::Vertical,
        )
    }

    /// The glyph of the segment right of the cell at `(r, c)`.
    pub open spec fn right_glyph(&self, r: int, c: int) -> char {
        segment_glyph(
            merged(self.border_at(r, c).right, self.border_at(r, c + 1).left),
            self.vert_weight(c + 1),
            Axis::Vertical,
        )
    }

    /// The glyph of the junction at the top left corner of `(r, c)`.
    pub open spec fn corner_at(&self, r: int, c: int) -> char {
        corner_glyph(
            border_of_cell(self.cell_at(r - 1, c - 1)),
            border_of_cell(self.cell_at(r - 1, c)),
            border_of_cell(self.cell_at(r, c - 1)),
            border_of_cell(self.cell_at(r, c)),
            self.hor_weight(r),
            self.vert_weight(c),
        )
    }

    /// The widest of the cells of column `c` among the first `n` rows.
    pub open spec fn widest_in_column(&self, c: int, n: int) -> usize
        decreases n,
    {
        if n <= 0 {
            0
        } else {
            let before = self.widest_in_column(c, n - 1);
            let w = match self.cell_at(n - 1, c) {
                Some(cell) => cell.width(self.width_mode()),
                None => 0,
            };
            if w > before {
                w
            } else {
                before
            }
        }
    }

    /// The width of column `c`: that of its widest cell.
    pub open spec fn column_width_of(&self, c: int) -> usize {
        self.widest_in_column(c, self.row_count() as int)
    }

    /// The tallest of the cells of row `r` among the first `n` columns.
    pub open spec fn tallest_in_row(&self, r: int, n: int) -> nat
        decreases n,
    {
        if n <= 0 {
            0
        } else {
            let before = self.tallest_in_row(r, n - 1);
            let h = match self.cell_at(r, n - 1) {
                Some(cell) => cell.display_lines(self.width_mode()).len(),
                None => 0,
            };
            if h > before {
                h
            } else {
                before
            }
        }
    }

    /// The height of row `r` in lines: that of its tallest cell.
    pub open spec fn row_height_of(&self, r: int) -> nat {
        self.tallest_in_row(r, self.column_count() as int)
    }

    /// What the cell at `(r, c)` shows on line `k` of its row: its drawn
    /// line, padded and aligned to the column width, or blanks above and
    /// below its lines.
    pub open spec fn cell_text(&self, r: int, c: int, k: int) -> Seq<char> {
        let w = self.column_width_of(c);
        let mode = self.width_mode();
        match self.cell_at(r, c) {
            None => spaces(w as nat),
            Some(cell) => {
                let h = cell.display_lines(mode).len();
                let off = v_offset(cell.vertical_alignment, (self.row_height_of(r) - h) as nat);
                if off <= k < off + h {
                    let lw = clamp_usize(cell.line_width(mode, k - off));
                    let fill: nat = if w > lw {
                        (w - lw) as nat
                    } else {
                        0
                    };
                    aligned(cell.padded_line(mode, k - off), fill, cell.horizontal_alignment)
                } else {
                    spaces(w as nat)
                }
            },
        }
    }

    /// The first `n` cells of line `k` of row `r`, each followed by the
    /// segment on its right.
    pub open spec fn content_prefix(&self, r: int, k: int, n: int) -> Seq<char>
        decreases n,
    {
        if n <= 0 {
            Seq::empty()
        } else {
            self.content_prefix(r, k, n - 1) + self.cell_text(r, n - 1, k) + seq![
                self.right_glyph(r, n - 1),
            ]
        }
    }

    /// Line `k` of row `r`: the segment on the left of the row, then each
    /// cell and the segment on its right.
    pub open spec fn content_line(&self, r: int, k: int) -> Seq<char> {
        seq![self.left_glyph(r, 0)] + self.content_prefix(r, k, self.column_count() as int)
    }

    /// The first `n` lines of row `r`, each ended by a line feed.
    pub open spec fn row_block_prefix(&self, r: int, n: int) -> Seq<char>
        decreases n,
    {
        if n <= 0 {
            Seq::empty()
        } else {
            self.row_block_prefix(r, n - 1) + self.content_line(r, n - 1) + seq!['\n']
        }
    }

    /// The content lines of row `r`, each ended by a line feed; nothing for
    /// a row of no height.
    pub open spec fn row_block(&self, r: int) -> Seq<char> {
        self.row_block_prefix(r, self.row_height_of(r) as int)
    }

    /// The first `n` junctions of the border line above row `r`, each
    /// followed by the segment above its column.
    pub open spec fn border_prefix(&self, r: int, n: int) -> Seq<char>
        decreases n,
    {
        if n <= 0 {
            Seq::empty()
        } else {
            self.border_prefix(r, n - 1) + seq![self.corner_at(r, n - 1)] + repeat_char(
                self.top_glyph(r, n - 1),
                self.column_width_of(n - 1) as nat,
            )
        }
    }

    /// The border line above row `r` (below the last row for `r` equal to
    /// the number of rows), without a line feed.
    pub open spec fn border_line(&self, r: int) -> Seq<char> {
        self.border_prefix(r, self.column_count() as int) + seq![
            self.corner_at(r, self.column_count() as int),
        ]
    }

    /// The first `n` rows, each as its border line, a line feed and its
    /// content lines.
    pub open spec fn rows_prefix(&self, n: int) -> Seq<char>
        decreases n,
    {
        if n <= 0 {
            Seq::empty()
        } else {
            self.rows_prefix(n - 1) + self.border_line(n - 1) + seq!['\n'] + self.row_block(n - 1)
        }
    }

    /// The drawn table: each row under its border line, then the border
    /// line below the last row. A table without rows or columns draws as
    /// nothing.
    pub open spec fn rendered(&self) -> Seq<char> {
        if self.row_count() == 0 || self.column_count() == 0 {
            Seq::empty()
        } else {
            self.rows_prefix(self.row_count() as int) + self.border_line(self.row_count() as int)
        }
    }
}

fn solid() -> (b: CellBorderStyle)
    ensures
        b == solid_border(),
{
    CellBorderStyle {
        top: BorderLineStyle::Solid,
        left: BorderLineStyle::Solid,
        right: BorderLineStyle::Solid,
        bottom: BorderLineStyle::Solid,
    }
}

impl FancyTable {
    fn border_style_at(&self, r: usize, c: usize) -> (b: CellBorderStyle)
        ensures
            b == self.border_at(r as int, c as int),
    {
        match self.get(r, c) {
            Some(cell) => cell.border_style,
            None => solid(),
        }
    }

    fn border_above(&self, r: usize, c: usize) -> (b: CellBorderStyle)
        ensures
            b == self.border_at(r - 1, c as int),
    {
        if r == 0 {
            solid()
        } else {
            self.border_style_at(r - 1, c)
        }
    }

    fn border_left_of(&self, r: usize, c: usize) -> (b: CellBorderStyle)
        ensures
            b == self.border_at(r as int, c - 1),
    {
        if c == 0 {
            solid()
        } else {
            self.border_style_at(r, c - 1)
        }
    }

    fn hor_weight_at(&self, i: usize) -> (w: BorderStyle)
        ensures
            w == self.hor_weight(i as int),
    {
        match self.get_horizontal_separator_style(i) {
            Some(w) => *w,
            None => BorderStyle::Single,
        }
    }

    fn vert_weight_at(&self, i: usize) -> (w: BorderStyle)
        ensures
            w == self.vert_weight(i as int),
    {
        match self.get_vertical_separator_style(i) {
            Some(w) => *w,
            None => BorderStyle::Single,
        }
    }

    /// Computes [`top_glyph`](FancyTable::top_glyph).
    pub fn top_char(&self, r: usize, c: usize) -> (g: char)
        ensures
            g == self.top_glyph(r as int, c as int),
    {
        let line = merge_edge(self.border_style_at(r, c).top, self.border_above(r, c).bottom);
        segment_char(line, self.hor_weight_at(r), Axis::Horizontal)
    }

    /// Computes [`bottom_glyph`](FancyTable::bottom_glyph).
    pub fn bottom_char(&self, r: usize, c: usize) -> (g: char)
        requires
            r < usize::MAX,
        ensures
            g == self.bottom_glyph(r as int, c as int),
    {
        let line = merge_edge(self.border_style_at(r, c).bottom, self.border_style_at(r + 1, c).top);
        segment_char(line, self.hor_weight_at(r + 1), Axis::Horizontal)
    }

    /// Computes [`left_glyph`](FancyTable::left_glyph).
    pub fn left_char(&self, r: usize, c: usize) -> (g: char)
        ensures
            g == self.left_glyph(r as int, c as int),
    {
        let line = merge_edge(self.border_style_at(r, c).left, self.border_left_of(r, c).right);
        segment_char(line, self.vert_weight_at(c), Axis::Vertical)
    }

    /// Computes [`right_glyph`](FancyTable::right_glyph).
    pub fn right_char(&self, r: usize, c: usize) -> (g: char)
        requires
            c < usize::MAX,
        ensures
            g == self.right_glyph(r as int, c as int),
    {
        let line = merge_edge(self.border_style_at(r, c).right, self.border_style_at(r, c + 1).left);
        segment_char(line, self.vert_weight_at(c + 1), Axis::Vertical)
    }

    fn cell_above_left(&self, r: usize, c: usize) -> (cell: Option<&FancyCell>)
        ensures
            border_of(cell) == border_of_cell(self.cell_at(r - 1, c - 1)),
    {
        if r == 0 || c == 0 {
            None
        } else {
            self.get(r - 1, c - 1)
        }
    }

    fn cell_above(&self, r: usize, c: usize) -> (cell: Option<&FancyCell>)
        ensures
            border_of(cell) == border_of_cell(self.cell_at(r - 1, c as int)),
    {
        if r == 0 {
            None
        } else {
            self.get(r - 1, c)
        }
    }

    fn cell_left(&self, r: usize, c: usize) -> (cell: Option<&FancyCell>)
        ensures
            border_of(cell) == border_of_cell(self.cell_at(r as int, c - 1)),
    {
        if c == 0 {
            None
        } else {
            self.get(r, c - 1)
        }
    }

    /// Computes [`corner_at`](FancyTable::corner_at).
    pub fn corner_char_at(&self, r: usize, c: usize) -> (g: char)
        ensures
            g == self.corner_at(r as int, c as int),
    {
        let here = self.get(r, c);
        proof {
            assert(border_of(here) == border_of_cell(self.cell_at(r as int, c as int)));
        }
        corner_char(
            self.cell_above_left(r, c),
            self.cell_above(r, c),
            self.cell_left(r, c),
            here,
            self.hor_weight_at(r),
            self.vert_weight_at(c),
        )
    }
}

impl FancyTable {
    /// The height of row `row_idx` in lines: that of its tallest cell
    /// (0 for a row that does not exist).
    pub fn get_row_height(&self, row_idx: usize) -> (r: usize)
        ensures
            r == self.row_height_of(row_idx as int),
    {
        let mode = self.get_column_width();
        let columns = self.get_column_count();
        let mut tallest: usize = 0;
        let mut c: usize = 0;
        while c < columns
            invariant
                c <= columns,
                columns == self.column_count(),
                mode == self.width_mode(),
                tallest == self.tallest_in_row(row_idx as int, c as int),
            decreases columns - c,
        {
            match self.get(row_idx, c) {
                Some(cell) => {
                    let h = cell.get_height(mode);
                    if h > tallest {
                        tallest = h;
                    }
                },
                None => {},
            }
            c = c + 1;
        }
        tallest
    }

    fn get_col_width(&self, col_idx: usize) -> (r: usize)
        ensures
            r == self.column_width_of(col_idx as int),
    {
        let mode = self.get_column_width();
        let rows = self.get_row_count();
        let mut widest: usize = 0;
        let mut r: usize = 0;
        while r < rows
            invariant
                r <= rows,
                rows == self.row_count(),
                mode == self.width_mode(),
                widest == self.widest_in_column(col_idx as int, r as int),
            decreases rows - r,
        {
            match self.get(r, col_idx) {
                Some(cell) => {
                    let w = cell.get_width(mode);
                    if w > widest {
                        widest = w;
                    }
                },
                None => {},
            }
            r = r + 1;
        }
        widest
    }

    fn get_col_widths(&self) -> (r: Vec<usize>)
        ensures
            r@.len() == self.column_count(),
            forall|c: int| 0 <= c < r@.len() ==> #[trigger] r@[c] == self.column_width_of(c),
    {
        let columns = self.get_column_count();
        let mut widths: Vec<usize> = Vec::new();
        let mut c: usize = 0;
        while c < columns
            invariant
                c <= columns,
                columns == self.column_count(),
                widths@.len() == c,
                forall|i: int| 0 <= i < c ==> #[trigger] widths@[i] == self.column_width_of(i),
            decreases columns - c,
        {
            widths.push(self.get_col_width(c));
            c = c + 1;
        }
        widths
    }

    /// Appends the border line above row `row_idx`.
    fn write_top_border(&self, out: &mut String, row_idx: usize, widths: &Vec<usize>)
        requires
            widths@.len() == self.column_count(),
            forall|c: int| 0 <= c < widths@.len() ==> #[trigger] widths@[c] == self.column_width_of(c),
        ensures
            final(out)@ == old(out)@ + self.border_line(row_idx as int),
    {
        let columns = widths.len();
        let ghost start = out@;
        let mut c: usize = 0;
        while c < columns
            invariant
                c <= columns,
                columns == self.column_count(),
                widths@.len() == columns,
                forall|i: int| 0 <= i < widths@.len() ==> #[trigger] widths@[i] == self.column_width_of(i),
                out@ == start + self.border_prefix(row_idx as int, c as int),
            decreases columns - c,
        {
            out.push(self.corner_char_at(row_idx, c));
            push_repeated(out, self.top_char(row_idx, c), widths[c]);
            c = c + 1;
            assert(out@ =~= start + self.border_prefix(row_idx as int, c as int));
        }
        out.push(self.corner_char_at(row_idx, columns));
        assert(out@ =~= start + self.border_line(row_idx as int));
    }
}

impl FancyTable {
    proof fn lemma_tallest_covers(&self, r: int, c: int, n: int)
        requires
            0 <= c < n,
            self.cell_at(r, c) is Some,
        ensures
            self.tallest_in_row(r, n) >= self.cell_at(r, c)->0.display_lines(self.width_mode()).len(),
        decreases n,
    {
        if c < n - 1 {
            self.lemma_tallest_covers(r, c, n - 1);
        }
    }

    /// Appends what the cell at `(row_idx, col_idx)` shows on line `line`
    /// of its row.
    fn write_cell_line(
        &self,
        out: &mut String,
        row_idx: usize,
        col_idx: usize,
        line: usize,
        width: usize,
        height: usize,
    )
        requires
            col_idx < self.column_count(),
            width == self.column_width_of(col_idx as int),
            height == self.row_height_of(row_idx as int),
        ensures
            final(out)@ == old(out)@ + self.cell_text(row_idx as int, col_idx as int, line as int),
    {
        match self.get(row_idx, col_idx) {
            None => push_repeated(out, ' ', width),
            Some(cell) => {
                let mode = self.get_column_width();
                let h = cell.get_height(mode);
                proof {
                    self.lemma_tallest_covers(row_idx as int, col_idx as int, self.column_count() as int);
                }
                let room = height - h;
                let off = match cell.vertical_alignment {
                    VerticalAlignment::Top => 0,
                    VerticalAlignment::Center => room / 2,
                    VerticalAlignment::Bottom => room,
                };
                if off <= line && line - off < h {
                    let i = line - off;
                    let text = cell.get_line(i, mode).unwrap();
                    let used = cell.get_line_width(i, mode).unwrap();
                    let fill = if width > used {
                        width - used
                    } else {
                        0
                    };
                    match cell.horizontal_alignment {
                        HorizontalAlignment::Left => {
                            out.append(text.as_str());
                            push_repeated(out, ' ', fill);
                        },
                        HorizontalAlignment::Right => {
                            push_repeated(out, ' ', fill);
                            out.append(text.as_str());
                        },
                        HorizontalAlignment::Center => {
                            push_repeated(out, ' ', fill / 2);
                            out.append(text.as_str());
                            push_repeated(out, ' ', fill - fill / 2);
                        },
                    }
                    assert(out@ =~= old(out)@ + self.cell_text(row_idx as int, col_idx as int, line as int));
                } else {
                    push_repeated(out, ' ', width);
                }
            },
        }
    }

    /// Appends the content lines of row `row_idx`, each ended by a line
    /// feed.
    fn write_row(&self, out: &mut String, row_idx: usize, widths: &Vec<usize>)
        requires
            widths@.len() == self.column_count(),
            forall|c: int| 0 <= c < widths@.len() ==> #[trigger] widths@[c] == self.column_width_of(c),
        ensures
            final(out)@ == old(out)@ + self.row_block(row_idx as int),
    {
        let height = self.get_row_height(row_idx);
        let columns = widths.len();
        let ghost start = out@;
        let mut line: usize = 0;
        while line < height
            invariant
                line <= height,
                height == self.row_height_of(row_idx as int),
                columns == self.column_count(),
                widths@.len() == columns,
                forall|i: int| 0 <= i < widths@.len() ==> #[trigger] widths@[i] == self.column_width_of(i),
                out@ == start + self.row_block_prefix(row_idx as int, line as int),
            decreases height - line,
        {
            let ghost line_start = out@;
            out.push(self.left_char(row_idx, 0));
            let mut c: usize = 0;
            while c < columns
                invariant
                    c <= columns,
                    line < height,
                    height == self.row_height_of(row_idx as int),
                    columns == self.column_count(),
                    widths@.len() == columns,
                    forall|i: int| 0 <= i < widths@.len() ==> #[trigger] widths@[i] == self.column_width_of(i),
                    out@ == line_start + seq![self.left_glyph(row_idx as int, 0)] + self.content_prefix(
                        row_idx as int,
                        line as int,
                        c as int,
                    ),
                decreases columns - c,
            {
                self.write_cell_line(out, row_idx, c, line, widths[c], height);
                out.push(self.right_char(row_idx, c));
                c = c + 1;
                assert(out@ =~= line_start + seq![self.left_glyph(row_idx as int, 0)]
                    + self.content_prefix(row_idx as int, line as int, c as int));
            }
            out.push('\n');
            line = line + 1;
            assert(out@ =~= start + self.row_block_prefix(row_idx as int, line as int));
        }
    }

    /// Draws the table: the border line above each row, a line feed, the
    /// row's content lines each ended by a line feed, and last the border
    /// line below the last row, with no line feed after it. A table without
    /// rows or columns draws as the empty string.
    pub fn render(&self) -> (r: String)
        ensures
            r@ == self.rendered(),
            self.row_count() == 0 || self.column_count() == 0 ==> r@.len() == 0,
    {
        let rows = self.get_row_count();
        let columns = self.get_column_count();
        if rows == 0 || columns == 0 {
            return String::new();
        }
        let widths = self.get_col_widths();
        let mut out = String::new();
        let mut r: usize = 0;
        while r < rows
            invariant
                r <= rows,
                rows == self.row_count(),
                widths@.len() == self.column_count(),
                forall|c: int| 0 <= c < widths@.len() ==> #[trigger] widths@[c] == self.column_width_of(c),
                out@ == self.rows_prefix(r as int),
            decreases rows - r,
        {
            self.write_top_border(&mut out, r, &widths);
            out.push('\n');
            self.write_row(&mut out, r, &widths);
            r = r + 1;
            assert(out@ =~= self.rows_prefix(r as int));
        }
        self.write_top_border(&mut out, rows, &widths);
        out
    }
}

/// The border of a cell, where there is one.
pub open spec fn border_of_cell(cell: Option<FancyCell>) -> Option<CellBorderStyle> {
    match cell {
        Some(c) => Some(c.border_style),
        None => None,
    }
}

} // verus!
