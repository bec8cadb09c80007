//! The table: a rectangular grid of cells with the weights of its gridlines.
use vstd::prelude::*;

use crate::cell::{cell_lines_of, FancyCell};
use crate::style::border::BorderStyle;
use crate::style::ColumnWidth;

verus! {

/// The weight of gridline `i` in `track`: `Single` past its end.
pub open spec fn weight_in(track: Seq<BorderStyle>, i: int) -> BorderStyle {
    if 0 <= i < track.len() {
        track[i]
    } else {
        BorderStyle::Single
    }
}

/// `n` single-weight gridlines.
pub open spec fn single_lines(n: nat) -> Seq<BorderStyle> {
    Seq::new(n, |_i: int| BorderStyle::Single)
}

/// The length of the longest of `rows`.
pub open spec fn longest_row(rows: Seq<Seq<String>>) -> nat
    decreases rows.len(),
{
    if rows.len() == 0 {
        0
    } else {
        let before = longest_row(rows.drop_last());
        if rows.last().len() > before {
            rows.last().len()
        } else {
            before
        }
    }
}

/// The number of gridlines a new table gets for `n` rows or columns: one on
/// each side of each, and at least two.
pub open spec fn initial_lines(n: usize) -> usize {
    if n == 0 {
        2
    } else {
        n.saturating_add(1)
    }
}

/// A stylable, rectangular table for terminal output.
///
/// The gridline tracks hold one weight per vertical (horizontal) gridline,
/// the outline included: entry 0 is the left (top) side of the table, the
/// entry after the last column (row) its right (bottom) side. A gridline
/// past the end of its track is `Single`.
#[derive(Debug, PartialEq)]
pub struct FancyTable {
    /// Access: `cells[row][col]`
    cells: Vec<Vec<FancyCell>>,
    /// Set when columns were added to a table without rows, which made one
    /// row: the next call of `add_rows` counts that row among those it adds.
    added_column_first: bool,
    vertical_separator_styles: Vec<BorderStyle>,
    horizontal_separator_styles: Vec<BorderStyle>,
    column_width: ColumnWidth,
}

impl FancyTable {
    /// The cells, row by row.
    pub closed spec fn grid(&self) -> Seq<Seq<FancyCell>> {
        self.cells@.map_values(|row: Vec<FancyCell>| row@)
    }

    /// The weights of the vertical gridlines, left to right.
    pub closed spec fn vertical_lines(&self) -> Seq<BorderStyle> {
        self.vertical_separator_styles@
    }

    /// The weights of the horizontal gridlines, top to bottom.
    pub closed spec fn horizontal_lines(&self) -> Seq<BorderStyle> {
        self.horizontal_separator_styles@
    }

    /// Whether the one row that adding columns to an empty table made is
    /// still to be counted by the next `add_rows`.
    pub closed spec fn pending_column_row(&self) -> bool {
        self.added_column_first
    }

    /// The width mode of the columns.
    pub closed spec fn width_mode(&self) -> ColumnWidth {
        self.column_width
    }

    /// The number of rows.
    pub open spec fn row_count(&self) -> nat {
        self.grid().len()
    }

    /// The number of columns: the length of the first row.
    pub open spec fn column_count(&self) -> nat {
        if self.grid().len() == 0 {
            0
        } else {
            self.grid()[0].len()
        }
    }

    /// Every row has as many cells as the first.
    pub open spec fn is_rectangular(&self) -> bool {
        forall|i: int| 0 <= i < self.row_count() ==> #[trigger] self.grid()[i].len() == self.column_count()
    }

    /// The table is rectangular, and a row that adding columns made waits
    /// to be counted only where there is one.
    pub open spec fn is_well_formed(&self) -> bool {
        &&& self.is_rectangular()
        &&& self.pending_column_row() ==> self.row_count() >= 1
    }

    /// The cell at row `r`, column `c`, if there is one.
    pub open spec fn cell_at(&self, r: int, c: int) -> Option<FancyCell> {
        if 0 <= r < self.row_count() && 0 <= c < self.grid()[r].len() {
            Some(self.grid()[r][c])
        } else {
            None
        }
    }

    /// Creates a table from rows of texts, one cell per text. Rows shorter
    /// than the longest are filled up with default cells, so that the table
    /// is rectangular. All gridlines are single.
    pub fn new(content: Vec<Vec<String>>) -> (r: FancyTable)
        ensures
            r.is_well_formed(),
            r.row_count() == content.len(),
            r.row_count() > 0 ==> r.column_count() == longest_row(content@.map_values(|row: Vec<String>| row@)),
            forall|i: int, j: int|
                0 <= i < r.row_count() && 0 <= j < r.column_count() ==> {
                    let cell = #[trigger] r.grid()[i][j];
                    if j < content@[i].len() {
                        cell.lines() == cell_lines_of(content@[i][j]@) && cell.has_default_attributes()
                    } else {
                        cell.is_blank_default()
                    }
                },
            r.vertical_lines() == single_lines(initial_lines(longest_row(content@.map_values(|row: Vec<String>| row@)) as usize) as nat),
            r.horizontal_lines() == single_lines(initial_lines(content.len()) as nat),
            !r.pending_column_row(),
            r.width_mode() == ColumnWidth::Dynamic,
    {
        let ghost rows = content@.map_values(|row: Vec<String>| row@);
        let mut columns: usize = 0;
        let mut i: usize = 0;
        while i < content.len()
            invariant
                i <= content.len(),
                rows == content@.map_values(|row: Vec<String>| row@),
                columns == longest_row(rows.take(i as int)),
            decreases content.len() - i,
        {
            assert(rows.take(i + 1).drop_last() =~= rows.take(i as int));
            if content[i].len() > columns {
                columns = content[i].len();
            }
            i = i + 1;
        }
        assert(rows.take(content.len() as int) =~= rows);
        let mut cells: Vec<Vec<FancyCell>> = Vec::new();
        let mut i: usize = 0;
        while i < content.len()
            invariant
                i <= content.len(),
                cells@.len() == i,
                forall|a: int| 0 <= a < i ==> (#[trigger] cells@[a]).len() == columns,
                forall|a: int, b: int|
                    0 <= a < i && 0 <= b < columns ==> {
                        let cell = #[trigger] cells@[a]@[b];
                        if b < content@[a].len() {
                            cell.lines() == cell_lines_of(content@[a][b]@) && cell.has_default_attributes()
                        } else {
                            cell.is_blank_default()
                        }
                    },
            decreases content.len() - i,
        {
            let mut row: Vec<FancyCell> = Vec::new();
            let mut j: usize = 0;
            while j < columns
                invariant
                    i < content.len(),
                    j <= columns,
                    row@.len() == j,
                    forall|b: int|
                        0 <= b < j ==> {
                            let cell = #[trigger] row@[b];
                            if b < content@[i as int].len() {
                                cell.lines() == cell_lines_of(content@[i as int][b]@) && cell.has_default_attributes()
                            } else {
                                cell.is_blank_default()
                            }
                        },
                decreases columns - j,
            {
                if j < content[i].len() {
                    row.push(FancyCell::new(content[i][j].clone()));
                } else {
                    row.push(FancyCell::default());
                }
                j = j + 1;
            }
            cells.push(row);
            i = i + 1;
        }
        let vertical = if columns == 0 {
            2
        } else {
            columns.saturating_add(1)
        };
        let horizontal = if content.len() == 0 {
            2
        } else {
            content.len().saturating_add(1)
        };
        let r = FancyTable {
            vertical_separator_styles: single_track(vertical),
            horizontal_separator_styles: single_track(horizontal),
            added_column_first: false,
            cells,
            column_width: ColumnWidth::Dynamic,
        };
        proof {
            assert forall|i: int| 0 <= i < r.row_count() implies #[trigger] r.grid()[i].len()
                == r.column_count() by {
                assert(r.grid()[i] == r.cells@[i]@);
                assert(r.grid()[0] == r.cells@[0]@);
            }
            assert forall|i: int, j: int|
                0 <= i < r.row_count() && 0 <= j < r.column_count() implies {
                    let cell = #[trigger] r.grid()[i][j];
                    if j < content@[i].len() {
                        cell.lines() == cell_lines_of(content@[i][j]@) && cell.has_default_attributes()
                    } else {
                        cell.is_blank_default()
                    }
                } by {
                assert(r.grid()[i] == r.cells@[i]@);
                assert(r.grid()[0] == r.cells@[0]@);
            }
        }
        r
    }

    /// Adds `n` rows of default cells at the bottom, as wide as the table,
    /// and a single gridline below each.
    ///
    /// Where columns were added while the table had no rows, which made one
    /// row, and no rows were added since, that row counts among the `n`: one
    /// row fewer is added (unless `n` is 0, which changes nothing).
    pub fn add_rows(&mut self, n: usize)
        ensures
            ({
                let k: nat = if old(self).pending_column_row() && n > 0 {
                    (n - 1) as nat
                } else {
                    n as nat
                };
                &&& final(self).row_count() == old(self).row_count() + k
                &&& final(self).horizontal_lines() == old(self).horizontal_lines() + single_lines(k)
            }),
            old(self).is_well_formed() ==> final(self).is_well_formed(),
            final(self).column_count() == old(self).column_count(),
            forall|i: int| 0 <= i < old(self).row_count() ==> #[trigger] final(self).grid()[i] == old(self).grid()[i],
            forall|i: int|
                old(self).row_count() <= i < final(self).row_count() ==> all_blank(
                    #[trigger] final(self).grid()[i],
                ),
            final(self).pending_column_row() == (old(self).pending_column_row() && n == 0),
            final(self).vertical_lines() == old(self).vertical_lines(),
            final(self).width_mode() == old(self).width_mode(),
    {
        if n == 0 {
            return;
        }
        let mut rows = n;
        if self.added_column_first {
            self.added_column_first = false;
            rows = rows - 1;
        }
        let mut cells: Vec<Vec<FancyCell>> = Vec::new();
        std::mem::swap(&mut cells, &mut self.cells);
        let mut lines: Vec<BorderStyle> = Vec::new();
        std::mem::swap(&mut lines, &mut self.horizontal_separator_styles);
        let cols = if cells.len() == 0 {
            0
        } else {
            cells[0].len()
        };
        let ghost old_grid = old(self).grid();
        let ghost old_lines = old(self).horizontal_lines();
        let mut i: usize = 0;
        while i < rows
            invariant
                i <= rows,
                cols == old(self).column_count(),
                old_grid == old(self).grid(),
                old_lines == old(self).horizontal_lines(),
                cells@.len() == old_grid.len() + i,
                lines@ == old_lines + single_lines(i as nat),
                forall|a: int| 0 <= a < old_grid.len() ==> #[trigger] cells@[a]@ == old_grid[a],
                forall|a: int|
                    old_grid.len() <= a < cells@.len() ==> #[trigger] cells@[a]@.len() == cols
                        && all_blank(cells@[a]@),
            decreases rows - i,
        {
            cells.push(blank_row(cols));
            lines.push(BorderStyle::Single);
            i = i + 1;
            assert(lines@ =~= old_lines + single_lines(i as nat));
        }
        self.cells = cells;
        self.horizontal_separator_styles = lines;
        proof {
            assert(self.grid().len() == cells@.len());
            if old(self).is_rectangular() {
                assert forall|a: int| 0 <= a < self.row_count() implies #[trigger] self.grid()[a].len()
                    == self.column_count() by {
                    assert(self.grid()[a] == cells@[a]@);
                    assert(self.grid()[0] == cells@[0]@);
                    if a < old_grid.len() {
                        assert(old_grid[a].len() == old(self).column_count());
                    }
                }
            }
            assert forall|a: int| 0 <= a < old(self).row_count() implies #[trigger] self.grid()[a]
                == old(self).grid()[a] by {
                assert(self.grid()[a] == cells@[a]@);
            }
            assert forall|a: int|
                old(self).row_count() <= a < self.row_count() implies all_blank(
                #[trigger] self.grid()[a],
            ) by {
                assert(self.grid()[a] == cells@[a]@);
            }
            if old(self).row_count() > 0 {
                assert(self.grid()[0] == old(self).grid()[0]);
            } else if self.row_count() > 0 {
                assert(self.grid()[0] == cells@[0]@);
            }
        }
    }

    /// Adds `n` columns of default cells at the right, and a single
    /// gridline right of each.
    ///
    /// A table without rows first gets one (empty) row, which the next
    /// [`add_rows`](FancyTable::add_rows) counts among those it adds: after
    /// `add_columns(2)` and `add_rows(2)` an empty table is 2 by 2.
    pub fn add_columns(&mut self, n: usize)
        ensures
            ({
                let base = if old(self).row_count() == 0 {
                    seq![Seq::<FancyCell>::empty()]
                } else {
                    old(self).grid()
                };
                &&& final(self).row_count() == base.len()
                &&& forall|i: int|
                    0 <= i < base.len() ==> (#[trigger] final(self).grid()[i]).len() == base[i].len() + n
                &&& forall|i: int, j: int|
                    0 <= i < base.len() && 0 <= j < base[i].len() ==> #[trigger] final(self).grid()[i][j]
                        == base[i][j]
                &&& forall|i: int, j: int|
                    0 <= i < base.len() && base[i].len() <= j < base[i].len() + n
                        ==> (#[trigger] final(self).grid()[i][j]).is_blank_default()
            }),
            old(self).is_well_formed() ==> final(self).is_well_formed(),
            final(self).column_count() == old(self).column_count() + n,
            final(self).pending_column_row() == (old(self).pending_column_row() || old(self).row_count() == 0),
            final(self).vertical_lines() == old(self).vertical_lines() + single_lines(n as nat),
            final(self).horizontal_lines() == old(self).horizontal_lines(),
            final(self).width_mode() == old(self).width_mode(),
    {
        let mut cells: Vec<Vec<FancyCell>> = Vec::new();
        std::mem::swap(&mut cells, &mut self.cells);
        let was_empty = cells.len() == 0;
        if was_empty {
            cells.push(Vec::new());
        }
        let ghost base = cells@.map_values(|row: Vec<FancyCell>| row@);
        let mut rows: Vec<Vec<FancyCell>> = Vec::new();
        let mut i: usize = 0;
        while i < cells.len()
            invariant
                i <= cells@.len(),
                base.len() == cells@.len(),
                forall|a: int| i <= a < base.len() ==> #[trigger] base[a] == cells@[a]@,
                rows@.len() == i,
                forall|a: int|
                    0 <= a < i ==> {
                        &&& (#[trigger] rows@[a])@.len() == base[a].len() + n
                        &&& rows@[a]@.subrange(0, base[a].len() as int) == base[a]
                        &&& all_blank(rows@[a]@.subrange(base[a].len() as int, base[a].len() + n))
                    },
            decreases cells@.len() - i,
        {
            let mut row: Vec<FancyCell> = Vec::new();
            std::mem::swap(&mut row, &mut cells[i]);
            extend_row(&mut row, n);
            rows.push(row);
            i = i + 1;
        }
        let mut track: Vec<BorderStyle> = Vec::new();
        std::mem::swap(&mut track, &mut self.vertical_separator_styles);
        let ghost old_track = track@;
        let mut j: usize = 0;
        while j < n
            invariant
                j <= n,
                track@ == old_track + single_lines(j as nat),
            decreases n - j,
        {
            track.push(BorderStyle::Single);
            j = j + 1;
            assert(track@ =~= old_track + single_lines(j as nat));
        }
        self.vertical_separator_styles = track;
        self.cells = rows;
        if was_empty {
            self.added_column_first = true;
        }
        proof {
            assert(self.grid().len() == base.len());
            assert forall|a: int| 0 <= a < base.len() implies (#[trigger] self.grid()[a]).len()
                == base[a].len() + n by {
                assert(self.grid()[a] == rows@[a]@);
            }
            assert forall|a: int, b: int|
                0 <= a < base.len() && 0 <= b < base[a].len() implies #[trigger] self.grid()[a][b]
                == base[a][b] by {
                assert(self.grid()[a] == rows@[a]@);
                assert(rows@[a]@.subrange(0, base[a].len() as int)[b] == rows@[a]@[b]);
            }
            assert forall|a: int, b: int|
                0 <= a < base.len() && base[a].len() <= b < base[a].len() + n implies (
                #[trigger] self.grid()[a][b]).is_blank_default() by {
                assert(self.grid()[a] == rows@[a]@);
                assert(rows@[a]@.subrange(base[a].len() as int, base[a].len() + n)[b - base[a].len()]
                    == rows@[a]@[b]);
            }
            if old(self).row_count() > 0 {
                assert(base[0] == old(self).grid()[0]);
            }
            if old(self).is_rectangular() {
                assert forall|a: int| 0 <= a < self.row_count() implies #[trigger] self.grid()[a].len()
                    == self.column_count() by {
                    assert(self.grid()[a].len() == base[a].len() + n);
                    assert(self.grid()[0].len() == base[0].len() + n);
                    if old(self).row_count() > 0 {
                        assert(base[a] == old(self).grid()[a]);
                    }
                }
            }
        }
    }

    /// The cell at row `row_idx`, column `col_idx`, to change in place;
    /// `None` where there is none.
    pub fn get_mut(&mut self, row_idx: usize, col_idx: usize) -> (r: Option<&mut FancyCell>)
        ensures
            r.is_some() == old(self).cell_at(row_idx as int, col_idx as int).is_some(),
            r.is_none() ==> *final(self) == *old(self),
            r.is_some() ==> {
                &&& *r.unwrap() == old(self).grid()[row_idx as int][col_idx as int]
                &&& final(self).grid() == old(self).grid().update(
                    row_idx as int,
                    old(self).grid()[row_idx as int].update(col_idx as int, *final(r.unwrap())),
                )
                &&& final(self).vertical_lines() == old(self).vertical_lines()
                &&& final(self).horizontal_lines() == old(self).horizontal_lines()
                &&& final(self).pending_column_row() == old(self).pending_column_row()
                &&& final(self).width_mode() == old(self).width_mode()
            },
    {
        if row_idx < self.cells.len() && col_idx < self.cells[row_idx].len() {
            let row = &mut self.cells[row_idx];
            let cell = &mut row[col_idx];
            Some(cell)
        } else {
            None
        }
    }

    /// The cell at row `row_idx`, column `col_idx`; `None` where there is
    /// none.
    pub fn get(&self, row_idx: usize, col_idx: usize) -> (r: Option<&FancyCell>)
        ensures
            r.is_some() == self.cell_at(row_idx as int, col_idx as int).is_some(),
            r.is_some() ==> *r.unwrap() == self.grid()[row_idx as int][col_idx as int],
    {
        if row_idx < self.cells.len() && col_idx < self.cells[row_idx].len() {
            Some(&self.cells[row_idx][col_idx])
        } else {
            None
        }
    }

    /// The cell at row `row`, column `col`; `None` where there is none,
    /// negative indexes included.
    pub fn get_cell(&self, row: i64, col: i64) -> (r: Option<&FancyCell>)
        ensures
            r.is_some() == self.cell_at(row as int, col as int).is_some(),
            r.is_some() ==> *r.unwrap() == self.grid()[row as int][col as int],
    {
        if row < 0 || col < 0 {
            return None;
        }
        if row as u64 >= self.cells.len() as u64 {
            return None;
        }
        let r = row as usize;
        if col as u64 >= self.cells[r].len() as u64 {
            return None;
        }
        self.get(r, col as usize)
    }

    /// The number of rows.
    pub fn get_row_count(&self) -> (r: usize)
        ensures
            r == self.row_count(),
    {
        self.cells.len()
    }

    /// The number of columns: the length of the first row, 0 without rows.
    pub fn get_column_count(&self) -> (r: usize)
        ensures
            r == self.column_count(),
    {
        if self.cells.len() != 0 {
            self.cells[0].len()
        } else {
            0
        }
    }

    /// The weight of vertical gridline `idx` (0 is the left side of the
    /// table); `None` past the end of the track.
    pub fn get_vertical_separator_style(&self, idx: usize) -> (r: Option<&BorderStyle>)
        ensures
            r.is_some() == (idx < self.vertical_lines().len()),
            r.is_some() ==> *r.unwrap() == self.vertical_lines()[idx as int],
    {
        if idx < self.vertical_separator_styles.len() {
            Some(&self.vertical_separator_styles[idx])
        } else {
            None
        }
    }

    /// The weight of horizontal gridline `idx` (0 is the top side of the
    /// table); `None` past the end of the track.
    pub fn get_horizontal_separator_style(&self, idx: usize) -> (r: Option<&BorderStyle>)
        ensures
            r.is_some() == (idx < self.horizontal_lines().len()),
            r.is_some() ==> *r.unwrap() == self.horizontal_lines()[idx as int],
    {
        if idx < self.horizontal_separator_styles.len() {
            Some(&self.horizontal_separator_styles[idx])
        } else {
            None
        }
    }

    /// Sets the weight of vertical gridline `idx`.
    pub fn set_vertical_separator_style(&mut self, idx: usize, style: BorderStyle)
        requires
            idx < old(self).vertical_lines().len(),
        ensures
            final(self).vertical_lines() == old(self).vertical_lines().update(idx as int, style),
            final(self).grid() == old(self).grid(),
            final(self).horizontal_lines() == old(self).horizontal_lines(),
            final(self).pending_column_row() == old(self).pending_column_row(),
            final(self).width_mode() == old(self).width_mode(),
    {
        self.vertical_separator_styles.set(idx, style);
    }

    /// Sets the weight of horizontal gridline `idx`.
    pub fn set_horizontal_separator_style(&mut self, idx: usize, style: BorderStyle)
        requires
            idx < old(self).horizontal_lines().len(),
        ensures
            final(self).horizontal_lines() == old(self).horizontal_lines().update(idx as int, style),
            final(self).grid() == old(self).grid(),
            final(self).vertical_lines() == old(self).vertical_lines(),
            final(self).pending_column_row() == old(self).pending_column_row(),
            final(self).width_mode() == old(self).width_mode(),
    {
        self.horizontal_separator_styles.set(idx, style);
    }

    /// The width mode of the columns.
    pub fn get_column_width(&self) -> (r: ColumnWidth)
        ensures
            r == self.width_mode(),
    {
        self.column_width
    }

    /// Sets the width mode of the columns.
    pub fn set_column_width(&mut self, width: ColumnWidth)
        ensures
            final(self).width_mode() == width,
            final(self).grid() == old(self).grid(),
            final(self).vertical_lines() == old(self).vertical_lines(),
            final(self).horizontal_lines() == old(self).horizontal_lines(),
            final(self).pending_column_row() == old(self).pending_column_row(),
    {
        self.column_width = width;
    }
}

impl FancyTable {
    /// Puts `cell` at row `row_idx`, column `col_idx`, first adding rows
    /// and then columns of default cells where the table is too small.
    /// Returns whether rows or columns were added.
    ///
    /// A row that adding columns to an empty table made counts as one of
    /// the table's rows: the rows added are exactly those that `row_idx`
    /// lacks.
    pub fn set(&mut self, row_idx: usize, col_idx: usize, cell: FancyCell) -> (r: bool)
        requires
            row_idx < usize::MAX,
            col_idx < usize::MAX,
        ensures
            old(self).is_well_formed() ==> {
                &&& r == (row_idx >= old(self).row_count() || col_idx >= old(self).column_count())
                &&& final(self).is_well_formed()
                &&& final(self).row_count() == if row_idx < old(self).row_count() {
                    old(self).row_count()
                } else {
                    (row_idx + 1) as nat
                }
                &&& final(self).column_count() == if col_idx < old(self).column_count() {
                    old(self).column_count()
                } else {
                    (col_idx + 1) as nat
                }
                &&& final(self).grid()[row_idx as int][col_idx as int] == cell
                &&& forall|i: int, j: int|
                    0 <= i < final(self).row_count() && 0 <= j < final(self).column_count() && !(i
                        == row_idx && j == col_idx) ==> if i < old(self).row_count() && j
                        < old(self).column_count() {
                        #[trigger] final(self).grid()[i][j] == old(self).grid()[i][j]
                    } else {
                        final(self).grid()[i][j].is_blank_default()
                    }
                &&& final(self).pending_column_row() == (old(self).pending_column_row() && row_idx
                    < old(self).row_count())
                &&& final(self).vertical_lines() == old(self).vertical_lines() + single_lines(
                    (final(self).column_count() - old(self).column_count()) as nat,
                )
                &&& final(self).horizontal_lines() == old(self).horizontal_lines() + single_lines(
                    (final(self).row_count() - old(self).row_count()) as nat,
                )
            },
            final(self).width_mode() == old(self).width_mode(),
    {
        let mut edited = false;
        let rows = self.cells.len();
        if row_idx >= rows {
            let needed = row_idx - rows + 1;
            if self.added_column_first && needed < usize::MAX {
                self.add_rows(needed + 1);
            } else {
                self.add_rows(needed);
            }
            edited = true;
        }
        if row_idx < self.cells.len() {
            let len = self.cells[row_idx].len();
            if col_idx >= len {
                self.add_columns(col_idx - len + 1);
                edited = true;
            }
            if col_idx < self.cells[row_idx].len() {
                self.put(row_idx, col_idx, cell);
            }
        }
        edited
    }

    fn put(&mut self, row_idx: usize, col_idx: usize, cell: FancyCell)
        requires
            row_idx < old(self).row_count(),
            col_idx < old(self).grid()[row_idx as int].len(),
        ensures
            final(self).grid() == old(self).grid().update(
                row_idx as int,
                old(self).grid()[row_idx as int].update(col_idx as int, cell),
            ),
            final(self).vertical_lines() == old(self).vertical_lines(),
            final(self).horizontal_lines() == old(self).horizontal_lines(),
            final(self).pending_column_row() == old(self).pending_column_row(),
            final(self).width_mode() == old(self).width_mode(),
    {
        let mut row: Vec<FancyCell> = Vec::new();
        std::mem::swap(&mut row, &mut self.cells[row_idx]);
        row.set(col_idx, cell);
        self.cells.set(row_idx, row);
        assert(self.grid() =~= old(self).grid().update(
            row_idx as int,
            old(self).grid()[row_idx as int].update(col_idx as int, cell),
        ));
    }
}

impl Default for FancyTable {
    /// A table without rows or columns, and with empty gridline tracks.
    fn default() -> (r: FancyTable)
        ensures
            r.row_count() == 0,
            r.is_well_formed(),
            r.vertical_lines() == Seq::<BorderStyle>::empty(),
            r.horizontal_lines() == Seq::<BorderStyle>::empty(),
            r.width_mode() == ColumnWidth::Dynamic,
    {
        let r = FancyTable {
            cells: Vec::new(),
            added_column_first: false,
            vertical_separator_styles: Vec::new(),
            horizontal_separator_styles: Vec::new(),
            column_width: ColumnWidth::Dynamic,
        };
        assert(r.grid() =~= Seq::<Seq<FancyCell>>::empty());
        r
    }
}

/// Every cell of `s` is a blank default cell.
pub open spec fn all_blank(s: Seq<FancyCell>) -> bool {
    forall|j: int| 0 <= j < s.len() ==> (#[trigger] s[j]).is_blank_default()
}

fn blank_row(n: usize) -> (r: Vec<FancyCell>)
    ensures
        r@.len() == n,
        all_blank(r@),
{
    let mut row: Vec<FancyCell> = Vec::new();
    let mut i: usize = 0;
    while i < n
        invariant
            i <= n,
            row@.len() == i,
            all_blank(row@),
        decreases n - i,
    {
        row.push(FancyCell::default());
        i = i + 1;
    }
    row
}

fn extend_row(row: &mut Vec<FancyCell>, n: usize)
    ensures
        final(row)@.len() == old(row)@.len() + n,
        final(row)@.subrange(0, old(row)@.len() as int) == old(row)@,
        all_blank(final(row)@.subrange(old(row)@.len() as int, final(row)@.len() as int)),
{
    let ghost start = row@;
    let mut i: usize = 0;
    while i < n
        invariant
            i <= n,
            row@.len() == start.len() + i,
            row@.subrange(0, start.len() as int) == start,
            all_blank(row@.subrange(start.len() as int, row@.len() as int)),
        decreases n - i,
    {
        let ghost before = row@;
        row.push(FancyCell::default());
        assert(row@.subrange(0, start.len() as int) =~= before.subrange(0, start.len() as int));
        assert(row@.subrange(start.len() as int, row@.len() as int) =~= before.subrange(
            start.len() as int,
            before.len() as int,
        ).push(row@.last()));
        i = i + 1;
    }
}

fn single_track(n: usize) -> (r: Vec<BorderStyle>)
    ensures
        r@ == single_lines(n as nat),
{
    let mut track: Vec<BorderStyle> = Vec::new();
    let mut i: usize = 0;
    while i < n
        invariant
            i <= n,
            track@ == single_lines(i as nat),
        decreases n - i,
    {
        track.push(BorderStyle::Single);
        i = i + 1;
        assert(track@ =~= single_lines(i as nat));
    }
    track
}

} // verus!
