use fancytable::style::border::{BorderLineStyle, BorderStyle};
use fancytable::style::{ColumnWidth, HorizontalAlignment, VerticalAlignment};
use fancytable::{FancyCell, FancyTable};

fn table_of(rows: &[&[&str]]) -> FancyTable {
    FancyTable::new(
        rows.iter()
            .map(|row| row.iter().map(|s| s.to_string()).collect())
            .collect(),
    )
}

#[test]
fn ragged_rows_are_filled_up() {
    let table = table_of(&[&["Hello", "World"], &["Lorem", "Ipsum", "dolor"]]);
    assert_eq!(table.get_row_count(), 2);
    assert_eq!(table.get_column_count(), 3);
    assert_eq!(table.get(0, 2), Some(&FancyCell::default()));
    let text = table.render();
    assert!(!text.is_empty());
    assert_eq!(
        text,
        "┌───────┬───────┬───────┐\n\
         │ Hello │ World │       │\n\
         ├───────┼───────┼───────┤\n\
         │ Lorem │ Ipsum │ dolor │\n\
         └───────┴───────┴───────┘"
    );
    assert_eq!(text.lines().next().unwrap().matches('┬').count(), 2);
}

#[test]
fn single_cell_renders_as_a_box() {
    let table = table_of(&[&["Hi"]]);
    assert_eq!(table.render(), "┌────┐\n│ Hi │\n└────┘");
}

#[test]
fn no_line_beats_a_solid_neighbour() {
    let mut table = table_of(&[&["A", "B"]]);
    table.get_mut(0, 0).unwrap().border_style.right = BorderLineStyle::NoLine;
    assert_eq!(table.get(0, 1).unwrap().border_style.left, BorderLineStyle::Solid);
    assert_eq!(table.render(), "┌───────┐\n│ A   B │\n└───────┘");
}

#[test]
fn columns_then_rows_make_the_requested_grid() {
    let mut table = FancyTable::default();
    table.add_columns(2);
    assert_eq!(table.get_row_count(), 1);
    table.add_rows(2);
    assert_eq!(table.get_row_count(), 2);
    assert_eq!(table.get_column_count(), 2);
    table.add_rows(2);
    assert_eq!(table.get_row_count(), 4);
}

#[test]
fn empty_tables_render_as_nothing() {
    assert_eq!(FancyTable::default().render(), "");
    assert_eq!(FancyTable::new(vec![]).render(), "");
    assert_eq!(FancyTable::new(vec![vec![], vec![]]).render(), "");
    let mut rows_only = FancyTable::default();
    rows_only.add_rows(3);
    assert_eq!(rows_only.get_row_count(), 3);
    assert_eq!(rows_only.render(), "");
}

#[test]
fn set_grows_the_table() {
    let mut table = FancyTable::default();
    assert!(table.set(5, 5, FancyCell::new("Hello World".to_string())));
    assert_eq!(table.get_row_count(), 6);
    assert_eq!(table.get_column_count(), 6);
    assert_eq!(table.get(5, 5).unwrap().get_content(), &vec!["Hello World".to_string()]);
    assert_eq!(table.get(0, 0), Some(&FancyCell::default()));
    assert!(!table.set(2, 3, FancyCell::new("x".to_string())));
    assert_eq!(table.get_row_count(), 6);
}

#[test]
fn set_after_columns_on_empty_table() {
    let mut table = FancyTable::default();
    table.add_columns(2);
    assert!(table.set(1, 0, FancyCell::new("x".to_string())));
    assert_eq!(table.get_row_count(), 2);
    assert_eq!(table.get_column_count(), 2);
    table.add_rows(1);
    assert_eq!(table.get_row_count(), 3);
}

#[test]
fn rows_stay_rectangular() {
    let mut table = table_of(&[&["a"], &["b", "c"]]);
    table.add_columns(2);
    table.add_rows(3);
    table.set(7, 1, FancyCell::new("z".to_string()));
    table.set(0, 9, FancyCell::new("y".to_string()));
    let columns = table.get_column_count();
    assert_eq!(columns, 10);
    for r in 0..table.get_row_count() {
        for c in 0..columns {
            assert!(table.get(r, c).is_some());
        }
        assert!(table.get(r, columns).is_none());
    }
}

#[test]
fn lookups_out_of_range() {
    let table = table_of(&[&["a", "b"]]);
    assert!(table.get(1, 0).is_none());
    assert!(table.get(0, 2).is_none());
    assert!(table.get_cell(-1, 0).is_none());
    assert!(table.get_cell(0, -1).is_none());
    assert_eq!(table.get_cell(0, 1).unwrap().get_content(), &vec!["b".to_string()]);
}

#[test]
fn separator_tracks_include_the_outline() {
    let mut table = table_of(&[&["a", "b", "c"], &["d", "e", "f"]]);
    assert_eq!(table.get_vertical_separator_style(3), Some(&BorderStyle::Single));
    assert_eq!(table.get_vertical_separator_style(4), None);
    assert_eq!(table.get_horizontal_separator_style(2), Some(&BorderStyle::Single));
    assert_eq!(table.get_horizontal_separator_style(3), None);
    table.set_vertical_separator_style(1, BorderStyle::Double);
    table.set_horizontal_separator_style(0, BorderStyle::Double);
    assert_eq!(table.get_vertical_separator_style(1), Some(&BorderStyle::Double));
    assert_eq!(
        table.render(),
        "╒═══╦═══╤═══╕\n\
         │ a ║ b │ c │\n\
         ├───╫───┼───┤\n\
         │ d ║ e │ f │\n\
         └───╨───┴───┘"
    );
}

#[test]
fn dashed_and_dotted_edges() {
    let mut table = table_of(&[&["a"], &["b"]]);
    table.get_mut(0, 0).unwrap().border_style.bottom = BorderLineStyle::Dashed;
    table.get_mut(1, 0).unwrap().border_style.left = BorderLineStyle::Dotted;
    assert_eq!(
        table.render(),
        "┌───┐\n\
         │ a │\n\
         ├╴╴╴┤\n\
         ┆ b │\n\
         └───┘"
    );
}

#[test]
fn shorter_cells_are_aligned_in_their_row() {
    let mut table = table_of(&[&["1\n2\n3", "top", "mid", "bot"]]);
    table.get_mut(0, 2).unwrap().vertical_alignment = VerticalAlignment::Center;
    table.get_mut(0, 3).unwrap().vertical_alignment = VerticalAlignment::Bottom;
    assert_eq!(table.get_row_height(0), 3);
    assert_eq!(
        table.render(),
        "┌───┬─────┬─────┬─────┐\n\
         │ 1 │ top │     │     │\n\
         │ 2 │     │ mid │     │\n\
         │ 3 │     │     │ bot │\n\
         └───┴─────┴─────┴─────┘"
    );
}

#[test]
fn narrower_lines_are_aligned_in_their_column() {
    let mut table = table_of(&[&["abcdef"], &["ab"], &["cd"], &["e"]]);
    table.get_mut(1, 0).unwrap().horizontal_alignment = HorizontalAlignment::Right;
    table.get_mut(2, 0).unwrap().horizontal_alignment = HorizontalAlignment::Center;
    table.get_mut(3, 0).unwrap().horizontal_alignment = HorizontalAlignment::Center;
    let text = table.render();
    let lines: Vec<&str> = text.lines().collect();
    assert_eq!(lines[1], "│ abcdef │");
    assert_eq!(lines[3], "│     ab │");
    assert_eq!(lines[5], "│   cd   │");
    assert_eq!(lines[7], "│   e    │");
}

#[test]
fn row_without_lines_draws_only_its_border() {
    let mut table = table_of(&[&["a"], &["b"]]);
    table.get_mut(0, 0).unwrap().get_mut_content().clear();
    assert_eq!(table.get_row_height(0), 0);
    assert_eq!(table.render(), "┌───┐\n├───┤\n│ b │\n└───┘");
}

#[test]
fn fixed_column_width_wraps_cells() {
    let mut table = table_of(&[&["The quick brown fox"]]);
    table.set_column_width(ColumnWidth::Fixed(5));
    assert_eq!(table.get_column_width(), ColumnWidth::Fixed(5));
    assert_eq!(table.get_row_height(0), 4);
    assert_eq!(
        table.render(),
        "┌───────┐\n\
         │ The   │\n\
         │ quick │\n\
         │ brown │\n\
         │ fox   │\n\
         └───────┘"
    );
}

#[test]
fn wide_characters_are_aligned_by_columns() {
    let table = table_of(&[&["日本"], &["abcd"]]);
    assert_eq!(table.render(), "┌──────┐\n│ 日本 │\n├──────┤\n│ abcd │\n└──────┘");
}

#[test]
fn cell_border_symbols_around_a_cell() {
    let mut table = table_of(&[&["a", "b"], &["c", "d"]]);
    table.get_mut(0, 1).unwrap().border_style.left = BorderLineStyle::Dotted;
    table.set_horizontal_separator_style(1, BorderStyle::Double);
    let (top, left, right, bottom) = fancytable::style::border::get_cell_border_symbols(&table, 0, 0);
    assert_eq!(top, "─");
    assert_eq!(left, "│");
    assert_eq!(right, "┆");
    assert_eq!(bottom, "═");
}
