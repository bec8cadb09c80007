use fancytable::cell::multiline_from_string;
use fancytable::style::{ColumnWidth, HorizontalAlignment, VerticalAlignment};
use fancytable::FancyCell;

#[test]
fn lines_split_at_line_feeds() {
    assert_eq!(multiline_from_string("a\nb".to_string()), vec!["a", "b"]);
    assert_eq!(multiline_from_string("a\r\nb\n".to_string()), vec!["a", "b"]);
    assert_eq!(multiline_from_string("a\n\nb".to_string()), vec!["a", "", "b"]);
    assert_eq!(multiline_from_string("\n".to_string()), vec![""]);
    assert_eq!(multiline_from_string("x\r".to_string()), vec!["x\r"]);
    assert!(multiline_from_string(String::new()).is_empty());
}

#[test]
fn new_cell_has_default_attributes() {
    let cell = FancyCell::new("A 🆕\ncell".to_string());
    assert_eq!(cell.get_content(), &vec!["A 🆕".to_string(), "cell".to_string()]);
    assert_eq!(cell.padding, 1);
    assert_eq!(cell.horizontal_alignment, HorizontalAlignment::Left);
    assert_eq!(cell.vertical_alignment, VerticalAlignment::Top);
}

#[test]
fn empty_text_gives_one_empty_line() {
    let cell = FancyCell::new(String::new());
    assert_eq!(cell.get_content(), &vec![String::new()]);
    assert_eq!(cell.get_height(ColumnWidth::Dynamic), 1);
}

#[test]
fn default_cell_holds_one_blank_line() {
    let cell = FancyCell::default();
    assert_eq!(cell.get_content(), &vec![" ".to_string()]);
    assert_eq!(cell.get_width(ColumnWidth::Dynamic), 3);
}

#[test]
fn set_content_replaces_lines() {
    let mut cell = FancyCell::new("old".to_string());
    cell.padding = 4;
    cell.set_content("x\ny\nz".to_string());
    assert_eq!(cell.get_content().len(), 3);
    assert_eq!(cell.padding, 4);
}

#[test]
fn line_accessors() {
    let mut cell = FancyCell::new("ab\ncd".to_string());
    cell.set_line(1, "ef".to_string());
    assert_eq!(cell.get_content()[1], "ef");
    if let Some(line) = cell.get_mut_line(0) {
        line.push('!');
    }
    assert_eq!(cell.get_content()[0], "ab!");
    assert!(cell.get_mut_line(2).is_none());
    cell.get_mut_content().push("gh".to_string());
    assert_eq!(cell.get_height(ColumnWidth::Dynamic), 3);
}

#[test]
fn padded_line() {
    let mut cell = FancyCell::new("ab".to_string());
    cell.padding = 2;
    assert_eq!(cell.get_line(0, ColumnWidth::Dynamic), Some("  ab  ".to_string()));
    assert_eq!(cell.get_line(1, ColumnWidth::Dynamic), None);
    assert_eq!(cell.get_line(0, ColumnWidth::Fixed(5)), Some(" ab ".to_string()));
}

#[test]
fn width_is_widest_padded_line() {
    let cell = FancyCell::new("abc\nabcdef".to_string());
    assert_eq!(cell.get_width(ColumnWidth::Dynamic), 8);
}

#[test]
fn width_grows_by_twice_the_padding() {
    let mut cell = FancyCell::new("abc".to_string());
    assert_eq!(cell.get_width(ColumnWidth::Dynamic), 5);
    cell.padding = 3;
    assert_eq!(cell.get_width(ColumnWidth::Dynamic), 9);
    cell.padding = 0;
    assert_eq!(cell.get_width(ColumnWidth::Dynamic), 3);
}

#[test]
fn width_ignores_escape_sequences() {
    let cell = FancyCell::new("\u{1b}[31mred\u{1b}[0m".to_string());
    assert_eq!(cell.get_width(ColumnWidth::Dynamic), 5);
}

#[test]
fn width_counts_wide_characters_twice() {
    let cell = FancyCell::new("日本".to_string());
    assert_eq!(cell.get_width(ColumnWidth::Dynamic), 6);
}

#[test]
fn fixed_width_is_width_plus_two() {
    let cell = FancyCell::new("a very long line of text".to_string());
    assert_eq!(cell.get_width(ColumnWidth::Fixed(5)), 7);
    assert_eq!(cell.get_width(ColumnWidth::Fixed(usize::MAX)), usize::MAX);
}

#[test]
fn fixed_width_wraps_into_lines() {
    let cell = FancyCell::new("The quick brown fox".to_string());
    let lines = cell.get_lines_with_fixed_width(5);
    assert_eq!(lines, vec!["The", "quick", "brown", "fox"]);
    assert!(lines.len() > 1);
    for line in &lines {
        assert!(line.chars().count() <= 5);
    }
    assert_eq!(cell.get_height(ColumnWidth::Fixed(5)), lines.len());
    assert_eq!(cell.get_line(1, ColumnWidth::Fixed(5)), Some(" quick ".to_string()));
}

#[test]
fn long_words_are_not_split() {
    let cell = FancyCell::new("extraordinary day".to_string());
    let lines = cell.get_lines_with_fixed_width(5);
    assert_eq!(lines, vec!["extraordinary", "day"]);
}

#[test]
fn wrapping_wrapped_lines_changes_nothing() {
    let cell = FancyCell::new("lorem ipsum dolor sit amet, consectetur adipiscing elit".to_string());
    let once = cell.get_lines_with_fixed_width(12);
    let again = FancyCell::new(once.join("\n")).get_lines_with_fixed_width(12);
    assert_eq!(once, again);
}

#[test]
fn each_line_wraps_separately() {
    let cell = FancyCell::new("aa bb\ncc".to_string());
    assert_eq!(cell.get_lines_with_fixed_width(3), vec!["aa", "bb", "cc"]);
    assert_eq!(cell.get_line_width(0, ColumnWidth::Fixed(3)), Some(4));
    assert_eq!(cell.get_line_width(3, ColumnWidth::Fixed(3)), None);
}
