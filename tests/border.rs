use fancytable::style::border::{
    get_center_symbol, get_common_cell_border_symbol, get_horizontal_symbol, get_vertical_symbol,
    merge_edge, style_based_selection, BorderLineStyle, BorderStyle,
};

const ALL: [BorderLineStyle; 4] = [
    BorderLineStyle::Solid,
    BorderLineStyle::Dashed,
    BorderLineStyle::Dotted,
    BorderLineStyle::NoLine,
];

#[test]
fn merge_keeps_the_stronger_style() {
    assert_eq!(merge_edge(BorderLineStyle::Solid, BorderLineStyle::Dashed), BorderLineStyle::Dashed);
    assert_eq!(merge_edge(BorderLineStyle::Dotted, BorderLineStyle::Dashed), BorderLineStyle::Dotted);
    assert_eq!(merge_edge(BorderLineStyle::Solid, BorderLineStyle::Solid), BorderLineStyle::Solid);
}

#[test]
fn merge_is_commutative_and_associative() {
    for a in ALL {
        for b in ALL {
            assert_eq!(merge_edge(a, b), merge_edge(b, a));
            for c in ALL {
                assert_eq!(merge_edge(merge_edge(a, b), c), merge_edge(a, merge_edge(b, c)));
            }
        }
    }
}

#[test]
fn merge_with_no_line_gives_no_line() {
    for x in ALL {
        assert_eq!(merge_edge(x, BorderLineStyle::NoLine), BorderLineStyle::NoLine);
        assert_eq!(merge_edge(BorderLineStyle::NoLine, x), BorderLineStyle::NoLine);
    }
}

#[test]
fn segment_symbols_single_weight() {
    let single = BorderStyle::Single;
    assert_eq!(get_horizontal_symbol(&BorderLineStyle::Solid, &single), "─");
    assert_eq!(get_horizontal_symbol(&BorderLineStyle::Dashed, &single), "╴");
    assert_eq!(get_horizontal_symbol(&BorderLineStyle::Dotted, &single), "┄");
    assert_eq!(get_horizontal_symbol(&BorderLineStyle::NoLine, &single), " ");
    assert_eq!(get_vertical_symbol(&BorderLineStyle::Solid, &single), "│");
    assert_eq!(get_vertical_symbol(&BorderLineStyle::Dashed, &single), "╵");
    assert_eq!(get_vertical_symbol(&BorderLineStyle::Dotted, &single), "┆");
    assert_eq!(get_vertical_symbol(&BorderLineStyle::NoLine, &single), " ");
}

#[test]
fn double_weight_draws_solid_double_lines() {
    let double = BorderStyle::Double;
    for line in [BorderLineStyle::Solid, BorderLineStyle::Dashed, BorderLineStyle::Dotted] {
        assert_eq!(get_horizontal_symbol(&line, &double), "═");
        assert_eq!(get_vertical_symbol(&line, &double), "║");
    }
    assert_eq!(get_horizontal_symbol(&BorderLineStyle::NoLine, &double), " ");
    assert_eq!(get_vertical_symbol(&BorderLineStyle::NoLine, &double), " ");
}

#[test]
fn selection_by_weights() {
    let (s, d) = (BorderStyle::Single, BorderStyle::Double);
    assert_eq!(style_based_selection(s, s, "a", "b", "c", "d"), "a");
    assert_eq!(style_based_selection(d, s, "a", "b", "c", "d"), "b");
    assert_eq!(style_based_selection(s, d, "a", "b", "c", "d"), "c");
    assert_eq!(style_based_selection(d, d, "a", "b", "c", "d"), "d");
}

#[test]
fn junction_shapes_single() {
    let s = BorderStyle::Single;
    assert_eq!(get_center_symbol(false, false, false, false, s, s), " ");
    assert_eq!(get_center_symbol(true, true, true, true, s, s), "┼");
    assert_eq!(get_center_symbol(false, true, true, true, s, s), "┬");
    assert_eq!(get_center_symbol(true, true, true, false, s, s), "┴");
    assert_eq!(get_center_symbol(true, false, true, true, s, s), "├");
    assert_eq!(get_center_symbol(true, true, false, true, s, s), "┤");
    assert_eq!(get_center_symbol(false, true, true, false, s, s), "─");
    assert_eq!(get_center_symbol(true, false, false, true, s, s), "│");
    assert_eq!(get_center_symbol(false, false, true, true, s, s), "┌");
    assert_eq!(get_center_symbol(false, true, false, true, s, s), "┐");
    assert_eq!(get_center_symbol(true, false, true, false, s, s), "└");
    assert_eq!(get_center_symbol(true, true, false, false, s, s), "┘");
    assert_eq!(get_center_symbol(true, false, false, false, s, s), "╵");
    assert_eq!(get_center_symbol(false, true, false, false, s, s), "╴");
    assert_eq!(get_center_symbol(false, false, true, false, s, s), "╶");
    assert_eq!(get_center_symbol(false, false, false, true, s, s), "╷");
}

#[test]
fn junction_weights() {
    let (s, d) = (BorderStyle::Single, BorderStyle::Double);
    assert_eq!(get_center_symbol(true, true, true, true, d, s), "╪");
    assert_eq!(get_center_symbol(true, true, true, true, s, d), "╫");
    assert_eq!(get_center_symbol(true, true, true, true, d, d), "╬");
    assert_eq!(get_center_symbol(true, false, true, true, d, s), "╞");
    assert_eq!(get_center_symbol(true, false, true, true, s, d), "╟");
    assert_eq!(get_center_symbol(true, false, true, true, d, d), "╠");
    assert_eq!(get_center_symbol(false, false, true, true, d, d), "╔");
    assert_eq!(get_center_symbol(true, true, false, false, s, d), "╜");
    assert_eq!(get_center_symbol(false, true, true, false, d, s), "═");
    assert_eq!(get_center_symbol(true, false, false, true, s, d), "║");
    assert_eq!(get_center_symbol(false, false, false, true, s, d), "║");
    assert_eq!(get_center_symbol(false, true, false, false, d, s), "═");
}

#[test]
fn common_symbol_without_cells_is_blank() {
    let s = BorderStyle::Single;
    assert_eq!(get_common_cell_border_symbol(None, None, None, None, s, s), " ");
}

#[test]
fn common_symbol_of_one_cell_is_a_corner() {
    let s = BorderStyle::Single;
    let cell = fancytable::FancyCell::default();
    assert_eq!(get_common_cell_border_symbol(None, None, None, Some(&cell), s, s), "┌");
    assert_eq!(get_common_cell_border_symbol(Some(&cell), None, None, None, s, s), "┘");
    let mut open = fancytable::FancyCell::default();
    open.border_style.top = BorderLineStyle::NoLine;
    assert_eq!(get_common_cell_border_symbol(None, None, None, Some(&open), s, s), "╷");
}
