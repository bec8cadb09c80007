//! A single cell: multi-line text with its presentation attributes.
use vstd::prelude::*;

use crate::style::border::{solid_border, BorderLineStyle, CellBorderStyle};
use crate::style::{ColumnWidth, HorizontalAlignment, VerticalAlignment};
use crate::text::{
    display_width, push_repeated, repeat_char, string_views, strip_escapes, stripped_of, width_of,
    wrap_line, wrap_of,
};

verus! {

#[verifier::external_type_specification]
#[verifier::external_body]
pub struct ExStyle(ansi_term::Style);

/// Relies on `ansi_term::Style::new`, which makes a style with no attribute
/// set; nothing of its value is used by the layout.
pub assume_specification[ ansi_term::Style::new ]() -> ansi_term::Style;

/// Relies on the `Clone` of `ansi_term::Style`, which cells are cloned with;
/// nothing of its value is used by the layout.
pub assume_specification[ <ansi_term::Style as Clone>::clone ](s: &ansi_term::Style) -> ansi_term::Style;

/// The pieces of `s` between line feeds, in order. There is always one
/// more piece than there are line feeds.
pub open spec fn split_at_newlines(s: Seq<char>) -> Seq<Seq<char>>
    decreases s.len(),
{
    if s.len() == 0 {
        seq![Seq::empty()]
    } else {
        let before = split_at_newlines(s.drop_last());
        if s.last() == '\n' {
            before.push(Seq::empty())
        } else {
            before.update(before.len() - 1, before.last().push(s.last()))
        }
    }
}

/// `p` without one carriage return at its end.
pub open spec fn trim_cr(p: Seq<char>) -> Seq<char> {
    if p.len() > 0 && p.last() == '\r' {
        p.drop_last()
    } else {
        p
    }
}

/// The lines of `s`. A line ends at a line feed or at a carriage return
/// and line feed; the last line needs no line feed, and an empty text has
/// no line.
pub open spec fn split_lines(s: Seq<char>) -> Seq<Seq<char>> {
    let pieces = split_at_newlines(s);
    let n: int = if s.len() == 0 {
        0
    } else if s.last() == '\n' {
        pieces.len() - 1
    } else {
        pieces.len() as int
    };
    Seq::new(n as nat, |i: int| if i < pieces.len() - 1 { trim_cr(pieces[i]) } else { pieces[i] })
}

/// The lines a cell holds once its text is `s`: those of `s`, or one empty
/// line where `s` has none.
pub open spec fn cell_lines_of(s: Seq<char>) -> Seq<Seq<char>> {
    if split_lines(s).len() == 0 {
        seq![Seq::empty()]
    } else {
        split_lines(s)
    }
}

proof fn lemma_split_at_newlines_nonempty(s: Seq<char>)
    ensures
        split_at_newlines(s).len() >= 1,
    decreases s.len(),
{
    if s.len() > 0 {
        lemma_split_at_newlines_nonempty(s.drop_last());
    }
}

fn split_newlines(s: &str) -> (r: (Vec<String>, bool))
    ensures
        string_views(r.0@) == split_at_newlines(s@),
        r.1 == (s@.len() > 0 && s@.last() == '\n'),
{
    let mut pieces: Vec<String> = Vec::new();
    let mut current = String::new();
    let mut last_newline = false;
    let ghost text = s@;
    for c in it: s.chars()
        invariant
            it.seq() == text,
            string_views(pieces@).push(current@) == split_at_newlines(text.take(it.index() as int)),
            last_newline == (it.index() > 0 && text[it.index() - 1] == '\n'),
    {
        let ghost i = it.index();
        proof {
            assert(text.take(i + 1).drop_last() =~= text.take(i));
            lemma_split_at_newlines_nonempty(text.take(i));
        }
        if c == '\n' {
            pieces.push(current);
            current = String::new();
            last_newline = true;
            assert(string_views(pieces@).push(current@) =~= split_at_newlines(text.take(i + 1)));
        } else {
            current.push(c);
            last_newline = false;
            assert(string_views(pieces@).push(current@) =~= split_at_newlines(text.take(i + 1)));
        }
    }
    pieces.push(current);
    assert(text.take(text.len() as int) =~= text);
    assert(string_views(pieces@) =~= split_at_newlines(text));
    (pieces, last_newline)
}

/// Splits the input into its lines, as [`split_lines`] states.
pub fn multiline_from_string(s: String) -> (r: Vec<String>)
    ensures
        string_views(r@) == split_lines(s@),
{
    let (pieces, ends_with_newline) = split_newlines(s.as_str());
    proof {
        lemma_split_at_newlines_nonempty(s@);
    }
    let n: usize = if s.as_str().is_empty() {
        0
    } else if ends_with_newline {
        pieces.len() - 1
    } else {
        pieces.len()
    };
    let mut lines: Vec<String> = Vec::new();
    let mut i: usize = 0;
    while i < n
        invariant
            n <= pieces.len(),
            string_views(pieces@) == split_at_newlines(s@),
            i <= n,
            n == split_lines(s@).len(),
            string_views(lines@) == split_lines(s@).take(i as int),
        decreases n - i,
    {
        let piece = pieces[i].as_str();
        assert(piece@ == split_at_newlines(s@)[i as int]);
        let line = if i + 1 < pieces.len() {
            trim_carriage_return(piece)
        } else {
            String::from_str(piece)
        };
        assert(line@ == split_lines(s@)[i as int]);
        let ghost before = lines@;
        lines.push(line);
        assert(string_views(lines@) =~= string_views(before).push(line@));
        assert(split_lines(s@).take(i + 1) =~= split_lines(s@).take(i as int).push(line@));
        i = i + 1;
    }
    assert(split_lines(s@).take(n as int) =~= split_lines(s@));
    lines
}

fn trim_carriage_return(p: &str) -> (r: String)
    ensures
        r@ == trim_cr(p@),
{
    let n = p.unicode_len();
    if n > 0 && p.get_char(n - 1) == '\r' {
        String::from_str(p.substring_char(0, n - 1))
    } else {
        String::from_str(p)
    }
}

/// `n` blank columns.
pub open spec fn spaces(n: nat) -> Seq<char> {
    repeat_char(' ', n)
}

/// `n`, or the largest `usize` where `n` does not fit.
pub open spec fn clamp_usize(n: nat) -> usize {
    if n <= usize::MAX {
        n as usize
    } else {
        usize::MAX
    }
}

/// The lines that wrapping each of `lines` at `width` makes, in order.
pub open spec fn wrapped_lines(lines: Seq<Seq<char>>, width: usize) -> Seq<Seq<char>>
    decreases lines.len(),
{
    if lines.len() == 0 {
        Seq::empty()
    } else {
        wrapped_lines(lines.drop_last(), width) + wrap_of(lines.last(), width)
    }
}

/// The columns that a line takes on screen once padded by `pad` blank
/// columns on each side: escape sequences take none.
pub open spec fn padded_width(pad: nat, line: Seq<char>) -> nat {
    2 * pad + width_of(stripped_of(line)) as nat
}

/// A single, stylable cell of a [`FancyTable`](crate::FancyTable).
///
/// A cell holds lines of text (never none, unless a caller empties
/// `content`), and a line style for each of its edges.
/// `style` is carried along for the caller and takes no part in layout.
#[derive(Debug, Clone, PartialEq)]
pub struct FancyCell {
    pub content: Vec<String>,
    pub border_style: CellBorderStyle,
    pub padding: usize,
    pub horizontal_alignment: HorizontalAlignment,
    pub vertical_alignment: VerticalAlignment,
    pub style: ansi_term::Style,
}

impl FancyCell {
    /// The lines of text the cell holds.
    pub open spec fn lines(&self) -> Seq<Seq<char>> {
        string_views(self.content@)
    }

    /// The attributes a new cell has: solid edges, a padding of one
    /// column, aligned top left.
    pub open spec fn has_default_attributes(&self) -> bool {
        &&& self.border_style == solid_border()
        &&& self.padding == 1
        &&& self.horizontal_alignment == HorizontalAlignment::Left
        &&& self.vertical_alignment == VerticalAlignment::Top
    }

    /// A cell as [`default`](FancyCell::default) makes it: one blank line,
    /// default attributes.
    pub open spec fn is_blank_default(&self) -> bool {
        self.lines() == seq![seq![' ']] && self.has_default_attributes()
    }

    /// `self` and `other` agree on everything but their text.
    pub open spec fn same_attributes(&self, other: &FancyCell) -> bool {
        &&& self.border_style == other.border_style
        &&& self.padding == other.padding
        &&& self.horizontal_alignment == other.horizontal_alignment
        &&& self.vertical_alignment == other.vertical_alignment
        &&& self.style == other.style
    }

    /// The lines that are drawn: the cell's own lines, or each of them
    /// wrapped at the fixed width.
    pub open spec fn display_lines(&self, mode: ColumnWidth) -> Seq<Seq<char>> {
        match mode {
            ColumnWidth::Dynamic => self.lines(),
            ColumnWidth::Fixed(w) => wrapped_lines(self.lines(), w),
        }
    }

    /// The blank columns on each side of a drawn line: the cell's padding,
    /// or exactly one under a fixed width.
    pub open spec fn pad(&self, mode: ColumnWidth) -> nat {
        match mode {
            ColumnWidth::Dynamic => self.padding as nat,
            ColumnWidth::Fixed(_) => 1,
        }
    }

    /// The drawn line `i`, with its padding.
    pub open spec fn padded_line(&self, mode: ColumnWidth, i: int) -> Seq<char> {
        spaces(self.pad(mode)) + self.display_lines(mode)[i] + spaces(self.pad(mode))
    }

    /// The columns that drawn line `i` takes, padding included.
    pub open spec fn line_width(&self, mode: ColumnWidth, i: int) -> nat {
        padded_width(self.pad(mode), self.display_lines(mode)[i])
    }

    /// The widest of the first `n` drawn lines (0 for none).
    pub open spec fn widest(&self, mode: ColumnWidth, n: int) -> nat
        decreases n,
    {
        if n <= 0 {
            0
        } else {
            let w = self.line_width(mode, n - 1);
            let before = self.widest(mode, n - 1);
            if w > before {
                w
            } else {
                before
            }
        }
    }

    /// The columns the cell needs: `w + 2` under `Fixed(w)`, else its
    /// widest padded line.
    pub open spec fn natural_width(&self, mode: ColumnWidth) -> nat {
        match mode {
            ColumnWidth::Fixed(w) => (w + 2) as nat,
            ColumnWidth::Dynamic => self.widest(mode, self.lines().len() as int),
        }
    }

    /// [`natural_width`](FancyCell::natural_width), held to `usize`.
    pub open spec fn width(&self, mode: ColumnWidth) -> usize {
        clamp_usize(self.natural_width(mode))
    }

    /// Creates a cell from a text, one line per line of the text (one empty
    /// line for an empty text), with default attributes.
    pub fn new(content: String) -> (r: FancyCell)
        ensures
            r.lines() == cell_lines_of(content@),
            r.has_default_attributes(),
    {
        let mut cell = FancyCell::default();
        cell.set_content(content);
        cell
    }

    /// The lines of the cell.
    pub fn get_content(&self) -> (r: &Vec<String>)
        ensures
            string_views(r@) == self.lines(),
    {
        &self.content
    }

    /// The lines of the cell, to change in place.
    pub fn get_mut_content(&mut self) -> (r: &mut Vec<String>)
        ensures
            string_views(r@) == old(self).lines(),
            final(self).lines() == string_views(final(r)@),
            final(self).same_attributes(old(self)),
    {
        &mut self.content
    }

    /// Replaces the text of the cell, one line per line of `content`.
    pub fn set_content(&mut self, content: String)
        ensures
            final(self).lines() == cell_lines_of(content@),
            final(self).same_attributes(old(self)),
    {
        let mut lines = multiline_from_string(content);
        if lines.len() == 0 {
            lines.push(String::new());
            assert(string_views(lines@) =~= seq![Seq::<char>::empty()]);
        }
        self.content = lines;
    }

    /// Line `line` of the cell, to change in place; `None` where the cell
    /// has no such line.
    pub fn get_mut_line(&mut self, line: usize) -> (r: Option<&mut String>)
        ensures
            r.is_some() == (line < old(self).lines().len()),
            r.is_none() ==> *final(self) == *old(self),
            r.is_some() ==> {
                &&& r.unwrap()@ == old(self).lines()[line as int]
                &&& final(self).lines() == old(self).lines().update(line as int, final(r.unwrap())@)
                &&& final(self).same_attributes(old(self))
            },
    {
        if line < self.content.len() {
            let r = &mut self.content[line];
            Some(r)
        } else {
            None
        }
    }

    /// Replaces line `line` of the cell.
    pub fn set_line(&mut self, line: usize, content: String)
        requires
            line < old(self).lines().len(),
        ensures
            final(self).lines() == old(self).lines().update(line as int, content@),
            final(self).same_attributes(old(self)),
    {
        self.content.set(line, content);
        assert(string_views(self.content@) =~= old(self).lines().update(line as int, content@));
    }
}

impl FancyCell {
    /// The number of lines the cell draws: its own lines, or the lines
    /// that wrapping them at the fixed width makes.
    pub fn get_height(&self, dynamic_width: ColumnWidth) -> (r: usize)
        ensures
            r == self.display_lines(dynamic_width).len(),
    {
        match dynamic_width {
            ColumnWidth::Dynamic => self.content.len(),
            ColumnWidth::Fixed(w) => self.get_lines_with_fixed_width(w).len(),
        }
    }

    /// The columns the cell takes on screen: `w + 2` under `Fixed(w)`,
    /// else the widest of its padded lines, escape sequences not counted
    /// (see [`width`](FancyCell::width)).
    pub fn get_width(&self, dynamic_width: ColumnWidth) -> (r: usize)
        ensures
            r == self.width(dynamic_width),
    {
        match dynamic_width {
            ColumnWidth::Fixed(w) => {
                if w <= usize::MAX - 2 {
                    w + 2
                } else {
                    usize::MAX
                }
            },
            ColumnWidth::Dynamic => {
                let mut best: usize = 0;
                let mut i: usize = 0;
                while i < self.content.len()
                    invariant
                        dynamic_width == ColumnWidth::Dynamic,
                        i <= self.content.len(),
                        best == clamp_usize(self.widest(dynamic_width, i as int)),
                    decreases self.content.len() - i,
                {
                    let w = measure(self.content[i].as_str(), self.padding);
                    assert(self.display_lines(dynamic_width)[i as int] == self.content@[i as int]@);
                    assert(w == clamp_usize(self.line_width(dynamic_width, i as int)));
                    if w > best {
                        best = w;
                    }
                    i = i + 1;
                }
                best
            },
        }
    }

    /// The drawn line `line` with its padding on both sides: the cell's
    /// padding, or one column under a fixed width. `None` where the cell
    /// draws no such line.
    pub fn get_line(&self, line: usize, width: ColumnWidth) -> (r: Option<String>)
        ensures
            r.is_some() == (line < self.display_lines(width).len()),
            r.is_some() ==> r.unwrap()@ == self.padded_line(width, line as int),
    {
        match self.display_line(line, width) {
            None => None,
            Some(text) => {
                let pad = self.pad_exec(width);
                let mut padded = String::new();
                push_repeated(&mut padded, ' ', pad);
                padded.append(text.as_str());
                push_repeated(&mut padded, ' ', pad);
                Some(padded)
            },
        }
    }

    /// The columns that drawn line `line` takes, padding included (see
    /// [`line_width`](FancyCell::line_width)); `None` where the cell draws
    /// no such line.
    pub fn get_line_width(&self, line: usize, width: ColumnWidth) -> (r: Option<usize>)
        ensures
            r.is_some() == (line < self.display_lines(width).len()),
            r.is_some() ==> r.unwrap() == clamp_usize(self.line_width(width, line as int)),
    {
        match self.display_line(line, width) {
            None => None,
            Some(text) => Some(measure(text.as_str(), self.pad_exec(width))),
        }
    }

    /// The lines of the cell, each wrapped at `width` columns, in order.
    pub fn get_lines_with_fixed_width(&self, width: usize) -> (r: Vec<String>)
        ensures
            string_views(r@) == wrapped_lines(self.lines(), width),
    {
        let mut content: Vec<String> = Vec::new();
        let mut i: usize = 0;
        while i < self.content.len()
            invariant
                i <= self.content.len(),
                string_views(content@) == wrapped_lines(self.lines().take(i as int), width),
            decreases self.content.len() - i,
        {
            let mut wrapped = wrap_line(self.content[i].as_str(), width);
            let ghost before = content@;
            let ghost added = wrapped@;
            content.append(&mut wrapped);
            proof {
                assert(self.lines().take(i + 1).drop_last() =~= self.lines().take(i as int));
                assert(string_views(content@) =~= string_views(before) + string_views(added));
            }
            i = i + 1;
        }
        assert(self.lines().take(self.content.len() as int) =~= self.lines());
        content
    }

    fn pad_exec(&self, mode: ColumnWidth) -> (r: usize)
        ensures
            r == self.pad(mode),
    {
        match mode {
            ColumnWidth::Dynamic => self.padding,
            ColumnWidth::Fixed(_) => 1,
        }
    }

    fn display_line(&self, line: usize, mode: ColumnWidth) -> (r: Option<String>)
        ensures
            r.is_some() == (line < self.display_lines(mode).len()),
            r.is_some() ==> r.unwrap()@ == self.display_lines(mode)[line as int],
    {
        match mode {
            ColumnWidth::Dynamic => {
                if line < self.content.len() {
                    Some(self.content[line].clone())
                } else {
                    None
                }
            },
            ColumnWidth::Fixed(w) => {
                let lines = self.get_lines_with_fixed_width(w);
                if line < lines.len() {
                    Some(lines[line].clone())
                } else {
                    None
                }
            },
        }
    }
}

proof fn lemma_widest_shifts(a: FancyCell, b: FancyCell, n: int)
    requires
        b.lines() == a.lines(),
        a.padding <= b.padding,
        1 <= n <= a.lines().len(),
    ensures
        b.widest(ColumnWidth::Dynamic, n) == a.widest(ColumnWidth::Dynamic, n) + 2 * (b.padding
            - a.padding),
    decreases n,
{
    let d = ColumnWidth::Dynamic;
    assert(b.line_width(d, n - 1) == a.line_width(d, n - 1) + 2 * (b.padding - a.padding));
    if n > 1 {
        lemma_widest_shifts(a, b, n - 1);
    } else {
        assert(a.widest(d, 0) == 0 && b.widest(d, 0) == 0);
    }
}

/// Under dynamic width, growing a cell's padding by `d` widens the cell by
/// exactly `2 * d` columns, as long as the cell has a line and its width
/// fits a `usize`.
pub proof fn lemma_padding_widens(a: FancyCell, b: FancyCell)
    requires
        b.lines() == a.lines(),
        a.lines().len() >= 1,
        a.padding < b.padding,
        b.natural_width(ColumnWidth::Dynamic) <= usize::MAX,
    ensures
        b.width(ColumnWidth::Dynamic) == a.width(ColumnWidth::Dynamic) + 2 * (b.padding
            - a.padding),
{
    lemma_widest_shifts(a, b, a.lines().len() as int);
}

/// The columns `line` takes once padded by `pad` on each side.
fn measure(line: &str, pad: usize) -> (r: usize)
    ensures
        r == clamp_usize(padded_width(pad as nat, line@)),
{
    let stripped = strip_escapes(line);
    let w = display_width(stripped.as_str());
    if pad <= (usize::MAX - w) / 2 {
        w + 2 * pad
    } else {
        usize::MAX
    }
}

impl Default for FancyCell {
    /// A cell holding one blank line, padded by one column, with solid
    /// edges, aligned top left.
    fn default() -> (r: FancyCell)
        ensures
            r.is_blank_default(),
    {
        let mut blank = String::new();
        blank.push(' ');
        let content = vec![blank];
        let r = FancyCell {
            content,
            border_style: CellBorderStyle {
                top: BorderLineStyle::Solid,
                left: BorderLineStyle::Solid,
                right: BorderLineStyle::Solid,
                bottom: BorderLineStyle::Solid,
            },
            padding: 1,
            horizontal_alignment: HorizontalAlignment::Left,
            vertical_alignment: VerticalAlignment::Top,
            style: ansi_term::Style::new(),
        };
        assert(r.lines() =~= seq![seq![' ']]);
        r
    }
}

} // verus!
