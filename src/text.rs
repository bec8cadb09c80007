//! Text primitives that the layout rests on: building strings, and the
//! measuring and wrapping of lines done by outside crates.
use vstd::prelude::*;

verus! {

/// Relies on `String::push`: the character is appended at the end.
pub assume_specification[ std::string::String::push ](s: &mut std::string::String, ch: char)
    ensures
        final(s)@ == old(s)@.push(ch),
;

/// The character sequences that a sequence of strings holds.
pub open spec fn string_views(v: Seq<String>) -> Seq<Seq<char>> {
    v.map_values(|s: String| s@)
}

/// `n` copies of `c`.
pub open spec fn repeat_char(c: char, n: nat) -> Seq<char> {
    Seq::new(n, |_i: int| c)
}

/// A string holding the one character `c`.
pub fn char_string(c: char) -> (r: String)
    ensures
        r@ == seq![c],
{
    let mut s = String::new();
    s.push(c);
    s
}

/// Appends `n` copies of `c` to `out`.
pub fn push_repeated(out: &mut String, c: char, n: usize)
    ensures
        final(out)@ == old(out)@ + repeat_char(c, n as nat),
{
    let ghost start = out@;
    let mut i: usize = 0;
    while i < n
        invariant
            i <= n,
            out@ == start + repeat_char(c, i as nat),
        decreases n - i,
    {
        out.push(c);
        i = i + 1;
        assert(out@ =~= start + repeat_char(c, i as nat));
    }
}

/// The text that `strip_ansi_escapes::strip_str` leaves of `s`: `s`
/// without its terminal escape sequences.
pub uninterp spec fn stripped_of(s: Seq<char>) -> Seq<char>;

/// The number of terminal columns that `unicode_width` gives `s`.
pub uninterp spec fn width_of(s: Seq<char>) -> usize;

/// The lines that textwrap makes of `s` when it wraps at `width` columns
/// greedily, at ASCII spaces, without hyphenation and without breaking words.
pub uninterp spec fn wrap_of(s: Seq<char>, width: usize) -> Seq<Seq<char>>;

/// Relies on `strip_ansi_escapes::strip_str`: the escape sequences are
/// removed, and the result depends on the text alone.
#[verifier::external_body]
pub(crate) fn strip_escapes(s: &str) -> (r: String)
    ensures
        r@ == stripped_of(s@),
{
    strip_ansi_escapes::strip_str(s)
}

/// Relies on `unicode_width::UnicodeWidthStr::width`: the display width,
/// which depends on the text alone.
#[verifier::external_body]
pub(crate) fn display_width(s: &str) -> (r: usize)
    ensures
        r == width_of(s@),
{
    unicode_width::UnicodeWidthStr::width(s)
}

/// Relies on `textwrap::wrap`, set to first-fit wrapping at ASCII spaces
/// with neither hyphenation nor broken words: the result depends on the
/// text and the width alone.
#[verifier::external_body]
pub(crate) fn wrap_line(line: &str, width: usize) -> (r: Vec<String>)
    ensures
        string_views(r@) == wrap_of(line@, width),
{
    let options = textwrap::Options::new(width)
        .break_words(false)
        .word_separator(textwrap::WordSeparator::AsciiSpace)
        .word_splitter(textwrap::WordSplitter::NoHyphenation)
        .wrap_algorithm(textwrap::WrapAlgorithm::FirstFit);
    textwrap::wrap(line, options).into_iter().map(|l| l.into_owned()).collect()
}

} // verus!
