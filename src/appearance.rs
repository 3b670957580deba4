use vstd::prelude::*;

verus! {

/// The number of glyph bins, coldest first.
pub const GLYPH_BINS: usize = 12;

/// The number of colour bins, coldest first.
pub const COLOR_BINS: usize = 11;

/// A display colour of a cell.
#[derive(Clone, Copy, Debug, PartialEq, Eq, Structural)]
pub enum CellColor {
    Black,
    Yellow,
    White,
    Rgb(u8, u8, u8),
}

/// Linear quantization of a heat value onto `bins` bins:
/// `floor(heat / 255 * (bins - 1))`.
pub open spec fn bin_index(heat: int, bins: int) -> int {
    heat * (bins - 1) / 255
}

/// The candidate glyphs of glyph bin `i`, all equally likely.
pub open spec fn glyph_bin(i: int) -> Seq<char> {
    if i == 0 {
        seq![' ']
    } else if i == 1 {
        seq!['.', '\'', '`', ',']
    } else if i == 2 {
        seq!['~', '-', ';', ':']
    } else if i == 3 {
        seq!['"', ';', ':', '^']
    } else if i == 4 {
        seq!['!', '?', '=', '"']
    } else if i == 5 {
        seq!['(', ')', '|', '!']
    } else if i == 6 {
        seq!['[', ']', '\\', '/']
    } else if i == 7 {
        seq!['{', '}', 'I', 'V']
    } else if i == 8 {
        seq!['o', 'T', 'O', 'V']
    } else if i == 9 {
        seq!['H', 'A', '0', '*']
    } else if i == 10 {
        seq!['M', 'W', '%', 'X']
    } else {
        seq!['#', '$', '@', '&']
    }
}

/// The colour of colour bin `i`.
pub open spec fn color_bin(i: int) -> CellColor {
    if i == 0 {
        CellColor::Black
    } else if i == 1 {
        CellColor::Rgb(175, 0, 0)
    } else if i == 2 {
        CellColor::Rgb(255, 0, 0)
    } else if i == 3 {
        CellColor::Rgb(255, 150, 50)
    } else if i == 4 {
        CellColor::Rgb(255, 175, 75)
    } else if i == 5 {
        CellColor::Rgb(255, 200, 100)
    } else if i == 6 {
        CellColor::Yellow
    } else if i == 7 {
        CellColor::Rgb(255, 255, 150)
    } else if i == 8 {
        CellColor::White
    } else if i == 9 {
        CellColor::Rgb(255, 255, 200)
    } else {
        CellColor::Rgb(255, 255, 250)
    }
}

/// Quantization never moves a hotter value to a colder bin.
pub proof fn lemma_bin_index_monotonic(a: int, b: int, bins: int)
    requires
        0 <= a < b,
        bins >= 1,
    ensures
        bin_index(a, bins) <= bin_index(b, bins),
{
    assert(a * (bins - 1) <= b * (bins - 1)) by (nonlinear_arith)
        requires
            0 <= a < b,
            bins >= 1,
    ;
    vstd::arithmetic::div_mod::lemma_div_is_ordered(a * (bins - 1), b * (bins - 1), 255);
}

/// Hotter heat never maps to a colder glyph bin or colour bin.
pub proof fn lemma_quantization_monotonic(a: u8, b: u8)
    requires
        a < b,
    ensures
        bin_index(a as int, GLYPH_BINS as int) <= bin_index(b as int, GLYPH_BINS as int),
        bin_index(a as int, COLOR_BINS as int) <= bin_index(b as int, COLOR_BINS as int),
{
    lemma_bin_index_monotonic(a as int, b as int, GLYPH_BINS as int);
    lemma_bin_index_monotonic(a as int, b as int, COLOR_BINS as int);
}

/// The glyph bin of a heat value.
pub fn glyph_bin_index(heat: u8) -> (r: usize)
    ensures
        r == bin_index(heat as int, GLYPH_BINS as int),
        r < GLYPH_BINS,
{
    assert(heat as int * (GLYPH_BINS as int - 1) <= 255 * 11) by (nonlinear_arith)
        requires
            heat <= 255,
            GLYPH_BINS == 12,
    ;
    assert(heat as int * (GLYPH_BINS as int - 1) / 255 <= 11) by (nonlinear_arith)
        requires
            0 <= heat as int * (GLYPH_BINS as int - 1) <= 255 * 11,
    ;
    (heat as usize * (GLYPH_BINS - 1)) / 255
}

/// The colour bin of a heat value.
pub fn color_bin_index(heat: u8) -> (r: usize)
    ensures
        r == bin_index(heat as int, COLOR_BINS as int),
        r < COLOR_BINS,
{
    assert(heat as int * (COLOR_BINS as int - 1) <= 255 * 10) by (nonlinear_arith)
        requires
            heat <= 255,
            COLOR_BINS == 11,
    ;
    assert(heat as int * (COLOR_BINS as int - 1) / 255 <= 10) by (nonlinear_arith)
        requires
            0 <= heat as int * (COLOR_BINS as int - 1) <= 255 * 10,
    ;
    (heat as usize * (COLOR_BINS - 1)) / 255
}

/// The candidate glyphs of a glyph bin.
pub fn glyph_candidates(bin: usize) -> (r: Vec<char>)
    requires
        bin < GLYPH_BINS,
    ensures
        r@ == glyph_bin(bin as int),
        r@.len() > 0,
{
    if bin == 0 {
        vec![' ']
    } else if bin == 1 {
        vec!['.', '\'', '`', ',']
    } else if bin == 2 {
        vec!['~', '-', ';', ':']
    } else if bin == 3 {
        vec!['"', ';', ':', '^']
    } else if bin == 4 {
        vec!['!', '?', '=', '"']
    } else if bin == 5 {
        vec!['(', ')', '|', '!']
    } else if bin == 6 {
        vec!['[', ']', '\\', '/']
    } else if bin == 7 {
        vec!['{', '}', 'I', 'V']
    } else if bin == 8 {
        vec!['o', 'T', 'O', 'V']
    } else if bin == 9 {
        vec!['H', 'A', '0', '*']
    } else if bin == 10 {
        vec!['M', 'W', '%', 'X']
    } else {
        vec!['#', '$', '@', '&']
    }
}

/// The colour of a colour bin.
pub fn bin_color(bin: usize) -> (r: CellColor)
    requires
        bin < COLOR_BINS,
    ensures
        r == color_bin(bin as int),
{
    if bin == 0 {
        CellColor::Black
    } else if bin == 1 {
        CellColor::Rgb(175, 0, 0)
    } else if bin == 2 {
        CellColor::Rgb(255, 0, 0)
    } else if bin == 3 {
        CellColor::Rgb(255, 150, 50)
    } else if bin == 4 {
        CellColor::Rgb(255, 175, 75)
    } else if bin == 5 {
        CellColor::Rgb(255, 200, 100)
    } else if bin == 6 {
        CellColor::Yellow
    } else if bin == 7 {
        CellColor::Rgb(255, 255, 150)
    } else if bin == 8 {
        CellColor::White
    } else if bin == 9 {
        CellColor::Rgb(255, 255, 200)
    } else {
        CellColor::Rgb(255, 255, 250)
    }
}

/// The glyph and colour of a cell of the given heat; `pick` chooses among the
/// glyph bin's candidates.
pub fn glyph_and_color(heat: u8, pick: usize) -> (r: (char, CellColor))
    requires
        pick < glyph_bin(bin_index(heat as int, GLYPH_BINS as int)).len(),
    ensures
        r.0 == glyph_bin(bin_index(heat as int, GLYPH_BINS as int))[pick as int],
        r.1 == color_bin(bin_index(heat as int, COLOR_BINS as int)),
{
    let glyphs = glyph_candidates(glyph_bin_index(heat));
    (glyphs[pick], bin_color(color_bin_index(heat)))
}

} // verus!
