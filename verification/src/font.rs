//! The 8x12 bitmap font of the debug overlay and console.
use vstd::prelude::*;

verus! {

/// Number of glyphs in `FONT_GLYPHS`.
pub const FONT_GLYPH_COUNT: usize = 104;

/// Glyph table: each character with its 12 rows of 8 pixels, most
/// significant bit leftmost. Box-drawing characters are included.
pub const FONT_GLYPHS: [(char, [u8; 12]); 104] = [
    (' ', [0x00, 0x00, 0x00, 0x00, 0x00, 0x00, 0x00, 0x00, 0x00, 0x00, 0x00, 0x00]),
    ('0', [0x00, 0x1E, 0x33, 0x33, 0x33, 0x33, 0x33, 0x33, 0x33, 0x33, 0x1E, 0x00]),
    ('1', [0x00, 0x0C, 0x1C, 0x0C, 0x0C, 0x0C, 0x0C, 0x0C, 0x0C, 0x0C, 0x3F, 0x00]),
    ('2', [0x00, 0x1E, 0x33, 0x30, 0x30, 0x1C, 0x06, 0x03, 0x03, 0x33, 0x3F, 0x00]),
    ('3', [0x00, 0x1E, 0x33, 0x30, 0x30, 0x1C, 0x0C, 0x30, 0x30, 0x33, 0x1E, 0x00]),
    ('4', [0x00, 0x0C, 0x1C, 0x0C, 0x0C, 0x33, 0x3F, 0x0C, 0x0C, 0x0C, 0x0C, 0x00]),
    ('5', [0x00, 0x3F, 0x03, 0x03, 0x3F, 0x33, 0x30, 0x30, 0x30, 0x33, 0x1E, 0x00]),
    ('6', [0x00, 0x0E, 0x13, 0x23, 0x03, 0x1F, 0x33, 0x33, 0x33, 0x33, 0x1E, 0x00]),
    ('7', [0x00, 0x3F, 0x33, 0x30, 0x18, 0x0C, 0x0C, 0x0C, 0x0C, 0x0C, 0x0C, 0x00]),
    ('8', [0x00, 0x1E, 0x33, 0x33, 0x33, 0x1E, 0x33, 0x33, 0x33, 0x33, 0x1E, 0x00]),
    ('9', [0x00, 0x1E, 0x33, 0x33, 0x33, 0x3F, 0x30, 0x30, 0x30, 0x31, 0x1E, 0x00]),
    ('A', [0x00, 0x1C, 0x36, 0x63, 0x63, 0x7F, 0x63, 0x63, 0x63, 0x63, 0x63, 0x00]),
    ('B', [0x00, 0x3F, 0x33, 0x33, 0x33, 0x3F, 0x33, 0x33, 0x33, 0x33, 0x3F, 0x00]),
    ('C', [0x00, 0x1E, 0x33, 0x63, 0x60, 0x60, 0x60, 0x60, 0x63, 0x33, 0x1E, 0x00]),
    ('D', [0x00, 0x3F, 0x33, 0x33, 0x33, 0x33, 0x33, 0x33, 0x33, 0x33, 0x3F, 0x00]),
    ('E', [0x00, 0x7F, 0x03, 0x03, 0x03, 0x3F, 0x03, 0x03, 0x03, 0x03, 0x7F, 0x00]),
    ('F', [0x00, 0x7F, 0x03, 0x03, 0x03, 0x3F, 0x03, 0x03, 0x03, 0x03, 0x03, 0x00]),
    ('G', [0x00, 0x1E, 0x33, 0x63, 0x60, 0x6F, 0x63, 0x63, 0x63, 0x33, 0x1E, 0x00]),
    ('H', [0x00, 0x63, 0x63, 0x63, 0x63, 0x7F, 0x63, 0x63, 0x63, 0x63, 0x63, 0x00]),
    ('I', [0x00, 0x3F, 0x0C, 0x0C, 0x0C, 0x0C, 0x0C, 0x0C, 0x0C, 0x0C, 0x3F, 0x00]),
    ('J', [0x00, 0x1F, 0x06, 0x06, 0x06, 0x06, 0x06, 0x06, 0x36, 0x36, 0x1C, 0x00]),
    ('K', [0x00, 0x33, 0x37, 0x3B, 0x3F, 0x33, 0x33, 0x33, 0x33, 0x33, 0x33, 0x00]),
    ('L', [0x00, 0x03, 0x03, 0x03, 0x03, 0x03, 0x03, 0x03, 0x03, 0x03, 0x7F, 0x00]),
    ('M', [0x00, 0x63, 0x77, 0x7F, 0x6B, 0x6B, 0x63, 0x63, 0x63, 0x63, 0x63, 0x00]),
    ('N', [0x00, 0x63, 0x73, 0x7B, 0x7F, 0x6F, 0x67, 0x63, 0x63, 0x63, 0x63, 0x00]),
    ('O', [0x00, 0x1E, 0x33, 0x63, 0x63, 0x63, 0x63, 0x63, 0x63, 0x33, 0x1E, 0x00]),
    ('P', [0x00, 0x3F, 0x33, 0x33, 0x33, 0x3F, 0x03, 0x03, 0x03, 0x03, 0x03, 0x00]),
    ('Q', [0x00, 0x1E, 0x33, 0x63, 0x63, 0x63, 0x63, 0x63, 0x63, 0x3B, 0x1E, 0x01]),
    ('R', [0x00, 0x3F, 0x33, 0x33, 0x33, 0x3F, 0x1B, 0x33, 0x33, 0x33, 0x33, 0x00]),
    ('S', [0x00, 0x1E, 0x33, 0x03, 0x03, 0x1E, 0x30, 0x30, 0x30, 0x33, 0x1E, 0x00]),
    ('T', [0x00, 0x7F, 0x0C, 0x0C, 0x0C, 0x0C, 0x0C, 0x0C, 0x0C, 0x0C, 0x0C, 0x00]),
    ('U', [0x00, 0x33, 0x33, 0x33, 0x33, 0x33, 0x33, 0x33, 0x33, 0x33, 0x1E, 0x00]),
    ('V', [0x00, 0x33, 0x33, 0x33, 0x33, 0x33, 0x33, 0x33, 0x33, 0x1E, 0x0C, 0x00]),
    ('W', [0x00, 0x63, 0x63, 0x63, 0x63, 0x63, 0x6B, 0x6B, 0x7F, 0x77, 0x63, 0x00]),
    ('X', [0x00, 0x63, 0x63, 0x36, 0x1C, 0x1C, 0x1C, 0x36, 0x36, 0x63, 0x63, 0x00]),
    ('Y', [0x00, 0x33, 0x33, 0x33, 0x33, 0x1E, 0x0C, 0x0C, 0x0C, 0x0C, 0x0C, 0x00]),
    ('Z', [0x00, 0x7F, 0x31, 0x33, 0x33, 0x1E, 0x33, 0x33, 0x33, 0x31, 0x7F, 0x00]),
    ('a', [0x00, 0x00, 0x00, 0x1E, 0x31, 0x3F, 0x33, 0x33, 0x33, 0x33, 0x33, 0x00]),
    ('b', [0x00, 0x07, 0x0B, 0x0F, 0x1B, 0x33, 0x33, 0x33, 0x33, 0x33, 0x3F, 0x00]),
    ('c', [0x00, 0x00, 0x00, 0x1E, 0x33, 0x60, 0x60, 0x60, 0x63, 0x33, 0x1E, 0x00]),
    ('d', [0x00, 0x70, 0x30, 0x30, 0x3C, 0x33, 0x33, 0x33, 0x33, 0x33, 0x1E, 0x00]),
    ('e', [0x00, 0x00, 0x00, 0x1E, 0x33, 0x3F, 0x03, 0x1E, 0x30, 0x33, 0x1E, 0x00]),
    ('f', [0x00, 0x1C, 0x36, 0x06, 0x1F, 0x06, 0x06, 0x06, 0x06, 0x06, 0x06, 0x00]),
    ('g', [0x00, 0x00, 0x00, 0x1B, 0x33, 0x33, 0x33, 0x3F, 0x30, 0x31, 0x1E, 0x00]),
    ('h', [0x00, 0x07, 0x0B, 0x0F, 0x1B, 0x33, 0x33, 0x33, 0x33, 0x33, 0x33, 0x00]),
    ('i', [0x00, 0x0C, 0x00, 0x1C, 0x0C, 0x0C, 0x0C, 0x0C, 0x0C, 0x0C, 0x3F, 0x00]),
    ('j', [0x00, 0x03, 0x00, 0x0F, 0x03, 0x03, 0x03, 0x03, 0x03, 0x33, 0x1E, 0x00]),
    ('k', [0x00, 0x33, 0x33, 0x33, 0x3B, 0x1F, 0x33, 0x33, 0x33, 0x33, 0x33, 0x00]),
    ('l', [0x00, 0x0C, 0x0C, 0x0C, 0x0C, 0x0C, 0x0C, 0x0C, 0x0C, 0x0C, 0x3F, 0x00]),
    ('m', [0x00, 0x00, 0x00, 0x3E, 0x6B, 0x6B, 0x6B, 0x6B, 0x6B, 0x6B, 0x6B, 0x00]),
    ('n', [0x00, 0x00, 0x00, 0x3B, 0x67, 0x63, 0x63, 0x63, 0x63, 0x63, 0x63, 0x00]),
    ('o', [0x00, 0x00, 0x00, 0x1E, 0x33, 0x63, 0x63, 0x63, 0x63, 0x33, 0x1E, 0x00]),
    ('p', [0x00, 0x00, 0x00, 0x3F, 0x33, 0x33, 0x3F, 0x03, 0x03, 0x03, 0x03, 0x00]),
    ('q', [0x00, 0x00, 0x00, 0x1E, 0x33, 0x33, 0x1E, 0x30, 0x30, 0x30, 0x30, 0x00]),
    ('r', [0x00, 0x00, 0x00, 0x37, 0x3B, 0x1F, 0x03, 0x03, 0x03, 0x03, 0x03, 0x00]),
    ('s', [0x00, 0x00, 0x00, 0x1E, 0x33, 0x07, 0x1E, 0x30, 0x30, 0x33, 0x1E, 0x00]),
    ('t', [0x00, 0x06, 0x06, 0x1F, 0x06, 0x06, 0x06, 0x06, 0x06, 0x36, 0x1C, 0x00]),
    ('u', [0x00, 0x00, 0x00, 0x33, 0x33, 0x33, 0x33, 0x33, 0x33, 0x33, 0x1E, 0x00]),
    ('v', [0x00, 0x00, 0x00, 0x33, 0x33, 0x33, 0x33, 0x33, 0x1E, 0x1E, 0x0C, 0x00]),
    ('w', [0x00, 0x00, 0x00, 0x63, 0x63, 0x63, 0x6B, 0x6B, 0x6B, 0x7F, 0x36, 0x00]),
    ('x', [0x00, 0x00, 0x00, 0x33, 0x1E, 0x1C, 0x1C, 0x1C, 0x36, 0x36, 0x33, 0x00]),
    ('y', [0x00, 0x00, 0x00, 0x33, 0x33, 0x33, 0x3F, 0x30, 0x30, 0x31, 0x1E, 0x00]),
    ('z', [0x00, 0x00, 0x00, 0x7F, 0x31, 0x33, 0x1E, 0x33, 0x33, 0x31, 0x7F, 0x00]),
    (':', [0x00, 0x00, 0x00, 0x00, 0x0C, 0x0C, 0x00, 0x00, 0x00, 0x0C, 0x0C, 0x00]),
    (';', [0x00, 0x00, 0x00, 0x00, 0x0C, 0x0C, 0x00, 0x00, 0x0C, 0x0C, 0x04, 0x00]),
    ('-', [0x00, 0x00, 0x00, 0x00, 0x00, 0x1F, 0x00, 0x00, 0x00, 0x00, 0x00, 0x00]),
    ('.', [0x00, 0x00, 0x00, 0x00, 0x00, 0x00, 0x00, 0x00, 0x00, 0x0C, 0x0C, 0x00]),
    (',', [0x00, 0x00, 0x00, 0x00, 0x00, 0x00, 0x00, 0x00, 0x00, 0x0C, 0x0C, 0x04]),
    ('=', [0x00, 0x00, 0x00, 0x00, 0x00, 0x3F, 0x00, 0x00, 0x3F, 0x00, 0x00, 0x00]),
    ('+', [0x00, 0x00, 0x00, 0x0C, 0x0C, 0x3F, 0x0C, 0x0C, 0x00, 0x00, 0x00, 0x00]),
    ('(', [0x00, 0x03, 0x06, 0x0C, 0x0C, 0x0C, 0x0C, 0x0C, 0x0C, 0x06, 0x03, 0x00]),
    (')', [0x00, 0x18, 0x0C, 0x06, 0x06, 0x06, 0x06, 0x06, 0x06, 0x0C, 0x18, 0x00]),
    ('[', [0x00, 0x1F, 0x09, 0x09, 0x09, 0x09, 0x09, 0x09, 0x09, 0x09, 0x1F, 0x00]),
    (']', [0x00, 0xF8, 0x90, 0x90, 0x90, 0x90, 0x90, 0x90, 0x90, 0x90, 0xF8, 0x00]),
    ('\u{2554}', [0x00, 0x3F, 0x30, 0x30, 0x30, 0x30, 0x30, 0x30, 0x30, 0x30, 0x30, 0x00]),
    ('\u{2550}', [0x00, 0x00, 0xFF, 0x00, 0x00, 0x00, 0x00, 0x00, 0x00, 0x00, 0x00, 0x00]),
    ('\u{2551}', [0x00, 0x18, 0x18, 0x18, 0x18, 0x18, 0x18, 0x18, 0x18, 0x18, 0x18, 0x00]),
    ('\u{2560}', [0x00, 0x18, 0x18, 0x18, 0x18, 0xFF, 0x18, 0x18, 0x18, 0x18, 0x18, 0x00]),
    ('\u{2563}', [0x00, 0x18, 0x18, 0x18, 0x18, 0xF8, 0x18, 0x18, 0x18, 0x18, 0x18, 0x00]),
    ('\u{255A}', [0x00, 0x18, 0x18, 0x18, 0x18, 0x18, 0x18, 0x18, 0x18, 0x18, 0xFF, 0x00]),
    ('\u{255D}', [0x00, 0x18, 0x18, 0x18, 0x18, 0x18, 0x18, 0x18, 0x18, 0x18, 0xF8, 0x00]),
    ('\u{256D}', [0x00, 0x3F, 0x01, 0x01, 0x01, 0x01, 0x01, 0x01, 0x01, 0x01, 0x01, 0x00]),
    ('\u{256E}', [0x00, 0x3F, 0x80, 0x80, 0x80, 0x80, 0x80, 0x80, 0x80, 0x80, 0x80, 0x00]),
    ('\u{256F}', [0x00, 0x01, 0x01, 0x01, 0x01, 0x01, 0x01, 0x01, 0x01, 0x01, 0xFF, 0x00]),
    ('\u{2570}', [0x00, 0x80, 0x80, 0x80, 0x80, 0x80, 0x80, 0x80, 0x80, 0x80, 0xFF, 0x00]),
    ('<', [0x00, 0x03, 0x06, 0x0C, 0x18, 0x30, 0x30, 0x18, 0x0C, 0x06, 0x03, 0x00]),
    ('>', [0x00, 0xC0, 0x30, 0x18, 0x0C, 0x06, 0x06, 0x0C, 0x18, 0x30, 0xC0, 0x00]),
    ('/', [0x00, 0x00, 0x00, 0x01, 0x03, 0x06, 0x0C, 0x18, 0x30, 0x60, 0x40, 0x00]),
    ('\\', [0x00, 0x00, 0x00, 0x80, 0x40, 0x20, 0x10, 0x08, 0x04, 0x02, 0x01, 0x00]),
    ('*', [0x00, 0x00, 0x00, 0x18, 0x3F, 0x18, 0x3F, 0x18, 0x00, 0x00, 0x00, 0x00]),
    ('#', [0x00, 0x24, 0x24, 0x7F, 0x24, 0x24, 0x7F, 0x24, 0x24, 0x7F, 0x24, 0x00]),
    ('_', [0x00, 0x00, 0x00, 0x00, 0x00, 0x00, 0x00, 0x00, 0x00, 0x00, 0xFF, 0x00]),
    ('?', [0x00, 0x1E, 0x33, 0x30, 0x30, 0x1C, 0x0C, 0x0C, 0x00, 0x0C, 0x0C, 0x00]),
    ('!', [0x00, 0x0C, 0x0C, 0x0C, 0x0C, 0x0C, 0x0C, 0x0C, 0x00, 0x0C, 0x00, 0x00]),
    ('\'', [0x00, 0x03, 0x03, 0x03, 0x00, 0x00, 0x00, 0x00, 0x00, 0x00, 0x00, 0x00]),
    ('"', [0x00, 0x33, 0x33, 0x33, 0x00, 0x00, 0x00, 0x00, 0x00, 0x00, 0x00, 0x00]),
    ('%', [0x00, 0x26, 0x2B, 0x29, 0x26, 0x02, 0x4B, 0x52, 0x52, 0x4B, 0x26, 0x00]),
    ('&', [0x00, 0x1E, 0x33, 0x63, 0x1E, 0x1B, 0x33, 0x63, 0x33, 0x33, 0x1E, 0x00]),
    ('@', [0x00, 0x3F, 0x63, 0x6B, 0x6B, 0x6B, 0x6B, 0x2B, 0x03, 0x03, 0x1F, 0x00]),
    ('~', [0x00, 0x00, 0x00, 0x00, 0x00, 0x1B, 0x36, 0x00, 0x00, 0x00, 0x00, 0x00]),
    ('^', [0x00, 0x03, 0x07, 0x0F, 0x1B, 0x33, 0x63, 0x00, 0x00, 0x00, 0x00, 0x00]),
    ('{', [0x00, 0x07, 0x04, 0x04, 0x07, 0x04, 0x04, 0x04, 0x04, 0x04, 0x07, 0x00]),
    ('|', [0x00, 0x0C, 0x0C, 0x0C, 0x0C, 0x0C, 0x0C, 0x0C, 0x0C, 0x0C, 0x0C, 0x00]),
    ('}', [0x00, 0xE0, 0x20, 0x20, 0xE0, 0x20, 0x20, 0x20, 0x20, 0x20, 0xE0, 0x00]),
];

/// Index of the first glyph for `ch` at or after index `i` in
/// `FONT_GLYPHS`, or -1 when there is none.
pub open spec fn glyph_index_from(ch: char, i: int) -> int
    decreases FONT_GLYPH_COUNT - i,
{
    if i < 0 || i >= FONT_GLYPH_COUNT {
        -1
    } else if FONT_GLYPHS[i].0 == ch {
        i
    } else {
        glyph_index_from(ch, i + 1)
    }
}

/// Index in `FONT_GLYPHS` of the glyph for `ch`, or -1 when the font has none.
pub open spec fn glyph_index(ch: char) -> int {
    glyph_index_from(ch, 0)
}

proof fn lemma_glyph_index_range(ch: char, i: int)
    requires
        0 <= i <= FONT_GLYPH_COUNT,
    ensures
        glyph_index_from(ch, i) == -1 || (i <= glyph_index_from(ch, i) < FONT_GLYPH_COUNT
            && FONT_GLYPHS[glyph_index_from(ch, i)].0 == ch),
    decreases FONT_GLYPH_COUNT - i,
{
    if i < FONT_GLYPH_COUNT {
        lemma_glyph_index_range(ch, i + 1);
    }
}

/// Return the 12-row bitmap of `ch`; each row is two bytes of which only the
/// first is used. Characters missing from the font are blank.
pub fn font_8x12(ch: char) -> (b: [[u8; 2]; 12])
    ensures
        forall|r: int| 0 <= r < 12 ==> (#[trigger] b[r])[1] == 0,
        glyph_index(ch) == -1 ==> forall|r: int| 0 <= r < 12 ==> (#[trigger] b[r])[0] == 0,
        glyph_index(ch) != -1 ==> forall|r: int|
            0 <= r < 12 ==> (#[trigger] b[r])[0] == FONT_GLYPHS[glyph_index(ch)].1[r],
{
    let mut i: usize = 0;
    proof {
        lemma_glyph_index_range(ch, 0);
    }
    while i < FONT_GLYPH_COUNT
        invariant
            i <= FONT_GLYPH_COUNT,
            glyph_index(ch) == glyph_index_from(ch, i as int),
        decreases FONT_GLYPH_COUNT - i,
    {
        let (c, g) = FONT_GLYPHS[i];
        if c == ch {
            let b = [
                [g[0], 0],
                [g[1], 0],
                [g[2], 0],
                [g[3], 0],
                [g[4], 0],
                [g[5], 0],
                [g[6], 0],
                [g[7], 0],
                [g[8], 0],
                [g[9], 0],
                [g[10], 0],
                [g[11], 0],
            ];
            assert forall|r: int| 0 <= r < 12 implies (#[trigger] b[r])[0] == FONT_GLYPHS[glyph_index(ch)].1[r] && b[r][1] == 0 by {
                assert(b@[r] == [g@[r], 0u8]);
            }
            return b;
        }
        i = i + 1;
    }
    [[0u8, 0u8]; 12]
}

} // verus!
