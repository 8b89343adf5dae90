use vstd::prelude::*;
use crate::taginput::{is_whitespace, spec_is_whitespace};

verus! {

/// The corner of the screen a debug string is anchored to.
#[derive(Clone, Copy, Debug, PartialEq, Eq, Structural)]
pub enum DebugTextAlign {
    TopLeft,
    TopRight,
    BottomLeft,
    BottomRight,
}

impl DebugTextAlign {
    pub open spec fn spec_origin(self) -> (i32, i32) {
        match self {
            DebugTextAlign::TopLeft => (0, 0),
            DebugTextAlign::TopRight => (1, 0),
            DebugTextAlign::BottomLeft => (0, 1),
            DebugTextAlign::BottomRight => (1, 1),
        }
    }

    /// The anchor corner as a fraction of the screen (0 or 1 on each axis).
    pub fn origin(self) -> (r: (i32, i32))
        ensures
            r == self.spec_origin(),
    {
        match self {
            DebugTextAlign::TopLeft => (0, 0),
            DebugTextAlign::TopRight => (1, 0),
            DebugTextAlign::BottomLeft => (0, 1),
            DebugTextAlign::BottomRight => (1, 1),
        }
    }
}

/// The number of glyphs in the font atlas, one per printable ASCII
/// character from `!`.
pub const CHARACTER_COUNT: u32 = 96;

/// The atlas cell of a character: printable ASCII from `!` to `~` has its
/// own cell, every other character is drawn as `?`.
pub open spec fn spec_atlas_index(c: char) -> u32 {
    if '!' <= c && c <= '~' {
        (c as u32 - 33) as u32
    } else {
        30
    }
}

/// The atlas cell of a character.
pub fn atlas_index(c: char) -> (r: u32)
    ensures
        r == spec_atlas_index(c),
        r < CHARACTER_COUNT,
{
    if '!' <= c && c <= '~' {
        (c as u32) - 33
    } else {
        30
    }
}

/// The indices of `character_count` quads of four vertices each: two
/// triangles (0, 1, 3) and (0, 3, 2) per quad.
pub open spec fn spec_quad_indices(character_count: nat) -> Seq<u32>
    decreases character_count,
{
    if character_count == 0 {
        Seq::empty()
    } else {
        let o = (4 * (character_count - 1)) as u32;
        spec_quad_indices((character_count - 1) as nat) + seq![
            o,
            (o + 1) as u32,
            (o + 3) as u32,
            o,
            (o + 3) as u32,
            (o + 2) as u32,
        ]
    }
}

/// Builds the index list for `character_count` glyph quads.
pub fn quad_indices(character_count: u32) -> (r: Vec<u32>)
    requires
        4 * character_count <= u32::MAX + 1,
    ensures
        r@ == spec_quad_indices(character_count as nat),
{
    let mut indices: Vec<u32> = Vec::new();
    let mut i: u32 = 0;
    while i < character_count
        invariant
            i <= character_count,
            4 * character_count <= u32::MAX + 1,
            indices@ == spec_quad_indices(i as nat),
        decreases character_count - i,
    {
        let offset = i * 4;
        let ghost prev = indices@;
        indices.push(offset);
        indices.push(offset + 1);
        indices.push(offset + 3);
        indices.push(offset);
        indices.push(offset + 3);
        indices.push(offset + 2);
        assert(indices@ =~= spec_quad_indices((i + 1) as nat));
        i = i + 1;
    }
    indices
}

/// A string queued for the debug text overlay: its text, its position in
/// character cells from the anchor, its color and its anchor corner.
pub struct DebugString {
    pub text: String,
    pub position: (i32, i32),
    pub color: [u8; 4],
    pub align: DebugTextAlign,
}

/// A glyph to draw: its character cell, its atlas cell and its color.
#[derive(Clone, Copy, Debug, PartialEq, Eq)]
pub struct GlyphQuad {
    pub x: i32,
    pub y: i32,
    pub atlas: u32,
    pub color: [u8; 4],
}

pub type GlyphView = (int, int, u32, Seq<u8>);

pub open spec fn glyphs_view(v: Seq<GlyphQuad>) -> Seq<GlyphView> {
    v.map_values(|g: GlyphQuad| (g.x as int, g.y as int, g.atlas, g.color@))
}

/// The number of newlines in a text.
pub open spec fn newline_count(s: Seq<char>) -> nat
    decreases s.len(),
{
    if s.len() == 0 {
        0
    } else {
        newline_count(s.drop_last()) + if s.last() == '\n' { 1nat } else { 0nat }
    }
}

/// The number of lines `str::lines` gives: a final newline ends the last
/// line rather than starting a new one.
pub open spec fn line_count(s: Seq<char>) -> nat {
    if s.len() == 0 {
        0
    } else if s.last() == '\n' {
        newline_count(s)
    } else {
        newline_count(s) + 1
    }
}

/// The cell the first character of a string goes to, before its own
/// position is added: the anchor corner of a screen of `columns` by `rows`
/// cells, moved so that the string's `width` by `height` cells end at the
/// anchor on the anchored sides.
pub open spec fn spec_text_origin(align: DebugTextAlign, columns: int, rows: int, width: int, height: int) -> (int, int) {
    match align {
        DebugTextAlign::TopLeft => (0, 0),
        DebugTextAlign::TopRight => (columns - width, 0),
        DebugTextAlign::BottomLeft => (0, rows - height),
        DebugTextAlign::BottomRight => (columns - width, rows - height),
    }
}

/// The glyphs of the first `n` characters of a text whose first cell is
/// `base`, with the line and column reached: newlines start a new line,
/// other whitespace takes a cell without a glyph.
pub open spec fn spec_text_glyphs(text: Seq<char>, n: nat, base: (int, int), color: Seq<u8>) -> (Seq<GlyphView>, int, int)
    decreases n,
{
    if n == 0 {
        (Seq::empty(), 0, 0)
    } else {
        let prev = spec_text_glyphs(text, (n - 1) as nat, base, color);
        let c = text[n - 1];
        if c == '\n' {
            (prev.0, prev.1 + 1, 0)
        } else if spec_is_whitespace(c) {
            (prev.0, prev.1, prev.2 + 1)
        } else {
            (prev.0.push((base.0 + prev.2, base.1 + prev.1, spec_atlas_index(c), color)), prev.1, prev.2 + 1)
        }
    }
}

/// The width of a string in cells (its length in bytes) and its height (its
/// line count).
pub open spec fn string_size(s: DebugString) -> (int, int) {
    (vstd::utf8::encode_utf8(s.text@).len() as int, line_count(s.text@) as int)
}

/// The first cell of a string on a screen of `columns` by `rows` cells.
pub open spec fn string_base(s: DebugString, columns: int, rows: int) -> (int, int) {
    let o = spec_text_origin(s.align, columns, rows, string_size(s).0, string_size(s).1);
    (o.0 + s.position.0, o.1 + s.position.1)
}

pub open spec fn fits_i32(x: int) -> bool {
    i32::MIN <= x <= i32::MAX
}

/// Whether laying out a string stays within `i32` cell coordinates.
pub open spec fn string_fits(s: DebugString, columns: int, rows: int) -> bool {
    let size = string_size(s);
    let o = spec_text_origin(s.align, columns, rows, size.0, size.1);
    let b = string_base(s, columns, rows);
    &&& size.0 <= i32::MAX
    &&& fits_i32(o.0) && fits_i32(o.1)
    &&& fits_i32(b.0) && fits_i32(b.1)
    &&& fits_i32(b.0 + size.0) && fits_i32(b.1 + size.1)
}

/// The glyphs of the first `n` strings, string after string.
pub open spec fn spec_layout(strings: Seq<DebugString>, columns: int, rows: int, n: nat) -> Seq<GlyphView>
    decreases n,
{
    if n == 0 {
        Seq::empty()
    } else {
        let s = strings[n - 1];
        spec_layout(strings, columns, rows, (n - 1) as nat) + spec_text_glyphs(
            s.text@,
            s.text@.len(),
            string_base(s, columns, rows),
            s.color@,
        ).0
    }
}

proof fn lemma_glyph_bounds(text: Seq<char>, n: nat, base: (int, int), color: Seq<u8>)
    requires
        n <= text.len(),
    ensures
        0 <= spec_text_glyphs(text, n, base, color).1 <= newline_count(text.subrange(0, n as int)),
        0 <= spec_text_glyphs(text, n, base, color).2 <= n,
    decreases n,
{
    if n > 0 {
        lemma_glyph_bounds(text, (n - 1) as nat, base, color);
        assert(text.subrange(0, n as int).drop_last() =~= text.subrange(0, n - 1));
    }
}

proof fn lemma_newlines_within_lines(text: Seq<char>, n: nat)
    requires
        n < text.len(),
    ensures
        newline_count(text.subrange(0, n as int)) < line_count(text),
    decreases text.len() - n,
{
    if n + 1 < text.len() {
        lemma_newlines_within_lines(text, n + 1);
        assert(text.subrange(0, n + 1 as int).drop_last() =~= text.subrange(0, n as int));
    } else {
        assert(text.subrange(0, n + 1 as int) =~= text);
        assert(text.drop_last() =~= text.subrange(0, n as int));
    }
}

proof fn lemma_line_count_bound(s: Seq<char>)
    ensures
        newline_count(s) <= s.len(),
        line_count(s) <= s.len(),
    decreases s.len(),
{
    if s.len() > 0 {
        lemma_line_count_bound(s.drop_last());
    }
}

proof fn lemma_chars_within_bytes(text: Seq<char>)
    ensures
        text.len() <= vstd::utf8::encode_utf8(text).len(),
    decreases text.len(),
{
    if text.len() > 0 {
        lemma_chars_within_bytes(text.drop_first());
        assert(vstd::utf8::encode_scalar(text[0] as u32).len() >= 1);
    }
}

fn newline_total(text: &str) -> (r: usize)
    ensures
        r == newline_count(text@),
{
    let n = text.unicode_len();
    let mut count: usize = 0;
    let mut i: usize = 0;
    while i < n
        invariant
            n == text@.len(),
            i <= n,
            count == newline_count(text@.subrange(0, i as int)),
            count <= i,
        decreases n - i,
    {
        assert(text@.subrange(0, i + 1).drop_last() =~= text@.subrange(0, i as int));
        if text.get_char(i) == '\n' {
            count = count + 1;
        }
        i = i + 1;
    }
    assert(text@.subrange(0, n as int) =~= text@);
    count
}

fn layout_string(s: &DebugString, columns: i32, rows: i32, out: &mut Vec<GlyphQuad>)
    requires
        string_fits(*s, columns as int, rows as int),
    ensures
        glyphs_view(final(out)@) == glyphs_view(old(out)@) + spec_text_glyphs(
            s.text@,
            s.text@.len(),
            string_base(*s, columns as int, rows as int),
            s.color@,
        ).0,
{
    let text = s.text.as_str();
    let n = text.unicode_len();
    let bytes = text.as_bytes();
    assert(bytes@ == vstd::utf8::encode_utf8(text@));
    let width = bytes.len() as i32;
    let newlines = newline_total(text);
    proof {
        lemma_chars_within_bytes(text@);
        lemma_line_count_bound(text@);
    }
    let height = if n == 0 {
        0
    } else if text.get_char(n - 1) == '\n' {
        newlines as i32
    } else {
        (newlines + 1) as i32
    };
    assert(height as int == line_count(text@));
    let (ax, ay): (i32, i32) = match s.align {
        DebugTextAlign::TopLeft => (0, 0),
        DebugTextAlign::TopRight => (columns, 0),
        DebugTextAlign::BottomLeft => (0, rows),
        DebugTextAlign::BottomRight => (columns, rows),
    };
    assert(width as int == string_size(*s).0);
    assert(height as int == string_size(*s).1);
    let ghost o = spec_text_origin(s.align, columns as int, rows as int, width as int, height as int);
    assert(fits_i32(o.0) && fits_i32(o.1));
    let (tx, ty) = match s.align {
        DebugTextAlign::TopLeft => (ax, ay),
        DebugTextAlign::TopRight => (ax - width, ay),
        DebugTextAlign::BottomLeft => (ax, ay - height),
        DebugTextAlign::BottomRight => (ax - width, ay - height),
    };
    let bx = tx + s.position.0;
    let by = ty + s.position.1;
    let ghost base = string_base(*s, columns as int, rows as int);
    assert(base == (bx as int, by as int));
    let ghost start = glyphs_view(out@);
    let mut line: i32 = 0;
    let mut col: i32 = 0;
    let mut i: usize = 0;
    while i < n
        invariant
            n == text@.len(),
            text@ == s.text@,
            i <= n,
            n <= width,
            height as int == line_count(text@),
            base == (bx as int, by as int),
            fits_i32(bx + width) && fits_i32(by + height),
            fits_i32(bx as int) && fits_i32(by as int),
            ({
                let st = spec_text_glyphs(s.text@, i as nat, base, s.color@);
                &&& glyphs_view(out@) == start + st.0
                &&& line as int == st.1
                &&& col as int == st.2
            }),
        decreases n - i,
    {
        proof {
            lemma_glyph_bounds(s.text@, i as nat, base, s.color@);
            lemma_newlines_within_lines(s.text@, i as nat);
        }
        let c = text.get_char(i);
        if c == '\n' {
            line = line + 1;
            col = 0;
        } else if is_whitespace(c) {
            col = col + 1;
        } else {
            let g = GlyphQuad { x: bx + col, y: by + line, atlas: atlas_index(c), color: s.color };
            let ghost before = out@;
            out.push(g);
            assert(glyphs_view(out@) =~= glyphs_view(before).push((g.x as int, g.y as int, g.atlas, g.color@)));
            col = col + 1;
        }
        i = i + 1;
    }
}

/// Lays out the queued debug strings on a screen of `columns` by `rows`
/// character cells: each string is anchored to its corner (so that it ends
/// there on the anchored sides), moved by its position, and gets one glyph
/// per visible character, line after line.
pub fn layout_debug_strings(strings: &Vec<DebugString>, columns: i32, rows: i32) -> (r: Vec<GlyphQuad>)
    requires
        forall|i: int| 0 <= i < strings@.len() ==> string_fits(#[trigger] strings@[i], columns as int, rows as int),
    ensures
        glyphs_view(r@) == spec_layout(strings@, columns as int, rows as int, strings@.len()),
{
    let mut r: Vec<GlyphQuad> = Vec::new();
    let mut i: usize = 0;
    while i < strings.len()
        invariant
            i <= strings@.len(),
            forall|i: int| 0 <= i < strings@.len() ==> string_fits(#[trigger] strings@[i], columns as int, rows as int),
            glyphs_view(r@) == spec_layout(strings@, columns as int, rows as int, i as nat),
        decreases strings@.len() - i,
    {
        layout_string(&strings[i], columns, rows, &mut r);
        i = i + 1;
    }
    r
}

} // verus!
