use vstd::prelude::*;
use crate::layout::{ceil_div, PIXEL_LIMIT};
use crate::view::AlignUnit;

verus! {

/// The longest text, in characters, that can be laid out.
pub const TEXT_LIMIT: u64 = 0x7fff_ffff;

/// The measured advance of one character at one pixel size.
#[derive(Clone, Copy, Debug, PartialEq, Eq, Structural)]
pub struct GlyphMetric {
    /// The character.
    pub ch: char,
    /// Pixel line height it was measured at.
    pub size: u16,
    /// Horizontal advance, in pixels.
    pub advance: u16,
}

/// Advances measured so far, keyed by character and pixel size. Entries are
/// added the first time a key is needed and never removed.
#[derive(Clone, Debug)]
pub struct GlyphCache {
    /// Measurements, in the order they were added.
    pub entries: Vec<GlyphMetric>,
}

/// The advance recorded for a key; a later entry for the same key wins.
pub open spec fn cached_advance(entries: Seq<GlyphMetric>, ch: char, size: u16) -> Option<u16>
    decreases entries.len(),
{
    if entries.len() == 0 {
        None
    } else if entries.last().ch == ch && entries.last().size == size {
        Some(entries.last().advance)
    } else {
        cached_advance(entries.drop_last(), ch, size)
    }
}

/// A control character (Unicode general category Cc).
pub open spec fn is_control(c: char) -> bool {
    (c as u32) < 0x20 || (0x7f <= (c as u32) && (c as u32) < 0xa0)
}

/// A character that ends the current line.
pub open spec fn is_line_break(c: char) -> bool {
    c == '\n' || c == '\r'
}

/// A character that is measured and drawn as a glyph.
pub open spec fn is_drawn(entries: Seq<GlyphMetric>, c: char, size: u16) -> bool {
    !is_control(c) && cached_advance(entries, c, size) is Some
}

fn is_control_exec(c: char) -> (r: bool)
    ensures
        r == is_control(c),
{
    let v = c as u32;
    v < 0x20 || (0x7f <= v && v < 0xa0)
}

impl GlyphCache {
    /// An empty cache.
    pub fn new() -> (r: GlyphCache)
        ensures
            r.entries@.len() == 0,
    {
        GlyphCache { entries: Vec::new() }
    }

    /// The advance of a character at a pixel size, if it was measured.
    pub fn get(&self, ch: char, size: u16) -> (r: Option<u16>)
        ensures
            r == cached_advance(self.entries@, ch, size),
    {
        let mut i = self.entries.len();
        proof {
            assert(self.entries@.take(i as int) =~= self.entries@);
        }
        while i > 0
            invariant
                i <= self.entries@.len(),
                cached_advance(self.entries@, ch, size) == cached_advance(
                    self.entries@.take(i as int),
                    ch,
                    size,
                ),
            decreases i,
        {
            let e = self.entries[i - 1];
            proof {
                assert(self.entries@.take(i as int).drop_last() =~= self.entries@.take(i - 1));
            }
            if e.ch == ch && e.size == size {
                return Some(e.advance);
            }
            i = i - 1;
        }
        None
    }

    /// Records a measurement; a key that is already present keeps its advance.
    pub fn insert(&mut self, ch: char, size: u16, advance: u16)
        ensures
            cached_advance(final(self).entries@, ch, size) == match cached_advance(
                old(self).entries@,
                ch,
                size,
            ) {
                Some(a) => Some(a),
                None => Some(advance),
            },
            forall|c: char, s: u16|
                !(c == ch && s == size) ==> cached_advance(final(self).entries@, c, s)
                    == cached_advance(old(self).entries@, c, s),
    {
        if self.get(ch, size).is_none() {
            let ghost before = self.entries@;
            self.entries.push(GlyphMetric { ch, size, advance });
            proof {
                assert(self.entries@.drop_last() =~= before);
            }
        }
    }

    /// The characters of `chars` that still need measuring at `size`: each
    /// drawable character without an entry, once, in order of first use.
    pub fn missing(&self, chars: &Vec<char>, size: u16) -> (r: Vec<char>)
        ensures
            forall|i: int|
                0 <= i < r@.len() ==> chars@.contains(#[trigger] r@[i]) && !is_control(r@[i])
                    && cached_advance(self.entries@, r@[i], size) is None,
            forall|i: int|
                0 <= i < chars@.len() && !is_control(#[trigger] chars@[i]) && cached_advance(
                    self.entries@,
                    chars@[i],
                    size,
                ) is None ==> r@.contains(chars@[i]),
            forall|i: int, j: int| 0 <= i < j < r@.len() ==> r@[i] != r@[j],
    {
        let mut out: Vec<char> = Vec::new();
        let mut i: usize = 0;
        while i < chars.len()
            invariant
                i <= chars@.len(),
                forall|k: int|
                    0 <= k < out@.len() ==> chars@.contains(#[trigger] out@[k]) && !is_control(
                        out@[k],
                    ) && cached_advance(self.entries@, out@[k], size) is None,
                forall|k: int|
                    0 <= k < i && !is_control(#[trigger] chars@[k]) && cached_advance(
                        self.entries@,
                        chars@[k],
                        size,
                    ) is None ==> out@.contains(chars@[k]),
                forall|a: int, b: int| 0 <= a < b < out@.len() ==> out@[a] != out@[b],
            decreases chars@.len() - i,
        {
            let c = chars[i];
            if !is_control_exec(c) && self.get(c, size).is_none() {
                let mut seen = false;
                let mut j: usize = 0;
                while j < out.len()
                    invariant
                        j <= out@.len(),
                        seen == exists|k: int| 0 <= k < j && out@[k] == c,
                    decreases out@.len() - j,
                {
                    if out[j] == c {
                        seen = true;
                    }
                    j = j + 1;
                }
                if !seen {
                    let ghost before = out@;
                    out.push(c);
                    proof {
                        assert(out@[out@.len() - 1] == c);
                        assert forall|k: int| 0 <= k < before.len() implies out@[k] == before[k] by {}
                        assert forall|k: int|
                            0 <= k <= i && !is_control(#[trigger] chars@[k]) && cached_advance(
                                self.entries@,
                                chars@[k],
                                size,
                            ) is None implies out@.contains(chars@[k]) by {
                            if k < i {
                                let w = choose|w: int| 0 <= w < before.len() && before[w] == chars@[k];
                                assert(out@[w] == chars@[k]);
                            } else {
                                assert(out@[before.len() as int] == chars@[k]);
                            }
                        }
                    }
                } else {
                    proof {
                        assert forall|k: int|
                            0 <= k <= i && !is_control(#[trigger] chars@[k]) && cached_advance(
                                self.entries@,
                                chars@[k],
                                size,
                            ) is None implies out@.contains(chars@[k]) by {
                            if k == i {
                                let w = choose|w: int| 0 <= w < out@.len() && out@[w] == c;
                                assert(out@[w] == chars@[k]);
                            }
                        }
                    }
                }
            }
            i = i + 1;
        }
        out
    }
}

/// A glyph placed by the line breaker, before alignment.
#[derive(Clone, Copy, Debug, PartialEq, Eq, Structural)]
pub struct LaidGlyph {
    /// The character.
    pub ch: char,
    /// Horizontal advance, in pixels.
    pub advance: u16,
    /// Caret position within the line, in pixels.
    pub x: i64,
    /// Index of the line, from zero.
    pub line: u64,
}

/// A glyph placed relative to the origin of its text component.
#[derive(Clone, Copy, Debug, PartialEq, Eq, Structural)]
pub struct PlacedGlyph {
    /// Left edge, in pixels.
    pub x: i64,
    /// Top edge, in pixels.
    pub y: i64,
    /// The character.
    pub ch: char,
    /// Pixel line height the glyph is drawn at.
    pub line_height: u16,
    /// Horizontal advance, in pixels.
    pub advance: u16,
}

/// The line breaker after some characters: the glyphs placed, the caret and
/// the index of the current line.
pub open spec fn pen_step(
    p: (Seq<LaidGlyph>, int, int),
    c: char,
    entries: Seq<GlyphMetric>,
    size: u16,
    wrap_width: int,
) -> (Seq<LaidGlyph>, int, int) {
    if is_line_break(c) {
        (p.0, 0, p.2 + 1)
    } else if !is_drawn(entries, c, size) {
        p
    } else {
        let w = cached_advance(entries, c, size)->0;
        if p.1 + w > wrap_width {
            (p.0.push(LaidGlyph { ch: c, advance: w, x: 0, line: (p.2 + 1) as u64 }), w as int, p.2 + 1)
        } else {
            (p.0.push(LaidGlyph { ch: c, advance: w, x: p.1 as i64, line: p.2 as u64 }), p.1 + w, p.2)
        }
    }
}

/// Greedy line breaking: a glyph goes to a new line when it would pass the
/// wrap width, and a line break character starts a new line. Other control
/// characters and characters without a measurement are skipped.
pub open spec fn pen_spec(
    chars: Seq<char>,
    entries: Seq<GlyphMetric>,
    size: u16,
    wrap_width: int,
) -> (Seq<LaidGlyph>, int, int)
    decreases chars.len(),
{
    if chars.len() == 0 {
        (Seq::empty(), 0, 0)
    } else {
        pen_step(pen_spec(chars.drop_last(), entries, size, wrap_width), chars.last(), entries, size, wrap_width)
    }
}

/// The sum of the advances of the glyphs on a line.
pub open spec fn line_total(g: Seq<LaidGlyph>, l: int) -> int
    decreases g.len(),
{
    if g.len() == 0 {
        0
    } else {
        line_total(g.drop_last(), l) + if g.last().line == l {
            g.last().advance as int
        } else {
            0
        }
    }
}

/// The number of glyphs on a line.
pub open spec fn line_count(g: Seq<LaidGlyph>, l: int) -> int
    decreases g.len(),
{
    if g.len() == 0 {
        0
    } else {
        line_count(g.drop_last(), l) + if g.last().line == l {
            1int
        } else {
            0
        }
    }
}

/// The last glyph on a line, if any.
pub open spec fn line_last(g: Seq<LaidGlyph>, l: int) -> Option<LaidGlyph>
    decreases g.len(),
{
    if g.len() == 0 {
        None
    } else if g.last().line == l {
        Some(g.last())
    } else {
        line_last(g.drop_last(), l)
    }
}

/// Whether a line ends with a space.
pub open spec fn ends_with_space(g: Seq<LaidGlyph>, l: int) -> bool {
    line_last(g, l) matches Some(q) && q.ch == ' '
}

/// The width of a line without a single trailing space.
pub open spec fn real_width(g: Seq<LaidGlyph>, l: int) -> int {
    line_total(g, l) - if ends_with_space(g, l) {
        line_last(g, l)->0.advance as int
    } else {
        0
    }
}

/// The number of glyphs on a line without a single trailing space.
pub open spec fn real_count(g: Seq<LaidGlyph>, l: int) -> int {
    line_count(g, l) - if ends_with_space(g, l) {
        1int
    } else {
        0
    }
}

/// The largest integer that is at most `a / d`, for a positive `d`.
pub open spec fn floor_div(a: int, d: int) -> int {
    if a >= 0 {
        a / d
    } else {
        -((-a + d - 1) / d)
    }
}

/// The shift that alignment gives glyph `i`. Center shifts by half the free
/// space, rounded up; right shifts the whole line to end at the wrap width;
/// justify shifts the glyph of rank `k` on its line by `k` times the free space
/// divided by the glyph count, rounded down. Trailing spaces are not counted
/// as content.
pub open spec fn align_offset(g: Seq<LaidGlyph>, i: int, align: AlignUnit, wrap_width: int) -> int {
    let l = g[i].line as int;
    match align {
        AlignUnit::Left => 0,
        AlignUnit::Center => ceil_div(wrap_width - real_width(g, l), 2),
        AlignUnit::Right => wrap_width - line_total(g, l),
        AlignUnit::Justify => if real_count(g, l) <= 0 {
            0
        } else {
            floor_div(line_count(g.take(i), l) * (wrap_width - real_width(g, l)), real_count(g, l))
        },
    }
}

/// Glyph `i` shifted by its alignment, its line placed one line height below the previous one.
pub open spec fn placed_spec(g: Seq<LaidGlyph>, i: int, size: u16, wrap_width: int, align: AlignUnit) -> PlacedGlyph {
    PlacedGlyph {
        x: (g[i].x + align_offset(g, i, align, wrap_width)) as i64,
        y: (g[i].line * size) as i64,
        ch: g[i].ch,
        line_height: size,
        advance: g[i].advance,
    }
}

/// The glyphs of a text after line breaking and alignment.
pub open spec fn text_spec(
    chars: Seq<char>,
    entries: Seq<GlyphMetric>,
    size: u16,
    wrap_width: int,
    align: AlignUnit,
) -> Seq<PlacedGlyph> {
    let g = pen_spec(chars, entries, size, wrap_width).0;
    Seq::new(g.len(), |i: int| placed_spec(g, i, size, wrap_width, align))
}

/// The position of a placed glyph lies within the range the layout can reach.
pub open spec fn glyph_bounded(g: PlacedGlyph) -> bool {
    -0x100_0000_0000_0000 <= g.x <= 0x100_0000_0000_0000 && 0 <= g.y <= 0x1_0000_0000_0000
}

/// Facts of the line breaker that bound its numbers.
pub open spec fn pen_bounded(p: (Seq<LaidGlyph>, int, int), n: int) -> bool {
    &&& 0 <= p.1 <= 0xffff * n
    &&& 0 <= p.2 <= n
    &&& p.0.len() <= n
    &&& forall|k: int|
        0 <= k < p.0.len() ==> 0 <= (#[trigger] p.0[k]).x <= 0xffff * n && p.0[k].line <= p.2
}

fn place_char(
    glyphs: &mut Vec<LaidGlyph>,
    caret: i64,
    line: u64,
    c: char,
    cache: &GlyphCache,
    size: u16,
    wrap_width: i64,
    Ghost(n): Ghost<int>,
) -> (r: (i64, u64))
    requires
        0 <= n < TEXT_LIMIT,
        -PIXEL_LIMIT <= wrap_width <= PIXEL_LIMIT,
        pen_bounded((old(glyphs)@, caret as int, line as int), n),
    ensures
        pen_step((old(glyphs)@, caret as int, line as int), c, cache.entries@, size, wrap_width as int)
            == (final(glyphs)@, r.0 as int, r.1 as int),
        pen_bounded((final(glyphs)@, r.0 as int, r.1 as int), n + 1),
{
    if c == '\n' || c == '\r' {
        (0, line + 1)
    } else if is_control_exec(c) {
        (caret, line)
    } else {
        match cache.get(c, size) {
            Some(w) => {
                if caret + (w as i64) > wrap_width {
                    glyphs.push(LaidGlyph { ch: c, advance: w, x: 0, line: line + 1 });
                    (w as i64, line + 1)
                } else {
                    glyphs.push(LaidGlyph { ch: c, advance: w, x: caret, line });
                    (caret + w as i64, line)
                }
            },
            None => (caret, line),
        }
    }
}

fn break_lines(chars: &Vec<char>, cache: &GlyphCache, size: u16, wrap_width: i64) -> (r: (Vec<LaidGlyph>, u64))
    requires
        chars@.len() <= TEXT_LIMIT,
        -PIXEL_LIMIT <= wrap_width <= PIXEL_LIMIT,
    ensures
        r.0@ == pen_spec(chars@, cache.entries@, size, wrap_width as int).0,
        r.1 == pen_spec(chars@, cache.entries@, size, wrap_width as int).2,
        pen_bounded(pen_spec(chars@, cache.entries@, size, wrap_width as int), chars@.len() as int),
{
    let mut glyphs: Vec<LaidGlyph> = Vec::new();
    let mut caret: i64 = 0;
    let mut line: u64 = 0;
    let mut i: usize = 0;
    while i < chars.len()
        invariant
            i <= chars@.len() <= TEXT_LIMIT,
            -PIXEL_LIMIT <= wrap_width <= PIXEL_LIMIT,
            pen_spec(chars@.take(i as int), cache.entries@, size, wrap_width as int) == (
            glyphs@,
            caret as int,
            line as int,
            ),
            pen_bounded((glyphs@, caret as int, line as int), i as int),
        decreases chars@.len() - i,
    {
        let c = chars[i];
        proof {
            assert(chars@.take(i + 1).drop_last() =~= chars@.take(i as int));
            assert(chars@.take(i + 1).last() == c);
        }
        let (nc, nl) = place_char(&mut glyphs, caret, line, c, cache, size, wrap_width, Ghost(i as int));
        caret = nc;
        line = nl;
        i = i + 1;
    }
    proof {
        assert(chars@.take(chars@.len() as int) =~= chars@);
    }
    (glyphs, line)
}

proof fn lemma_line_count_grows(g: Seq<LaidGlyph>, i: int, k: int, l: int)
    requires
        0 <= i < k <= g.len(),
        g[i].line == l,
    ensures
        line_count(g.take(i), l) < line_count(g.take(k), l),
    decreases k - i,
{
    assert(g.take(k).drop_last() =~= g.take(k - 1));
    if k - 1 > i {
        lemma_line_count_grows(g, i, k - 1, l);
    } else {
        assert(g.take(k).last() == g[i]);
    }
}

/// Per-line sums, counts and last glyphs of the laid glyphs.
struct LineStats {
    totals: Vec<i64>,
    counts: Vec<u64>,
    lasts: Vec<Option<LaidGlyph>>,
}

fn line_stats(g: &Vec<LaidGlyph>, nlines: usize) -> (r: LineStats)
    requires
        g@.len() <= TEXT_LIMIT,
        forall|k: int| 0 <= k < g@.len() ==> (#[trigger] g@[k]).line < nlines,
    ensures
        r.totals@.len() == nlines,
        r.counts@.len() == nlines,
        r.lasts@.len() == nlines,
        forall|l: int|
            0 <= l < nlines ==> r.totals@[l] == line_total(g@, l) && r.counts@[l] == line_count(g@, l)
                && r.lasts@[l] == line_last(g@, l) && 0 <= r.totals@[l] <= 0xffff * g@.len()
                && r.counts@[l] <= g@.len(),
{
    let mut totals: Vec<i64> = Vec::new();
    let mut counts: Vec<u64> = Vec::new();
    let mut lasts: Vec<Option<LaidGlyph>> = Vec::new();
    let mut l: usize = 0;
    while l < nlines
        invariant
            l <= nlines,
            totals@.len() == l && counts@.len() == l && lasts@.len() == l,
            forall|m: int| 0 <= m < l ==> totals@[m] == 0 && counts@[m] == 0 && lasts@[m] is None,
        decreases nlines - l,
    {
        totals.push(0);
        counts.push(0);
        lasts.push(None);
        l = l + 1;
    }
    let mut i: usize = 0;
    while i < g.len()
        invariant
            i <= g@.len() <= TEXT_LIMIT,
            forall|k: int| 0 <= k < g@.len() ==> (#[trigger] g@[k]).line < nlines,
            totals@.len() == nlines && counts@.len() == nlines && lasts@.len() == nlines,
            forall|m: int|
                0 <= m < nlines ==> totals@[m] == line_total(g@.take(i as int), m) && counts@[m]
                    == line_count(g@.take(i as int), m) && lasts@[m] == line_last(g@.take(i as int), m)
                    && 0 <= totals@[m] <= 0xffff * i && counts@[m] <= i,
        decreases g@.len() - i,
    {
        let q = g[i];
        let li = q.line as usize;
        proof {
            assert(g@.take(i + 1).drop_last() =~= g@.take(i as int));
            assert(g@.take(i + 1).last() == q);
        }
        totals[li] = totals[li] + q.advance as i64;
        counts[li] = counts[li] + 1;
        lasts[li] = Some(q);
        i = i + 1;
    }
    proof {
        assert(g@.take(g@.len() as int) =~= g@);
    }
    LineStats { totals, counts, lasts }
}

proof fn lemma_quotient_bound(p: int, n: int, b: int)
    requires
        0 < n,
        0 <= b,
        -(n * b) <= p <= n * b,
    ensures
        -b - 1 <= floor_div(p, n) <= b,
{
    if p >= 0 {
        vstd::arithmetic::div_mod::lemma_div_is_ordered(p, n * b, n);
        vstd::arithmetic::div_mod::lemma_div_multiples_vanish(b, n);
        vstd::arithmetic::div_mod::lemma_div_is_ordered(0, p, n);
    } else {
        assert(n * b + n == n * (b + 1)) by (nonlinear_arith);
        vstd::arithmetic::div_mod::lemma_div_is_ordered(-p + n - 1, n * (b + 1), n);
        vstd::arithmetic::div_mod::lemma_div_multiples_vanish(b + 1, n);
        vstd::arithmetic::div_mod::lemma_div_is_ordered(0, -p + n - 1, n);
    }
}

fn floor_div_exec(a: i128, d: i128) -> (r: i128)
    requires
        0 < d <= 0x1_0000_0000,
        -0x1_0000_0000_0000_0000_0000_0000 <= a <= 0x1_0000_0000_0000_0000_0000_0000,
    ensures
        r == floor_div(a as int, d as int),
{
    if a >= 0 {
        a / d
    } else {
        -((-a + d - 1) / d)
    }
}

/// Shifts the laid glyphs of each line as the alignment asks and places the
/// lines one line height apart.
fn align_lines(g: &Vec<LaidGlyph>, nlines: usize, size: u16, wrap_width: i64, align: AlignUnit) -> (r: Vec<PlacedGlyph>)
    requires
        g@.len() <= TEXT_LIMIT,
        nlines <= TEXT_LIMIT + 1,
        -PIXEL_LIMIT <= wrap_width <= PIXEL_LIMIT,
        forall|k: int|
            0 <= k < g@.len() ==> (#[trigger] g@[k]).line < nlines && 0 <= g@[k].x <= 0xffff * TEXT_LIMIT,
    ensures
        r@.len() == g@.len(),
        forall|i: int|
            0 <= i < g@.len() ==> #[trigger] r@[i] == placed_spec(g@, i, size, wrap_width as int, align),
        forall|i: int| 0 <= i < r@.len() ==> glyph_bounded(#[trigger] r@[i]),
{
    let stats = line_stats(g, nlines);
    let mut seen: Vec<u64> = Vec::new();
    let mut l: usize = 0;
    while l < nlines
        invariant
            l <= nlines,
            seen@.len() == l,
            forall|m: int| 0 <= m < l ==> seen@[m] == 0,
        decreases nlines - l,
    {
        seen.push(0);
        l = l + 1;
    }
    let mut out: Vec<PlacedGlyph> = Vec::new();
    let mut i: usize = 0;
    while i < g.len()
        invariant
            i <= g@.len() <= TEXT_LIMIT,
            nlines <= TEXT_LIMIT + 1,
            -PIXEL_LIMIT <= wrap_width <= PIXEL_LIMIT,
            forall|k: int|
                0 <= k < g@.len() ==> (#[trigger] g@[k]).line < nlines && 0 <= g@[k].x <= 0xffff
                    * TEXT_LIMIT,
            stats.totals@.len() == nlines,
            stats.counts@.len() == nlines,
            stats.lasts@.len() == nlines,
            forall|m: int|
                0 <= m < nlines ==> stats.totals@[m] == line_total(g@, m) && stats.counts@[m]
                    == line_count(g@, m) && stats.lasts@[m] == line_last(g@, m) && 0
                    <= stats.totals@[m] <= 0xffff * g@.len() && stats.counts@[m] <= g@.len(),
            seen@.len() == nlines,
            forall|m: int| 0 <= m < nlines ==> seen@[m] == line_count(g@.take(i as int), m),
            out@.len() == i,
            forall|k: int|
                0 <= k < i ==> #[trigger] out@[k] == placed_spec(g@, k, size, wrap_width as int, align),
            forall|k: int| 0 <= k < i ==> glyph_bounded(#[trigger] out@[k]),
        decreases g@.len() - i,
    {
        let q = g[i];
        let li = q.line as usize;
        let total = stats.totals[li];
        let count = stats.counts[li];
        let rank = seen[li];
        proof {
            lemma_line_count_grows(g@, i as int, g@.len() as int, li as int);
            assert(g@.take(g@.len() as int) =~= g@);
        }
        let (content_w, real_n) = match stats.lasts[li] {
            Some(last) => if last.ch == ' ' {
                (total - last.advance as i64, count - 1)
            } else {
                (total, count)
            },
            None => (total, count),
        };
        let offset: i64 = match align {
            AlignUnit::Left => 0,
            AlignUnit::Center => {
                let free = wrap_width - content_w;
                if free >= 0 {
                    (free + 1) / 2
                } else {
                    -((-free) / 2)
                }
            },
            AlignUnit::Right => wrap_width - total,
            AlignUnit::Justify => {
                if real_n == 0 {
                    0
                } else {
                    let free = (wrap_width - content_w) as i128;
                    proof {
                        assert(-0x40_0000_0000_0000 * 0x8000_0000 <= rank * free <= 0x40_0000_0000_0000
                            * 0x8000_0000) by (nonlinear_arith)
                            requires
                                0 <= rank <= 0x8000_0000,
                                -0x40_0000_0000_0000 <= free <= 0x40_0000_0000_0000,
                        ;
                    }
                    let f = floor_div_exec((rank as i128) * free, real_n as i128);
                    proof {
                        assert(-(real_n * 0x40_0000_0000_0000) <= rank * free <= real_n * 0x40_0000_0000_0000)
                            by (nonlinear_arith)
                            requires
                                0 <= rank <= real_n,
                                -0x40_0000_0000_0000 <= free <= 0x40_0000_0000_0000,
                        ;
                        lemma_quotient_bound(rank * free, real_n as int, 0x40_0000_0000_0000);
                    }
                    f as i64
                }
            },
        };
        proof {
            assert(0 <= q.line * size <= 0x8000_0000 * 0x1_0000) by (nonlinear_arith)
                requires
                    0 <= q.line < 0x8000_0000,
                    0 <= size < 0x1_0000,
            ;
        }
        out.push(PlacedGlyph {
            x: q.x + offset,
            y: q.line as i64 * size as i64,
            ch: q.ch,
            line_height: size,
            advance: q.advance,
        });
        proof {
            assert(g@.take(i + 1).drop_last() =~= g@.take(i as int));
            assert(g@.take(i + 1).last() == q);
        }
        seen[li] = rank + 1;
        i = i + 1;
    }
    out
}

/// The canonical composition (Unicode NFC) of a text.
pub uninterp spec fn composed(s: Seq<char>) -> Seq<char>;

/// Relies on unicode_normalization's `nfc`: the canonical composition of the
/// text, which depends on its characters alone; nothing composes from nothing.
#[verifier::external_body]
fn compose(s: &str) -> (r: Vec<char>)
    ensures
        r@ == composed(s@),
        s@.len() == 0 ==> r@.len() == 0,
{
    unicode_normalization::UnicodeNormalization::nfc(s).collect()
}

/// The characters of a text after canonical composition, so that a combining
/// sequence is measured as the glyph it composes to.
pub fn composed_chars(s: &str) -> (r: Vec<char>)
    ensures
        r@ == composed(s@),
{
    compose(s)
}

/// Lays out characters that are already composed: greedy line breaking at
/// `wrap_width`, then alignment of each line. `size` is the pixel line height.
pub fn layout_text(chars: &Vec<char>, cache: &GlyphCache, size: u16, wrap_width: i64, align: AlignUnit) -> (r: Vec<PlacedGlyph>)
    requires
        chars@.len() <= TEXT_LIMIT,
        -PIXEL_LIMIT <= wrap_width <= PIXEL_LIMIT,
    ensures
        r@ == text_spec(chars@, cache.entries@, size, wrap_width as int, align),
        forall|i: int| 0 <= i < r@.len() ==> glyph_bounded(#[trigger] r@[i]),
{
    let (laid, last_line) = break_lines(chars, cache, size, wrap_width);
    let out = align_lines(&laid, last_line as usize + 1, size, wrap_width, align);
    proof {
        let g = pen_spec(chars@, cache.entries@, size, wrap_width as int).0;
        assert(out@ =~= Seq::new(g.len(), |i: int| placed_spec(g, i, size, wrap_width as int, align)));
    }
    out
}

/// Composes and lays out a text; `None` when the composed text is longer than
/// the layout can hold.
pub fn shape_text(content: &str, cache: &GlyphCache, size: u16, wrap_width: i64, align: AlignUnit) -> (r: Option<Vec<PlacedGlyph>>)
    requires
        -PIXEL_LIMIT <= wrap_width <= PIXEL_LIMIT,
    ensures
        r is Some <==> composed(content@).len() <= TEXT_LIMIT,
        r is Some ==> r->0@ == text_spec(composed(content@), cache.entries@, size, wrap_width as int, align),
        r is Some ==> forall|i: int| 0 <= i < r->0@.len() ==> glyph_bounded(#[trigger] r->0@[i]),
{
    let chars = compose(content);
    if chars.len() as u64 <= TEXT_LIMIT {
        Some(layout_text(&chars, cache, size, wrap_width, align))
    } else {
        None
    }
}

/// A glyph whose advance exactly fills the rest of the line stays on it: only
/// a glyph that would pass the wrap width starts a new line.
pub proof fn exact_fit_does_not_wrap(
    p: (Seq<LaidGlyph>, int, int),
    c: char,
    entries: Seq<GlyphMetric>,
    size: u16,
    wrap_width: int,
)
    requires
        0 <= p.1 <= PIXEL_LIMIT,
        0 <= p.2 <= TEXT_LIMIT,
        !is_line_break(c),
        is_drawn(entries, c, size),
        p.1 + cached_advance(entries, c, size)->0 == wrap_width,
    ensures
        pen_step(p, c, entries, size, wrap_width).2 == p.2,
        pen_step(p, c, entries, size, wrap_width).0.last().x == p.1,
        pen_step(p, c, entries, size, wrap_width).0.last().line == p.2,
{
}

/// Justifying a line whose content already fills the wrap width moves none of its glyphs.
pub proof fn justify_full_line_is_unchanged(g: Seq<LaidGlyph>, i: int, wrap_width: int)
    requires
        0 <= i < g.len(),
        real_width(g, g[i].line as int) == wrap_width,
    ensures
        align_offset(g, i, AlignUnit::Justify, wrap_width) == 0,
{
    assert(line_count(g.take(i), g[i].line as int) * (wrap_width - real_width(g, g[i].line as int)) == 0);
}

} // verus!
