use lattice::text::{composed_chars, layout_text, shape_text, GlyphCache, PlacedGlyph};
use lattice::view::AlignUnit;

fn cache_ab() -> GlyphCache {
    let mut cache = GlyphCache::new();
    cache.insert('a', 16, 10);
    cache.insert('b', 16, 7);
    cache.insert(' ', 16, 4);
    cache
}

fn positions(g: &[PlacedGlyph]) -> Vec<(char, i64, i64)> {
    g.iter().map(|q| (q.ch, q.x, q.y)).collect()
}

#[test]
fn glyph_wraps_when_it_would_pass_the_width() {
    let chars: Vec<char> = "ab".chars().collect();
    let g = layout_text(&chars, &cache_ab(), 16, 10, AlignUnit::Left);
    assert_eq!(positions(&g), vec![('a', 0, 0), ('b', 0, 16)]);
}

#[test]
fn glyph_that_exactly_fills_the_line_does_not_wrap() {
    let chars: Vec<char> = "ab".chars().collect();
    let g = layout_text(&chars, &cache_ab(), 16, 17, AlignUnit::Left);
    assert_eq!(positions(&g), vec![('a', 0, 0), ('b', 10, 0)]);
}

#[test]
fn line_breaks_start_a_new_line_without_width() {
    let chars: Vec<char> = "a\nb\tb".chars().collect();
    let g = layout_text(&chars, &cache_ab(), 16, 100, AlignUnit::Left);
    assert_eq!(positions(&g), vec![('a', 0, 0), ('b', 0, 16), ('b', 7, 16)]);
}

#[test]
fn unmeasured_glyph_is_skipped() {
    let chars: Vec<char> = "azb".chars().collect();
    let g = layout_text(&chars, &cache_ab(), 16, 100, AlignUnit::Left);
    assert_eq!(positions(&g), vec![('a', 0, 0), ('b', 10, 0)]);
}

#[test]
fn justify_of_a_full_line_adds_no_gap() {
    let chars: Vec<char> = "ab".chars().collect();
    let g = layout_text(&chars, &cache_ab(), 16, 17, AlignUnit::Justify);
    assert_eq!(positions(&g), vec![('a', 0, 0), ('b', 10, 0)]);
}

#[test]
fn justify_spreads_the_free_space_progressively() {
    let chars: Vec<char> = "aab ".chars().collect();
    let g = layout_text(&chars, &cache_ab(), 16, 37, AlignUnit::Justify);
    // content 27 wide without the trailing space, 3 glyphs: gap 10/3 per rank
    assert_eq!(
        positions(&g),
        vec![('a', 0, 0), ('a', 13, 0), ('b', 26, 0), (' ', 37, 0)]
    );
}

#[test]
fn justify_of_a_lone_space_is_a_no_op() {
    let chars: Vec<char> = " ".chars().collect();
    let g = layout_text(&chars, &cache_ab(), 16, 37, AlignUnit::Justify);
    assert_eq!(positions(&g), vec![(' ', 0, 0)]);
}

#[test]
fn center_and_right_alignment() {
    let chars: Vec<char> = "ab ".chars().collect();
    let g = layout_text(&chars, &cache_ab(), 16, 40, AlignUnit::Center);
    // free space 40 - 17 = 23, half rounded up is 12
    assert_eq!(positions(&g), vec![('a', 12, 0), ('b', 22, 0), (' ', 29, 0)]);
    let g = layout_text(&chars, &cache_ab(), 16, 40, AlignUnit::Right);
    // the whole line, trailing space included, ends at the wrap width
    assert_eq!(positions(&g), vec![('a', 19, 0), ('b', 29, 0), (' ', 36, 0)]);
}

#[test]
fn combining_sequence_is_composed() {
    let chars = composed_chars("e\u{301}");
    assert_eq!(chars, vec!['\u{e9}']);
    let mut cache = GlyphCache::new();
    cache.insert('\u{e9}', 12, 6);
    let g = shape_text("e\u{301}e\u{301}", &cache, 12, 100, AlignUnit::Left).unwrap();
    assert_eq!(positions(&g), vec![('\u{e9}', 0, 0), ('\u{e9}', 6, 0)]);
    assert_eq!(composed_chars(""), Vec::<char>::new());
}

#[test]
fn cache_keeps_first_measurement_and_reports_missing() {
    let mut cache = GlyphCache::new();
    cache.insert('a', 16, 10);
    cache.insert('a', 16, 99);
    cache.insert('a', 20, 12);
    assert_eq!(cache.get('a', 16), Some(10));
    assert_eq!(cache.get('a', 20), Some(12));
    assert_eq!(cache.get('b', 16), None);
    let chars: Vec<char> = "abca\nb".chars().collect();
    assert_eq!(cache.missing(&chars, 16), vec!['b', 'c']);
}
