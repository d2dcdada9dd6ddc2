use layout_cache::{
    FontId, GlyphCalculator, GlyphCalculatorBuilder, GlyphCruncher, GlyphedSection, LaidGlyph,
    PixelRect,
};
use std::hash::{BuildHasher, Hash, Hasher};

fn rect(min_x: i32, min_y: i32, max_x: i32, max_y: i32) -> PixelRect {
    PixelRect { min_x, min_y, max_x, max_y }
}

fn glyph(c: char, pixel_box: Option<PixelRect>) -> LaidGlyph<char> {
    LaidGlyph { glyph: c, pixel_box }
}

fn section(bounds: PixelRect, glyphs: Vec<LaidGlyph<char>>) -> GlyphedSection<char> {
    GlyphedSection { bounds, glyphs, z_bits: 0.0f32.to_bits() }
}

/// Whole-pixel layout area: minimum floored, maximum ceiled and clamped to `i32::MAX`.
fn pixel_area(min_x: f32, min_y: f32, max_x: f32, max_y: f32) -> PixelRect {
    let max_to_i32 = |max: f32| {
        let ceil = max.ceil();
        if ceil > i32::MAX as f32 {
            return i32::MAX;
        }
        ceil as i32
    };
    rect(min_x.floor() as i32, min_y.floor() as i32, max_to_i32(max_x), max_to_i32(max_y))
}

fn calculator() -> GlyphCalculator<&'static str, layout_cache::DefaultSectionHasher, char> {
    GlyphCalculatorBuilder::using_font("mono").build()
}

/// A monospace stand-in for a positioner: each line is `scale` high, each character advances
/// `0.6 * scale` and inks a box half a `scale` wide from a fifth of the way down its line. The
/// text is bottom-aligned at `screen_position.1` inside an area `bounds.1` high.
fn mono_layout(
    text: &str,
    screen_position: (f32, f32),
    bounds: (f32, f32),
    scale: f32,
) -> GlyphedSection<char> {
    let (x0, bottom) = screen_position;
    let area = pixel_area(x0, bottom - bounds.1, x0 + bounds.0, bottom);
    let lines: Vec<&str> = text.split('\n').collect();
    let top = bottom - scale * lines.len() as f32;
    let mut glyphs = Vec::new();
    for (row, line) in lines.iter().enumerate() {
        if row > 0 {
            glyphs.push(glyph('\n', None));
        }
        let line_top = top + scale * row as f32;
        for (col, c) in line.chars().enumerate() {
            let x = x0 + 0.6 * scale * col as f32;
            let ink = rect(
                x.floor() as i32,
                (line_top + 0.2 * scale).floor() as i32,
                (x + 0.5 * scale).ceil() as i32,
                (line_top + scale).ceil() as i32,
            );
            glyphs.push(glyph(c, Some(ink)));
        }
    }
    section(area, glyphs)
}

fn hello_world() -> GlyphedSection<char> {
    mono_layout(
        "Hello\n\
         World",
        (0.0, 20.0),
        (f32::INFINITY, 20.0),
        16.0,
    )
}

#[test]
fn pixel_bounds_respect_layout_bounds() {
    let mut glyphs = calculator();
    let mut glyphs = glyphs.cache_scope();

    let pixel_bounds = glyphs
        .pixel_bounds_custom_layout(11, |_: &Vec<&str>| hello_world())
        .expect("None bounds");
    let (layout_min_y, layout_max_y) = (20.0f32 - 20.0, 20.0f32);

    assert!(
        layout_min_y <= pixel_bounds.min_y as f32,
        "expected {} <= {}",
        layout_min_y,
        pixel_bounds.min_y
    );
    assert!(
        layout_max_y >= pixel_bounds.max_y as f32,
        "expected {} >= {}",
        layout_max_y,
        pixel_bounds.max_y
    );
    assert_eq!(pixel_bounds, rect(0, 0, 47, 20));
    glyphs.release();
}

#[test]
fn top_line_ink_reaches_above_layout_area() {
    let s = hello_world();
    assert_eq!(s.glyphs()[0].pixel_box, Some(rect(0, -9, 8, 4)));
    assert_eq!(s.bounds, rect(0, 0, i32::MAX, 20));
}

#[test]
fn layout_area_is_widened_to_whole_pixels() {
    assert_eq!(pixel_area(-0.5, 1.25, 10.1, f32::INFINITY), rect(-1, 1, 11, i32::MAX));
    assert_eq!(pixel_area(2.0, 3.0, 4.0, 5.0), rect(2, 3, 4, 5));
}

#[test]
fn pixel_bounds_unite_glyph_boxes() {
    let s = section(
        rect(0, 0, 100, 100),
        vec![glyph('a', Some(rect(5, 6, 10, 12))), glyph('b', Some(rect(8, 2, 30, 9)))],
    );
    assert_eq!(s.pixel_bounds(), Some(rect(5, 2, 30, 12)));
}

#[test]
fn pixel_bounds_clamp_to_layout_area() {
    let area = rect(0, 0, 50, 40);
    let s = section(
        area,
        vec![glyph('a', Some(rect(-5, -3, 20, 10))), glyph('b', Some(rect(45, 30, 60, 70)))],
    );
    let b = s.pixel_bounds().unwrap();
    assert_eq!(b, rect(0, 0, 50, 40));
    assert!(area.min_x <= b.min_x && area.min_y <= b.min_y);
    assert!(b.max_x <= area.max_x && b.max_y <= area.max_y);
}

#[test]
fn glyph_box_touching_the_edge_counts() {
    let s = section(rect(0, 0, 10, 10), vec![glyph('a', Some(rect(10, 10, 14, 14)))]);
    assert_eq!(s.pixel_bounds(), Some(rect(10, 10, 10, 10)));
}

#[test]
fn glyphs_outside_layout_area_give_no_bounds() {
    let s = section(
        rect(0, 0, 10, 10),
        vec![
            glyph('a', Some(rect(11, 0, 15, 5))),
            glyph('b', Some(rect(0, -8, 5, -1))),
            glyph('c', Some(rect(-9, 0, -1, 5))),
            glyph('d', Some(rect(0, 11, 5, 15))),
            glyph(' ', None),
        ],
    );
    assert_eq!(s.pixel_bounds(), None);
}

#[test]
fn empty_section_has_no_bounds_and_no_glyphs() {
    let mut calc = calculator();
    let mut scope = calc.cache_scope();
    let empty = || section(rect(0, 0, 100, 100), Vec::new());
    assert_eq!(scope.pixel_bounds_custom_layout(1, |_: &Vec<&str>| empty()), None);
    assert!(scope.glyphs_custom_layout(1, |_: &Vec<&str>| empty()).is_empty());
    scope.release();
}

#[test]
fn whitespace_only_section_has_no_bounds() {
    let s = section(rect(0, 0, 100, 100), vec![glyph(' ', None), glyph('\t', None)]);
    assert_eq!(s.pixel_bounds(), None);
    assert_eq!(s.glyphs().len(), 2);
}

#[test]
fn repeated_query_computes_once() {
    let mut calc = calculator();
    let mut scope = calc.cache_scope();
    let mut runs = 0;
    let first = scope.pixel_bounds_custom_layout(5, |_: &Vec<&str>| {
        runs += 1;
        hello_world()
    });
    let second = scope.pixel_bounds_custom_layout(5, |_: &Vec<&str>| {
        runs += 1;
        hello_world()
    });
    assert_eq!(first, second);
    let glyphs: Vec<char> = scope
        .glyphs_custom_layout(5, |_: &Vec<&str>| {
            runs += 1;
            hello_world()
        })
        .iter()
        .map(|g| g.glyph)
        .collect();
    assert_eq!(glyphs.iter().collect::<String>(), "Hello\nWorld");
    assert_eq!(runs, 1);
    scope.release();
}

#[test]
fn positioner_receives_the_fonts() {
    let mut calc = GlyphCalculatorBuilder::using_fonts(vec!["sans", "serif"]).build();
    let mut scope = calc.cache_scope();
    let mut seen = Vec::new();
    scope.pixel_bounds_custom_layout(3, |fonts: &Vec<&str>| {
        seen = fonts.clone();
        section(rect(0, 0, 1, 1), Vec::new())
    });
    assert_eq!(seen, vec!["sans", "serif"]);
    assert_eq!(scope.fonts().len(), 2);
    scope.release();
}

fn count_runs(
    scope: &mut layout_cache::GlyphCalculatorGuard<'_, &'static str, layout_cache::DefaultSectionHasher, char>,
    fingerprint: u64,
) -> u32 {
    let mut runs = 0;
    scope.pixel_bounds_custom_layout(fingerprint, |_: &Vec<&str>| {
        runs += 1;
        section(rect(0, 0, 10, 10), vec![glyph('x', Some(rect(1, 1, 2, 2)))])
    });
    runs
}

#[test]
fn release_prunes_untouched_layouts() {
    let mut calc = calculator();
    let (f1, f2) = (101u64, 202u64);

    let mut a = calc.cache_scope();
    assert_eq!(count_runs(&mut a, f1), 1);
    assert_eq!(count_runs(&mut a, f2), 1);
    a.release();

    let mut b = calc.cache_scope();
    assert_eq!(count_runs(&mut b, f1), 0);
    b.release();

    let mut c = calc.cache_scope();
    assert_eq!(count_runs(&mut c, f1), 0);
    assert_eq!(count_runs(&mut c, f2), 1);
    c.release();
}

#[test]
fn release_of_untouched_scope_empties_cache() {
    let mut calc = calculator();
    let mut a = calc.cache_scope();
    assert_eq!(count_runs(&mut a, 9), 1);
    a.release();
    let b = calc.cache_scope();
    b.release();
    let mut c = calc.cache_scope();
    assert_eq!(count_runs(&mut c, 9), 1);
    c.release();
}

#[test]
fn colliding_fingerprints_share_first_layout() {
    let mut calc = calculator();
    let mut scope = calc.cache_scope();
    let one = || section(rect(0, 0, 100, 100), vec![glyph('a', Some(rect(1, 1, 5, 5)))]);
    let other = || section(rect(0, 0, 100, 100), vec![glyph('b', Some(rect(50, 50, 60, 60)))]);
    assert_eq!(scope.pixel_bounds_custom_layout(77, |_: &Vec<&str>| one()), Some(rect(1, 1, 5, 5)));
    assert_eq!(scope.pixel_bounds_custom_layout(77, |_: &Vec<&str>| other()), Some(rect(1, 1, 5, 5)));
    assert_eq!(scope.glyphs_custom_layout(77, |_: &Vec<&str>| other())[0].glyph, 'a');
    scope.release();

    let mut next = calc.cache_scope();
    assert_eq!(next.pixel_bounds_custom_layout(77, |_: &Vec<&str>| other()), Some(rect(1, 1, 5, 5)));
    next.release();
}

#[test]
fn fonts_receive_increasing_ids() {
    let mut builder = GlyphCalculatorBuilder::using_font("regular");
    assert_eq!(builder.add_font("bold"), FontId(1));
    assert_eq!(builder.add_font("italic"), FontId(2));
    let mut calc: GlyphCalculator<&str, _, char> = builder.build();
    let scope = calc.cache_scope();
    assert_eq!(scope.fonts(), &vec!["regular", "bold", "italic"]);
    scope.release();
}

fn parse_font(bytes: &'static [u8]) -> Option<String> {
    if bytes.starts_with(b"FONT") {
        Some(String::from_utf8_lossy(&bytes[4..]).into_owned())
    } else {
        None
    }
}

#[test]
fn font_bytes_are_parsed() {
    let mut builder = GlyphCalculatorBuilder::using_font_bytes(&b"FONTsans"[..], parse_font).unwrap();
    assert_eq!(builder.add_font_bytes(&b"FONTmono"[..], parse_font), Some(FontId(1)));
    assert_eq!(builder.add_font_bytes(&b"junk"[..], parse_font), None);
    assert_eq!(builder.add_font(String::from("serif")), FontId(2));
    let mut calc: GlyphCalculator<String, _, char> = builder.build();
    let scope = calc.cache_scope();
    assert_eq!(scope.fonts(), &vec![String::from("sans"), String::from("mono"), String::from("serif")]);
    scope.release();
}

#[test]
fn malformed_font_bytes_fail_construction() {
    assert!(GlyphCalculatorBuilder::using_font_bytes(&b"nope"[..], parse_font).is_none());
    let all = GlyphCalculatorBuilder::using_fonts_bytes(vec![&b"FONTa"[..], &b"FONTb"[..]], parse_font);
    let mut calc: GlyphCalculator<String, _, char> = all.unwrap().build();
    let scope = calc.cache_scope();
    assert_eq!(scope.fonts(), &vec![String::from("a"), String::from("b")]);
    scope.release();
    let bad = GlyphCalculatorBuilder::using_fonts_bytes(vec![&b"FONTa"[..], &b"bad"[..]], parse_font);
    assert!(bad.is_none());
}

#[derive(Clone, Default)]
struct FixedHasher;

struct SumHasher(u64);

impl Hasher for SumHasher {
    fn finish(&self) -> u64 {
        self.0
    }
    fn write(&mut self, bytes: &[u8]) {
        for b in bytes {
            self.0 = self.0.wrapping_mul(31).wrapping_add(*b as u64);
        }
    }
}

impl BuildHasher for FixedHasher {
    type Hasher = SumHasher;
    fn build_hasher(&self) -> SumHasher {
        SumHasher(0)
    }
}

#[test]
fn custom_section_hasher_is_kept() {
    let mut calc: GlyphCalculator<&str, FixedHasher, char> =
        GlyphCalculatorBuilder::using_font("mono").section_hasher(FixedHasher).build();
    let scope = calc.cache_scope();
    let mut h = scope.section_hasher().build_hasher();
    "ab".hash(&mut h);
    let mut again = scope.section_hasher().build_hasher();
    "ab".hash(&mut again);
    assert_eq!(h.finish(), again.finish());
    scope.release();
}

#[test]
fn default_section_hasher_is_deterministic() {
    let hasher = layout_cache::DefaultSectionHasher;
    let mut a = hasher.build_hasher();
    let mut b = layout_cache::DefaultSectionHasher.build_hasher();
    ("Hello", 16u32).hash(&mut a);
    ("Hello", 16u32).hash(&mut b);
    assert_eq!(a.finish(), b.finish());
}

#[test]
fn clip_keeps_inner_part() {
    let area = rect(0, 0, 10, 10);
    assert_eq!(rect(-3, 4, 5, 20).clip(&area), Some(rect(0, 4, 5, 10)));
    assert_eq!(rect(2, 2, 3, 3).clip(&area), Some(rect(2, 2, 3, 3)));
    assert_eq!(rect(11, 2, 13, 3).clip(&area), None);
}
