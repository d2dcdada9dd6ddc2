//! A computed layout: the glyphs a positioner produced for one section, and its pixel bounds.

use vstd::prelude::*;
use crate::geometry::{PixelRect, clip_spec, hull_spec, rect_within};

verus! {

/// One positioned glyph with the whole-pixel box of its ink (`None` for a glyph that draws
/// nothing, such as a space).
pub struct LaidGlyph<G> {
    pub glyph: G,
    pub pixel_box: Option<PixelRect>,
}

/// The cached result of laying out a section.
///
/// `bounds` is the declared layout area widened to whole pixels (minimum corner floored,
/// maximum corner ceiled and clamped to `i32::MAX`). `z_bits` carries the section's depth value
/// as the bit pattern of the float the caller supplied.
pub struct GlyphedSection<G> {
    pub bounds: PixelRect,
    pub glyphs: Vec<LaidGlyph<G>>,
    pub z_bits: u32,
}

/// What one glyph adds to the pixel bounds: its ink box clamped to `area`, if any part of it is
/// inside.
pub open spec fn glyph_contribution<G>(g: LaidGlyph<G>, area: PixelRect) -> Option<PixelRect> {
    match g.pixel_box {
        Some(b) => clip_spec(b, area),
        None => None,
    }
}

/// Joins an accumulated box with one more contribution.
pub open spec fn join(acc: Option<PixelRect>, next: Option<PixelRect>) -> Option<PixelRect> {
    match (acc, next) {
        (None, n) => n,
        (Some(a), None) => Some(a),
        (Some(a), Some(b)) => Some(hull_spec(a, b)),
    }
}

/// The union of every glyph's clamped ink box, or `None` where no glyph contributes.
pub open spec fn bounds_of<G>(glyphs: Seq<LaidGlyph<G>>, area: PixelRect) -> Option<PixelRect>
    decreases glyphs.len(),
{
    if glyphs.len() == 0 {
        None
    } else {
        join(bounds_of(glyphs.drop_last(), area), glyph_contribution(glyphs.last(), area))
    }
}

/// The pixel bounds of a glyph list lie inside the layout area they were clamped to.
pub proof fn lemma_bounds_within_area<G>(glyphs: Seq<LaidGlyph<G>>, area: PixelRect)
    ensures
        bounds_of(glyphs, area) matches Some(r) ==> rect_within(r, area),
    decreases glyphs.len(),
{
    if glyphs.len() > 0 {
        lemma_bounds_within_area(glyphs.drop_last(), area);
    }
}

/// The pixel bounds are absent exactly when no glyph has ink inside the layout area; in
/// particular an empty glyph list has none.
pub proof fn lemma_bounds_absent<G>(glyphs: Seq<LaidGlyph<G>>, area: PixelRect)
    ensures
        bounds_of(glyphs, area) is None <==> forall|i: int|
            0 <= i < glyphs.len() ==> #[trigger] glyph_contribution(glyphs[i], area) is None,
    decreases glyphs.len(),
{
    if glyphs.len() > 0 {
        let init = glyphs.drop_last();
        lemma_bounds_absent(init, area);
        assert forall|i: int| 0 <= i < init.len() implies init[i] == glyphs[i] by {}
        if bounds_of(glyphs, area) is None {
            assert forall|i: int| 0 <= i < glyphs.len() implies #[trigger] glyph_contribution(
                glyphs[i],
                area,
            ) is None by {
                if i < init.len() {
                    assert(init[i] == glyphs[i]);
                }
            }
        }
    }
}

impl<G> GlyphedSection<G> {
    /// The smallest whole-pixel rectangle holding the ink of every glyph, clamped to the layout
    /// bounds; `None` when no glyph draws anything inside them.
    pub fn pixel_bounds(&self) -> (r: Option<PixelRect>)
        ensures
            r == bounds_of(self.glyphs@, self.bounds),
            r matches Some(b) ==> rect_within(b, self.bounds),
    {
        let layout_bounds = self.bounds;
        let mut no_match = true;
        let mut pixel_bounds = PixelRect { min_x: 0, min_y: 0, max_x: 0, max_y: 0 };
        let mut i: usize = 0;
        while i < self.glyphs.len()
            invariant
                i <= self.glyphs@.len(),
                layout_bounds == self.bounds,
                no_match <==> bounds_of(self.glyphs@.take(i as int), self.bounds) is None,
                !no_match ==> bounds_of(self.glyphs@.take(i as int), self.bounds) == Some(
                    pixel_bounds,
                ),
            decreases self.glyphs@.len() - i,
        {
            proof {
                assert(self.glyphs@.take(i as int + 1).drop_last() =~= self.glyphs@.take(
                    i as int,
                ));
            }
            let clipped = match self.glyphs[i].pixel_box {
                Some(b) => b.clip(&layout_bounds),
                None => None,
            };
            if let Some(rect) = clipped {
                if no_match || rect.min_x < pixel_bounds.min_x {
                    pixel_bounds.min_x = rect.min_x;
                }
                if no_match || rect.min_y < pixel_bounds.min_y {
                    pixel_bounds.min_y = rect.min_y;
                }
                if no_match || rect.max_x > pixel_bounds.max_x {
                    pixel_bounds.max_x = rect.max_x;
                }
                if no_match || rect.max_y > pixel_bounds.max_y {
                    pixel_bounds.max_y = rect.max_y;
                }
                no_match = false;
            }
            i = i + 1;
        }
        proof {
            assert(self.glyphs@.take(i as int) =~= self.glyphs@);
            lemma_bounds_within_area(self.glyphs@, self.bounds);
        }
        if no_match {
            None
        } else {
            Some(pixel_bounds)
        }
    }

    /// The positioned glyphs, in layout order.
    pub fn glyphs(&self) -> (r: &Vec<LaidGlyph<G>>)
        ensures
            r@ == self.glyphs@,
    {
        &self.glyphs
    }
}

} // verus!
