//! The glyph calculator: a font registry, the layout cache, and the scope through which the
//! cache is used.

use vstd::prelude::*;
use std::collections::HashMap;
use crate::geometry::{PixelRect, rect_within};
use crate::glyphed_section::{GlyphedSection, LaidGlyph, bounds_of};

verus! {

broadcast use vstd::std_specs::hash::group_hash_axioms;

/// The layout that a scope already holds for `fp`: first among the layouts touched in this
/// scope (`kept`), then among those left from earlier scopes (`stale`).
pub open spec fn scope_lookup<V>(stale: Map<u64, V>, kept: Map<u64, V>, fp: u64) -> Option<V> {
    if kept.contains_key(fp) {
        Some(kept[fp])
    } else if stale.contains_key(fp) {
        Some(stale[fp])
    } else {
        None
    }
}

/// The layout a query for `fp` answers with, where `fresh` is what the positioner would
/// compute: a layout already held wins.
pub open spec fn resolve<V>(stale: Map<u64, V>, kept: Map<u64, V>, fp: u64, fresh: V) -> V {
    match scope_lookup(stale, kept, fp) {
        Some(v) => v,
        None => fresh,
    }
}

/// The touched layouts after a query for `fp`.
pub open spec fn kept_after<V>(stale: Map<u64, V>, kept: Map<u64, V>, fp: u64, fresh: V) -> Map<
    u64,
    V,
> {
    kept.insert(fp, resolve(stale, kept, fp, fresh))
}

/// The two generations of a scope never hold the same fingerprint.
pub open spec fn generations_disjoint<V>(stale: Map<u64, V>, kept: Map<u64, V>) -> bool {
    forall|fp: u64| #[trigger] kept.contains_key(fp) ==> !stale.contains_key(fp)
}

/// Pixel bounds of a computed layout.
pub open spec fn layout_pixel_bounds<G>(s: GlyphedSection<G>) -> Option<PixelRect> {
    bounds_of(s.glyphs@, s.bounds)
}

/// Index of a font in a calculator's registry; the first font has id 0.
#[derive(Clone, Copy, Debug, PartialEq, Eq, Structural)]
pub struct FontId(pub usize);

/// A scope over a calculator's layout cache.
///
/// While the scope lives it holds the cache exclusively. Layouts it is asked for move from the
/// cache (`glyph_cache`, what earlier scopes left) into `cached`, or are computed there; on
/// `release` the cache becomes `cached`, so every layout not asked for in this scope is dropped.
pub struct GlyphCalculatorGuard<'brush, F, H, G> {
    pub fonts: &'brush Vec<F>,
    pub glyph_cache: &'brush mut HashMap<u64, GlyphedSection<G>>,
    pub cached: HashMap<u64, GlyphedSection<G>>,
    pub section_hasher: &'brush H,
}

impl<'brush, F, H, G> GlyphCalculatorGuard<'brush, F, H, G> {
    /// Finds or computes the layout for `fingerprint` and records it as touched. The positioner
    /// `layout` runs only where no layout for `fingerprint` is held.
    fn cache_glyphs<L>(&mut self, fingerprint: u64, layout: L)
        where
            L: FnOnce(&Vec<F>) -> GlyphedSection<G>,
        requires
            old(self).well_formed(),
            layout.requires((&old(self).font_registry(),)),
        ensures
            final(self).well_formed(),
            final(self).fonts == old(self).fonts,
            final(self).section_hasher == old(self).section_hasher,
            *final(final(self).glyph_cache) == *final(old(self).glyph_cache),
            final(self).stale_layouts() == old(self).stale_layouts().remove(fingerprint),
            final(self).kept_layouts() == kept_after(
                old(self).stale_layouts(),
                old(self).kept_layouts(),
                fingerprint,
                final(self).kept_layouts()[fingerprint],
            ),
            scope_lookup(old(self).stale_layouts(), old(self).kept_layouts(), fingerprint) is None
                ==> layout.ensures((&old(self).font_registry(),), final(self).kept_layouts()[fingerprint]),
    {
        if self.cached.contains_key(&fingerprint) {
            return;
        }
        let entry = match self.glyph_cache.remove(&fingerprint) {
            Some(found) => found,
            None => layout(self.fonts),
        };
        self.cached.insert(fingerprint, entry);
    }

    /// As `GlyphCruncher::pixel_bounds_custom_layout`; also keeps the scope's hold on the
    /// calculator's cache, so that what `release` leaves there is known to the caller.
    pub fn pixel_bounds_custom_layout<L>(&mut self, fingerprint: u64, layout: L) -> (r: Option<
        PixelRect,
    >) where L: FnOnce(&Vec<F>) -> GlyphedSection<G>
        requires
            old(self).well_formed(),
            layout.requires((&old(self).font_registry(),)),
        ensures
            final(self).well_formed(),
            final(self).fonts == old(self).fonts,
            final(self).section_hasher == old(self).section_hasher,
            *final(final(self).glyph_cache) == *final(old(self).glyph_cache),
            final(self).stale_layouts() == old(self).stale_layouts().remove(fingerprint),
            final(self).kept_layouts() == kept_after(
                old(self).stale_layouts(),
                old(self).kept_layouts(),
                fingerprint,
                final(self).kept_layouts()[fingerprint],
            ),
            scope_lookup(old(self).stale_layouts(), old(self).kept_layouts(), fingerprint) is None
                ==> layout.ensures(
                (&old(self).font_registry(),),
                final(self).kept_layouts()[fingerprint],
            ),
            r == layout_pixel_bounds(final(self).kept_layouts()[fingerprint]),
            r matches Some(b) ==> rect_within(b, final(self).kept_layouts()[fingerprint].bounds),
    {
        self.cache_glyphs(fingerprint, layout);
        self.cached.get(&fingerprint).unwrap().pixel_bounds()
    }

    /// As `GlyphCruncher::glyphs_custom_layout`; also keeps the scope's hold on the
    /// calculator's cache.
    pub fn glyphs_custom_layout<'b, L>(&'b mut self, fingerprint: u64, layout: L) -> (r: &'b Vec<
        LaidGlyph<G>,
    >) where L: FnOnce(&Vec<F>) -> GlyphedSection<G>
        requires
            old(self).well_formed(),
            layout.requires((&old(self).font_registry(),)),
        ensures
            final(self).well_formed(),
            final(self).fonts == old(self).fonts,
            final(self).section_hasher == old(self).section_hasher,
            *final(final(self).glyph_cache) == *final(old(self).glyph_cache),
            final(self).stale_layouts() == old(self).stale_layouts().remove(fingerprint),
            final(self).kept_layouts() == kept_after(
                old(self).stale_layouts(),
                old(self).kept_layouts(),
                fingerprint,
                final(self).kept_layouts()[fingerprint],
            ),
            scope_lookup(old(self).stale_layouts(), old(self).kept_layouts(), fingerprint) is None
                ==> layout.ensures(
                (&old(self).font_registry(),),
                final(self).kept_layouts()[fingerprint],
            ),
            r@ == final(self).kept_layouts()[fingerprint].glyphs@,
    {
        self.cache_glyphs(fingerprint, layout);
        self.cached.get(&fingerprint).unwrap().glyphs()
    }
}

} // verus!

verus! {

/// Layout queries against a cache scope.
///
/// A query names its section by `fingerprint`, the 64-bit hash of the section and of the
/// positioner, and supplies the positioner as `layout`, which lays the section out against the
/// font registry. The layout is computed at most once per fingerprint: two sections with the
/// same fingerprint share the layout computed first.
pub trait GlyphCruncher<F, G>: Sized {
    /// Layouts left from earlier scopes and not yet asked for in this one.
    spec fn stale_layouts(&self) -> Map<u64, GlyphedSection<G>>;

    /// Layouts asked for in this scope; their fingerprints are the touched set.
    spec fn kept_layouts(&self) -> Map<u64, GlyphedSection<G>>;

    /// The fonts that positioners lay sections out against.
    spec fn font_registry(&self) -> Vec<F>;

    spec fn well_formed(&self) -> bool;

    /// The whole-pixel bounding box of the section, clamped to its layout bounds; `None` when
    /// no glyph draws inside them.
    fn pixel_bounds_custom_layout<L>(&mut self, fingerprint: u64, layout: L) -> (r: Option<
        PixelRect,
    >) where L: FnOnce(&Vec<F>) -> GlyphedSection<G>
        requires
            old(self).well_formed(),
            layout.requires((&old(self).font_registry(),)),
        ensures
            final(self).well_formed(),
            final(self).font_registry() == old(self).font_registry(),
            final(self).stale_layouts() == old(self).stale_layouts().remove(fingerprint),
            final(self).kept_layouts() == kept_after(
                old(self).stale_layouts(),
                old(self).kept_layouts(),
                fingerprint,
                final(self).kept_layouts()[fingerprint],
            ),
            scope_lookup(old(self).stale_layouts(), old(self).kept_layouts(), fingerprint) is None
                ==> layout.ensures(
                (&old(self).font_registry(),),
                final(self).kept_layouts()[fingerprint],
            ),
            r == layout_pixel_bounds(final(self).kept_layouts()[fingerprint]),
            r matches Some(b) ==> rect_within(b, final(self).kept_layouts()[fingerprint].bounds),
    ;

    /// The positioned glyphs of the section, in layout order.
    fn glyphs_custom_layout<'b, L>(&'b mut self, fingerprint: u64, layout: L) -> (r: &'b Vec<
        LaidGlyph<G>,
    >) where L: FnOnce(&Vec<F>) -> GlyphedSection<G>
        requires
            old(self).well_formed(),
            layout.requires((&old(self).font_registry(),)),
        ensures
            final(self).well_formed(),
            final(self).font_registry() == old(self).font_registry(),
            final(self).stale_layouts() == old(self).stale_layouts().remove(fingerprint),
            final(self).kept_layouts() == kept_after(
                old(self).stale_layouts(),
                old(self).kept_layouts(),
                fingerprint,
                final(self).kept_layouts()[fingerprint],
            ),
            scope_lookup(old(self).stale_layouts(), old(self).kept_layouts(), fingerprint) is None
                ==> layout.ensures(
                (&old(self).font_registry(),),
                final(self).kept_layouts()[fingerprint],
            ),
            r@ == final(self).kept_layouts()[fingerprint].glyphs@,
    ;
}

impl<'brush, F, H, G> GlyphCruncher<F, G> for GlyphCalculatorGuard<'brush, F, H, G> {
    open spec fn stale_layouts(&self) -> Map<u64, GlyphedSection<G>> {
        self.glyph_cache@
    }

    open spec fn kept_layouts(&self) -> Map<u64, GlyphedSection<G>> {
        self.cached@
    }

    open spec fn font_registry(&self) -> Vec<F> {
        *self.fonts
    }

    open spec fn well_formed(&self) -> bool {
        generations_disjoint(self.glyph_cache@, self.cached@)
    }

    fn pixel_bounds_custom_layout<L>(&mut self, fingerprint: u64, layout: L) -> (r: Option<
        PixelRect,
    >) where L: FnOnce(&Vec<F>) -> GlyphedSection<G> {
        GlyphCalculatorGuard::pixel_bounds_custom_layout(self, fingerprint, layout)
    }

    fn glyphs_custom_layout<'b, L>(&'b mut self, fingerprint: u64, layout: L) -> (r: &'b Vec<
        LaidGlyph<G>,
    >) where L: FnOnce(&Vec<F>) -> GlyphedSection<G> {
        GlyphCalculatorGuard::glyphs_custom_layout(self, fingerprint, layout)
    }
}

impl<'brush, F, H, G> GlyphCalculatorGuard<'brush, F, H, G> {
    /// Ends the scope: the calculator's cache keeps exactly the layouts touched in it.
    pub fn release(self)
        ensures
            (*final(self.glyph_cache))@ == self.cached@,
    {
        let kept = self.cached;
        let cache = self.glyph_cache;
        *cache = kept;
    }

    /// The fonts of the calculator this scope belongs to.
    pub fn fonts(&self) -> (r: &'brush Vec<F>)
        ensures
            r == self.fonts,
    {
        self.fonts
    }

    /// The hash builder for computing section fingerprints.
    pub fn section_hasher(&self) -> (r: &'brush H)
        ensures
            r == self.section_hasher,
    {
        self.section_hasher
    }
}

} // verus!

verus! {

/// The hash builder a calculator uses for fingerprints unless another is set: std's
/// `DefaultHasher` with its fixed keys, so equal sections hash alike in every scope.
#[derive(Clone, Copy, Debug, Default)]
pub struct DefaultSectionHasher;

impl std::hash::BuildHasher for DefaultSectionHasher {
    type Hasher = std::collections::hash_map::DefaultHasher;

    fn build_hasher(&self) -> (r: std::collections::hash_map::DefaultHasher) {
        std::collections::hash_map::DefaultHasher::new()
    }
}

/// Lays out sections against a set of fonts and caches the results; it cannot draw.
///
/// Layouts are cached by section fingerprint. Each use goes through a scope from
/// `cache_scope`; when the scope is released, every cached layout the scope did not ask for is
/// dropped.
pub struct GlyphCalculator<F, H, G> {
    fonts: Vec<F>,
    calculate_glyph_cache: HashMap<u64, GlyphedSection<G>>,
    section_hasher: H,
}

impl<F, H, G> GlyphCalculator<F, H, G> {
    /// The cached layouts, by fingerprint.
    pub closed spec fn cached_layouts(&self) -> Map<u64, GlyphedSection<G>> {
        self.calculate_glyph_cache@
    }

    pub closed spec fn font_list(&self) -> Seq<F> {
        self.fonts@
    }

    pub closed spec fn hasher(&self) -> H {
        self.section_hasher
    }

    /// Opens a scope over the cache. The scope starts with nothing touched; whatever the
    /// cache holds when it is released is what the calculator keeps.
    pub fn cache_scope<'a>(&'a mut self) -> (g: GlyphCalculatorGuard<'a, F, H, G>)
        ensures
            g.well_formed(),
            g.stale_layouts() == old(self).cached_layouts(),
            g.kept_layouts() == Map::<u64, GlyphedSection<G>>::empty(),
            g.font_registry()@ == old(self).font_list(),
            *g.section_hasher == old(self).hasher(),
            final(self).cached_layouts() == (*final(g.glyph_cache))@,
            final(self).font_list() == old(self).font_list(),
            final(self).hasher() == old(self).hasher(),
    {
        GlyphCalculatorGuard {
            fonts: &self.fonts,
            glyph_cache: &mut self.calculate_glyph_cache,
            cached: HashMap::new(),
            section_hasher: &self.section_hasher,
        }
    }
}

/// Collects the fonts and the fingerprint hasher of a `GlyphCalculator`.
pub struct GlyphCalculatorBuilder<F, H> {
    font_data: Vec<F>,
    section_hasher: H,
}

impl<F, H> GlyphCalculatorBuilder<F, H> {
    pub closed spec fn font_list(&self) -> Seq<F> {
        self.font_data@
    }

    pub closed spec fn hasher(&self) -> H {
        self.section_hasher
    }
}

impl<F> GlyphCalculatorBuilder<F, DefaultSectionHasher> {
    /// Starts with `font_0_data` as the default font, `FontId(0)`.
    pub fn using_font(font_0_data: F) -> (r: Self)
        ensures
            r.font_list() == seq![font_0_data],
    {
        Self::using_fonts(vec![font_0_data])
    }

    /// Starts with `fonts`; the first is the default font and each has its index as id.
    pub fn using_fonts(fonts: Vec<F>) -> (r: Self)
        ensures
            r.font_list() == fonts@,
    {
        GlyphCalculatorBuilder { font_data: fonts, section_hasher: DefaultSectionHasher }
    }

    /// Starts with the font that `parse` reads from `font_0_data`; `None` when the data is
    /// not a font.
    pub fn using_font_bytes<B, P>(font_0_data: B, parse: P) -> (r: Option<Self>)
        where
            P: FnOnce(B) -> Option<F>,
        requires
            parse.requires((font_0_data,)),
        ensures
            match r {
                Some(b) => b.font_list().len() == 1 && parse.ensures(
                    (font_0_data,),
                    Some(b.font_list()[0]),
                ),
                None => parse.ensures((font_0_data,), None),
            },
    {
        match parse(font_0_data) {
            Some(font) => Some(Self::using_font(font)),
            None => None,
        }
    }

    /// Starts with the fonts that `parse` reads from each of `font_data`, in order; `None` when
    /// any of them is not a font.
    pub fn using_fonts_bytes<B, P>(font_data: Vec<B>, parse: P) -> (r: Option<Self>)
        where
            P: Fn(B) -> Option<F>,
        requires
            forall|b: B| parse.requires((b,)),
        ensures
            match r {
                Some(b) => b.font_list().len() == font_data@.len() && forall|i: int|
                    0 <= i < font_data@.len() ==> parse.ensures(
                        (font_data@[i],),
                        Some(#[trigger] b.font_list()[i]),
                    ),
                None => exists|i: int|
                    0 <= i < font_data@.len() && #[trigger] parse.ensures((font_data@[i],), None),
            },
    {
        let ghost data = font_data@;
        let mut rest = font_data;

        let mut fonts: Vec<F> = Vec::new();
        while rest.len() > 0
            invariant
                forall|b: B| parse.requires((b,)),
                data == font_data@,
                fonts@.len() + rest@.len() == data.len(),
                rest@ == data.subrange(fonts@.len() as int, data.len() as int),
                forall|i: int|
                    0 <= i < fonts@.len() ==> parse.ensures(
                        (data[i],),
                        Some(#[trigger] fonts@[i]),
                    ),
            decreases rest@.len(),
        {
            let done = fonts.len();
            let bytes = rest.remove(0);
            assert(bytes == data[done as int]);
            let parsed = parse(bytes);
            match parsed {
                Some(font) => fonts.push(font),
                None => {
                    assert(parse.ensures((data[done as int],), None));
                    return None;
                },
            }
        }
        proof {
            assert(fonts@.len() == data.len());
        }
        Some(Self::using_fonts(fonts))
    }
}

impl<F, H> GlyphCalculatorBuilder<F, H> {
    /// Adds a font after those already given and returns its id.
    pub fn add_font(&mut self, font_data: F) -> (r: FontId)
        ensures
            final(self).font_list() == old(self).font_list().push(font_data),
            final(self).hasher() == old(self).hasher(),
            r.0 == old(self).font_list().len(),
    {
        self.font_data.push(font_data);
        FontId(self.font_data.len() - 1)
    }

    /// Adds the font that `parse` reads from `font_data` and returns its id; `None`, with the
    /// builder unchanged, when the data is not a font.
    pub fn add_font_bytes<B, P>(&mut self, font_data: B, parse: P) -> (r: Option<FontId>)
        where
            P: FnOnce(B) -> Option<F>,
        requires
            parse.requires((font_data,)),
        ensures
            final(self).hasher() == old(self).hasher(),
            match r {
                Some(id) => id.0 == old(self).font_list().len() && final(self).font_list().len()
                    == old(self).font_list().len() + 1 && final(self).font_list().drop_last()
                    == old(self).font_list() && parse.ensures(
                    (font_data,),
                    Some(final(self).font_list().last()),
                ),
                None => parse.ensures((font_data,), None) && final(self).font_list() == old(
                    self,
                ).font_list(),
            },
    {
        match parse(font_data) {
            Some(font) => {
                let id = self.add_font(font);
                proof {
                    assert(final(self).font_list().drop_last() =~= old(self).font_list());
                }
                Some(id)
            },
            None => None,
        }
    }

    /// Replaces the fingerprint hasher. Sections whose fingerprints collide share one cached
    /// layout, so the hasher should make collisions unlikely.
    pub fn section_hasher<T>(self, section_hasher: T) -> (r: GlyphCalculatorBuilder<F, T>)
        ensures
            r.font_list() == self.font_list(),
            r.hasher() == section_hasher,
    {
        GlyphCalculatorBuilder { font_data: self.font_data, section_hasher }
    }

    /// Builds the calculator, with an empty cache.
    pub fn build<G>(self) -> (r: GlyphCalculator<F, H, G>)
        ensures
            r.font_list() == self.font_list(),
            r.hasher() == self.hasher(),
            r.cached_layouts() == Map::<u64, GlyphedSection<G>>::empty(),
    {
        GlyphCalculator {
            fonts: self.font_data,
            calculate_glyph_cache: HashMap::new(),
            section_hasher: self.section_hasher,
        }
    }
}

} // verus!

verus! {

/// Asking a scope twice for one fingerprint: after the first query the layout is held, so the
/// second finds it (the positioner does not run again), answers with the layout stored first
/// whatever the second positioner would compute, and leaves the scope as it was.
pub proof fn lemma_query_twice<V>(
    stale: Map<u64, V>,
    kept: Map<u64, V>,
    fp: u64,
    first: V,
    second: V,
)
    requires
        generations_disjoint(stale, kept),
    ensures
        ({
            let s1 = stale.remove(fp);
            let k1 = kept_after(stale, kept, fp, first);
            &&& generations_disjoint(s1, k1)
            &&& scope_lookup(s1, k1, fp) == Some(resolve(stale, kept, fp, first))
            &&& resolve(s1, k1, fp, second) == resolve(stale, kept, fp, first)
            &&& s1.remove(fp) == s1
            &&& kept_after(s1, k1, fp, second) == k1
        }),
{
    let s1 = stale.remove(fp);
    let k1 = kept_after(stale, kept, fp, first);
    assert(s1.remove(fp) =~= s1);
    assert(kept_after(s1, k1, fp, second) =~= k1);
}

/// Pruning across scopes: a scope that touches `f1` and `f2` releases a cache of exactly those
/// two; a following scope that touches only `f1` releases a cache of `f1` alone, holding the
/// layout the first scope left for it.
pub proof fn lemma_scope_pruning<V>(cache: Map<u64, V>, f1: u64, f2: u64, a1: V, a2: V, b1: V)
    ensures
        ({
            let none = Map::<u64, V>::empty();
            let after_a = kept_after(cache.remove(f1), kept_after(cache, none, f1, a1), f2, a2);
            let after_b = kept_after(after_a, none, f1, b1);
            &&& after_a.dom() == set![f1, f2]
            &&& after_b.dom() == set![f1]
            &&& after_b[f1] == after_a[f1]
        }),
{
    let none = Map::<u64, V>::empty();
    let after_a = kept_after(cache.remove(f1), kept_after(cache, none, f1, a1), f2, a2);
    let after_b = kept_after(after_a, none, f1, b1);
    assert(after_a.dom() =~= set![f1, f2]);
    assert(after_b.dom() =~= set![f1]);
}

} // verus!
