use vstd::prelude::*;

use crate::color::Color;
use crate::draw_state::DrawState;
use crate::drawer::{bind_cmds, textured_rect_cmd, texture_rect, white, CommandView, Drawer, GlTexture};
use crate::pos::Position;
use crate::texture::{pixel_offset, Texture};

verus! {

/// A glyph's pixel bounding box, corners inclusive-exclusive.
#[derive(Clone, Copy, Debug, PartialEq, Eq, Structural)]
pub struct PixelBox {
    pub min_x: i32,
    pub min_y: i32,
    pub max_x: i32,
    pub max_y: i32,
}

/// One glyph of a laid-out line: its identity in the font and, when it has
/// visible pixels, its bounding box relative to the line's origin.
#[derive(Clone, Copy, Debug, PartialEq, Eq, Structural)]
pub struct LaidGlyph {
    pub id: u16,
    pub bbox: Option<PixelBox>,
}

/// What a cached glyph texture is keyed by.
#[derive(Clone, Copy, Debug, PartialEq, Eq, Structural)]
pub struct CachedGlyph {
    pub id: u16,
    pub color: Color,
    pub size: i32,
}

struct CacheEntry {
    key: CachedGlyph,
    texture: GlTexture,
}

/// The rightmost pixel extent of a laid-out line; glyphs without pixels
/// count for nothing, and an empty line is zero wide.
pub open spec fn layout_width(layout: Seq<LaidGlyph>) -> i32
    decreases layout.len(),
{
    if layout.len() == 0 {
        0
    } else {
        let rest = layout_width(layout.drop_last());
        match layout.last().bbox {
            Some(b) => if b.max_x > rest {
                b.max_x
            } else {
                rest
            },
            None => rest,
        }
    }
}

/// The glyphs of a layout that have visible pixels, in order.
pub open spec fn boxed(layout: Seq<LaidGlyph>) -> Seq<LaidGlyph>
    decreases layout.len(),
{
    if layout.len() == 0 {
        seq![]
    } else if layout.last().bbox is Some {
        boxed(layout.drop_last()).push(layout.last())
    } else {
        boxed(layout.drop_last())
    }
}

/// A glyph texture's pixels: the glyph color everywhere, with each pixel's
/// coverage as its alpha.
pub open spec fn tinted(color: Color, coverage: Seq<u8>) -> Seq<u8> {
    Seq::new(
        4 * coverage.len(),
        |i: int|
            if i % 4 == 0 {
                color.r
            } else if i % 4 == 1 {
                color.g
            } else if i % 4 == 2 {
                color.b
            } else {
                coverage[i / 4]
            },
    )
}

/// Where a glyph with box `b` is drawn for a line whose origin is `pos`.
pub open spec fn glyph_origin(pos: Position, b: PixelBox) -> Position {
    Position { x: (pos.x + b.min_x) as i32, y: (pos.y + b.min_y) as i32 }
}

/// Every boxed glyph can be placed relative to `pos` without leaving the
/// range of pixel coordinates.
pub open spec fn placeable(layout: Seq<LaidGlyph>, pos: Position) -> bool {
    forall|i: int|
        0 <= i < layout.len() && (#[trigger] layout[i]).bbox is Some ==> {
            let b = layout[i].bbox->Some_0;
            &&& i32::MIN <= pos.x + b.min_x <= i32::MAX
            &&& i32::MIN <= pos.y + b.min_y <= i32::MAX
        }
}

/// Caches glyph textures by glyph, color and size. Entries are never evicted.
pub struct FontCache {
    entries: Vec<CacheEntry>,
}

impl FontCache {
    /// The cached entries in insertion order: key, texture handle, width and
    /// height.
    pub closed spec fn spec_entries(&self) -> Seq<(CachedGlyph, GlTexture)> {
        self.entries@.map_values(|e: CacheEntry| (e.key, e.texture))
    }

    /// No key is cached twice.
    pub open spec fn wf(&self) -> bool {
        unique_keys(self.spec_entries())
    }

    pub open spec fn has(&self, k: CachedGlyph) -> bool {
        exists|i: int| 0 <= i < self.spec_entries().len() && (#[trigger] self.spec_entries()[i]).0 == k
    }

    /// The keys of the cached entries, in insertion order.
    pub open spec fn keys(&self) -> Seq<CachedGlyph> {
        self.spec_entries().map_values(|e: (CachedGlyph, GlTexture)| e.0)
    }

    proof fn lemma_has_iff_key(&self, k: CachedGlyph)
        ensures
            self.has(k) <==> self.keys().contains(k),
    {
        if self.has(k) {
            let i = choose|i: int|
                0 <= i < self.spec_entries().len() && (#[trigger] self.spec_entries()[i]).0 == k;
            assert(self.keys()[i] == k);
        }
        if self.keys().contains(k) {
            let i = choose|i: int| 0 <= i < self.keys().len() && self.keys()[i] == k;
            assert(self.spec_entries()[i].0 == k);
        }
    }

    /// An empty cache.
    pub fn new() -> (c: Self)
        ensures
            c.wf(),
            c.spec_entries().len() == 0,
    {
        FontCache { entries: Vec::new() }
    }

    /// The number of cached glyph textures.
    pub fn len(&self) -> (n: usize)
        ensures
            n == self.spec_entries().len(),
    {
        self.entries.len()
    }

    fn find(&self, key: &CachedGlyph) -> (r: Option<usize>)
        requires
            self.wf(),
        ensures
            match r {
                Some(i) => i < self.spec_entries().len() && self.spec_entries()[i as int].0 == *key
                    && lookup(self.spec_entries(), *key) == Some(self.spec_entries()[i as int].1),
                None => !self.has(*key),
            },
    {
        let mut i: usize = 0;
        while i < self.entries.len()
            invariant
                i <= self.entries@.len(),
                self.wf(),
                self.spec_entries().len() == self.entries@.len(),
                forall|j: int| 0 <= j < i ==> (#[trigger] self.spec_entries()[j]).0 != *key,
            decreases self.entries@.len() - i,
        {
            if self.entries[i].key == *key {
                proof {
                    lemma_lookup_index(self.spec_entries(), *key, i as int);
                }
                return Some(i);
            }
            i = i + 1;
        }
        None
    }

    /// Whether a texture is cached for this glyph, color and size.
    pub fn contains(&self, id: u16, color: &Color, size: i32) -> (r: bool)
        requires
            self.wf(),
        ensures
            r == self.has(CachedGlyph { id, color: *color, size }),
    {
        let key = CachedGlyph { id, color: *color, size };
        self.find(&key).is_some()
    }

    /// The width of a line laid out from x = 0: the rightmost extent of any
    /// glyph's pixel box.
    pub fn get_width(&self, layout: &Vec<LaidGlyph>) -> (w: i32)
        ensures
            w == layout_width(layout@),
    {
        let mut width: i32 = 0;
        let mut i: usize = 0;
        while i < layout.len()
            invariant
                i <= layout@.len(),
                width == layout_width(layout@.take(i as int)),
            decreases layout@.len() - i,
        {
            assert(layout@.take(i as int + 1).drop_last() =~= layout@.take(i as int));
            match layout[i].bbox {
                Some(b) => {
                    if b.max_x > width {
                        width = b.max_x;
                    }
                },
                None => {},
            }
            i = i + 1;
        }
        assert(layout@.take(i as int) =~= layout@);
        width
    }

    /// Rasterizes a glyph into the cache unless it is there already. The
    /// texture is `width` by `height` pixels of the glyph color, each with its
    /// coverage (row-major, top row first) as alpha.
    pub fn cache_glyph(
        &mut self,
        id: u16,
        color: &Color,
        size: i32,
        width: usize,
        height: usize,
        coverage: &Vec<u8>,
        drawer: &mut Drawer,
    )
        requires
            old(self).wf(),
            coverage@.len() == width * height,
            width * height * 4 <= usize::MAX,
            width <= i32::MAX,
            height <= i32::MAX,
        ensures
            final(self).wf(),
            final(self).keys() == with_key(old(self).keys(), CachedGlyph { id, color: *color, size }),
            ({
                let k = CachedGlyph { id, color: *color, size };
                if old(self).has(k) {
                    &&& final(self).spec_entries() == old(self).spec_entries()
                    &&& *final(drawer) == *old(drawer)
                } else {
                    let t = final(self).spec_entries().last().1;
                    &&& final(self).spec_entries() == old(self).spec_entries().push((k, t))
                    &&& t.spec_handle() == old(drawer).spec_next_handle()
                    &&& t.spec_width() == width
                    &&& t.spec_height() == height
                    &&& final(drawer).spec_next_handle() == crate::drawer::next_handle_after(
                        old(drawer).spec_next_handle(),
                    )
                    &&& final(drawer).spec_width() == old(drawer).spec_width()
                    &&& final(drawer).spec_height() == old(drawer).spec_height()
                    &&& final(drawer).spec_background() == old(drawer).spec_background()
                    &&& final(drawer).spec_machine() == old(drawer).spec_machine()
                    &&& final(drawer).spec_commands() == old(drawer).spec_commands().push(
                        CommandView::CreateTexture {
                            handle: old(drawer).spec_next_handle(),
                            width,
                            height,
                            pixels: tinted(*color, coverage@),
                        },
                    )
                }
            }),
    {
        let key = CachedGlyph { id, color: *color, size };
        proof {
            self.lemma_has_iff_key(key);
        }
        if self.find(&key).is_some() {
            return;
        }
        let n: usize = width * height;
        let mut data: Vec<u8> = Vec::new();
        let mut i: usize = 0;
        while i < n
            invariant
                i <= n,
                n == coverage@.len(),
                4 * n <= usize::MAX,
                data@ =~= tinted(*color, coverage@.take(i as int)),
            decreases n - i,
        {
            data.push(color.r);
            data.push(color.g);
            data.push(color.b);
            data.push(coverage[i]);
            i = i + 1;
            assert(data@ =~= tinted(*color, coverage@.take(i as int)));
        }
        assert(coverage@.take(n as int) =~= coverage@);
        let texture = Texture::from_rgba(data, width, height);
        let t = drawer.convert_native_texture(texture);
        let ghost before = self.spec_entries();
        self.entries.push(CacheEntry { key, texture: t });
        assert(self.spec_entries() =~= before.push((key, t)));
        assert(self.keys() =~= old(self).keys().push(key));
        assert forall|a: int, b: int|
            0 <= a < b < self.spec_entries().len() implies (#[trigger] self.spec_entries()[a]).0
                != (#[trigger] self.spec_entries()[b]).0 by {
            if b == before.len() {
                assert(before[a].0 != key);
            } else {
                assert(before[a].0 != before[b].0);
            }
        }
    }

    /// The glyph texture for a key known to be cached.
    fn texture_for(&self, key: &CachedGlyph) -> (t: &GlTexture)
        requires
            self.wf(),
            self.has(*key),
        ensures
            lookup(self.spec_entries(), *key) == Some(*t),
    {
        match self.find(key) {
            Some(i) => &self.entries[i].texture,
            None => {
                proof {
                    assert(false);
                }
                &self.entries[0].texture
            },
        }
    }

    /// Draws a laid-out line with its origin at `pos`. Each glyph with
    /// visible pixels is drawn from the cache at its box's top-left corner;
    /// one not cached yet for this color and size is first made into a
    /// texture of the glyph color with `coverage` (its box's coverage,
    /// row-major, top row first) as alpha, uploaded and cached. Coverage is
    /// needed only for glyphs whose key is not cached when the call starts.
    pub fn draw(
        &mut self,
        layout: &Vec<LaidGlyph>,
        coverage: &Vec<Option<Vec<u8>>>,
        color: &Color,
        size: i32,
        pos: &Position,
        drawer: &mut Drawer,
    )
        requires
            old(self).wf(),
            placeable(layout@, *pos),
            coverage@.len() == layout@.len(),
            forall|i: int|
                0 <= i < layout@.len() && (#[trigger] layout@[i]).bbox is Some ==> box_ok(
                    layout@[i].bbox->Some_0,
                ),
            forall|i: int|
                0 <= i < layout@.len() && (#[trigger] layout@[i]).bbox is Some && !old(
                    self,
                ).keys().contains(key_of(layout@[i], *color, size)) ==> covers(
                    coverage@[i],
                    layout@[i].bbox->Some_0,
                ),
        ensures
            final(self).wf(),
            final(self).keys() == keys_after(old(self).keys(), layout@, *color, size),
            final(self).spec_entries().len() >= old(self).spec_entries().len(),
            final(self).spec_entries().take(old(self).spec_entries().len() as int) == old(
                self,
            ).spec_entries(),
            final(drawer).spec_width() == old(drawer).spec_width(),
            final(drawer).spec_height() == old(drawer).spec_height(),
            final(drawer).spec_background() == old(drawer).spec_background(),
            final(drawer).spec_next_handle() == crate::drawer::handle_after(
                old(drawer).spec_next_handle(),
                (final(self).spec_entries().len() - old(self).spec_entries().len()) as nat,
            ),
            final(drawer).spec_machine() == old(drawer).spec_machine().run(
                textured_requests(boxed(layout@).len()),
            ),
            final(drawer).spec_commands() == old(drawer).spec_commands() + draw_cmds(
                *old(drawer),
                final(self).spec_entries(),
                old(self).keys(),
                layout@,
                coverage@,
                *color,
                size,
                *pos,
            ),
    {
        let ghost d0 = *drawer;
        let ghost e0 = self.spec_entries();
        let ghost keys0 = self.keys();
        let mut i: usize = 0;
        assert(self.spec_entries().take(e0.len() as int) =~= e0);
        while i < layout.len()
            invariant
                i <= layout@.len(),
                coverage@.len() == layout@.len(),
                placeable(layout@, *pos),
                forall|j: int|
                    0 <= j < layout@.len() && (#[trigger] layout@[j]).bbox is Some ==> box_ok(
                        layout@[j].bbox->Some_0,
                    ),
                forall|j: int|
                    0 <= j < layout@.len() && (#[trigger] layout@[j]).bbox is Some
                        && !keys0.contains(key_of(layout@[j], *color, size)) ==> covers(
                        coverage@[j],
                        layout@[j].bbox->Some_0,
                    ),
                self.wf(),
                self.keys() == keys_after(keys0, layout@.take(i as int), *color, size),
                self.spec_entries().len() >= e0.len(),
                self.spec_entries().take(e0.len() as int) == e0,
                drawer.spec_width() == d0.spec_width(),
                drawer.spec_height() == d0.spec_height(),
                drawer.spec_background() == d0.spec_background(),
                drawer.spec_next_handle() == crate::drawer::handle_after(
                    d0.spec_next_handle(),
                    (self.spec_entries().len() - e0.len()) as nat,
                ),
                drawer.spec_machine() == d0.spec_machine().run(
                    textured_requests(boxed(layout@.take(i as int)).len()),
                ),
                drawer.spec_commands() == d0.spec_commands() + draw_cmds(
                    d0,
                    self.spec_entries(),
                    keys0,
                    layout@.take(i as int),
                    coverage@,
                    *color,
                    size,
                    *pos,
                ),
            decreases layout@.len() - i,
        {
            let ghost pre = layout@.take(i as int);
            let ghost cur = layout@.take(i as int + 1);
            assert(cur.drop_last() =~= pre);
            assert(cur.last() == layout@[i as int]);
            let g = layout[i];
            match g.bbox {
                Some(b) => {
                    assert(layout@[i as int].bbox is Some);
                    let key = CachedGlyph { id: g.id, color: *color, size };
                    proof {
                        self.lemma_has_iff_key(key);
                    }
                    if !self.contains(g.id, color, size) {
                        proof {
                            if keys0.contains(key) {
                                lemma_keys_after_superset(keys0, pre, *color, size, key);
                            }
                        }
                        let cov = match &coverage[i] {
                            Some(c) => c,
                            None => {
                                proof {
                                    assert(false);
                                }
                                return;
                            },
                        };
                        let w = (b.max_x as i64 - b.min_x as i64) as usize;
                        let h = (b.max_y as i64 - b.min_y as i64) as usize;
                        let ghost before = self.spec_entries();
                        let ghost cmds_before = drawer.spec_commands();
                        self.cache_glyph(g.id, color, size, w, h, cov, drawer);
                        proof {
                            let t = self.spec_entries().last().1;
                            lemma_draw_cmds_stable(
                                d0,
                                before,
                                (key, t),
                                keys0,
                                pre,
                                coverage@,
                                *color,
                                size,
                                *pos,
                            );
                            assert(self.spec_entries().take(e0.len() as int) =~= e0) by {
                                assert(before.take(e0.len() as int) =~= e0);
                            }
                            assert(self.spec_entries().drop_last() =~= before);
                        }
                    }
                    let tex = self.texture_for(&key);
                    let origin = Position::new(pos.x + b.min_x, pos.y + b.min_y);
                    proof {
                        lemma_run_textured(d0.spec_machine(), boxed(pre).len());
                    }
                    drawer.draw_texture(tex, &origin);
                },
                None => {},
            }
            i = i + 1;
        }
        assert(layout@.take(i as int) =~= layout@);
    }
}

/// The keys after caching `k`: unchanged when it is cached already, else
/// with `k` added at the end.
pub open spec fn with_key(keys: Seq<CachedGlyph>, k: CachedGlyph) -> Seq<CachedGlyph> {
    if keys.contains(k) {
        keys
    } else {
        keys.push(k)
    }
}

/// Caching the same glyph, color and size a second time adds nothing, while
/// a second color or a second size for the same glyph adds an entry of its
/// own.
pub proof fn lemma_cache_keys(keys: Seq<CachedGlyph>, k: CachedGlyph, other: CachedGlyph)
    requires
        other.id == k.id,
        other.color != k.color || other.size != k.size,
        !keys.contains(k),
        !keys.contains(other),
    ensures
        with_key(with_key(keys, k), k) == with_key(keys, k),
        with_key(keys, k).len() == keys.len() + 1,
        with_key(with_key(keys, k), other).len() == keys.len() + 2,
{
    assert(with_key(keys, k).contains(k)) by {
        assert(keys.push(k)[keys.len() as int] == k);
    }
    if with_key(keys, k).contains(other) {
        let i = choose|i: int| 0 <= i < keys.len() + 1 && keys.push(k)[i] == other;
        if i < keys.len() {
            assert(keys.contains(other));
        }
    }
}

/// `n` requests for the textured state.
pub open spec fn textured_requests(n: nat) -> Seq<DrawState> {
    Seq::new(n, |i: int| DrawState::Textured)
}

/// After one or more textured requests the textured state is bound, and one
/// more request extends the run.
pub proof fn lemma_run_textured(m: crate::draw_state::DrawStateMachine, n: nat)
    ensures
        m.run(textured_requests(n + 1)) == m.run(textured_requests(n)).step(DrawState::Textured),
        n > 0 ==> m.run(textured_requests(n)).state == DrawState::Textured,
{
    assert(textured_requests(n + 1).drop_last() =~= textured_requests(n));
    if n > 0 {
        assert(textured_requests(n).drop_last() =~= textured_requests((n - 1) as nat));
    }
}

/// The texture cached last under `k` in `entries`, if any.
pub open spec fn lookup(entries: Seq<(CachedGlyph, GlTexture)>, k: CachedGlyph) -> Option<GlTexture>
    decreases entries.len(),
{
    if entries.len() == 0 {
        None
    } else if entries.last().0 == k {
        Some(entries.last().1)
    } else {
        lookup(entries.drop_last(), k)
    }
}

/// No key appears twice in `entries`.
pub open spec fn unique_keys(entries: Seq<(CachedGlyph, GlTexture)>) -> bool {
    forall|i: int, j: int|
        0 <= i < j < entries.len() ==> (#[trigger] entries[i]).0 != (#[trigger] entries[j]).0
}

proof fn lemma_lookup_index(entries: Seq<(CachedGlyph, GlTexture)>, k: CachedGlyph, i: int)
    requires
        unique_keys(entries),
        0 <= i < entries.len(),
        entries[i].0 == k,
    ensures
        lookup(entries, k) == Some(entries[i].1),
    decreases entries.len(),
{
    let n = entries.len() - 1;
    if i < n {
        assert(entries[i].0 != entries[n].0);
        let p = entries.drop_last();
        assert forall|a: int, b: int| 0 <= a < b < p.len() implies (#[trigger] p[a]).0
            != (#[trigger] p[b]).0 by {
            assert(entries[a].0 != entries[b].0);
        }
        lemma_lookup_index(p, k, i);
    }
}

/// The key a glyph of a line drawn in `color` at `size` is cached under.
pub open spec fn key_of(g: LaidGlyph, color: Color, size: i32) -> CachedGlyph {
    CachedGlyph { id: g.id, color, size }
}

/// The cache keys after drawing `layout` in `color` at `size`, starting from
/// `keys`: each glyph with visible pixels that is not cached yet is added, in
/// order of first appearance.
pub open spec fn keys_after(keys: Seq<CachedGlyph>, layout: Seq<LaidGlyph>, color: Color, size: i32) -> Seq<
    CachedGlyph,
>
    decreases layout.len(),
{
    if layout.len() == 0 {
        keys
    } else {
        let pre = keys_after(keys, layout.drop_last(), color, size);
        if layout.last().bbox is Some {
            with_key(pre, key_of(layout.last(), color, size))
        } else {
            pre
        }
    }
}

proof fn lemma_with_key_contains(keys: Seq<CachedGlyph>, k: CachedGlyph, x: CachedGlyph)
    ensures
        with_key(keys, k).contains(x) <==> (keys.contains(x) || x == k),
{
    if !keys.contains(k) {
        let p = keys.push(k);
        if keys.contains(x) {
            let i = choose|i: int| 0 <= i < keys.len() && keys[i] == x;
            assert(p[i] == x);
        }
        if x == k {
            assert(p[keys.len() as int] == k);
        }
        if p.contains(x) {
            let i = choose|i: int| 0 <= i < p.len() && p[i] == x;
            if i < keys.len() {
                assert(keys[i] == x);
            }
        }
    }
}

/// Keys already present stay, and after a glyph with visible pixels its key
/// is present.
proof fn lemma_keys_after_step(keys: Seq<CachedGlyph>, layout: Seq<LaidGlyph>, color: Color, size: i32)
    requires
        layout.len() > 0,
    ensures
        forall|x: CachedGlyph|
            keys_after(keys, layout.drop_last(), color, size).contains(x) ==> keys_after(
                keys,
                layout,
                color,
                size,
            ).contains(x),
        layout.last().bbox is Some ==> keys_after(keys, layout, color, size).contains(
            key_of(layout.last(), color, size),
        ),
{
    let pre = keys_after(keys, layout.drop_last(), color, size);
    let k = key_of(layout.last(), color, size);
    assert forall|x: CachedGlyph| pre.contains(x) implies keys_after(keys, layout, color, size).contains(
        x,
    ) by {
        lemma_with_key_contains(pre, k, x);
    }
    lemma_with_key_contains(pre, k, k);
}

proof fn lemma_keys_after_superset(keys: Seq<CachedGlyph>, layout: Seq<LaidGlyph>, color: Color, size: i32, x: CachedGlyph)
    requires
        keys.contains(x),
    ensures
        keys_after(keys, layout, color, size).contains(x),
    decreases layout.len(),
{
    if layout.len() > 0 {
        lemma_keys_after_superset(keys, layout.drop_last(), color, size, x);
        lemma_keys_after_step(keys, layout, color, size);
    }
}

pub open spec fn box_width(b: PixelBox) -> int {
    b.max_x - b.min_x
}

pub open spec fn box_height(b: PixelBox) -> int {
    b.max_y - b.min_y
}

/// A box whose sides fit a texture.
pub open spec fn box_ok(b: PixelBox) -> bool {
    &&& 0 <= box_width(b) <= i32::MAX
    &&& 0 <= box_height(b) <= i32::MAX
    &&& box_width(b) * box_height(b) * 4 <= usize::MAX
}

/// Coverage given for every pixel of a box.
pub open spec fn covers(c: Option<Vec<u8>>, b: PixelBox) -> bool {
    c is Some && c->Some_0@.len() == box_width(b) * box_height(b)
}

/// The commands that drawing a laid-out line records, given the cache
/// entries after the draw and the keys before it. For each glyph with
/// visible pixels, in order: the upload of its tinted coverage when its key
/// was not cached yet, a rebinding if the textured program is not yet bound,
/// and one textured quad at the glyph's place.
pub open spec fn draw_cmds(
    d: Drawer,
    entries: Seq<(CachedGlyph, GlTexture)>,
    keys: Seq<CachedGlyph>,
    layout: Seq<LaidGlyph>,
    coverage: Seq<Option<Vec<u8>>>,
    color: Color,
    size: i32,
    pos: Position,
) -> Seq<CommandView>
    decreases layout.len(),
{
    if layout.len() == 0 {
        seq![]
    } else {
        let pre = layout.drop_last();
        let g = layout.last();
        let before = draw_cmds(d, entries, keys, pre, coverage, color, size, pos);
        match g.bbox {
            Some(b) => {
                let k = key_of(g, color, size);
                let t = lookup(entries, k)->Some_0;
                let upload = if keys_after(keys, pre, color, size).contains(k) {
                    seq![]
                } else {
                    seq![
                        CommandView::CreateTexture {
                            handle: t.spec_handle(),
                            width: box_width(b) as usize,
                            height: box_height(b) as usize,
                            pixels: tinted(color, coverage[layout.len() - 1]->Some_0@),
                        },
                    ]
                };
                let state = if boxed(pre).len() == 0 {
                    d.spec_machine().state
                } else {
                    DrawState::Textured
                };
                before + upload + bind_cmds(state, DrawState::Textured).push(
                    textured_rect_cmd(d, &t, texture_rect(&t, glyph_origin(pos, b)), white()),
                )
            },
            None => before,
        }
    }
}

/// Entries added for keys the line does not use leave its commands as they
/// are.
proof fn lemma_draw_cmds_stable(
    d: Drawer,
    entries: Seq<(CachedGlyph, GlTexture)>,
    e: (CachedGlyph, GlTexture),
    keys: Seq<CachedGlyph>,
    layout: Seq<LaidGlyph>,
    coverage: Seq<Option<Vec<u8>>>,
    color: Color,
    size: i32,
    pos: Position,
)
    requires
        !keys_after(keys, layout, color, size).contains(e.0),
    ensures
        draw_cmds(d, entries.push(e), keys, layout, coverage, color, size, pos) == draw_cmds(
            d,
            entries,
            keys,
            layout,
            coverage,
            color,
            size,
            pos,
        ),
    decreases layout.len(),
{
    if layout.len() > 0 {
        lemma_keys_after_step(keys, layout, color, size);
        lemma_draw_cmds_stable(d, entries, e, keys, layout.drop_last(), coverage, color, size, pos);
        assert(entries.push(e).drop_last() =~= entries);
    }
}

/// The keys before a draw are kept, in order, at the front.
proof fn lemma_keys_after_prefix(keys: Seq<CachedGlyph>, layout: Seq<LaidGlyph>, color: Color, size: i32)
    ensures
        keys_after(keys, layout, color, size).len() >= keys.len(),
        keys_after(keys, layout, color, size).take(keys.len() as int) == keys,
    decreases layout.len(),
{
    if layout.len() == 0 {
        assert(keys.take(keys.len() as int) =~= keys);
    } else {
        lemma_keys_after_prefix(keys, layout.drop_last(), color, size);
        let pre = keys_after(keys, layout.drop_last(), color, size);
        let k = key_of(layout.last(), color, size);
        if layout.last().bbox is Some && !pre.contains(k) {
            assert(pre.push(k).take(keys.len() as int) =~= pre.take(keys.len() as int));
        }
    }
}

/// After a draw, the key of every glyph of the line with visible pixels is
/// cached.
proof fn lemma_keys_after_has_all(keys: Seq<CachedGlyph>, layout: Seq<LaidGlyph>, color: Color, size: i32)
    ensures
        forall|j: int|
            0 <= j < layout.len() && (#[trigger] layout[j]).bbox is Some ==> keys_after(
                keys,
                layout,
                color,
                size,
            ).contains(key_of(layout[j], color, size)),
    decreases layout.len(),
{
    if layout.len() > 0 {
        let pre = layout.drop_last();
        lemma_keys_after_has_all(keys, pre, color, size);
        lemma_keys_after_step(keys, layout, color, size);
        assert forall|j: int|
            0 <= j < layout.len() && (#[trigger] layout[j]).bbox is Some implies keys_after(
                keys,
                layout,
                color,
                size,
            ).contains(key_of(layout[j], color, size)) by {
            if j < pre.len() {
                assert(pre[j] == layout[j]);
            }
        }
    }
}

/// Drawing a line whose glyphs are all cached adds no key.
proof fn lemma_keys_after_fixed(keys: Seq<CachedGlyph>, layout: Seq<LaidGlyph>, color: Color, size: i32)
    requires
        forall|j: int|
            0 <= j < layout.len() && (#[trigger] layout[j]).bbox is Some ==> keys.contains(
                key_of(layout[j], color, size),
            ),
    ensures
        keys_after(keys, layout, color, size) == keys,
    decreases layout.len(),
{
    if layout.len() > 0 {
        let pre = layout.drop_last();
        assert forall|j: int| 0 <= j < pre.len() && (#[trigger] pre[j]).bbox is Some implies keys.contains(
            key_of(pre[j], color, size),
        ) by {
            assert(pre[j] == layout[j]);
        }
        lemma_keys_after_fixed(keys, pre, color, size);
        assert(layout.last() == layout[layout.len() - 1]);
    }
}

/// Drawing the same line a second time in the same color and size adds no
/// cache entry, and so uploads nothing.
pub proof fn lemma_draw_again_adds_nothing(
    keys: Seq<CachedGlyph>,
    layout: Seq<LaidGlyph>,
    color: Color,
    size: i32,
)
    ensures
        keys_after(keys_after(keys, layout, color, size), layout, color, size) == keys_after(
            keys,
            layout,
            color,
            size,
        ),
{
    lemma_keys_after_has_all(keys, layout, color, size);
    lemma_keys_after_fixed(keys_after(keys, layout, color, size), layout, color, size);
}

/// Drawing a line in a color or at a size not cached yet for one of its
/// glyphs with visible pixels adds that glyph's key, an entry of its own
/// apart from those of other colors and sizes, and the cache grows.
pub proof fn lemma_draw_new_key_grows(
    keys: Seq<CachedGlyph>,
    layout: Seq<LaidGlyph>,
    color: Color,
    size: i32,
    j: int,
)
    requires
        0 <= j < layout.len(),
        layout[j].bbox is Some,
        !keys.contains(key_of(layout[j], color, size)),
    ensures
        keys_after(keys, layout, color, size).contains(key_of(layout[j], color, size)),
        keys_after(keys, layout, color, size).len() > keys.len(),
        forall|c: Color, s: i32|
            c != color || s != size ==> key_of(layout[j], c, s) != key_of(layout[j], color, size),
{
    lemma_keys_after_has_all(keys, layout, color, size);
    lemma_keys_after_prefix(keys, layout, color, size);
    let after = keys_after(keys, layout, color, size);
    if after.len() == keys.len() {
        assert(after =~= after.take(keys.len() as int));
        assert(after == keys);
    }
}

} // verus!
