//! Placement of glyph images in a texture atlas.

use vstd::prelude::*;

verus! {

/// Where the next glyph goes after one placed at `location`: one glyph further along the
/// row, or at the start of the next row when the row is full.
pub fn next_glyph_location(location: (u32, u32), glyph_max_size: (u32, u32), atlas_width: u32) -> (next: (u32, u32))
    requires
        location.0 + glyph_max_size.0 <= u32::MAX,
        location.0 + glyph_max_size.0 >= atlas_width ==> location.1 + glyph_max_size.1 <= u32::MAX,
    ensures
        location.0 + glyph_max_size.0 >= atlas_width ==> next == (0u32, (location.1 + glyph_max_size.1) as u32),
        location.0 + glyph_max_size.0 < atlas_width ==> next == ((location.0 + glyph_max_size.0) as u32, location.1),
{
    let (x, y) = location;
    let (glyph_w, glyph_h) = glyph_max_size;
    let mut new_x = x + glyph_w;
    let mut new_y = y;
    if new_x >= atlas_width {
        new_x = 0;
        new_y = new_y + glyph_h;
    }
    (new_x, new_y)
}

/// Whether an image of `img_size` written at (`x`, `y`) lies inside an atlas of
/// `atlas_size`.
pub open spec fn fits_in_atlas_spec(atlas_size: (u32, u32), x: u32, y: u32, img_size: (u32, u32)) -> bool {
    img_size.0 <= atlas_size.0 && img_size.1 <= atlas_size.1 && img_size.0 + x <= atlas_size.0
        && img_size.1 + y <= atlas_size.1
}

/// Whether an image of `img_size` written at (`x`, `y`) lies inside an atlas of
/// `atlas_size`. Writing one that does not is an error.
pub fn fits_in_atlas(atlas_size: (u32, u32), x: u32, y: u32, img_size: (u32, u32)) -> (fits: bool)
    ensures
        fits == fits_in_atlas_spec(atlas_size, x, y, img_size),
{
    let (width, height) = atlas_size;
    let (img_width, img_height) = img_size;
    if img_width > width || img_height > height {
        return false;
    }
    if img_width as u64 + x as u64 > width as u64 || img_height as u64 + y as u64 > height as u64 {
        return false;
    }
    true
}

/// The pixel size given to a character without a visible glyph: a quarter of the glyph
/// width, three pixels high.
pub fn whitespace_pixel_size(glyph_max_size: (u32, u32)) -> (size: (u32, u32))
    ensures
        size == ((glyph_max_size.0 / 4) as u32, 3u32),
{
    (glyph_max_size.0 / 4, 3)
}

/// Where and how big a character is in the atlas, in pixels.
#[derive(Copy, Clone, Debug)]
pub struct GlyphSlot {
    pub pixel_size: (u32, u32),
    pub is_whitespace: bool,
    pub texture_pixel_location: (u32, u32),
}

/// Where the glyph after one placed at `location` goes (see `next_glyph_location`).
pub open spec fn next_location_after(location: (u32, u32), glyph_max_size: (u32, u32), atlas_width: u32) -> (u32, u32) {
    if location.0 + glyph_max_size.0 >= atlas_width {
        (0u32, (location.1 + glyph_max_size.1) as u32)
    } else {
        ((location.0 + glyph_max_size.0) as u32, location.1)
    }
}

/// A font's glyph atlas: the characters placed so far and where the next glyph goes.
pub struct GlyphAtlas {
    cache: GlyphCache<GlyphSlot>,
    next_location: (u32, u32),
    glyph_max_size: (u32, u32),
    atlas_size: (u32, u32),
}

impl GlyphAtlas {
    /// The slot of `c`, if it has been placed.
    pub closed spec fn slot_of(&self, c: char) -> Option<GlyphSlot> {
        self.cache.glyph_of(c)
    }

    /// Where the next glyph goes.
    pub closed spec fn next(&self) -> (u32, u32) {
        self.next_location
    }

    /// The size of the image each glyph is drawn into.
    pub closed spec fn glyph_size(&self) -> (u32, u32) {
        self.glyph_max_size
    }

    /// The size of the atlas.
    pub closed spec fn size(&self) -> (u32, u32) {
        self.atlas_size
    }

    pub closed spec fn wf(&self) -> bool {
        self.cache.wf()
    }

    /// Whether a new glyph can be placed: its image fits in the atlas at the next
    /// location, and the location after it can be counted.
    pub open spec fn has_room(&self) -> bool {
        &&& fits_in_atlas_spec(self.size(), self.next().0, self.next().1, self.glyph_size())
        &&& self.next().0 + self.glyph_size().0 <= u32::MAX
        &&& self.next().0 + self.glyph_size().0 >= self.size().0 ==> self.next().1
            + self.glyph_size().1 <= u32::MAX
    }

    /// An atlas of `atlas_size` for glyph images of `glyph_max_size`, with no glyph yet;
    /// the first glyph goes to the corner.
    pub fn new(glyph_max_size: (u32, u32), atlas_size: (u32, u32)) -> (atlas: Self)
        ensures
            atlas.wf(),
            forall|c: char| atlas.slot_of(c) is None,
            atlas.next() == (0u32, 0u32),
            atlas.glyph_size() == glyph_max_size,
            atlas.size() == atlas_size,
    {
        let cache = GlyphCache::new();
        assert forall|c: char| cache.glyph_of(c) is None by {}
        Self { cache, next_location: (0, 0), glyph_max_size, atlas_size }
    }

    /// Whether a new glyph can be placed (see `has_room`). Placing one without room is an
    /// error.
    pub fn room_for_glyph(&self) -> (room: bool)
        ensures
            room == self.has_room(),
    {
        let (x, y) = self.next_location;
        let (glyph_w, glyph_h) = self.glyph_max_size;
        let row_end = x as u64 + glyph_w as u64;
        fits_in_atlas(self.atlas_size, x, y, self.glyph_max_size) && row_end <= u32::MAX as u64
            && (row_end < self.atlas_size.0 as u64 || y as u64 + glyph_h as u64 <= u32::MAX as u64)
    }

    /// The slot of character `c`, whose glyph is `glyph_width` pixels wide, or has no
    /// visible pixels (`None`). A character placed before keeps its slot. Whitespace gets
    /// a quarter of the glyph width and three pixels of height, and no place in the atlas.
    /// Any other character is placed at the next location, which then moves one glyph
    /// along (see `next_glyph_location`); the second result is where its image is
    /// written.
    pub fn place(&mut self, c: char, glyph_width: Option<u32>) -> (placed: (GlyphSlot, Option<(u32, u32)>))
        requires
            old(self).wf(),
            old(self).slot_of(c) is None && glyph_width is Some ==> old(self).has_room(),
        ensures
            final(self).wf(),
            final(self).glyph_size() == old(self).glyph_size(),
            final(self).size() == old(self).size(),
            final(self).slot_of(c) == Some(placed.0),
            forall|d: char| d != c ==> final(self).slot_of(d) == old(self).slot_of(d),
            match old(self).slot_of(c) {
                Some(slot) => placed == (slot, None::<(u32, u32)>) && final(self).next()
                    == old(self).next(),
                None => match glyph_width {
                    None => placed == (
                        GlyphSlot {
                            pixel_size: ((old(self).glyph_size().0 / 4) as u32, 3u32),
                            is_whitespace: true,
                            texture_pixel_location: (0u32, 0u32),
                        },
                        None::<(u32, u32)>,
                    ) && final(self).next() == old(self).next(),
                    Some(width) => placed == (
                        GlyphSlot {
                            pixel_size: (width, old(self).glyph_size().1),
                            is_whitespace: false,
                            texture_pixel_location: old(self).next(),
                        },
                        Some(old(self).next()),
                    ) && final(self).next() == next_location_after(
                        old(self).next(),
                        old(self).glyph_size(),
                        old(self).size().0,
                    ),
                },
            },
    {
        match self.cache.get(c) {
            Some(slot) => {
                return (slot, None);
            },
            None => {},
        }
        match glyph_width {
            None => {
                // Whitespace character
                let slot = GlyphSlot {
                    pixel_size: whitespace_pixel_size(self.glyph_max_size),
                    is_whitespace: true,
                    texture_pixel_location: (0, 0),
                };
                self.cache.insert(c, slot);
                (slot, None)
            },
            Some(width) => {
                let (x, y) = self.next_location;
                self.next_location = next_glyph_location((x, y), self.glyph_max_size, self.atlas_size.0);
                let slot = GlyphSlot {
                    pixel_size: (width, self.glyph_max_size.1),
                    is_whitespace: false,
                    texture_pixel_location: (x, y),
                };
                self.cache.insert(c, slot);
                (slot, Some((x, y)))
            },
        }
    }
}

/// The glyphs already placed in the atlas, each under its character.
pub struct GlyphCache<T> {
    glyphs: Vec<(char, T)>,
}

impl<T: Copy> GlyphCache<T> {
    /// The cached glyphs, in the order they were first placed.
    pub closed spec fn entries(&self) -> Seq<(char, T)> {
        self.glyphs@
    }

    /// Each character has at most one glyph.
    pub open spec fn wf(&self) -> bool {
        forall|i: int, j: int|
            0 <= i < j < self.entries().len() ==> (#[trigger] self.entries()[i]).0 != (
            #[trigger] self.entries()[j]).0
    }

    /// The glyph of `c`, if one is cached.
    pub open spec fn glyph_of(&self, c: char) -> Option<T> {
        if exists|i: int| 0 <= i < self.entries().len() && (#[trigger] self.entries()[i]).0 == c {
            let i = choose|i: int| 0 <= i < self.entries().len() && (#[trigger] self.entries()[i]).0 == c;
            Some(self.entries()[i].1)
        } else {
            None
        }
    }

    /// An empty cache.
    pub fn new() -> (cache: Self)
        ensures
            cache.entries() == Seq::<(char, T)>::empty(),
            cache.wf(),
    {
        Self { glyphs: Vec::new() }
    }

    /// The position of the glyph of `c`, if one is cached.
    fn position(&self, c: char) -> (found: Option<usize>)
        ensures
            match found {
                Some(i) => i < self.entries().len() && self.entries()[i as int].0 == c,
                None => forall|i: int| 0 <= i < self.entries().len() ==> (#[trigger] self.entries()[i]).0 != c,
            },
    {
        let mut i: usize = 0;
        while i < self.glyphs.len()
            invariant
                i <= self.glyphs@.len(),
                forall|j: int| 0 <= j < i ==> (#[trigger] self.glyphs@[j]).0 != c,
            decreases self.glyphs@.len() - i,
        {
            if self.glyphs[i].0 == c {
                return Some(i);
            }
            i = i + 1;
        }
        None
    }

    /// The cached glyph of `c`, if any.
    pub fn get(&self, c: char) -> (glyph: Option<T>)
        requires
            self.wf(),
        ensures
            glyph == self.glyph_of(c),
    {
        match self.position(c) {
            Some(i) => {
                let ghost k = choose|k: int| 0 <= k < self.entries().len() && (#[trigger] self.entries()[k]).0 == c;
                assert(k == i);
                Some(self.glyphs[i].1)
            },
            None => None,
        }
    }

    /// Caches `glyph` as the glyph of `c`, in place of any glyph cached for `c` before.
    pub fn insert(&mut self, c: char, glyph: T)
        requires
            old(self).wf(),
        ensures
            final(self).wf(),
            final(self).glyph_of(c) == Some(glyph),
            forall|d: char| d != c ==> final(self).glyph_of(d) == old(self).glyph_of(d),
    {
        match self.position(c) {
            Some(i) => {
                self.glyphs.set(i, (c, glyph));
                assert forall|d: char| d != c implies self.glyph_of(d) == old(self).glyph_of(d) by {
                    if exists|k: int| 0 <= k < old(self).entries().len() && (#[trigger] old(self).entries()[k]).0 == d {
                        let k = choose|k: int| 0 <= k < old(self).entries().len() && (#[trigger] old(self).entries()[k]).0 == d;
                        assert(self.entries()[k].0 == d);
                    }
                    if exists|k: int| 0 <= k < self.entries().len() && (#[trigger] self.entries()[k]).0 == d {
                        let k = choose|k: int| 0 <= k < self.entries().len() && (#[trigger] self.entries()[k]).0 == d;
                        assert(old(self).entries()[k].0 == d);
                    }
                }
                assert(self.entries()[i as int].0 == c);
            },
            None => {
                let ghost n = self.glyphs@.len();
                self.glyphs.push((c, glyph));
                assert(self.entries()[n as int].0 == c);
                assert forall|d: char| d != c implies self.glyph_of(d) == old(self).glyph_of(d) by {
                    if exists|k: int| 0 <= k < old(self).entries().len() && (#[trigger] old(self).entries()[k]).0 == d {
                        let k = choose|k: int| 0 <= k < old(self).entries().len() && (#[trigger] old(self).entries()[k]).0 == d;
                        assert(self.entries()[k].0 == d);
                    }
                    if exists|k: int| 0 <= k < self.entries().len() && (#[trigger] self.entries()[k]).0 == d {
                        let k = choose|k: int| 0 <= k < self.entries().len() && (#[trigger] self.entries()[k]).0 == d;
                        assert(old(self).entries()[k].0 == d);
                    }
                }
            },
        }
    }
}

} // verus!
