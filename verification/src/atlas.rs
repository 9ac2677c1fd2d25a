//! The sprite-atlas allocator: resolving a linear sprite index into a cached
//! material whose UV rectangle selects one cell of a sheet texture.
//!
//! Rectangles are exact fractions of the sheet's pixel size. Within one
//! allocator, each index is realized at most once, and distinct indices never
//! share a handle.

use vstd::prelude::*;

verus! {

use vstd::arithmetic::div_mod::lemma_div_is_ordered;
use vstd::arithmetic::div_mod::lemma_div_by_self;
use crate::material::TextureHandle;
use crate::material::UvFrac;
use crate::material::UvRect;
use crate::material::UnlitMaterial;
use crate::material::MaterialHandle;
use crate::material::MaterialStore;

/// A texture subdivided into a uniform grid of sprite cells.
#[derive(Debug, Copy, Clone)]
pub struct SpriteSheet {
    /// Pixel size of one sprite cell.
    pub grid_dimensions: (u32, u32),
    /// The shared sheet texture; the sheet never owns pixel data.
    pub sprite_sheet: TextureHandle,
}

/// The pixel size a sheet resolves to: the decoded texture size when it is
/// known, else one cell (a 1 x 1 sheet) until decoding finishes.
pub open spec fn dimensions_spec(sheet: SpriteSheet, decoded: Option<(u32, u32)>) -> (u32, u32) {
    match decoded {
        Some(size) => size,
        None => sheet.grid_dimensions,
    }
}

/// A decoded texture, when present, holds at least one whole cell.
pub open spec fn decoded_ok(sheet: SpriteSheet, decoded: Option<(u32, u32)>) -> bool {
    match decoded {
        Some(size) => size.0 >= sheet.grid_dimensions.0 && size.1 >= sheet.grid_dimensions.1,
        None => true,
    }
}

impl SpriteSheet {
    /// Cells have nonzero extent in both directions.
    pub open spec fn wf(self) -> bool {
        self.grid_dimensions.0 > 0 && self.grid_dimensions.1 > 0
    }

    /// Run-time form of `wf`.
    pub fn is_well_formed(&self) -> (b: bool)
        ensures
            b == self.wf(),
    {
        self.grid_dimensions.0 > 0 && self.grid_dimensions.1 > 0
    }

    /// The (width, height) of the sheet in pixels, given what the asset
    /// store has decoded so far.
    pub fn dimensions(&self, decoded: Option<(u32, u32)>) -> (d: (u32, u32))
        ensures
            d == dimensions_spec(*self, decoded),
    {
        match decoded {
            Some(size) => size,
            None => self.grid_dimensions,
        }
    }

    /// Build the material allocator for one rebuild over this sheet, with an
    /// empty cache.
    pub fn material_allocator(&self, decoded: Option<(u32, u32)>) -> (a: MaterialAllocator)
        requires
            self.wf(),
            decoded_ok(*self, decoded),
        ensures
            a.texture == self.sprite_sheet,
            a.grid_dimensions == self.grid_dimensions,
            a.dimensions == dimensions_spec(*self, decoded),
            a.cache@ =~= Seq::<(u32, MaterialHandle)>::empty(),
            a.geometry_wf(),
    {
        MaterialAllocator {
            texture: self.sprite_sheet,
            grid_dimensions: self.grid_dimensions,
            dimensions: self.dimensions(decoded),
            cache: Vec::new(),
        }
    }
}

/// The exact UV rectangle of the sprite at a linear index: cells advance
/// along x first and wrap to the next row after `width / cell width`
/// entries. An index beyond the sheet yields a rectangle outside `[0,1]`,
/// left to the sampler's policy.
pub open spec fn uv_rect_spec(dims: (u32, u32), grid: (u32, u32), index: u32) -> UvRect {
    let rows = dims.0 as int / grid.0 as int;
    let col = index as int % rows;
    let row = index as int / rows;
    UvRect {
        left: UvFrac { num: (col * grid.0) as u64, den: dims.0 as u64 },
        top: UvFrac { num: (row * grid.1) as u64, den: dims.1 as u64 },
        right: UvFrac { num: (col * grid.0 + grid.0) as u64, den: dims.0 as u64 },
        bottom: UvFrac { num: (row * grid.1 + grid.1) as u64, den: dims.1 as u64 },
    }
}

/// Some cache entry carries `index`.
pub open spec fn cache_has(cache: Seq<(u32, MaterialHandle)>, index: u32) -> bool {
    exists|i: int| 0 <= i < cache.len() && (#[trigger] cache[i]).0 == index
}

/// The handle cached for `index` (meaningful when `cache_has` holds and the
/// keys are distinct).
pub open spec fn cache_at(cache: Seq<(u32, MaterialHandle)>, index: u32) -> MaterialHandle {
    let i = choose|i: int| 0 <= i < cache.len() && (#[trigger] cache[i]).0 == index;
    cache[i].1
}

/// No sprite index occurs twice in the cache.
pub open spec fn distinct_cache_keys(cache: Seq<(u32, MaterialHandle)>) -> bool {
    forall|i: int, j: int|
        0 <= i < j < cache.len() ==> (#[trigger] cache[i]).0 != (#[trigger] cache[j]).0
}

/// No handle occurs twice in the cache.
pub open spec fn distinct_cache_handles(cache: Seq<(u32, MaterialHandle)>) -> bool {
    forall|i: int, j: int|
        0 <= i < j < cache.len() ==> (#[trigger] cache[i]).1 != (#[trigger] cache[j]).1
}

/// Appending an entry under a new key leaves every other key's cached
/// handle unchanged.
pub proof fn lemma_cache_at_push_stable(
    cache: Seq<(u32, MaterialHandle)>,
    entry: (u32, MaterialHandle),
    key: u32,
)
    requires
        distinct_cache_keys(cache),
        cache_has(cache, key),
        entry.0 != key,
    ensures
        cache_has(cache.push(entry), key),
        cache_at(cache.push(entry), key) == cache_at(cache, key),
{
    let grown = cache.push(entry);
    let i = choose|i: int| 0 <= i < cache.len() && (#[trigger] cache[i]).0 == key;
    assert(grown[i].0 == key);
    assert(cache_has(grown, key));
    let w = choose|w: int| 0 <= w < grown.len() && (#[trigger] grown[w]).0 == key;
    assert(w < cache.len());
    assert(grown[w] == cache[w]);
    let u = choose|u: int| 0 <= u < cache.len() && (#[trigger] cache[u]).0 == key;
    assert(u == w);
}

/// The cached handle for a present key is carried by some cache entry.
pub proof fn lemma_cache_at_is_entry(cache: Seq<(u32, MaterialHandle)>, key: u32)
    requires
        distinct_cache_keys(cache),
        cache_has(cache, key),
    ensures
        exists|i: int|
            0 <= i < cache.len() && (#[trigger] cache[i]).0 == key && cache[i].1 == cache_at(
                cache,
                key,
            ),
{
    let i = choose|i: int| 0 <= i < cache.len() && (#[trigger] cache[i]).0 == key;
    assert(0 <= i < cache.len() && cache[i].0 == key);
}

/// With distinct keys and distinct handles, distinct keys are cached under
/// distinct handles.
pub proof fn lemma_cache_at_distinct(cache: Seq<(u32, MaterialHandle)>, k1: u32, k2: u32)
    requires
        distinct_cache_keys(cache),
        distinct_cache_handles(cache),
        cache_has(cache, k1),
        cache_has(cache, k2),
        k1 != k2,
    ensures
        cache_at(cache, k1) != cache_at(cache, k2),
{
    let i = choose|i: int| 0 <= i < cache.len() && (#[trigger] cache[i]).0 == k1;
    let j = choose|j: int| 0 <= j < cache.len() && (#[trigger] cache[j]).0 == k2;
    assert(i != j);
}

/// Transient per-sheet material cache, keyed by linear sprite index; built
/// afresh for every synchronization pass and never shared across sheets.
#[derive(Debug)]
pub struct MaterialAllocator {
    pub texture: TextureHandle,
    pub dimensions: (u32, u32),
    pub grid_dimensions: (u32, u32),
    pub cache: Vec<(u32, MaterialHandle)>,
}

impl MaterialAllocator {
    /// The sheet geometry is sound: nonzero cells that fit the sheet.
    pub open spec fn geometry_wf(self) -> bool {
        &&& self.grid_dimensions.0 > 0
        &&& self.grid_dimensions.1 > 0
        &&& self.dimensions.0 >= self.grid_dimensions.0
        &&& self.dimensions.1 >= self.grid_dimensions.1
    }

    /// Every cached handle is realized in `store` with this sheet's texture
    /// and its index's rectangle, and no key or handle repeats.
    pub open spec fn wf_cache(self, store: MaterialStore) -> bool {
        &&& forall|i: int|
            0 <= i < self.cache@.len() ==> (#[trigger] self.cache@[i]).1.id
                < store.materials@.len()
        &&& forall|i: int|
            0 <= i < self.cache@.len() ==> store.materials@[(#[trigger] self.cache@[i]).1.id as int]
                == (UnlitMaterial {
                sprite_sheet: self.texture,
                sprite: uv_rect_spec(self.dimensions, self.grid_dimensions, self.cache@[i].0),
            })
        &&& distinct_cache_keys(self.cache@)
        &&& distinct_cache_handles(self.cache@)
    }

    /// Extract the UV rectangle for a sprite index.
    pub fn index(&self, index: u32) -> (r: UvRect)
        requires
            self.geometry_wf(),
        ensures
            r == uv_rect_spec(self.dimensions, self.grid_dimensions, index),
    {
        let width: u32 = self.dimensions.0;
        let rows: u32 = width / self.grid_dimensions.0;
        proof {
            lemma_div_by_self(self.grid_dimensions.0 as int);
            lemma_div_is_ordered(
                self.grid_dimensions.0 as int,
                width as int,
                self.grid_dimensions.0 as int,
            );
        }
        let col: u32 = index % rows;
        let row: u32 = index / rows;
        proof {
            assert((col as int) * (self.grid_dimensions.0 as int) <= 0xffff_ffff * 0xffff_ffff)
                by (nonlinear_arith)
                requires
                    0 <= col as int <= 0xffff_ffff,
                    0 <= self.grid_dimensions.0 as int <= 0xffff_ffff,
            ;
            assert((row as int) * (self.grid_dimensions.1 as int) <= 0xffff_ffff * 0xffff_ffff)
                by (nonlinear_arith)
                requires
                    0 <= row as int <= 0xffff_ffff,
                    0 <= self.grid_dimensions.1 as int <= 0xffff_ffff,
            ;
        }
        let left_num: u64 = (col as u64) * (self.grid_dimensions.0 as u64);
        let top_num: u64 = (row as u64) * (self.grid_dimensions.1 as u64);
        let right_num: u64 = left_num + (self.grid_dimensions.0 as u64);
        let bottom_num: u64 = top_num + (self.grid_dimensions.1 as u64);
        UvRect {
            left: UvFrac { num: left_num, den: self.dimensions.0 as u64 },
            top: UvFrac { num: top_num, den: self.dimensions.1 as u64 },
            right: UvFrac { num: right_num, den: self.dimensions.0 as u64 },
            bottom: UvFrac { num: bottom_num, den: self.dimensions.1 as u64 },
        }
    }

    /// Resolve a sprite index to a material handle, realizing the material
    /// in `store` at most once per index: a cache hit returns the previous
    /// handle and changes nothing; a miss realizes the material and caches
    /// the fresh handle.
    #[verifier::loop_isolation(false)]
    pub fn get_material(&mut self, index: u32, store: &mut MaterialStore) -> (h: MaterialHandle)
        requires
            old(self).geometry_wf(),
            old(self).wf_cache(*old(store)),
            old(store).materials@.len() < u64::MAX,
        ensures
            final(self).texture == old(self).texture,
            final(self).dimensions == old(self).dimensions,
            final(self).grid_dimensions == old(self).grid_dimensions,
            final(self).wf_cache(*final(store)),
            old(store).materials@.is_prefix_of(final(store).materials@),
            cache_has(final(self).cache@, index) && cache_at(final(self).cache@, index) == h,
            h.id < final(store).materials@.len(),
            final(store).materials@[h.id as int] == (UnlitMaterial {
                sprite_sheet: old(self).texture,
                sprite: uv_rect_spec(old(self).dimensions, old(self).grid_dimensions, index),
            }),
            cache_has(old(self).cache@, index) ==> *final(self) == *old(self) && *final(store)
                == *old(store) && h == cache_at(old(self).cache@, index),
            !cache_has(old(self).cache@, index) ==> final(store).materials@ == old(
                store,
            ).materials@.push(
                UnlitMaterial {
                    sprite_sheet: old(self).texture,
                    sprite: uv_rect_spec(old(self).dimensions, old(self).grid_dimensions, index),
                },
            ) && h.id == old(store).materials@.len() && final(self).cache@ == old(
                self,
            ).cache@.push((index, h)),
    {
        let ghost before = *self;
        let n: usize = self.cache.len();
        let mut i: usize = 0;
        while i < n
            invariant
                forall|j: int| 0 <= j < i ==> (#[trigger] self.cache@[j]).0 != index,
            decreases n - i,
        {
            let entry: (u32, MaterialHandle) = self.cache[i];
            if entry.0 == index {
                proof {
                    assert(cache_has(self.cache@, index));
                    let w = choose|w: int|
                        0 <= w < self.cache@.len() && (#[trigger] self.cache@[w]).0 == index;
                    assert(self.cache@[w].0 == self.cache@[i as int].0);
                    assert(w == i as int);
                    assert(cache_at(self.cache@, index) == entry.1);
                    assert(self.cache@[i as int].1.id < store.materials@.len());
                    assert(store.materials@.is_prefix_of(store.materials@));
                }
                return entry.1;
            }
            i = i + 1;
        }
        assert(!cache_has(self.cache@, index));
        let rect: UvRect = self.index(index);
        let material: UnlitMaterial = UnlitMaterial::new(self.texture, rect);
        let h: MaterialHandle = store.add(material);
        self.cache.push((index, h));
        proof {
            let newc = self.cache@;
            let oldc = before.cache@;
            assert(newc == oldc.push((index, h)));
            assert(newc[newc.len() - 1] == (index, h));
            assert(cache_has(newc, index));
            let w = choose|w: int| 0 <= w < newc.len() && (#[trigger] newc[w]).0 == index;
            if w < newc.len() - 1 {
                assert(oldc[w] == newc[w]);
                assert(cache_has(oldc, index));
            }
            assert(cache_at(newc, index) == h);
            assert forall|k: int| 0 <= k < newc.len() implies (#[trigger] newc[k]).1.id
                < store.materials@.len() by {
                if k < oldc.len() {
                    assert(oldc[k] == newc[k]);
                }
            }
            assert forall|k: int| 0 <= k < newc.len() implies store.materials@[(
            #[trigger] newc[k]).1.id as int] == (UnlitMaterial {
                sprite_sheet: self.texture,
                sprite: uv_rect_spec(self.dimensions, self.grid_dimensions, newc[k].0),
            }) by {
                if k < oldc.len() {
                    assert(oldc[k] == newc[k]);
                    assert(oldc[k].1.id < old(store).materials@.len());
                    assert(store.materials@[oldc[k].1.id as int] == old(store).materials@[oldc[k].1.id as int]);
                }
            }
            assert forall|p: int, q: int| 0 <= p < q < newc.len() implies (
            #[trigger] newc[p]).0 != (#[trigger] newc[q]).0 by {
                if q < oldc.len() {
                    assert(oldc[p] == newc[p] && oldc[q] == newc[q]);
                } else {
                    assert(oldc[p] == newc[p]);
                    assert(newc[q] == (index, h));
                }
            }
            assert forall|p: int, q: int| 0 <= p < q < newc.len() implies (
            #[trigger] newc[p]).1 != (#[trigger] newc[q]).1 by {
                if q < oldc.len() {
                    assert(oldc[p] == newc[p] && oldc[q] == newc[q]);
                } else {
                    assert(oldc[p] == newc[p]);
                    assert(oldc[p].1.id < old(store).materials@.len());
                }
            }
        }
        h
    }
}

} // verus!
