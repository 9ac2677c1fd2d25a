//! Flat (unlit) sprite materials and the store of realized materials.
//!
//! A material pairs a shared sheet texture with an exact UV rectangle; the
//! store stands for the renderer's material assets and hands out handles
//! that are stable indices into it.

use vstd::prelude::*;

verus! {

/// A reference-counted texture asset, named by the asset store's id.
#[derive(Debug, Copy, Clone, PartialEq, Eq, Structural, Hash)]
pub struct TextureHandle {
    pub id: u64,
}

/// An exact UV coordinate: the fraction `num / den` of a texture extent.
#[derive(Debug, Copy, Clone, PartialEq, Eq, Structural)]
pub struct UvFrac {
    pub num: u64,
    pub den: u64,
}

/// An exact UV rectangle; `(0,0)` is the texture's top-left corner and
/// `(1,1)` its bottom-right corner.
#[derive(Debug, Copy, Clone, PartialEq, Eq, Structural)]
pub struct UvRect {
    pub left: UvFrac,
    pub top: UvFrac,
    pub right: UvFrac,
    pub bottom: UvFrac,
}

/// The rectangle spanning an entire texture.
pub open spec fn full_sheet_rect() -> UvRect {
    UvRect {
        left: UvFrac { num: 0, den: 1 },
        top: UvFrac { num: 0, den: 1 },
        right: UvFrac { num: 1, den: 1 },
        bottom: UvFrac { num: 1, den: 1 },
    }
}

/// A flat material: one sprite rectangle of a shared sheet texture.
#[derive(Debug, Copy, Clone, PartialEq, Eq, Structural)]
pub struct UnlitMaterial {
    /// Handle to the full sprite sheet.
    pub sprite_sheet: TextureHandle,
    /// Specific sprite in the sprite sheet.
    pub sprite: UvRect,
}

impl UnlitMaterial {
    /// Create a new unlit material.
    pub fn new(sprite_sheet: TextureHandle, sprite: UvRect) -> (m: Self)
        ensures
            m == (UnlitMaterial { sprite_sheet, sprite }),
    {
        Self { sprite_sheet, sprite }
    }

    /// Render the entire texture, unaltered.
    pub fn full_sheet(sprite_sheet: TextureHandle) -> (m: Self)
        ensures
            m == (UnlitMaterial { sprite_sheet, sprite: full_sheet_rect() }),
    {
        Self {
            sprite_sheet,
            sprite: UvRect {
                left: UvFrac { num: 0, den: 1 },
                top: UvFrac { num: 0, den: 1 },
                right: UvFrac { num: 1, den: 1 },
                bottom: UvFrac { num: 1, den: 1 },
            },
        }
    }

    /// Stage this material for rendering. Once the backing texture is
    /// decoded the UV rectangle is packed in uniform-buffer order
    /// (left, top, right, bottom); until then the caller is asked to retry
    /// on a later pass.
    pub fn prepare(&self, texture_ready: bool) -> (r: Result<GpuUnlitMaterial, PrepareError>)
        ensures
            texture_ready ==> r == Ok::<GpuUnlitMaterial, PrepareError>(
                GpuUnlitMaterial {
                    uv_min_u: self.sprite.left,
                    uv_min_v: self.sprite.top,
                    uv_max_u: self.sprite.right,
                    uv_max_v: self.sprite.bottom,
                },
            ),
            !texture_ready ==> r == Err::<GpuUnlitMaterial, PrepareError>(
                PrepareError::RetryNextUpdate,
            ),
    {
        if texture_ready {
            Ok(
                GpuUnlitMaterial {
                    uv_min_u: self.sprite.left,
                    uv_min_v: self.sprite.top,
                    uv_max_u: self.sprite.right,
                    uv_max_v: self.sprite.bottom,
                },
            )
        } else {
            Err(PrepareError::RetryNextUpdate)
        }
    }
}

/// The renderer-ready form of a material: the sprite rectangle packed as the
/// min/max UV pair the uniform buffer carries.
#[derive(Debug, Copy, Clone, PartialEq, Eq, Structural)]
pub struct GpuUnlitMaterial {
    pub uv_min_u: UvFrac,
    pub uv_min_v: UvFrac,
    pub uv_max_u: UvFrac,
    pub uv_max_v: UvFrac,
}

/// Why staging a material did not produce a renderer-ready form.
#[derive(Debug, Copy, Clone, PartialEq, Eq, Structural)]
pub enum PrepareError {
    /// The backing texture has not finished decoding; try again next pass.
    RetryNextUpdate,
}

/// A handle into the material store; equal handles name the same material.
#[derive(Debug, Copy, Clone, PartialEq, Eq, Structural, Hash)]
pub struct MaterialHandle {
    pub id: u64,
}

/// The collection of realized materials. Handles are indices into the
/// insertion order, so a handle stays valid as the store grows.
#[derive(Debug)]
pub struct MaterialStore {
    pub materials: Vec<UnlitMaterial>,
}

impl MaterialStore {
    /// An empty store.
    pub fn new() -> (s: Self)
        ensures
            s.materials@.len() == 0,
    {
        MaterialStore { materials: Vec::new() }
    }

    /// `h` names a material of this store.
    pub open spec fn contains(self, h: MaterialHandle) -> bool {
        h.id < self.materials@.len()
    }

    /// The material `h` names.
    pub open spec fn spec_get(self, h: MaterialHandle) -> UnlitMaterial {
        self.materials@[h.id as int]
    }

    /// Realize a material, returning a fresh handle to it.
    pub fn add(&mut self, m: UnlitMaterial) -> (h: MaterialHandle)
        requires
            old(self).materials@.len() < u64::MAX,
        ensures
            h.id == old(self).materials@.len(),
            final(self).materials@ == old(self).materials@.push(m),
    {
        let id: u64 = self.materials.len() as u64;
        self.materials.push(m);
        MaterialHandle { id }
    }

    /// Look a handle up.
    pub fn get(&self, h: MaterialHandle) -> (m: Option<&UnlitMaterial>)
        ensures
            match m {
                Some(found) => self.contains(h) && *found == self.spec_get(h),
                None => !self.contains(h),
            },
    {
        if h.id < self.materials.len() as u64 {
            Some(&self.materials[h.id as usize])
        } else {
            None
        }
    }

    /// How many materials have been realized.
    pub fn len(&self) -> (n: usize)
        ensures
            n == self.materials@.len(),
    {
        self.materials.len()
    }
}

} // verus!
