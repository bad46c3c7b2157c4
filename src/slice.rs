use vstd::prelude::*;

use crate::batch::{Color, Offset, Size, Sprite};

verus! {

/// What the library needs of a texture: its identity, its size in texels and its number of
/// array layers.
#[derive(Clone, Copy, Debug, PartialEq, Eq, Structural)]
pub struct TextureInfo {
    /// Identity of the texture: equal values name the same texture object.
    pub id: u64,
    /// Width in texels.
    pub width: u32,
    /// Height in texels.
    pub height: u32,
    /// Number of array layers.
    pub layers: u32,
}

/// A rectangle of texels on one layer of a texture.
#[derive(Clone, Copy, Debug, PartialEq, Eq, Structural)]
pub struct TextureRegion {
    /// Identity of the texture.
    pub texture: u64,
    /// Array layer.
    pub layer: u32,
    /// Left edge, in texels from the texture's left edge.
    pub x: u32,
    /// Top edge, in texels from the texture's top edge.
    pub y: u32,
    /// Width in texels.
    pub width: u32,
    /// Height in texels.
    pub height: u32,
}

/// A sub-region of a texture. It can only be made from a whole texture layer and narrowed
/// from there, so it never reaches outside the texture.
#[derive(Clone, Copy, Debug)]
pub struct TextureSlice {
    region: TextureRegion,
}

/// `offset` and `size`, taken relative to `outer`, give a rectangle inside `outer`.
pub open spec fn fits_within(outer: TextureRegion, offset: Offset, size: Size) -> bool {
    &&& offset.x >= 0
    &&& offset.y >= 0
    &&& offset.x + size.x <= outer.width
    &&& offset.y + size.y <= outer.height
}

/// `inner` lies on the same layer of the same texture as `outer`, and inside it.
pub open spec fn region_within(outer: TextureRegion, inner: TextureRegion) -> bool {
    &&& inner.texture == outer.texture
    &&& inner.layer == outer.layer
    &&& outer.x <= inner.x
    &&& outer.y <= inner.y
    &&& inner.x + inner.width <= outer.x + outer.width
    &&& inner.y + inner.height <= outer.y + outer.height
}

impl View for TextureSlice {
    type V = TextureRegion;

    closed spec fn view(&self) -> TextureRegion {
        self.region
    }
}

impl TextureSlice {
    /// The far edges of the region stay within the range of texel coordinates.
    #[verifier::type_invariant]
    spec fn inv(self) -> bool {
        &&& self.region.x + self.region.width <= u32::MAX
        &&& self.region.y + self.region.height <= u32::MAX
    }

    /// The whole of layer `layer` of `texture`, or `None` when the texture has no such layer.
    pub fn from_full_texture(texture: &TextureInfo, layer: u32) -> (slice: Option<TextureSlice>)
        ensures
            slice.is_some() == (layer < texture.layers),
            slice matches Some(s) ==> s@ == (TextureRegion {
                texture: texture.id,
                layer,
                x: 0,
                y: 0,
                width: texture.width,
                height: texture.height,
            }),
    {
        if layer < texture.layers {
            Some(
                TextureSlice {
                    region: TextureRegion {
                        texture: texture.id,
                        layer,
                        x: 0,
                        y: 0,
                        width: texture.width,
                        height: texture.height,
                    },
                },
            )
        } else {
            None
        }
    }

    /// The rectangle of `size` texels at `offset` from this slice's top-left corner, or `None`
    /// when any edge of it falls outside this slice.
    pub fn slice(&self, offset: Offset, size: Size) -> (slice: Option<TextureSlice>)
        ensures
            slice.is_some() == fits_within(self@, offset, size),
            slice matches Some(s) ==> s@ == (TextureRegion {
                texture: self@.texture,
                layer: self@.layer,
                x: (self@.x + offset.x) as u32,
                y: (self@.y + offset.y) as u32,
                width: size.x,
                height: size.y,
            }),
            slice matches Some(s) ==> region_within(self@, s@),
    {
        proof {
            use_type_invariant(self);
        }
        let r = self.region;
        if offset.x < 0 || offset.y < 0 {
            return None;
        }
        let dx = offset.x as u32;
        let dy = offset.y as u32;
        if dx as u64 + size.x as u64 > r.width as u64 || dy as u64 + size.y as u64 > r.height as u64 {
            return None;
        }
        Some(
            TextureSlice {
                region: TextureRegion {
                    texture: r.texture,
                    layer: r.layer,
                    x: r.x + dx,
                    y: r.y + dy,
                    width: size.x,
                    height: size.y,
                },
            },
        )
    }

    /// The texture, layer and rectangle this slice covers.
    pub fn region(&self) -> (region: TextureRegion)
        ensures
            region == self@,
    {
        self.region
    }
}

impl<T> Sprite<T> {
    /// A sprite that draws `slice` with `transform` and `tint`, or `None` when the slice's
    /// offset does not fit the sprite's signed 32-bit source offset.
    pub fn from_slice(slice: &TextureSlice, transform: T, tint: Color) -> (sprite: Option<
        Sprite<T>,
    >)
        ensures
            sprite.is_some() == (slice@.x <= i32::MAX && slice@.y <= i32::MAX),
            sprite matches Some(s) ==> (s == Sprite {
                texture: slice@.texture,
                src_offset: Offset { x: slice@.x as i32, y: slice@.y as i32 },
                src_size: Size { x: slice@.width, y: slice@.height },
                src_layer: slice@.layer,
                transform,
                tint,
            }),
    {
        let r = slice.region();
        if r.x > i32::MAX as u32 || r.y > i32::MAX as u32 {
            return None;
        }
        Some(
            Sprite {
                texture: r.texture,
                src_offset: Offset { x: r.x as i32, y: r.y as i32 },
                src_size: Size { x: r.width, y: r.height },
                src_layer: r.layer,
                transform,
                tint,
            },
        )
    }
}

} // verus!
