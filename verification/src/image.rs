//! Images of the GPU framework: who owns the memory behind one, and how a texture is
//! defined over it.

use vstd::prelude::*;
use crate::format::Format;

verus! {

/// A size in pixels.
#[derive(Clone, Copy, Debug, PartialEq, Eq, Structural)]
pub struct Extents2D {
    pub width: u32,
    pub height: u32,
}

/// A size in pixels with a depth.
#[derive(Clone, Copy, Debug, PartialEq, Eq, Structural)]
pub struct Extents3D {
    pub width: u32,
    pub height: u32,
    pub depth: u32,
}

impl Extents2D {
    /// A surface can have this size: both dimensions are positive, and neither turns
    /// negative when the 2D renderer reads it as a signed 32-bit number.
    pub open spec fn is_drawable(self) -> bool {
        &&& 0 < self.width <= i32::MAX
        &&& 0 < self.height <= i32::MAX
    }

    /// The same size as that of a flat texture: depth 1.
    pub open spec fn flat(self) -> Extents3D {
        Extents3D { width: self.width, height: self.height, depth: 1 }
    }
}

/// How many samples a texture holds per pixel.
#[derive(Clone, Copy, Debug, PartialEq, Eq, Structural)]
pub enum SampleCount {
    SampleCount1,
    SampleCount2,
    SampleCount4,
    SampleCount8,
    SampleCount16,
}

/// What a texture is used for.
#[derive(Clone, Copy, Debug, PartialEq, Eq, Structural)]
pub enum ResourceType {
    Texture,
    TextureReadWrite,
    TextureCube,
    RenderTargetColor,
    RenderTargetDepthStencil,
}

/// A native image together with the allocation that the framework made for it.
///
/// An image without an allocation is foreign: its memory belongs to somebody else, and
/// the framework must never free it.
#[derive(Clone, Copy, Debug, PartialEq, Eq)]
pub struct RawImage {
    pub image: u64,
    pub allocation: Option<u64>,
}

impl RawImage {
    /// The framework does not own the memory of this image.
    pub open spec fn is_foreign(self) -> bool {
        self.allocation.is_none()
    }

    /// The record of an image that was allocated elsewhere.
    pub fn foreign(image: u64) -> (raw: RawImage)
        ensures
            raw == (RawImage { image, allocation: None }),
            raw.is_foreign(),
    {
        RawImage { image, allocation: None }
    }

    /// Gives up the image and returns the allocation that has to be freed with it:
    /// the one the framework made, and none for a foreign image. The record is left
    /// without an image and without an allocation.
    pub fn destroy(&mut self) -> (freed: Option<u64>)
        ensures
            freed == old(self).allocation,
            old(self).is_foreign() ==> freed.is_none(),
            *final(self) == (RawImage { image: 0, allocation: None }),
    {
        let freed = self.allocation;
        self.allocation = None;
        self.image = 0;
        freed
    }
}

/// The definition of a texture.
#[derive(Clone, Copy, Debug, PartialEq, Eq, Structural)]
pub struct TextureDef {
    pub extents: Extents3D,
    pub format: Format,
    pub resource_type: ResourceType,
    pub sample_count: SampleCount,
}

/// A texture of the framework over an image that exists already.
#[derive(Clone, Copy, Debug, PartialEq, Eq)]
pub struct ExistingTexture {
    pub image: RawImage,
    pub def: TextureDef,
}

impl ExistingTexture {
    /// The texture under which the framework takes in an image of the 2D renderer:
    /// the image without an allocation, flat, of the given size and format, with one
    /// sample per pixel, for use as a texture.
    pub open spec fn spec_adopt(image: u64, extents: Extents2D, format: Format) -> ExistingTexture {
        ExistingTexture {
            image: RawImage { image, allocation: None },
            def: TextureDef {
                extents: extents.flat(),
                format,
                resource_type: ResourceType::Texture,
                sample_count: SampleCount::SampleCount1,
            },
        }
    }

    /// Describes the texture under which the framework takes in an image that it did
    /// not allocate.
    pub fn adopt(image: u64, extents: Extents2D, format: Format) -> (texture: ExistingTexture)
        ensures
            texture == Self::spec_adopt(image, extents, format),
            texture.image.is_foreign(),
            texture.image.image == image,
    {
        ExistingTexture {
            image: RawImage::foreign(image),
            def: TextureDef {
                extents: Extents3D { width: extents.width, height: extents.height, depth: 1 },
                format,
                resource_type: ResourceType::Texture,
                sample_count: SampleCount::SampleCount1,
            },
        }
    }
}

/// A view of a texture, as the framework's other consumers refer to it.
#[derive(Clone, Copy, Debug, PartialEq, Eq)]
pub struct ImageViewResource {
    pub texture: ExistingTexture,
}

} // verus!
