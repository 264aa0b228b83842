//! The bridged surface: a canvas of the 2D renderer whose image the GPU framework
//! views without owning it.

use vstd::prelude::*;
use crate::device::{DeviceContext, DeviceHandles};
use crate::format::{map_format, ColorType};
use crate::image::{ExistingTexture, Extents2D, ImageViewResource};

verus! {

/// How the alpha channel of a pixel relates to its colors.
#[derive(Clone, Copy, Debug, PartialEq, Eq, Structural)]
pub enum AlphaType {
    Unknown,
    Opaque,
    Premul,
    Unpremul,
}

/// The color space of a surface.
#[derive(Clone, Copy, Debug, PartialEq, Eq, Structural)]
pub enum ColorSpace {
    Srgb,
    SrgbLinear,
}

/// The corner of a surface where its first row of pixels lies.
#[derive(Clone, Copy, Debug, PartialEq, Eq, Structural)]
pub enum SurfaceOrigin {
    TopLeft,
    BottomLeft,
}

/// What the 2D renderer does to pending drawing before it hands out the texture
/// behind a surface.
#[derive(Clone, Copy, Debug, PartialEq, Eq, Structural)]
pub enum BackendHandleAccess {
    FlushRead,
    FlushWrite,
    DiscardWrite,
}

/// The size and pixel layout of a surface of the 2D renderer.
#[derive(Clone, Copy, Debug, PartialEq, Eq, Structural)]
pub struct ImageInfo {
    pub width: i32,
    pub height: i32,
    pub color_type: ColorType,
    pub alpha_type: AlphaType,
    pub color_space: ColorSpace,
}

/// What the 2D renderer is asked for: a surface on the GPU, and the texture behind it.
#[derive(Clone, Copy, Debug, PartialEq, Eq, Structural)]
pub struct SurfaceRequest {
    /// The surface counts against the renderer's cache budget.
    pub budgeted: bool,
    pub image_info: ImageInfo,
    pub origin: SurfaceOrigin,
    /// How the texture behind the surface is fetched once the surface exists.
    pub texture_access: BackendHandleAccess,
}

/// The texture behind a surface of the 2D renderer. Only one that lives on Vulkan
/// has an image handle.
#[derive(Clone, Copy, Debug, PartialEq, Eq)]
pub struct BackendTexture {
    pub vulkan_image: Option<u64>,
}

/// How the 2D renderer answered a `SurfaceRequest`.
#[derive(Clone, Copy, Debug, PartialEq, Eq)]
pub enum SurfaceAllocation {
    /// No surface was allocated.
    Failed,
    /// A surface was allocated, but it has no texture to hand out.
    NoBackendTexture,
    /// A surface was allocated: this is the pixel layout that it has, and the texture
    /// behind it.
    Ready { color_type: ColorType, texture: BackendTexture },
}

/// How the framework answered when it was given the image of a surface.
#[derive(Clone, Copy, Debug, PartialEq, Eq, Structural)]
pub enum Adoption {
    /// The texture was made and registered, and a view of it exists.
    Adopted,
    /// The framework refused to make a texture over the image.
    TextureRejected,
    /// The texture was registered, but no view of it could be had.
    ViewRejected,
}

/// Why no bridged surface was built.
#[derive(Clone, Copy, Debug, PartialEq, Eq, Structural)]
pub enum SurfaceError {
    /// A dimension is zero, or too large to be a positive signed 32-bit number.
    InvalidExtents,
    /// The 2D renderer allocated no surface.
    AllocationFailed,
    /// The surface has no texture behind it.
    NoBackendTexture,
    /// The texture behind the surface is not a Vulkan image.
    NotVulkan,
    /// The framework's device does not run on Vulkan, and cannot take in a Vulkan
    /// image.
    BackendMismatch,
    /// The framework made no texture over the image.
    TextureRejected,
    /// The framework made no view of the texture.
    ViewRejected,
}

impl ImageInfo {
    /// The size and layout of a bridged surface: the given size and pixel layout, with
    /// premultiplied alpha in linear sRGB.
    pub open spec fn bridged(extents: Extents2D, color_type: ColorType) -> ImageInfo {
        ImageInfo {
            width: extents.width as i32,
            height: extents.height as i32,
            color_type,
            alpha_type: AlphaType::Premul,
            color_space: ColorSpace::SrgbLinear,
        }
    }
}

impl SurfaceRequest {
    /// The request for a surface of the given size in the platform's native layout:
    /// premultiplied alpha, linear sRGB, budgeted, first row at the top, and the
    /// texture fetched after pending drawing was flushed.
    pub open spec fn spec_new(extents: Extents2D, color_type: ColorType) -> SurfaceRequest {
        SurfaceRequest {
            budgeted: true,
            image_info: ImageInfo::bridged(extents, color_type),
            origin: SurfaceOrigin::TopLeft,
            texture_access: BackendHandleAccess::FlushRead,
        }
    }

    /// Describes the surface to allocate for a bridged surface of the given size.
    ///
    /// `color_type` is the layout that the 2D renderer calls native on this platform.
    /// Sizes that no surface can have are refused, and nothing is asked for.
    pub fn new(extents: Extents2D, color_type: ColorType) -> (request: Result<
        SurfaceRequest,
        SurfaceError,
    >)
        ensures
            extents.is_drawable() ==> request == Ok::<SurfaceRequest, SurfaceError>(
                Self::spec_new(extents, color_type),
            ),
            !extents.is_drawable() ==> request == Err::<SurfaceRequest, SurfaceError>(
                SurfaceError::InvalidExtents,
            ),
            request matches Ok(r) ==> r.image_info.width == extents.width
                && r.image_info.height == extents.height,
    {
        if extents.width == 0 || extents.height == 0 || extents.width > 0x7fff_ffff
            || extents.height > 0x7fff_ffff {
            return Err(SurfaceError::InvalidExtents);
        }
        Ok(
            SurfaceRequest {
                budgeted: true,
                image_info: ImageInfo {
                    width: extents.width as i32,
                    height: extents.height as i32,
                    color_type,
                    alpha_type: AlphaType::Premul,
                    color_space: ColorSpace::SrgbLinear,
                },
                origin: SurfaceOrigin::TopLeft,
                texture_access: BackendHandleAccess::FlushRead,
            },
        )
    }
}

/// A surface that the 2D renderer has allocated and the framework has not yet taken in.
#[derive(Clone, Copy, Debug, PartialEq, Eq)]
pub struct PendingSurface {
    pub extents: Extents2D,
    /// The size and layout of the surface as it was allocated.
    pub surface: ImageInfo,
    /// The layout of the surface is neither of the two native orders, and the format
    /// of `adoption` is a guess that the caller should warn about.
    pub fallback: bool,
    pub texture: BackendTexture,
    /// The texture that the framework is to make over the surface's image.
    pub adoption: ExistingTexture,
}

impl PendingSurface {
    /// The surface is one that `new` hands out: of a size that a surface can have, and
    /// to be adopted under the very image that lies behind it, as a foreign image in
    /// the format of the surface's layout.
    pub open spec fn wf(self) -> bool {
        &&& self.extents.is_drawable()
        &&& self.surface == ImageInfo::bridged(self.extents, self.surface.color_type)
        &&& self.fallback == !self.surface.color_type.is_native_order()
        &&& self.texture.vulkan_image.is_some()
        &&& self.adoption == ExistingTexture::spec_adopt(
            self.texture.vulkan_image.unwrap(),
            self.extents,
            self.surface.color_type.framework_format(),
        )
    }

    /// What `new` returns, as a function of its arguments.
    pub open spec fn spec_new(
        device_context: DeviceContext,
        extents: Extents2D,
        allocation: SurfaceAllocation,
    ) -> Result<PendingSurface, SurfaceError> {
        if !extents.is_drawable() {
            Err(SurfaceError::InvalidExtents)
        } else {
            match allocation {
                SurfaceAllocation::Failed => Err(SurfaceError::AllocationFailed),
                SurfaceAllocation::NoBackendTexture => Err(SurfaceError::NoBackendTexture),
                SurfaceAllocation::Ready { color_type, texture } => match texture.vulkan_image {
                    None => Err(SurfaceError::NotVulkan),
                    Some(image) => if device_context.vulkan.is_none() {
                        Err(SurfaceError::BackendMismatch)
                    } else {
                        Ok(
                            PendingSurface {
                                extents,
                                surface: ImageInfo::bridged(extents, color_type),
                                fallback: !color_type.is_native_order(),
                                texture,
                                adoption: ExistingTexture::spec_adopt(
                                    image,
                                    extents,
                                    color_type.framework_format(),
                                ),
                            },
                        )
                    },
                },
            }
        }
    }

    /// Takes the 2D renderer's answer to the request for a surface, and describes the
    /// texture that the framework's device is to make over the surface's image.
    ///
    /// The image handed to the framework is the one behind the surface, marked as
    /// foreign; the texture is flat, of the surface's size, in the framework format of
    /// the layout that the surface has. A layout that is neither native order is
    /// taken as red first, and reported in `fallback`. A device that does not run on
    /// Vulkan cannot take the image in.
    pub fn new(device_context: &DeviceContext, extents: Extents2D, allocation: SurfaceAllocation) -> (pending:
        Result<PendingSurface, SurfaceError>)
        ensures
            pending == Self::spec_new(*device_context, extents, allocation),
            !extents.is_drawable() ==> pending == Err::<PendingSurface, SurfaceError>(
                SurfaceError::InvalidExtents,
            ),
            pending.is_ok() <==> {
                &&& extents.is_drawable()
                &&& allocation matches SurfaceAllocation::Ready { color_type, texture }
                &&& texture.vulkan_image.is_some()
                &&& device_context.vulkan.is_some()
            },
            pending matches Ok(p) ==> {
                &&& p.wf()
                &&& p.texture.vulkan_image == Some(p.adoption.image.image)
                &&& p.adoption.image.is_foreign()
                &&& p.adoption.def.extents == extents.flat()
                &&& p.fallback == !p.surface.color_type.is_native_order()
            },
    {
        if extents.width == 0 || extents.height == 0 || extents.width > 0x7fff_ffff
            || extents.height > 0x7fff_ffff {
            return Err(SurfaceError::InvalidExtents);
        }
        let (color_type, texture) = match allocation {
            SurfaceAllocation::Failed => {
                return Err(SurfaceError::AllocationFailed);
            },
            SurfaceAllocation::NoBackendTexture => {
                return Err(SurfaceError::NoBackendTexture);
            },
            SurfaceAllocation::Ready { color_type, texture } => (color_type, texture),
        };
        if texture.vulkan_image.is_none() {
            return Err(SurfaceError::NotVulkan);
        }
        let image = VkSkiaSurface::get_image_from_skia_texture(&texture);
        let choice = map_format(color_type);
        if device_context.vulkan.is_none() {
            return Err(SurfaceError::BackendMismatch);
        }
        let adoption = ExistingTexture::adopt(image, extents, choice.format);
        let surface = ImageInfo {
            width: extents.width as i32,
            height: extents.height as i32,
            color_type,
            alpha_type: AlphaType::Premul,
            color_space: ColorSpace::SrgbLinear,
        };
        Ok(PendingSurface { extents, surface, fallback: choice.fallback, texture, adoption })
    }
}

/// A surface of the 2D renderer that the framework can view: the canvas to draw on,
/// and the view that the framework's passes read.
#[derive(Clone, Copy, Debug, PartialEq, Eq)]
pub struct VkSkiaSurface {
    /// The device that the view was registered with.
    pub device_context: DeviceHandles,
    pub image_view: ImageViewResource,
    /// The size and layout of the canvas.
    pub surface: ImageInfo,
    pub texture: BackendTexture,
}

impl VkSkiaSurface {
    /// The two sides of the bridge speak of one image: the image that the view's
    /// texture wraps is the one behind the surface, the framework holds it as a
    /// foreign image, and it views it flat, in the size and the channel order that the
    /// surface has.
    pub open spec fn wf(self) -> bool {
        &&& self.texture.vulkan_image == Some(self.image_view.texture.image.image)
        &&& self.image_view.texture.image.is_foreign()
        &&& self.image_view.texture.def.extents.width == self.surface.width
        &&& self.image_view.texture.def.extents.height == self.surface.height
        &&& self.image_view.texture.def.extents.depth == 1
        &&& self.image_view.texture.def.format == self.surface.color_type.framework_format()
    }

    /// The Vulkan image behind a texture of the 2D renderer.
    pub fn get_image_from_skia_texture(texture: &BackendTexture) -> (image: u64)
        requires
            texture.vulkan_image.is_some(),
        ensures
            texture.vulkan_image == Some(image),
    {
        texture.vulkan_image.unwrap()
    }

    /// What `new` returns, as a function of its arguments.
    pub open spec fn spec_new(
        device_context: DeviceContext,
        extents: Extents2D,
        allocation: SurfaceAllocation,
        adoption: Adoption,
    ) -> Result<VkSkiaSurface, SurfaceError> {
        match PendingSurface::spec_new(device_context, extents, allocation) {
            Err(e) => Err(e),
            Ok(pending) => match adoption {
                Adoption::TextureRejected => Err(SurfaceError::TextureRejected),
                Adoption::ViewRejected => Err(SurfaceError::ViewRejected),
                Adoption::Adopted => Ok(
                    VkSkiaSurface {
                        device_context: device_context.vulkan.unwrap(),
                        image_view: ImageViewResource { texture: pending.adoption },
                        surface: pending.surface,
                        texture: pending.texture,
                    },
                ),
            },
        }
    }

    /// Builds the bridged surface of the given size from what the 2D renderer and the
    /// framework answered.
    ///
    /// `allocation` is the renderer's answer to `SurfaceRequest::new`, and `adoption`
    /// the framework's answer to the texture that `PendingSurface::new` describes; it
    /// is not looked at where no surface is pending. A surface comes back exactly when
    /// the size is one that a surface can have, the renderer allocated a surface with
    /// a Vulkan image behind it, the framework's device runs on Vulkan, and the
    /// framework adopted that image. The view of the surface then wraps the very image
    /// that lies behind it, as a foreign image.
    pub fn new(
        device_context: &DeviceContext,
        extents: Extents2D,
        allocation: SurfaceAllocation,
        adoption: Adoption,
    ) -> (built: Result<VkSkiaSurface, SurfaceError>)
        ensures
            built == Self::spec_new(*device_context, extents, allocation, adoption),
            !extents.is_drawable() ==> built == Err::<VkSkiaSurface, SurfaceError>(
                SurfaceError::InvalidExtents,
            ),
            built.is_ok() <==> {
                &&& extents.is_drawable()
                &&& allocation matches SurfaceAllocation::Ready { color_type, texture }
                &&& texture.vulkan_image.is_some()
                &&& device_context.vulkan.is_some()
                &&& adoption == Adoption::Adopted
            },
            built matches Ok(s) ==> {
                &&& s.wf()
                &&& s.texture.vulkan_image == Some(s.image_view.texture.image.image)
                &&& s.image_view.texture.image.is_foreign()
                &&& s.image_view.texture.def.extents == extents.flat()
                &&& s.image_view.texture.def.format == s.surface.color_type.framework_format()
                &&& Some(s.device_context) == device_context.vulkan
            },
    {
        let pending = match PendingSurface::new(device_context, extents, allocation) {
            Ok(pending) => pending,
            Err(e) => {
                return Err(e);
            },
        };
        match adoption {
            Adoption::TextureRejected => Err(SurfaceError::TextureRejected),
            Adoption::ViewRejected => Err(SurfaceError::ViewRejected),
            Adoption::Adopted => Ok(
                VkSkiaSurface {
                    device_context: device_context.vulkan.unwrap(),
                    image_view: ImageViewResource { texture: pending.adoption },
                    surface: pending.surface,
                    texture: pending.texture,
                },
            ),
        }
    }

    /// The stages of the build agree: the surface that `new` hands out has the size
    /// and layout that `SurfaceRequest::new` asks for where the renderer allocated the
    /// layout it was asked for, and its view wraps the texture that
    /// `PendingSurface::new` gave the framework to adopt.
    pub proof fn lemma_stages_agree(
        device_context: DeviceContext,
        extents: Extents2D,
        allocation: SurfaceAllocation,
        adoption: Adoption,
    )
        ensures
            Self::spec_new(device_context, extents, allocation, adoption) matches Ok(built) ==> {
                &&& extents.is_drawable()
                &&& allocation == (SurfaceAllocation::Ready {
                    color_type: built.surface.color_type,
                    texture: built.texture,
                })
                &&& SurfaceRequest::spec_new(extents, built.surface.color_type).image_info
                    == built.surface
                &&& PendingSurface::spec_new(device_context, extents, allocation) matches Ok(
                    pending,
                )
                &&& built.image_view.texture == pending.adoption
                &&& built.wf()
            },
    {
    }

    /// Releases the framework's side of the surface, and returns the allocation that
    /// the framework has to free with it. For a surface whose two sides speak of one
    /// foreign image there is none: the memory of the image belongs to the 2D
    /// renderer.
    pub fn release(self) -> (freed: Option<u64>)
        ensures
            freed == self.image_view.texture.image.allocation,
            self.wf() ==> freed.is_none(),
    {
        let mut image = self.image_view.texture.image;
        image.destroy()
    }
}

} // verus!
