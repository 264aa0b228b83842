//! Pixel layouts of the 2D renderer and the texture formats of the GPU framework.

use vstd::prelude::*;

verus! {

/// The pixel layouts that the 2D renderer can name.
#[derive(Clone, Copy, Debug, PartialEq, Eq, Structural)]
pub enum ColorType {
    Unknown,
    Alpha8,
    RGB565,
    ARGB4444,
    RGBA8888,
    RGB888x,
    BGRA8888,
    RGBA1010102,
    BGRA1010102,
    RGB101010x,
    BGR101010x,
    BGR101010xXR,
    BGRA10101010XR,
    RGBA10x6,
    Gray8,
    RGBAF16Norm,
    RGBAF16,
    RGBF16F16F16x,
    RGBAF32,
    R8G8UNorm,
    A16Float,
    R16Float,
    R16G16Float,
    A16UNorm,
    R16UNorm,
    R16G16UNorm,
    R16G16B16A16UNorm,
    SRGBA8888,
    R8UNorm,
}

/// The texture formats that a bridged surface can have in the GPU framework.
#[derive(Clone, Copy, Debug, PartialEq, Eq, Structural)]
pub enum Format {
    R8G8B8A8Unorm,
    B8G8R8A8Unorm,
}

/// The format chosen for a pixel layout, and whether the layout was one of the two
/// that a platform's native 32-bit layout can be.
#[derive(Clone, Copy, Debug, PartialEq, Eq, Structural)]
pub struct FormatChoice {
    pub format: Format,
    /// The layout was neither of the two expected ones, and `format` is a guess that
    /// the caller should warn about.
    pub fallback: bool,
}

impl ColorType {
    /// The layout is one of the two 32-bit orders that a platform calls native.
    pub open spec fn is_native_order(self) -> bool {
        self == ColorType::RGBA8888 || self == ColorType::BGRA8888
    }

    /// The framework format with the channel order of this layout: blue first for
    /// `BGRA8888`, red first for `RGBA8888` and for every other layout.
    pub open spec fn framework_format(self) -> Format {
        if self == ColorType::BGRA8888 {
            Format::B8G8R8A8Unorm
        } else {
            Format::R8G8B8A8Unorm
        }
    }
}

/// Maps the 2D renderer's pixel layout to the texture format that the framework
/// has to view the same memory with.
///
/// The two native orders map to the format of the same order. Any other layout maps to
/// the red-first format and is reported as a fallback.
pub fn map_format(color_type: ColorType) -> (choice: FormatChoice)
    ensures
        choice.format == color_type.framework_format(),
        choice.fallback == !color_type.is_native_order(),
        color_type == ColorType::RGBA8888 ==> choice == (FormatChoice {
            format: Format::R8G8B8A8Unorm,
            fallback: false,
        }),
        color_type == ColorType::BGRA8888 ==> choice == (FormatChoice {
            format: Format::B8G8R8A8Unorm,
            fallback: false,
        }),
        !color_type.is_native_order() ==> choice == (FormatChoice {
            format: Format::R8G8B8A8Unorm,
            fallback: true,
        }),
{
    match color_type {
        ColorType::RGBA8888 => FormatChoice { format: Format::R8G8B8A8Unorm, fallback: false },
        ColorType::BGRA8888 => FormatChoice { format: Format::B8G8R8A8Unorm, fallback: false },
        _ => FormatChoice { format: Format::R8G8B8A8Unorm, fallback: true },
    }
}

} // verus!
