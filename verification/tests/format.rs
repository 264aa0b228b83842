use skulpin_renderer::format::{map_format, ColorType, Format, FormatChoice};

const OTHER_LAYOUTS: [ColorType; 27] = [
    ColorType::Unknown,
    ColorType::Alpha8,
    ColorType::RGB565,
    ColorType::ARGB4444,
    ColorType::RGB888x,
    ColorType::RGBA1010102,
    ColorType::BGRA1010102,
    ColorType::RGB101010x,
    ColorType::BGR101010x,
    ColorType::BGR101010xXR,
    ColorType::BGRA10101010XR,
    ColorType::RGBA10x6,
    ColorType::Gray8,
    ColorType::RGBAF16Norm,
    ColorType::RGBAF16,
    ColorType::RGBF16F16F16x,
    ColorType::RGBAF32,
    ColorType::R8G8UNorm,
    ColorType::A16Float,
    ColorType::R16Float,
    ColorType::R16G16Float,
    ColorType::A16UNorm,
    ColorType::R16UNorm,
    ColorType::R16G16UNorm,
    ColorType::R16G16B16A16UNorm,
    ColorType::SRGBA8888,
    ColorType::R8UNorm,
];

#[test]
fn rgba_maps_to_rgba() {
    assert_eq!(
        map_format(ColorType::RGBA8888),
        FormatChoice { format: Format::R8G8B8A8Unorm, fallback: false }
    );
}

#[test]
fn bgra_maps_to_bgra() {
    assert_eq!(
        map_format(ColorType::BGRA8888),
        FormatChoice { format: Format::B8G8R8A8Unorm, fallback: false }
    );
}

#[test]
fn other_layouts_fall_back_to_rgba() {
    for layout in OTHER_LAYOUTS {
        assert_eq!(
            map_format(layout),
            FormatChoice { format: Format::R8G8B8A8Unorm, fallback: true }
        );
    }
}

#[test]
fn mapping_gives_the_same_answer_twice() {
    for layout in OTHER_LAYOUTS.iter().copied().chain([ColorType::RGBA8888, ColorType::BGRA8888]) {
        assert_eq!(map_format(layout), map_format(layout));
    }
}
