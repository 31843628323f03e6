use higher_dimension_playground::capture::{
    capture_byte_len, choose_swapchain_format, choose_swapchain_format_by_sizes,
    framebuffer_to_rgba, screencapture_byte_len, CaptureLayout,
};
use vulkano::format::Format;

#[test]
fn capture_len_from_blocks() {
    assert_eq!(capture_byte_len(10, 10, [1, 1, 1], 4), 400);
    assert_eq!(capture_byte_len(10, 10, [4, 4, 1], 8), 72);
    assert_eq!(capture_byte_len(0, 10, [1, 1, 1], 4), 0);
    assert_eq!(
        capture_byte_len(u32::MAX, u32::MAX, [1, 1, 1], u64::MAX),
        u64::MAX as usize
    );
}

#[test]
fn capture_len_from_formats() {
    assert_eq!(screencapture_byte_len(4, 4, &Format::R8G8B8A8_UNORM), Some(64));
    assert_eq!(screencapture_byte_len(3, 2, &Format::R16G16B16A16_SFLOAT), Some(48));
    assert_eq!(screencapture_byte_len(8, 8, &Format::BC1_RGB_UNORM_BLOCK), Some(32));
    assert_eq!(screencapture_byte_len(9, 8, &Format::BC1_RGB_UNORM_BLOCK), Some(48));
    assert_eq!(screencapture_byte_len(9, 8, &Format::UNDEFINED), None);
}

fn preferred() -> Vec<Format> {
    vec![
        Format::B8G8R8A8_SRGB,
        Format::B8G8R8A8_UNORM,
        Format::R8G8B8A8_SRGB,
        Format::R8G8B8A8_UNORM,
    ]
}

#[test]
fn swapchain_prefers_listed_formats_in_order() {
    let avail = vec![(Format::R8G8B8A8_UNORM, 0u8), (Format::B8G8R8A8_SRGB, 1u8)];
    assert_eq!(choose_swapchain_format(&avail, &preferred()), 1);
    let avail = vec![(Format::R16G16B16A16_SFLOAT, 0u8), (Format::R8G8B8A8_SRGB, 0u8), (Format::R8G8B8A8_UNORM, 0u8)];
    assert_eq!(choose_swapchain_format(&avail, &preferred()), 1);
}

#[test]
fn swapchain_falls_back_to_four_byte_then_first() {
    let avail = vec![
        (Format::R16G16B16A16_SFLOAT, ()),
        (Format::A2B10G10R10_UNORM_PACK32, ()),
    ];
    assert_eq!(choose_swapchain_format(&avail, &preferred()), 1);
    let avail = vec![(Format::R16G16B16A16_SFLOAT, ()), (Format::R32G32B32A32_SFLOAT, ())];
    assert_eq!(choose_swapchain_format(&avail, &preferred()), 0);
    assert_eq!(choose_swapchain_format_by_sizes(&avail, &preferred(), &vec![8, 4]), 1);
}

#[test]
fn framebuffer_bgra_is_swapped() {
    let bytes = [1u8, 2, 3, 4, 5, 6, 7, 8];
    assert_eq!(
        framebuffer_to_rgba(&bytes, 2, 1, CaptureLayout::Bgra),
        Some(vec![3, 2, 1, 4, 7, 6, 5, 8])
    );
    let twice = framebuffer_to_rgba(
        &framebuffer_to_rgba(&bytes, 2, 1, CaptureLayout::Bgra).unwrap(),
        2,
        1,
        CaptureLayout::Bgra,
    );
    assert_eq!(twice, Some(bytes.to_vec()));
}

#[test]
fn framebuffer_rgba_and_errors() {
    let bytes = [9u8, 8, 7, 6, 5, 4, 3, 2, 1, 0];
    assert_eq!(
        framebuffer_to_rgba(&bytes, 2, 1, CaptureLayout::Rgba),
        Some(vec![9, 8, 7, 6, 5, 4, 3, 2])
    );
    assert_eq!(framebuffer_to_rgba(&bytes, 3, 1, CaptureLayout::Rgba), None);
    assert_eq!(framebuffer_to_rgba(&bytes, 1, 1, CaptureLayout::Unsupported), None);
    assert_eq!(framebuffer_to_rgba(&bytes, 0, 5, CaptureLayout::Bgra), Some(vec![]));
}
