use clashtui_tray::icon::{icon_color, load_picture, solid_square, BLOCK_LIMIT, ICON_SIDE};
use clashtui_tray::mode::{
    clicked_mode, detect_mode, mode_checks, mode_name, mode_tooltip, IconMode,
};
use std::io::Cursor;

fn png_of(width: u32, height: u32, color: [u8; 4]) -> Vec<u8> {
    let picture = image::RgbaImage::from_pixel(width, height, image::Rgba(color));
    let mut out = Cursor::new(Vec::new());
    picture.write_to(&mut out, image::ImageFormat::Png).unwrap();
    out.into_inner()
}

fn deep_png_of(width: u32, height: u32) -> Vec<u8> {
    let picture: image::ImageBuffer<image::Rgba<u16>, Vec<u16>> =
        image::ImageBuffer::from_pixel(width, height, image::Rgba([0xffff, 0, 0, 0xffff]));
    let mut out = Cursor::new(Vec::new());
    image::DynamicImage::ImageRgba16(picture).write_to(&mut out, image::ImageFormat::Png).unwrap();
    out.into_inner()
}

#[test]
fn tun_counts_before_the_proxy() {
    assert_eq!(detect_mode(true, true), IconMode::Tun);
    assert_eq!(detect_mode(true, false), IconMode::Tun);
    assert_eq!(detect_mode(false, true), IconMode::SystemProxy);
    assert_eq!(detect_mode(false, false), IconMode::Normal);
}

#[test]
fn a_lit_entry_goes_back_to_normal() {
    assert_eq!(clicked_mode(IconMode::Normal, IconMode::Tun), IconMode::Tun);
    assert_eq!(clicked_mode(IconMode::SystemProxy, IconMode::Tun), IconMode::Tun);
    assert_eq!(clicked_mode(IconMode::Tun, IconMode::Tun), IconMode::Normal);
    assert_eq!(clicked_mode(IconMode::SystemProxy, IconMode::SystemProxy), IconMode::Normal);
    assert_eq!(clicked_mode(IconMode::Normal, IconMode::Normal), IconMode::Normal);
}

#[test]
fn one_mode_is_checked() {
    for mode in [IconMode::Normal, IconMode::Tun, IconMode::SystemProxy] {
        let checks = mode_checks(mode);
        assert_eq!(checks.tun as u8 + checks.sysproxy as u8 + checks.normal as u8, 1);
        assert_eq!(checks.tun, mode == IconMode::Tun);
        assert_eq!(checks.sysproxy, mode == IconMode::SystemProxy);
        assert_eq!(checks.normal, mode == IconMode::Normal);
    }
}

#[test]
fn tooltips_of_the_modes() {
    assert_eq!(mode_name(IconMode::Tun), "TUN");
    assert_eq!(mode_tooltip(IconMode::Normal), "Clashtui 托盘 - 点击启动 (常规)");
    assert_eq!(mode_tooltip(IconMode::Tun), "Clashtui 托盘 - 点击启动 (TUN)");
    assert_eq!(mode_tooltip(IconMode::SystemProxy), "Clashtui 托盘 - 点击启动 (系统代理)");
}

#[test]
fn squares_are_filled_with_the_colour() {
    let expected: [(IconMode, [u8; 4]); 3] = [
        (IconMode::Tun, [255, 220, 0, 255]),
        (IconMode::SystemProxy, [30, 144, 255, 255]),
        (IconMode::Normal, [240, 240, 240, 255]),
    ];
    for (mode, color) in expected {
        let square = solid_square(mode);
        assert_eq!(icon_color(mode), color);
        assert_eq!((square.width, square.height), (32, 32));
        assert_eq!(square.rgba.len(), 4096);
        for pixel in square.rgba.chunks(4) {
            assert_eq!(pixel, color);
        }
    }
}

#[test]
fn pictures_are_scaled_into_the_square() {
    let wide = load_picture(Some(png_of(512, 256, [10, 20, 30, 40]).as_slice())).unwrap();
    assert_eq!((wide.width, wide.height), (256, 128));
    assert_eq!(wide.rgba.len(), 256 * 128 * 4);
    assert_eq!(&wide.rgba[0..4], &[10, 20, 30, 40]);
    let tall = load_picture(Some(png_of(3, 300, [1, 2, 3, 4]).as_slice())).unwrap();
    assert_eq!((tall.width, tall.height), (3, 256));
    let small = load_picture(Some(png_of(16, 16, [9, 9, 9, 9]).as_slice())).unwrap();
    assert_eq!((small.width, small.height), (256, 256));
    assert_eq!(&small.rgba[0..4], &[9, 9, 9, 9]);
    assert_eq!(ICON_SIDE, 256);
}

#[test]
fn deep_pictures_are_read_too() {
    let picture = load_picture(Some(deep_png_of(100, 100).as_slice())).unwrap();
    assert_eq!((picture.width, picture.height), (256, 256));
    assert_eq!(&picture.rgba[0..4], &[255, 0, 0, 255]);
}

#[test]
fn what_is_no_picture_gives_none() {
    assert!(load_picture(None).is_none());
    assert!(load_picture(Some(&[])).is_none());
    assert!(load_picture(Some(b"not a picture at all, but long enough for a header")).is_none());
    let mut cut = png_of(8, 8, [1, 1, 1, 1]);
    cut.truncate(40);
    assert!(load_picture(Some(cut.as_slice())).is_none());
}

fn deep_grey_of(width: u32, height: u32) -> Vec<u8> {
    let picture: image::ImageBuffer<image::Luma<u16>, Vec<u16>> =
        image::ImageBuffer::from_pixel(width, height, image::Luma([0xffff]));
    let mut out = Cursor::new(Vec::new());
    image::DynamicImage::ImageLuma16(picture).write_to(&mut out, image::ImageFormat::Png).unwrap();
    out.into_inner()
}

#[test]
fn long_deep_pictures_are_read_too() {
    let wide = load_picture(Some(deep_png_of(20000, 10).as_slice())).unwrap();
    assert_eq!((wide.width, wide.height), (256, 1));
    assert_eq!(&wide.rgba[0..4], &[255, 0, 0, 255]);
    let tall = load_picture(Some(deep_png_of(10, 20000).as_slice())).unwrap();
    assert_eq!((tall.width, tall.height), (1, 256));
}

#[test]
fn the_sum_of_a_block_fits_up_to_the_limit() {
    assert_eq!(BLOCK_LIMIT, 65536);
    let longest: u32 = 65536 * 256;
    let white = load_picture(Some(deep_grey_of(longest, 1).as_slice())).unwrap();
    assert_eq!((white.width, white.height), (256, 1));
    for pixel in white.rgba.chunks(4) {
        assert_eq!(pixel, [255, 255, 255, 255]);
    }
    assert!(load_picture(Some(deep_grey_of(longest + 1, 1).as_slice())).is_none());
}

#[test]
fn pictures_keep_their_ratio() {
    let expected: [(u32, u32, u32, u32); 6] = [
        (300, 100, 256, 85),
        (100, 300, 85, 256),
        (64, 63, 256, 252),
        (7, 3, 256, 110),
        (512, 3, 256, 2),
        (1000, 1, 256, 1),
    ];
    for (width, height, small_width, small_height) in expected {
        let small = load_picture(Some(png_of(width, height, [1, 2, 3, 4]).as_slice())).unwrap();
        assert_eq!((small.width, small.height), (small_width, small_height));
    }
}
