use avif_loader::normalize::{normalize, NativePixelImage, Rgb16, Rgb8, Rgba16, Rgba8};

#[test]
fn rgb8_is_copied() {
    let img = NativePixelImage::Rgb8 {
        width: 2,
        height: 1,
        pixels: vec![Rgb8 { r: 1, g: 2, b: 3 }, Rgb8 { r: 250, g: 0, b: 128 }],
    };
    let out = normalize(&img);
    assert_eq!(out.width, 2);
    assert_eq!(out.height, 1);
    assert_eq!(out.data, vec![1, 2, 3, 250, 0, 128]);
}

#[test]
fn rgb16_keeps_high_byte() {
    let img = NativePixelImage::Rgb16 {
        width: 1,
        height: 2,
        pixels: vec![
            Rgb16 { r: 0x1234, g: 0x00ff, b: 0xff00 },
            Rgb16 { r: 65535, g: 0x0100, b: 0x80ff },
        ],
    };
    let out = normalize(&img);
    assert_eq!(out.width, 1);
    assert_eq!(out.height, 2);
    assert_eq!(out.data, vec![0x12, 0x00, 0xff, 0xff, 0x01, 0x80]);
}

#[test]
fn rgba8_alpha_rules() {
    let img = NativePixelImage::Rgba8 {
        width: 4,
        height: 1,
        pixels: vec![
            Rgba8 { r: 10, g: 20, b: 30, a: 0 },
            Rgba8 { r: 10, g: 20, b: 30, a: 255 },
            Rgba8 { r: 0, g: 0, b: 0, a: 128 },
            Rgba8 { r: 200, g: 255, b: 0, a: 128 },
        ],
    };
    let out = normalize(&img);
    // 200 at alpha 128: (200*128 + 255*127) / 255 = 227; 255 stays 255; 0 gives 127.
    assert_eq!(out.data, vec![255, 255, 255, 10, 20, 30, 127, 127, 127, 227, 255, 127]);
}

#[test]
fn rgba16_alpha_rules() {
    let img = NativePixelImage::Rgba16 {
        width: 3,
        height: 1,
        pixels: vec![
            Rgba16 { r: 1000, g: 2000, b: 3000, a: 0 },
            Rgba16 { r: 0x1234, g: 0xabcd, b: 0x00ff, a: 65535 },
            Rgba16 { r: 0, g: 0, b: 0, a: 65534 },
        ],
    };
    let out = normalize(&img);
    // Black at alpha 65534: 65535 * 1 / 65535 = 1, whose high byte is 0.
    assert_eq!(out.data, vec![255, 255, 255, 0x12, 0xab, 0x00, 0, 0, 0]);
}

#[test]
fn rgba16_two_pixel_scenario() {
    let img = NativePixelImage::Rgba16 {
        width: 2,
        height: 1,
        pixels: vec![
            Rgba16 { r: 65535, g: 0, b: 0, a: 32767 },
            Rgba16 { r: 0, g: 0, b: 65535, a: 0 },
        ],
    };
    let out = normalize(&img);
    assert_eq!(out.width, 2);
    assert_eq!(out.height, 1);
    assert_eq!(out.data, vec![255, 128, 128, 255, 255, 255]);
}

#[test]
fn normalize_twice_is_identical() {
    let img = NativePixelImage::Rgba8 {
        width: 2,
        height: 1,
        pixels: vec![Rgba8 { r: 9, g: 99, b: 199, a: 77 }, Rgba8 { r: 1, g: 2, b: 3, a: 4 }],
    };
    let a = normalize(&img);
    let b = normalize(&img);
    assert_eq!(a.data, b.data);
    assert_eq!((a.width, a.height), (b.width, b.height));
}

#[test]
fn empty_image() {
    let img = NativePixelImage::Rgb8 { width: 0, height: 0, pixels: vec![] };
    let out = normalize(&img);
    assert_eq!((out.width, out.height), (0, 0));
    assert!(out.data.is_empty());
}

#[test]
fn dimensions_and_grayscale_queries() {
    let img = NativePixelImage::Gray8 { width: 3, height: 2, pixels: vec![0; 6] };
    assert!(img.is_grayscale());
    assert_eq!(img.width(), 3);
    assert_eq!(img.height(), 2);
    assert_eq!(img.pixel_len(), 6);
    let rgb = NativePixelImage::Rgb16 { width: 1, height: 1, pixels: vec![Rgb16 { r: 0, g: 0, b: 0 }] };
    assert!(!rgb.is_grayscale());
}
