use avif_loader::dispatch::{
    finish_sniffed, is_next_gen_extension, load_image, load_sniffed, resolve_hint_attempt,
    LoadError, Loaded,
};
use image::{DynamicImage, ImageOutputFormat, RgbImage};
use std::io::Cursor;

const AVIF_HEAD: [u8; 16] = [0, 0, 0, 0x20, b'f', b't', b'y', b'p', b'a', b'v', b'i', b'f', 0, 0, 0, 0];

fn sample() -> DynamicImage {
    DynamicImage::ImageRgb8(RgbImage::from_raw(2, 1, vec![255, 0, 0, 0, 0, 255]).unwrap())
}

fn png_bytes() -> Vec<u8> {
    let mut out = Cursor::new(Vec::new());
    sample().write_to(&mut out, ImageOutputFormat::Png).unwrap();
    out.into_inner()
}

#[test]
fn extension_check_ignores_ascii_case() {
    assert!(is_next_gen_extension("avif"));
    assert!(is_next_gen_extension("AVIF"));
    assert!(is_next_gen_extension("AvIf"));
    assert!(!is_next_gen_extension("avi"));
    assert!(!is_next_gen_extension("avifs"));
    assert!(!is_next_gen_extension("png"));
    assert!(!is_next_gen_extension("ävif"));
    assert!(!is_next_gen_extension(""));
}

#[test]
fn next_gen_hint_wins_over_content() {
    let png = png_bytes();
    assert!(matches!(load_image(Some("avif"), &png), Ok(Loaded::NextGen)));
    assert!(matches!(load_image(Some("AVIF"), &png), Ok(Loaded::NextGen)));
}

#[test]
fn no_hint_sniffs_next_gen_signature() {
    assert!(matches!(load_image(None, &AVIF_HEAD), Ok(Loaded::NextGen)));
    let mut other = AVIF_HEAD;
    other[3] = 0x1c;
    assert!(matches!(load_image(None, &other), Ok(Loaded::NextGen)));
}

#[test]
fn png_hint_decodes_with_general_decoder() {
    let png = png_bytes();
    match load_image(Some("png"), &png) {
        Ok(Loaded::General(img)) => {
            assert_eq!(img, image::load_from_memory(&png).unwrap());
            assert_eq!(img.to_rgb8().into_raw(), vec![255, 0, 0, 0, 0, 255]);
        }
        _ => panic!("expected the general decoder's image"),
    }
}

#[test]
fn wrong_hint_falls_back_to_content() {
    let png = png_bytes();
    match load_image(Some("jpg"), &png) {
        Ok(Loaded::General(img)) => assert_eq!(img, image::load_from_memory(&png).unwrap()),
        _ => panic!("expected the sniffed decode"),
    }
    assert!(matches!(load_image(Some("png"), &AVIF_HEAD), Ok(Loaded::NextGen)));
}

#[test]
fn unknown_hint_sniffs() {
    let png = png_bytes();
    assert!(matches!(load_image(Some("xyz"), &png), Ok(Loaded::General(_))));
}

#[test]
fn unknown_content_is_an_error() {
    let junk = [1u8, 2, 3, 4, 5];
    assert!(matches!(load_image(None, &junk), Err(LoadError::UnknownFormat(_))));
    assert!(matches!(load_image(Some("png"), &junk), Err(LoadError::UnknownFormat(_))));
    assert!(matches!(load_sniffed(&[]), Err(LoadError::UnknownFormat(_))));
}

#[test]
fn broken_content_is_a_decode_error() {
    let broken = [0x89u8, b'P', b'N', b'G', 0x0d, 0x0a, 0x1a, 0x0a, 0, 0];
    assert!(matches!(load_image(None, &broken), Err(LoadError::Decode(_))));
}

#[test]
fn resolve_keeps_hinted_image() {
    let s = sample();
    match resolve_hint_attempt(Ok(s.clone()), &[1, 2, 3]) {
        Ok(Loaded::General(img)) => assert_eq!(img, s),
        _ => panic!("expected the hinted image"),
    }
    let failed = image::load_from_memory(&[1, 2, 3]).unwrap_err();
    assert!(matches!(resolve_hint_attempt(Err(failed), &AVIF_HEAD), Ok(Loaded::NextGen)));
}

#[test]
fn finish_maps_outcome() {
    let s = sample();
    match finish_sniffed(Ok(s.clone())) {
        Ok(Loaded::General(img)) => assert_eq!(img, s),
        _ => panic!("expected the decoded image"),
    }
    let failed = image::load_from_memory(&[1, 2, 3]).unwrap_err();
    assert!(matches!(finish_sniffed(Err(failed)), Err(LoadError::Decode(_))));
}
