use gifski::error::EncodeError;
use gifski::pixel::{Image, Rgba};
use gifski::scaling::resized;

const RED: Rgba = Rgba { r: 255, g: 0, b: 0, a: 255 };

fn solid(width: usize, height: usize) -> Image {
    Image::new(vec![RED; width * height], width, height).unwrap()
}

#[test]
fn resized_without_a_width_hands_the_frame_back() {
    let out = resized(solid(7, 5), None, Some(2)).unwrap();
    assert_eq!((out.width(), out.height()), (7, 5));
    assert_eq!(out.pixels, vec![RED; 35]);
}

#[test]
fn resized_caps_both_dimensions() {
    let out = resized(solid(8, 6), Some(4), Some(5)).unwrap();
    assert_eq!((out.width(), out.height(), out.stride()), (4, 5, 4));
    assert_eq!(out.pixels.len(), 20);
}

#[test]
fn resized_never_enlarges() {
    let out = resized(solid(8, 6), Some(100), Some(100)).unwrap();
    assert_eq!((out.width(), out.height()), (8, 6));
    let out = resized(solid(8, 6), Some(100), Some(3)).unwrap();
    assert_eq!((out.width(), out.height()), (8, 3));
}

#[test]
fn resized_scales_the_height_with_the_width() {
    // 9 · 4 / 10 = 3, rounded down from 3.6
    let out = resized(solid(10, 9), Some(4), None).unwrap();
    assert_eq!((out.width(), out.height()), (4, 3));
    let out = resized(solid(10, 9), Some(10), None).unwrap();
    assert_eq!((out.width(), out.height()), (10, 9));
    let out = resized(solid(10, 9), Some(50), None).unwrap();
    assert_eq!((out.width(), out.height()), (10, 9));
}

#[test]
fn resized_to_nothing_is_an_error() {
    // 1 · 3 / 10 = 0 rows
    assert_eq!(resized(solid(10, 1), Some(3), None).err(), Some(EncodeError::Resize));
    assert_eq!(resized(solid(10, 10), Some(0), Some(5)).err(), Some(EncodeError::Resize));
    assert_eq!(resized(solid(10, 10), Some(5), Some(0)).err(), Some(EncodeError::Resize));
}

#[test]
fn resized_pixels_come_from_the_source() {
    let out = resized(solid(8, 8), Some(4), None).unwrap();
    assert_eq!((out.width(), out.height()), (4, 4));
    assert_eq!(out.pixels, vec![RED; 16]);
}

#[test]
fn resized_reads_strided_frames_without_their_padding() {
    let pad = Rgba { r: 0, g: 255, b: 0, a: 255 };
    let mut pixels = Vec::new();
    for _ in 0..4 {
        pixels.extend_from_slice(&[RED, RED, RED, RED, pad, pad]);
    }
    let image = Image::new_stride(pixels, 4, 4, 6).unwrap();
    let out = resized(image, Some(2), Some(2)).unwrap();
    assert_eq!(out.pixels, vec![RED; 4]);
}

#[test]
fn resized_multiplies_before_it_divides() {
    // 5 · 2 / 3 = 3, where 5 / 3 · 2 would be 2
    let out = resized(solid(3, 5), Some(2), None).unwrap();
    assert_eq!((out.width(), out.height(), out.stride()), (2, 3, 2));
    assert_eq!(out.pixels.len(), 6);
}

#[test]
fn resized_gives_the_same_for_the_same_pixels_whatever_the_stride() {
    let colour = |i: usize| Rgba { r: (i * 37 % 256) as u8, g: (i * 91 % 256) as u8, b: (i * 7 % 256) as u8, a: 255 };
    let tight: Vec<Rgba> = (0..48).map(colour).collect();
    let pad = Rgba { r: 0, g: 255, b: 0, a: 9 };
    let mut wide = Vec::new();
    for row in tight.chunks(8) {
        wide.extend_from_slice(row);
        wide.extend_from_slice(&[pad; 5]);
    }
    let a = resized(Image::new(tight, 8, 6).unwrap(), Some(5), Some(4)).unwrap();
    let b = resized(Image::new_stride(wide, 8, 6, 13).unwrap(), Some(5), Some(4)).unwrap();
    assert_eq!((a.width(), a.height()), (5, 4));
    assert_eq!(a.pixels, b.pixels);
    assert!(a.pixels.iter().any(|p| *p != a.pixels[0]));
}

#[test]
fn resized_succeeds_on_every_target_with_a_pixel() {
    for w in 1..6u32 {
        for h in 1..6u32 {
            let out = resized(solid(5, 5), Some(w), Some(h)).unwrap();
            assert_eq!((out.width(), out.height()), (w as usize, h as usize));
            assert!(out.is_valid());
        }
    }
}
