use gifski::pixel::{Image, Rgba};

fn grey(v: u8) -> Rgba {
    Rgba::new(v, v, v, 255)
}

#[test]
fn image_new_wants_enough_pixels() {
    assert!(Image::new(vec![grey(1); 6], 3, 2).is_some());
    assert!(Image::new(vec![grey(1); 7], 3, 2).is_some());
    assert!(Image::new(vec![grey(1); 5], 3, 2).is_none());
}

#[test]
fn image_new_refuses_empty_dimensions() {
    assert!(Image::new(vec![grey(1); 6], 0, 2).is_none());
    assert!(Image::new(vec![grey(1); 6], 3, 0).is_none());
    assert!(Image::new(Vec::new(), 0, 0).is_none());
}

#[test]
fn image_new_stride_lets_the_last_row_end_early() {
    // two rows of 2 pixels, 4 apart: 4 + 2 entries are enough
    assert!(Image::new_stride(vec![grey(1); 6], 2, 2, 4).is_some());
    assert!(Image::new_stride(vec![grey(1); 5], 2, 2, 4).is_none());
    assert!(Image::new_stride(vec![grey(1); 8], 2, 2, 1).is_none());
}

#[test]
fn image_pixel_follows_the_stride() {
    let pixels: Vec<Rgba> = (0..8u8).map(grey).collect();
    let img = Image::new_stride(pixels, 3, 2, 4).unwrap();
    assert_eq!(img.width(), 3);
    assert_eq!(img.height(), 2);
    assert_eq!(img.stride(), 4);
    assert_eq!(img.pixel(0, 0), grey(0));
    assert_eq!(img.pixel(2, 0), grey(2));
    assert_eq!(img.pixel(0, 1), grey(4));
    assert_eq!(img.pixel(2, 1), grey(6));
}

#[test]
fn to_contiguous_leaves_the_padding_out() {
    let pixels: Vec<Rgba> = (0..8u8).map(grey).collect();
    let img = Image::new_stride(pixels, 3, 2, 4).unwrap();
    let tight = img.to_contiguous();
    assert_eq!(tight, vec![grey(0), grey(1), grey(2), grey(4), grey(5), grey(6)]);
}

#[test]
fn to_contiguous_drops_rows_past_the_height() {
    let pixels: Vec<Rgba> = (0..9u8).map(grey).collect();
    let img = Image::new(pixels, 2, 3).unwrap();
    assert_eq!(img.to_contiguous().len(), 6);
}

#[test]
fn image_is_valid_as_built() {
    let img = Image::new(vec![grey(1); 6], 3, 2).unwrap();
    assert!(img.is_valid());
    let broken = Image { width: 3, height: 3, stride: 3, pixels: vec![grey(1); 6] };
    assert!(!broken.is_valid());
}
