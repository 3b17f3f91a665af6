use lwpv::{
    color_image_from_rgb_image_buffer, color_image_from_rgba_image_buffer, from_rgb_unmultiplied,
    from_rgba_unmultiplied, pixel_from_chunk, pixels_sequential, rgb_image_from_raw,
    rgba_image_from_raw, Rgba8,
};

fn px(r: u8, g: u8, b: u8, a: u8) -> Rgba8 {
    Rgba8 { r, g, b, a }
}

#[test]
fn rgb_chunk_is_made_opaque() {
    assert_eq!(pixel_from_chunk(&[10, 20, 30]), px(10, 20, 30, 255));
}

#[test]
fn rgba_chunk_is_kept() {
    assert_eq!(pixel_from_chunk(&[10, 20, 30, 40]), px(10, 20, 30, 40));
}

#[test]
fn rgb_raster_alpha_is_255() {
    let rgb: Vec<u8> = (0..3 * 7 * 2).map(|i| (i * 3) as u8).collect();
    let img = from_rgb_unmultiplied([7, 2], &rgb);
    assert_eq!(img.size, [7, 2]);
    assert_eq!(img.pixels.len(), 14);
    for (i, p) in img.pixels.iter().enumerate() {
        assert_eq!(*p, px(rgb[3 * i], rgb[3 * i + 1], rgb[3 * i + 2], 255));
    }
}

#[test]
fn rgba_raster_is_verbatim() {
    let rgba: Vec<u8> = vec![255, 0, 0, 0, 10, 20, 30, 1, 128, 128, 128, 128];
    let img = from_rgba_unmultiplied([3, 1], &rgba);
    assert_eq!(img.pixels, vec![px(255, 0, 0, 0), px(10, 20, 30, 1), px(128, 128, 128, 128)]);
}

#[test]
fn empty_raster_gives_no_pixels() {
    assert!(from_rgb_unmultiplied([0, 0], &[]).pixels.is_empty());
    assert!(from_rgba_unmultiplied([4, 0], &[]).pixels.is_empty());
    assert!(pixels_sequential(&[], 3).is_empty());
}

#[test]
fn parallel_matches_sequential_rgb() {
    let (w, h) = (125usize, 100usize);
    let rgb: Vec<u8> = (0..w * h * 3).map(|i| (i * 31 % 251) as u8).collect();
    let parallel = from_rgb_unmultiplied([w, h], &rgb);
    let sequential = pixels_sequential(&rgb, 3);
    assert_eq!(parallel.pixels.len(), 12_500);
    assert_eq!(parallel.pixels, sequential);
}

#[test]
fn parallel_matches_sequential_rgba() {
    let (w, h) = (101usize, 103usize);
    let rgba: Vec<u8> = (0..w * h * 4).map(|i| (i * 17 % 253) as u8).collect();
    let parallel = from_rgba_unmultiplied([w, h], &rgba);
    let sequential = pixels_sequential(&rgba, 4);
    assert_eq!(parallel.pixels.len(), 10_403);
    assert_eq!(parallel.pixels, sequential);
}

#[test]
fn sequential_drops_incomplete_tail() {
    assert_eq!(pixels_sequential(&[1, 2, 3, 4, 5], 3), vec![px(1, 2, 3, 255)]);
    assert_eq!(pixels_sequential(&[1, 2, 3, 4, 5], 4), vec![px(1, 2, 3, 4)]);
}

#[test]
fn rgb_buffer_to_color_image() {
    let image = rgb_image_from_raw(2, 1, vec![1, 2, 3, 4, 5, 6], "png").unwrap();
    let img = color_image_from_rgb_image_buffer(image).unwrap();
    assert_eq!(img.size, [2, 1]);
    assert_eq!(img.pixels, vec![px(1, 2, 3, 255), px(4, 5, 6, 255)]);
}

#[test]
fn rgba_buffer_to_color_image() {
    let image = rgba_image_from_raw(1, 2, vec![1, 2, 3, 4, 5, 6, 7, 8], "qoi").unwrap();
    let img = color_image_from_rgba_image_buffer(image).unwrap();
    assert_eq!(img.size, [1, 2]);
    assert_eq!(img.pixels, vec![px(1, 2, 3, 4), px(5, 6, 7, 8)]);
}
