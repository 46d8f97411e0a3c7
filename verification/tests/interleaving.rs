use image_combiner::interleave::{alternate_pixels, combine_images, set_rgba};
use image_combiner::raster::Image;

fn solid(width: u32, height: u32, pixel: [u8; 4]) -> Vec<u8> {
    let mut bytes = Vec::new();
    for _ in 0..(width as usize * height as usize) {
        bytes.extend_from_slice(&pixel);
    }
    bytes
}

#[test]
fn set_rgba_copies_the_inclusive_range() {
    let bytes: Vec<u8> = vec![10, 11, 12, 13, 14, 15, 16, 17];
    assert_eq!(set_rgba(&bytes, 0, 3), vec![10, 11, 12, 13]);
    assert_eq!(set_rgba(&bytes, 4, 7), vec![14, 15, 16, 17]);
    assert_eq!(set_rgba(&bytes, 2, 2), vec![12]);
    assert_eq!(set_rgba(&bytes, 0, 7), bytes);
}

#[test]
fn set_rgba_of_an_empty_range_is_empty() {
    let bytes: Vec<u8> = vec![1, 2, 3, 4];
    assert_eq!(set_rgba(&bytes, 3, 2), Vec::<u8>::new());
    assert_eq!(set_rgba(&bytes, 9, 1), Vec::<u8>::new());
}

#[test]
fn alternate_pixels_takes_even_pixels_from_the_first() {
    let first: Vec<u8> = (0u8..16).collect();
    let second: Vec<u8> = (100u8..116).collect();
    let merged = alternate_pixels(first, second);
    assert_eq!(
        merged,
        vec![0, 1, 2, 3, 104, 105, 106, 107, 8, 9, 10, 11, 112, 113, 114, 115]
    );
}

#[test]
fn alternate_pixels_block_at_each_offset() {
    let first: Vec<u8> = (0u8..64).collect();
    let second: Vec<u8> = (128u8..192).collect();
    let merged = alternate_pixels(first.clone(), second.clone());
    assert_eq!(merged.len(), 64);
    let mut offset = 0;
    while offset < 64 {
        let expected = if offset % 8 == 0 { &first } else { &second };
        assert_eq!(&merged[offset..offset + 4], &expected[offset..offset + 4]);
        offset += 4;
    }
}

#[test]
fn alternate_pixels_of_a_single_pixel_is_the_first() {
    assert_eq!(alternate_pixels(vec![1, 2, 3, 4], vec![5, 6, 7, 8]), vec![1, 2, 3, 4]);
}

#[test]
fn alternate_pixels_of_an_odd_pixel_count() {
    let first: Vec<u8> = vec![1; 12];
    let second: Vec<u8> = vec![2; 12];
    assert_eq!(
        alternate_pixels(first, second),
        vec![1, 1, 1, 1, 2, 2, 2, 2, 1, 1, 1, 1]
    );
}

#[test]
fn alternate_pixels_of_nothing_is_nothing() {
    assert_eq!(alternate_pixels(Vec::new(), Vec::new()), Vec::<u8>::new());
}

#[test]
fn alternate_pixels_gives_the_same_bytes_every_time() {
    let first: Vec<u8> = (0u8..32).collect();
    let second: Vec<u8> = (200u8..232).collect();
    let once = alternate_pixels(first.clone(), second.clone());
    let again = alternate_pixels(first, second);
    assert_eq!(once, again);
}

#[test]
fn alternate_pixels_of_a_stream_with_itself_is_the_stream() {
    let stream: Vec<u8> = (0u8..24).collect();
    assert_eq!(alternate_pixels(stream.clone(), stream.clone()), stream);
}

#[test]
fn red_and_blue_alternate_pixel_by_pixel() {
    let red = solid(4, 4, [255, 0, 0, 255]);
    let blue = solid(4, 4, [0, 0, 255, 255]);
    let merged = alternate_pixels(red, blue);
    assert_eq!(merged.len(), 64);
    for pixel in 0..16 {
        let expected: [u8; 4] = if pixel % 2 == 0 { [255, 0, 0, 255] } else { [0, 0, 255, 255] };
        assert_eq!(&merged[pixel * 4..pixel * 4 + 4], &expected);
    }
}

#[test]
fn combine_images_interleaves_the_bytes_of_both() {
    let first = Image::new(2, 1, vec![1, 2, 3, 4, 5, 6, 7, 8]).unwrap();
    let second = Image::new(2, 1, vec![11, 12, 13, 14, 15, 16, 17, 18]).unwrap();
    assert_eq!(combine_images(first, second), vec![1, 2, 3, 4, 15, 16, 17, 18]);
}
