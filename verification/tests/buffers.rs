use image_combiner::buffer::FloatingImage;
use image_combiner::errors::ImageDataErrors;

#[test]
fn a_new_buffer_is_empty_with_room_for_every_pixel() {
    let buffer = FloatingImage::new(4, 3, String::from("out.png"));
    assert_eq!(buffer.width(), 4);
    assert_eq!(buffer.height(), 3);
    assert_eq!(buffer.capacity(), 48);
    assert_eq!(buffer.name(), "out.png");
    assert!(buffer.data().is_empty());
}

#[test]
fn data_of_exactly_the_capacity_is_stored() {
    let mut buffer = FloatingImage::new(2, 2, String::from("a"));
    let bytes: Vec<u8> = (0u8..16).collect();
    assert!(buffer.set_data(bytes.clone()).is_ok());
    assert_eq!(buffer.data(), &bytes);
    assert_eq!(buffer.capacity(), 16);
    assert_eq!(buffer.width(), 2);
    assert_eq!(buffer.height(), 2);
    assert_eq!(buffer.name(), "a");
}

#[test]
fn data_shorter_than_the_capacity_is_stored_as_it_is() {
    let mut buffer = FloatingImage::new(2, 2, String::from("a"));
    assert!(buffer.set_data(vec![1, 2, 3]).is_ok());
    assert_eq!(buffer.data(), &vec![1, 2, 3]);
    assert_eq!(buffer.capacity(), 16);
}

#[test]
fn data_longer_than_the_capacity_is_refused() {
    let mut buffer = FloatingImage::new(2, 2, String::from("a"));
    let outcome = buffer.set_data(vec![0; 17]);
    assert!(matches!(outcome, Err(ImageDataErrors::BufferTooSmall)));
    assert!(buffer.data().is_empty());
    assert_eq!(buffer.capacity(), 16);
}

#[test]
fn a_refusal_keeps_what_was_stored_before() {
    let mut buffer = FloatingImage::new(1, 1, String::from("a"));
    assert!(buffer.set_data(vec![9, 9, 9, 9]).is_ok());
    assert!(matches!(buffer.set_data(vec![1; 5]), Err(ImageDataErrors::BufferTooSmall)));
    assert_eq!(buffer.data(), &vec![9, 9, 9, 9]);
}

#[test]
fn a_buffer_without_pixels_takes_only_empty_data() {
    let mut buffer = FloatingImage::new(0, 7, String::new());
    assert_eq!(buffer.capacity(), 0);
    assert!(buffer.set_data(Vec::new()).is_ok());
    assert!(matches!(buffer.set_data(vec![1]), Err(ImageDataErrors::BufferTooSmall)));
}
