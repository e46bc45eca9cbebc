use tracer::{Color, ConverterError, PixelBuffer};

#[test]
fn buffer_must_hold_four_bytes_per_pixel() {
    assert!(PixelBuffer::new(2, 3, vec![0; 24]).is_ok());
    assert!(PixelBuffer::new(0, 0, vec![]).is_ok());
    assert!(PixelBuffer::new(5, 0, vec![]).is_ok());
    for len in [0usize, 1, 23, 25, 48] {
        let error = PixelBuffer::new(2, 3, vec![0; len]).err().unwrap();
        assert!(matches!(error, ConverterError::InvalidImageSize));
    }
    assert!(matches!(
        PixelBuffer::new(0, 0, vec![0; 4]).err().unwrap(),
        ConverterError::InvalidImageSize
    ));
}

#[test]
fn dimensions_that_overflow_are_a_size_mismatch() {
    let error = PixelBuffer::new(usize::MAX, 2, vec![0; 8]).err().unwrap();
    assert!(matches!(error, ConverterError::InvalidImageSize));
    let error = PixelBuffer::new(usize::MAX / 4 + 1, 1, vec![]).err().unwrap();
    assert!(matches!(error, ConverterError::InvalidImageSize));
}

#[test]
fn pixels_are_read_row_by_row() {
    let bytes: Vec<u8> = (0..24).collect();
    let img = PixelBuffer::new(3, 2, bytes.clone()).unwrap();
    assert_eq!(img.width(), 3);
    assert_eq!(img.height(), 2);
    assert_eq!(img.pixel_count(), 6);
    assert_eq!(img.as_bytes(), &bytes);
    assert_eq!(img.get_pixel(0, 0), Color { r: 0, g: 1, b: 2, a: 3 });
    assert_eq!(img.get_pixel(2, 0), Color { r: 8, g: 9, b: 10, a: 11 });
    assert_eq!(img.get_pixel(1, 1), Color { r: 16, g: 17, b: 18, a: 19 });
    assert_eq!(img.get_pixel_at(4), img.get_pixel(1, 1));
}

#[test]
fn set_pixel_changes_one_pixel() {
    let mut img = PixelBuffer::new(2, 2, vec![7; 16]).unwrap();
    img.set_pixel(1, 0, Color::new_rgba(1, 2, 3, 4));
    img.set_pixel_at(2, Color::new(9, 8, 7));
    assert_eq!(img.as_bytes().as_slice(), &[7, 7, 7, 7, 1, 2, 3, 4, 9, 8, 7, 255, 7, 7, 7, 7]);
}

#[test]
fn colors_are_opaque_unless_told_otherwise() {
    assert_eq!(Color::new(1, 2, 3), Color { r: 1, g: 2, b: 3, a: 255 });
    assert_eq!(Color::new_rgba(1, 2, 3, 4), Color { r: 1, g: 2, b: 3, a: 4 });
}
