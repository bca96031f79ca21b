use nonstd::media::{bytes_per_pixel, into_buffer, rgb_pixels};

#[test]
fn pixel_takes_three_or_four_bytes() {
    assert_eq!(bytes_per_pixel(32), 4);
    assert_eq!(bytes_per_pixel(24), 3);
    assert_eq!(bytes_per_pixel(16), 3);
    assert_eq!(bytes_per_pixel(0), 3);
}

#[test]
fn pixels_are_copied_row_by_row() {
    // Two rows of two pixels, rows eight bytes apart, two bytes of padding each.
    let data = vec![
        1, 2, 3, 4, 5, 6, 0, 0, //
        7, 8, 9, 10, 11, 12, 0, 0,
    ];
    assert_eq!(
        rgb_pixels(&data, 2, 2, 8, 3, false),
        Some(vec![1, 2, 3, 4, 5, 6, 7, 8, 9, 10, 11, 12])
    );
    assert_eq!(
        rgb_pixels(&data, 2, 2, 8, 3, true),
        Some(vec![3, 2, 1, 6, 5, 4, 9, 8, 7, 12, 11, 10])
    );
}

#[test]
fn fourth_byte_of_a_pixel_is_left_out() {
    let data = vec![10, 20, 30, 255, 40, 50, 60, 255];
    assert_eq!(rgb_pixels(&data, 2, 1, 8, 4, true), Some(vec![30, 20, 10, 60, 50, 40]));
    assert_eq!(rgb_pixels(&data, 1, 2, 4, 4, false), Some(vec![10, 20, 30, 40, 50, 60]));
}

#[test]
fn frame_too_short_for_its_size_is_refused() {
    let data = vec![1, 2, 3, 4, 5];
    assert_eq!(rgb_pixels(&data, 2, 1, 6, 3, false), None);
    assert_eq!(rgb_pixels(&data, 1, 1, 0, 3, false), Some(vec![1, 2, 3]));
    assert_eq!(rgb_pixels(&data, 1, 2, 3, 3, false), None);
    assert_eq!(rgb_pixels(&data, 1, 2, 2, 3, false), Some(vec![1, 2, 3, 3, 4, 5]));
    assert_eq!(rgb_pixels(&Vec::new(), 1, 1, 0, 3, false), None);
    assert_eq!(rgb_pixels(&data, u32::MAX, u32::MAX, usize::MAX, 4, false), None);
}

#[test]
fn empty_image_has_no_pixels() {
    assert_eq!(rgb_pixels(&Vec::new(), 0, 0, 0, 3, false), Some(Vec::new()));
    assert_eq!(rgb_pixels(&vec![1], 0, 5, 1, 3, true), Some(Vec::new()));
    assert_eq!(rgb_pixels(&vec![1], 5, 0, 1, 3, true), Some(Vec::new()));
}

#[test]
fn thumbnail_is_a_jpeg_of_the_frame() {
    let mut data = Vec::new();
    for _ in 0..16 * 16 {
        data.extend_from_slice(&[255u8, 0, 0, 255]);
    }
    let jpeg = into_buffer(&data, 16, 16, 64, 32, true).unwrap();
    assert_eq!(&jpeg[..2], &[0xFF, 0xD8]);
    assert_eq!(&jpeg[jpeg.len() - 2..], &[0xFF, 0xD9]);
    let decoded = image::load_from_memory(&jpeg).unwrap().to_rgb8();
    assert_eq!(decoded.dimensions(), (16, 16));
    let pixel = decoded.get_pixel(8, 8);
    // The frame is blue throughout: blue comes first in its bytes.
    assert!(pixel[2] > 200 && pixel[0] < 60 && pixel[1] < 60);
}

#[test]
fn thumbnail_depends_on_the_pixels_alone() {
    let frame = vec![9u8; 8 * 4 * 3];
    let jpeg = into_buffer(&frame, 8, 4, 24, 24, false).unwrap();
    assert!(jpeg != frame);
    let decoded = image::load_from_memory(&jpeg).unwrap();
    assert_eq!((decoded.width(), decoded.height()), (8, 4));
    assert_eq!(into_buffer(&frame, 8, 4, 24, 24, false), Some(jpeg.clone()));
    // Padding between the rows does not show in the picture.
    let mut padded = Vec::new();
    for _ in 0..4 {
        padded.extend_from_slice(&[9u8; 24]);
        padded.extend_from_slice(&[200u8; 8]);
    }
    assert_eq!(into_buffer(&padded, 8, 4, 32, 24, false), Some(jpeg));
}

#[test]
fn image_that_cannot_be_encoded_gives_nothing() {
    assert_eq!(into_buffer(&Vec::new(), 0, 0, 0, 24, false), None);
    assert_eq!(into_buffer(&vec![1, 2], 1, 1, 3, 24, false), None);
    assert_eq!(into_buffer(&vec![0; 12], 0, 4, 3, 24, false), None);
}
