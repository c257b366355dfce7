use primrose_rust::avif::{buffer_from_encoded, buffer_from_file_and_capacity, ravif__encode_rgba, EncodeError};

fn image(width: usize, height: usize) -> Vec<u8> {
    (0..width * height)
        .flat_map(|i| [(i * 7) as u8, (i * 13) as u8, (i * 29) as u8, 255u8])
        .collect()
}

#[test]
fn encode_small_image_to_avif_buffer() {
    let pixels = image(4, 4);
    let encoder = ravif::Encoder::new().with_quality(80.0);
    let b = ravif__encode_rgba(encoder, &pixels, 4, 4, 10).ok().unwrap();
    let file = b.data.clone().unwrap();
    assert!(file.len() > 12);
    assert_eq!(b.length as usize, file.len());
    assert!(b.capacity >= b.length);
    // An AVIF file opens with an `ftyp` box naming the `avif` brand.
    assert_eq!(&file[4..8], b"ftyp");
    assert_eq!(&file[8..12], b"avif");
    assert_eq!(b.destroy_into_vec(), file);
}

#[test]
fn encode_reads_only_width_times_height_pixels() {
    let mut pixels = image(2, 3);
    pixels.extend(image(2, 3));
    let encoder = ravif::Encoder::new().with_quality(60.0);
    let b = ravif__encode_rgba(encoder, &pixels, 2, 3, 10).ok().unwrap();
    assert!(b.length > 0);
}

#[test]
fn encode_same_image_at_same_settings_is_repeatable() {
    let pixels = image(3, 2);
    let a = ravif__encode_rgba(ravif::Encoder::new().with_quality(70.0), &pixels, 3, 2, 10).ok().unwrap();
    let b = ravif__encode_rgba(ravif::Encoder::new().with_quality(70.0), &pixels, 3, 2, 10).ok().unwrap();
    assert_eq!(a.destroy_into_vec(), b.destroy_into_vec());
}

#[test]
fn encoded_file_is_wrapped() {
    let r = buffer_from_encoded(Ok(vec![1u8, 2, 3])).ok().unwrap();
    assert_eq!(r.length, 3);
    assert_eq!(r.destroy_into_vec(), vec![1u8, 2, 3]);
}

#[test]
fn file_and_capacity_wrapped_with_both_sizes() {
    let r = buffer_from_file_and_capacity(vec![4u8, 5], 9).ok().unwrap();
    assert_eq!(r.length, 2);
    assert_eq!(r.capacity, 9);
    assert_eq!(r.destroy_into_vec(), vec![4u8, 5]);
}

#[test]
fn file_with_capacity_above_i32_is_too_large() {
    match buffer_from_file_and_capacity(vec![4u8, 5], i32::MAX as usize + 1) {
        Err(EncodeError::TooLarge) => {}
        _ => panic!("expected TooLarge"),
    }
    assert!(buffer_from_file_and_capacity(vec![4u8], i32::MAX as usize).is_ok());
}

#[test]
fn encoder_error_is_passed_on() {
    match buffer_from_encoded(Err(ravif::Error::TooFewPixels)) {
        Err(EncodeError::Encoder(ravif::Error::TooFewPixels)) => {}
        _ => panic!("expected the encoder's error"),
    }
}

#[test]
fn encode_zero_height_is_encoder_error() {
    let pixels: Vec<u8> = Vec::new();
    match ravif__encode_rgba(ravif::Encoder::new().with_quality(80.0), &pixels, 4, 0, 10) {
        Err(EncodeError::Encoder(_)) => {}
        _ => panic!("expected an encoder error"),
    }
}

#[test]
fn encode_width_above_65535_is_encoder_error() {
    let pixels = image(65536, 1);
    match ravif__encode_rgba(ravif::Encoder::new().with_quality(80.0), &pixels, 65536, 1, 10) {
        Err(EncodeError::Encoder(_)) => {}
        _ => panic!("expected an encoder error"),
    }
}
