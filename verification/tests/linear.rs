use film_emulator::error::DecodeError;
use film_emulator::linear::LinearImage;

#[test]
fn image_holds_one_pixel_for_every_position() {
    let pixels = vec![(0.1f32, 0.2f32, 0.3f32); 6];
    let image = LinearImage::new(3, 2, pixels.clone()).unwrap();
    assert_eq!(image.width(), 3);
    assert_eq!(image.height(), 2);
    assert_eq!(image.pixels(), &pixels);
}

#[test]
fn pixel_count_must_match_the_size() {
    assert!(matches!(LinearImage::new(3, 2, vec![(0u16, 0u16, 0u16); 5]), Err(DecodeError::Corrupt)));
    assert!(matches!(LinearImage::new(3, 2, vec![(0u16, 0u16, 0u16); 7]), Err(DecodeError::Corrupt)));
    assert!(matches!(LinearImage::new(0, 0, vec![(0u16, 0u16, 0u16); 1]), Err(DecodeError::Corrupt)));
    assert!(LinearImage::new(0, 5, Vec::<(u16, u16, u16)>::new()).is_ok());
    assert!(LinearImage::new(65536, 65536, Vec::<(u16, u16, u16)>::new()).is_err());
}

#[test]
fn alpha_is_injected_after_every_pixel() {
    let image = LinearImage::new(2, 1, vec![(1u8, 2u8, 3u8), (4, 5, 6)]).unwrap();
    assert_eq!(image.to_rgba(255), vec![1, 2, 3, 255, 4, 5, 6, 255]);
}

#[test]
fn gray_two_by_two_image_uploads_as_sixteen_floats() {
    let image = LinearImage::new(2, 2, vec![(0.5f32, 0.5f32, 0.5f32); 4]).unwrap();
    let samples = image.to_rgba(1.0);
    assert_eq!(samples.len(), 16);
    for texel in samples.chunks(4) {
        assert_eq!(texel, &[0.5, 0.5, 0.5, 1.0]);
    }
}

#[test]
fn highlights_above_one_are_not_clamped() {
    let image = LinearImage::new(1, 1, vec![(1.5f32, -0.25f32, 7.0f32)]).unwrap();
    assert_eq!(image.to_rgba(1.0), vec![1.5, -0.25, 7.0, 1.0]);
}

#[test]
fn empty_image_uploads_nothing() {
    let image = LinearImage::new(0, 0, Vec::<(f32, f32, f32)>::new()).unwrap();
    assert!(image.to_rgba(1.0).is_empty());
}
