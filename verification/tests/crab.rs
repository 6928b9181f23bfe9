use sim_logic::crab::{
    check_crab_frame, check_crab_header, decode_crab, CrabDrawError, CrabImage, CrabImageError,
    CRAB_HEIGHT, CRAB_PIXEL_BYTES, CRAB_WIDTH,
};
use sim_logic::image::ImageAssetId;
use std::cell::Cell;

fn encode(width: u32, height: u32, color: png::ColorType, data: &[u8]) -> Vec<u8> {
    let mut bytes = Vec::new();
    {
        let mut encoder = png::Encoder::new(&mut bytes, width, height);
        encoder.set_color(color);
        encoder.set_depth(png::BitDepth::Eight);
        encoder
            .write_header()
            .unwrap()
            .write_image_data(data)
            .unwrap();
    }
    bytes
}

fn artwork_pixels() -> Vec<u8> {
    let mut pixels = vec![0u8; CRAB_PIXEL_BYTES];
    for (index, byte) in pixels.iter_mut().enumerate() {
        *byte = (index % 251) as u8;
    }
    pixels[3] = 0;
    pixels
}

#[test]
fn malformed_or_truncated_png_returns_a_decode_error() {
    let artwork = encode(CRAB_WIDTH, CRAB_HEIGHT, png::ColorType::Rgba, &artwork_pixels());
    for bytes in [b"not a png".as_slice(), &artwork[..artwork.len() / 2]] {
        assert!(matches!(decode_crab(bytes), Err(CrabDrawError::Decode(_))));
    }
}

#[test]
fn unexpected_artwork_layout_is_rejected_before_pixel_allocation() {
    let bytes = encode(1, 1, png::ColorType::Rgba, &[0; 4]);
    assert!(matches!(decode_crab(&bytes), Err(CrabDrawError::InvalidArtwork)));
}

#[test]
fn artwork_of_the_right_size_but_without_alpha_is_rejected() {
    let rgb = vec![7u8; CRAB_WIDTH as usize * CRAB_HEIGHT as usize * 3];
    let bytes = encode(CRAB_WIDTH, CRAB_HEIGHT, png::ColorType::Rgb, &rgb);
    assert!(matches!(decode_crab(&bytes), Err(CrabDrawError::InvalidArtwork)));
}

#[test]
fn decoded_artwork_gives_back_the_encoded_pixels() {
    let pixels = artwork_pixels();
    let bytes = encode(CRAB_WIDTH, CRAB_HEIGHT, png::ColorType::Rgba, &pixels);
    let decoded = decode_crab(&bytes).unwrap();
    assert_eq!(decoded.len(), 564_880);
    assert_eq!(decoded, pixels);
    assert_eq!(decoded[3], 0);
}

#[test]
fn header_checks_name_the_expected_layout() {
    assert!(check_crab_header((460, 307, true, true, false, Some(564_880))).is_ok());
    assert!(matches!(
        check_crab_header((460, 307, true, true, true, Some(564_880))),
        Err(CrabDrawError::InvalidArtwork)
    ));
    assert!(matches!(
        check_crab_header((461, 307, true, true, false, Some(564_880))),
        Err(CrabDrawError::InvalidArtwork)
    ));
    assert!(matches!(
        check_crab_header((460, 307, true, false, false, Some(564_880))),
        Err(CrabDrawError::InvalidArtwork)
    ));
    assert!(matches!(
        check_crab_header((460, 307, true, true, false, None)),
        Err(CrabDrawError::InvalidArtwork)
    ));
    assert!(check_crab_frame(564_880).is_ok());
    assert!(matches!(check_crab_frame(564_879), Err(CrabDrawError::InvalidArtwork)));
}

#[test]
fn the_first_successful_call_registers_once_and_later_calls_reuse_it() {
    let bytes = encode(CRAB_WIDTH, CRAB_HEIGHT, png::ColorType::Rgba, &artwork_pixels());
    let registrations = Cell::new(0);
    let mut crab = CrabImage::new();
    assert_eq!(crab.image(), None);

    let refused = crab.image_or_register(&bytes, |pixels: Vec<u8>| {
        registrations.set(registrations.get() + 1);
        assert_eq!(pixels.len(), 564_880);
        Err("registry full")
    });
    assert!(matches!(refused, Err(CrabImageError::Image("registry full"))));
    assert_eq!(crab.image(), None);

    let handle = ImageAssetId::new(1, 0, 460, 307);
    let first = crab.image_or_register(&bytes, |_pixels: Vec<u8>| {
        registrations.set(registrations.get() + 1);
        Ok::<ImageAssetId, &str>(handle)
    });
    assert_eq!(first.unwrap(), handle);
    let second = crab.image_or_register(b"not a png", |_pixels: Vec<u8>| {
        registrations.set(registrations.get() + 1);
        Err("registry full")
    });
    assert_eq!(second.unwrap(), handle);
    assert_eq!(registrations.get(), 2);
    assert_eq!(crab.image(), Some(handle));
}

#[test]
fn undecodable_artwork_registers_nothing() {
    let mut crab = CrabImage::new();
    let outcome = crab.image_or_register(b"not a png", |_pixels: Vec<u8>| {
        Ok::<ImageAssetId, ()>(ImageAssetId::new(1, 0, 460, 307))
    });
    assert!(matches!(outcome, Err(CrabImageError::Artwork(CrabDrawError::Decode(_)))));
    assert_eq!(crab.image(), None);
}
