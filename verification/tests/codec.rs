use img_encoder::codec::{decode_image, encode_image};
use img_encoder::options::ImageColor;

const PNG_SIGNATURE: [u8; 8] = [0x89, 0x50, 0x4E, 0x47, 0x0D, 0x0A, 0x1A, 0x0A];

#[test]
fn encode_writes_a_png_container() {
    let payload: Vec<u8> = (1u8..=10).collect();
    let img = encode_image(payload, ImageColor::Rgb).unwrap();
    assert_eq!((img.width, img.height), (2, 2));
    assert_eq!(&img.container[..8], &PNG_SIGNATURE);
}

#[test]
fn encode_then_decode_returns_padded_payload() {
    let payload: Vec<u8> = (1u8..=10).collect();
    let img = encode_image(payload.clone(), ImageColor::Rgb).unwrap();
    let mut expected = payload;
    expected.extend_from_slice(&[0u8, 0u8]);
    // the container is compressed PNG, not the raw buffer
    assert_ne!(img.container, expected);
    assert_eq!(decode_image(img.container).unwrap(), expected);
}

#[test]
fn exact_fit_payload_round_trips_through_the_codec() {
    let payload: Vec<u8> = (100u8..116).collect();
    let img = encode_image(payload.clone(), ImageColor::RgbA).unwrap();
    assert_eq!((img.width, img.height), (2, 2));
    assert_eq!(decode_image(img.container).unwrap(), payload);
}

#[test]
fn empty_payload_round_trips_as_one_zero_pixel() {
    let img = encode_image(Vec::new(), ImageColor::Gray).unwrap();
    assert_eq!((img.width, img.height), (1, 1));
    assert_eq!(decode_image(img.container).unwrap(), vec![0u8]);
}

#[test]
fn every_format_round_trips() {
    for color in [
        ImageColor::Gray,
        ImageColor::GrayA,
        ImageColor::Rgb,
        ImageColor::RgbA,
    ] {
        let payload: Vec<u8> = (0u8..=255).collect();
        let img = encode_image(payload.clone(), color).unwrap();
        let decoded = decode_image(img.container).unwrap();
        assert_eq!(&decoded[..payload.len()], &payload[..]);
        assert!(decoded[payload.len()..].iter().all(|&b| b == 0));
    }
}

#[test]
fn decode_refuses_bytes_that_are_no_container() {
    assert!(decode_image(vec![1u8, 2, 3, 4]).is_err());
    assert!(decode_image(Vec::new()).is_err());
}
