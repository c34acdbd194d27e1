use transshot::codec::capture_region_from_full;
use transshot::codec::image_from_base64;
use transshot::codec::image_to_base64;
use transshot::errors::Error;
use transshot::pixels::bgra_to_rgba;
use transshot::pixels::crop_rgba;

/// An RGBA buffer whose pixel (x, y) is a deterministic function of its
/// coordinates, so any displacement or reordering is visible.
fn patterned(width: u32, height: u32) -> Vec<u8> {
    let mut data = Vec::with_capacity((width * height * 4) as usize);
    for y in 0..height {
        for x in 0..width {
            data.push((x % 251) as u8);
            data.push((y % 241) as u8);
            data.push(((x + y) % 239) as u8);
            data.push(255);
        }
    }
    data
}

fn pixel_at(data: &[u8], width: u32, x: u32, y: u32) -> [u8; 4] {
    let off = 4 * (y as usize * width as usize + x as usize);
    [data[off], data[off + 1], data[off + 2], data[off + 3]]
}

#[test]
fn roundtrip_1x1() {
    let buf = vec![7u8, 8, 9, 10];
    let encoded = image_to_base64(&buf, 1, 1);
    let (decoded, w, h) = image_from_base64(&encoded).unwrap();
    assert_eq!(w, 1);
    assert_eq!(h, 1);
    assert_eq!(decoded, buf);
}

#[test]
fn roundtrip_odd_dimensions() {
    let buf = patterned(3, 5);
    let encoded = image_to_base64(&buf, 3, 5);
    let (decoded, w, h) = image_from_base64(&encoded).unwrap();
    assert_eq!((w, h), (3, 5));
    assert_eq!(decoded, buf);
}

#[test]
fn roundtrip_arbitrary_bytes() {
    let mut buf = Vec::new();
    for i in 0..(4 * 17 * 13) {
        buf.push((i * 37 % 256) as u8);
    }
    let encoded = image_to_base64(&buf, 17, 13);
    let (decoded, w, h) = image_from_base64(&encoded).unwrap();
    assert_eq!((w, h), (17, 13));
    assert_eq!(decoded, buf);
}

#[test]
fn decode_rejects_malformed_input() {
    assert_eq!(image_from_base64("not base64 at all!!!"), Err(Error::Decode));
    // valid base64, but not a PNG payload
    assert_eq!(image_from_base64("aGVsbG8gd29ybGQ="), Err(Error::Decode));
}

#[test]
fn crop_full_image_is_identity() {
    let buf = patterned(20, 10);
    let cropped = crop_rgba(&buf, 20, 10, 0, 0, 20, 10).unwrap();
    assert_eq!(cropped, buf);
}

#[test]
fn crop_at_exact_edge_succeeds() {
    let buf = patterned(20, 10);
    let cropped = crop_rgba(&buf, 20, 10, 15, 6, 5, 4).unwrap();
    assert_eq!(cropped.len(), 4 * 5 * 4);
    assert_eq!(pixel_at(&cropped, 5, 0, 0), pixel_at(&buf, 20, 15, 6));
    assert_eq!(pixel_at(&cropped, 5, 4, 3), pixel_at(&buf, 20, 19, 9));
}

#[test]
fn crop_past_edge_is_rejected() {
    let buf = patterned(20, 10);
    assert_eq!(crop_rgba(&buf, 20, 10, 16, 0, 5, 4), Err(Error::Bounds));
    assert_eq!(crop_rgba(&buf, 20, 10, 0, 7, 5, 4), Err(Error::Bounds));
}

#[test]
fn encoded_crop_full_frame_matches_source() {
    let buf = patterned(32, 16);
    let encoded = image_to_base64(&buf, 32, 16);
    let out = capture_region_from_full(&encoded, 0, 0, 32, 16).unwrap();
    let (decoded, w, h) = image_from_base64(&out).unwrap();
    assert_eq!((w, h), (32, 16));
    assert_eq!(decoded, buf);
}

#[test]
fn encoded_crop_out_of_bounds_is_bounds_error() {
    let buf = patterned(32, 16);
    let encoded = image_to_base64(&buf, 32, 16);
    assert_eq!(capture_region_from_full(&encoded, 1, 0, 32, 16), Err(Error::Bounds));
    assert_eq!(capture_region_from_full(&encoded, 0, 0, 0, 16), Err(Error::Bounds));
}

#[test]
fn bgra_reorders_channels_and_drops_row_padding() {
    // 2 wide, 2 high, 4 bytes per pixel, rows padded to 12 bytes
    let raw = vec![
        10u8, 20, 30, 40, 11, 21, 31, 41, 0, 0, 0, 0, // row 0 + padding
        12, 22, 32, 42, 13, 23, 33, 43, 9, 9, 9, 9, // row 1 + padding
    ];
    let rgba = bgra_to_rgba(&raw, 2, 2, 12, 4);
    assert_eq!(
        rgba,
        vec![
            30, 20, 10, 40, 31, 21, 11, 41, // row 0: B/R swapped
            32, 22, 12, 42, 33, 23, 13, 43, // row 1
        ]
    );
}
