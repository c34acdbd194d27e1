//! Image codec: lossless PNG encoding/decoding of RGBA pixel buffers and
//! base64 framing, plus the region-crop pipeline that works entirely on a
//! frozen, already-encoded image.
//!
//! The PNG and base64 codecs themselves come from outside crates and are
//! reached through trusted wrappers; everything around them — the crop, the
//! bounds policy, the plumbing from encoded bytes to encoded bytes — is
//! verified.

use crate::errors::Error;
use crate::pixels::crop_bytes;
use crate::pixels::crop_rgba;
use vstd::prelude::*;

verus! {

/// The PNG encoding of a `width`-by-`height` RGBA buffer, as produced by the
/// image crate's PNG encoder. Named rather than spelled out: the byte stream
/// is a pure function of the pixels and dimensions, but stating it would mean
/// writing out the PNG format.
pub uninterp spec fn png_bytes_of(pixels: Seq<u8>, width: u32, height: u32) -> Seq<u8>;

/// The standard (padded) base64 rendering of a byte string.
pub uninterp spec fn base64_of(bytes: Seq<u8>) -> Seq<char>;

/// A non-empty RGBA buffer of reasonable size: what the PNG round trip is
/// stated over (the size bound keeps the decoder far below its in-memory
/// allocation limit).
pub open spec fn encodable(pixels: Seq<u8>, width: u32, height: u32) -> bool {
    &&& 1 <= width
    &&& 1 <= height
    &&& pixels.len() == 4 * (width as int) * (height as int)
    &&& 4 * (width as int) * (height as int) <= 0x10000000
}

/// Relies on the image crate's PNG encoder (`RgbaImage::from_raw` +
/// `ImageBuffer::write_to` with `ImageFormat::Png`): writing a well-formed,
/// non-empty RGBA buffer to an in-memory cursor always succeeds, and the
/// bytes produced depend on the pixels and dimensions alone.
#[verifier::external_body]
fn png_encode(pixels: &Vec<u8>, width: u32, height: u32) -> (r: Vec<u8>)
    requires
        1 <= width,
        1 <= height,
        pixels@.len() == 4 * (width as int) * (height as int),
    ensures
        r@ == png_bytes_of(pixels@, width, height),
{
    let img = image::RgbaImage::from_raw(width, height, pixels.clone()).unwrap();
    let mut buf = std::io::Cursor::new(Vec::new());
    img.write_to(&mut buf, image::ImageFormat::Png).unwrap();
    buf.into_inner()
}

/// Relies on the image crate's PNG decoder (`load_from_memory_with_format` +
/// `DynamicImage::to_rgba8`): decoding yields a consistent buffer, and PNG is
/// lossless, so decoding the encoder's output recovers exactly the pixels and
/// dimensions that went in (the decoder's default in-memory allocation limit
/// is far above the stated size bound).
#[verifier::external_body]
fn png_decode(bytes: &Vec<u8>) -> (r: Result<(Vec<u8>, u32, u32), Error>)
    ensures
        r matches Ok(t) ==> t.0@.len() == 4 * (t.1 as int) * (t.2 as int),
        r matches Ok(t) ==> forall|p: Seq<u8>, w: u32, h: u32|
            (encodable(p, w, h) && bytes@ == #[trigger] png_bytes_of(p, w, h)) ==> (t.0@ == p
                && t.1 == w && t.2 == h),
        r is Err ==> forall|p: Seq<u8>, w: u32, h: u32|
            encodable(p, w, h) ==> bytes@ != #[trigger] png_bytes_of(p, w, h),
{
    match image::load_from_memory_with_format(bytes.as_slice(), image::ImageFormat::Png) {
        Ok(img) => {
            let rgba = img.to_rgba8();
            let (w, h) = (rgba.width(), rgba.height());
            Ok((rgba.into_raw(), w, h))
        },
        Err(_) => Err(Error::Decode),
    }
}

/// Relies on the base64 crate's standard engine `encode`: infallible, and the
/// text produced depends on the input bytes alone.
#[verifier::external_body]
fn b64_encode(bytes: &Vec<u8>) -> (r: String)
    ensures
        r@ == base64_of(bytes@),
{
    base64::Engine::encode(&base64::engine::general_purpose::STANDARD, bytes.as_slice())
}

/// Relies on the base64 crate's standard engine `decode`: decoding the
/// standard engine's own (canonical, padded) output recovers exactly the
/// bytes that were encoded.
#[verifier::external_body]
fn b64_decode(s: &str) -> (r: Result<Vec<u8>, Error>)
    ensures
        r matches Ok(v) ==> forall|b: Seq<u8>| s@ == #[trigger] base64_of(b) ==> v@ == b,
        r is Err ==> forall|b: Seq<u8>| s@ != #[trigger] base64_of(b),
{
    match base64::Engine::decode(&base64::engine::general_purpose::STANDARD, s.as_bytes()) {
        Ok(v) => Ok(v),
        Err(_) => Err(Error::Decode),
    }
}

/// Encodes an RGBA buffer as a base64 PNG string, the form in which frozen
/// captures are stored and served.
pub fn image_to_base64(pixels: &Vec<u8>, width: u32, height: u32) -> (r: String)
    requires
        1 <= width,
        1 <= height,
        pixels@.len() == 4 * (width as int) * (height as int),
    ensures
        r@ == base64_of(png_bytes_of(pixels@, width, height)),
{
    let png = png_encode(pixels, width, height);
    b64_encode(&png)
}

/// Decodes a base64 PNG string back to an RGBA buffer with its dimensions.
///
/// Round trip: for every buffer within `encodable` bounds,
/// `image_from_base64` applied to the output of `image_to_base64` returns
/// exactly the original pixels, width and height.
pub fn image_from_base64(s: &str) -> (r: Result<(Vec<u8>, u32, u32), Error>)
    ensures
        r matches Ok(t) ==> t.0@.len() == 4 * (t.1 as int) * (t.2 as int),
        forall|p: Seq<u8>, w: u32, h: u32|
            (encodable(p, w, h) && s@ == base64_of(#[trigger] png_bytes_of(p, w, h))) ==> (
            r matches Ok(t) && t.0@ == p && t.1 == w && t.2 == h),
{
    let png = match b64_decode(s) {
        Ok(v) => v,
        Err(e) => {
            return Err(e);
        },
    };
    png_decode(&png)
}

/// Whether the rectangle at (x, y), `w` wide and `h` high, is a valid,
/// non-empty crop of a `src_w`-by-`src_h` image. Reaching the exact edge
/// (`x + w == src_w`) is valid.
pub open spec fn crop_in_bounds(src_w: u32, src_h: u32, x: u32, y: u32, w: u32, h: u32) -> bool {
    &&& x + w <= src_w
    &&& y + h <= src_h
    &&& 1 <= w
    &&& 1 <= h
}

/// Crops a region out of a frozen, base64-PNG-encoded full-screen image and
/// returns the region as a base64 PNG string, without ever touching the live
/// screen.
///
/// For any image that is the stored encoding of an RGBA buffer: an in-bounds,
/// non-empty rectangle yields exactly the encoding of the cropped pixels, and
/// an out-of-bounds or empty rectangle is rejected with the bounds error —
/// deterministically, never by panicking.
pub fn capture_region_from_full(full_base64: &str, x: u32, y: u32, width: u32, height: u32) -> (r:
    Result<String, Error>)
    ensures
        forall|p: Seq<u8>, sw: u32, sh: u32|
            (encodable(p, sw, sh) && full_base64@ == base64_of(
                #[trigger] png_bytes_of(p, sw, sh),
            )) ==> match r {
                Ok(out) => crop_in_bounds(sw, sh, x, y, width, height) && out@ == base64_of(
                    png_bytes_of(
                        crop_bytes(p, sw as int, x as int, y as int, width as int, height as int),
                        width,
                        height,
                    ),
                ),
                Err(e) => e == Error::Bounds && !crop_in_bounds(sw, sh, x, y, width, height),
            },
{
    let (pixels, src_w, src_h) = match image_from_base64(full_base64) {
        Ok(t) => t,
        Err(e) => {
            return Err(e);
        },
    };
    if width == 0 || height == 0 {
        return Err(Error::Bounds);
    }
    let cropped = match crop_rgba(&pixels, src_w, src_h, x, y, width, height) {
        Ok(c) => c,
        Err(e) => {
            return Err(e);
        },
    };
    proof {
        assert(4 * (height as int * width as int) == 4 * (width as int) * (height as int))
            by (nonlinear_arith);
    }
    Ok(image_to_base64(&cropped, width, height))
}

} // verus!
