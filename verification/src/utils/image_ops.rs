//! Image cropping extents and image encoding for transport.
use vstd::prelude::*;
use vstd::string::StringExecFns;
use image::error::{ParameterError, ParameterErrorKind};
use image::{DynamicImage, ImageError, ImageFormat, RgbaImage};
use base64::Engine;
use crate::utils::text::{lowercase, str_eq, to_lowercase};

verus! {

#[verifier::external_type_specification]
#[verifier::external_body]
pub struct ExImageError(image::ImageError);

/// The region of an image that a crop keeps: left, top, width, height.
pub type CropRegion = (u32, u32, u32, u32);

/// The crop of an `image_width` by `image_height` image to a window at `(x, y)` of size
/// `width` by `height` (in pixels): the window's origin, with the size cut to what lies inside
/// the image; none when nothing of the window lies inside (then there is nothing to capture).
pub open spec fn crop_region_spec(x: u32, y: u32, width: u32, height: u32, image_width: u32, image_height: u32) -> Option<CropRegion> {
    let avail_w: u32 = if image_width > x { (image_width - x) as u32 } else { 0 };
    let avail_h: u32 = if image_height > y { (image_height - y) as u32 } else { 0 };
    let w: u32 = if width < avail_w { width } else { avail_w };
    let h: u32 = if height < avail_h { height } else { avail_h };
    if w == 0 || h == 0 {
        None
    } else {
        Some((x, y, w, h))
    }
}

pub fn crop_region(x: u32, y: u32, width: u32, height: u32, image_width: u32, image_height: u32) -> (r: Option<CropRegion>)
    ensures
        r == crop_region_spec(x, y, width, height, image_width, image_height),
{
    let avail_w = image_width.saturating_sub(x);
    let avail_h = image_height.saturating_sub(y);
    let w = if width < avail_w { width } else { avail_w };
    let h = if height < avail_h { height } else { avail_h };
    if w == 0 || h == 0 {
        None
    } else {
        Some((x, y, w, h))
    }
}

/// An image file format the daemon encodes captures in.
#[derive(Debug, Clone, Copy, PartialEq, Eq, Structural)]
pub enum ImageEncoding {
    Png,
    Jpeg,
}

/// `jpeg` and `jpg` (in any case) ask for JPEG; every other name asks for PNG.
pub open spec fn encoding_named(format: Seq<char>) -> ImageEncoding {
    let f = lowercase(format);
    if f == "jpeg"@ || f == "jpg"@ {
        ImageEncoding::Jpeg
    } else {
        ImageEncoding::Png
    }
}

pub fn image_encoding_for(format_str: &str) -> (r: ImageEncoding)
    ensures
        r == encoding_named(format_str@),
{
    let f = to_lowercase(format_str);
    if str_eq(f.as_str(), "jpeg") || str_eq(f.as_str(), "jpg") {
        ImageEncoding::Jpeg
    } else {
        ImageEncoding::Png
    }
}

/// The character of a six-bit value in the standard base64 alphabet.
pub open spec fn base64_digit(v: int) -> char {
    if v < 26 {
        (65 + v) as char
    } else if v < 52 {
        (97 + (v - 26)) as char
    } else if v < 62 {
        (48 + (v - 52)) as char
    } else if v == 62 {
        '+'
    } else {
        '/'
    }
}

/// Standard base64 with `=` padding: each three bytes become four characters.
pub open spec fn base64_standard(b: Seq<u8>) -> Seq<char>
    decreases b.len(),
{
    if b.len() == 0 {
        Seq::empty()
    } else {
        let b0 = b[0] as int;
        let b1 = if b.len() > 1 { b[1] as int } else { 0 };
        let b2 = if b.len() > 2 { b[2] as int } else { 0 };
        if b.len() == 1 {
            seq![base64_digit(b0 / 4), base64_digit((b0 % 4) * 16), '=', '=']
        } else if b.len() == 2 {
            seq![base64_digit(b0 / 4), base64_digit((b0 % 4) * 16 + b1 / 16), base64_digit((b1 % 16) * 4), '=']
        } else {
            seq![
                base64_digit(b0 / 4),
                base64_digit((b0 % 4) * 16 + b1 / 16),
                base64_digit((b1 % 16) * 4 + b2 / 64),
                base64_digit(b2 % 64),
            ] + base64_standard(b.subrange(3, b.len() as int))
        }
    }
}

/// Calls `base64::engine::general_purpose::STANDARD.encode`.
///
/// Trusted: the result is the standard-alphabet base64 text of the bytes, padded with `=`.
/// The encoder panics when the encoded length overflows `usize`; `requires` leaves that out.
#[verifier::external_body]
fn encode_base64(bytes: &[u8]) -> (r: String)
    requires
        (bytes@.len() + 2) / 3 * 4 <= usize::MAX,
    ensures
        r@ == base64_standard(bytes@),
{
    base64::engine::general_purpose::STANDARD.encode(bytes)
}

/// The bytes every file of an encoding begins with: the PNG signature, or the JPEG
/// start-of-image marker.
pub open spec fn file_signature(encoding: ImageEncoding) -> Seq<u8> {
    match encoding {
        ImageEncoding::Png => seq![137u8, 80u8, 78u8, 71u8, 13u8, 10u8, 26u8, 10u8],
        ImageEncoding::Jpeg => seq![0xFFu8, 0xD8u8],
    }
}

/// Whether `bytes` is a file of the encoding, as far as its first bytes tell.
pub open spec fn begins_as(bytes: Seq<u8>, encoding: ImageEncoding) -> bool {
    let sig = file_signature(encoding);
    sig.len() <= bytes.len() && bytes.subrange(0, sig.len() as int) == sig
}

/// The file that the `image` crate encodes from an RGBA image `width` pixels wide and
/// `height` high (four bytes per pixel, row by row), in JPEG or else PNG; none when the
/// encoder refuses the image.
pub uninterp spec fn encoded_rgba(width: u32, height: u32, rgba: Seq<u8>, jpeg: bool) -> Option<Seq<u8>>;

/// The encoding a `jpeg` flag names.
pub open spec fn encoding_of(jpeg: bool) -> ImageEncoding {
    if jpeg {
        ImageEncoding::Jpeg
    } else {
        ImageEncoding::Png
    }
}

/// Calls `DynamicImage::write_to` on the RGBA image made of the bytes, into an in-memory
/// buffer, in JPEG or PNG.
///
/// Trusted: the outcome is `encoded_rgba` of the arguments (the encoders read nothing but
/// the image and the format); on success the buffer holds at most `isize::MAX` bytes and
/// begins with the format's signature (the PNG encoder writes the eight signature bytes
/// first, the JPEG encoder the start-of-image marker `FF D8`). The requirement on the length
/// is what `RgbaImage::from_raw` needs to accept the bytes.
#[verifier::external_body]
fn encode_rgba(width: u32, height: u32, rgba: &Vec<u8>, jpeg: bool) -> (r: Result<Vec<u8>, ImageError>)
    requires
        rgba@.len() == width * height * 4,
    ensures
        r is Ok <==> encoded_rgba(width, height, rgba@, jpeg) is Some,
        r matches Ok(v) ==> Some(v@) == encoded_rgba(width, height, rgba@, jpeg) && v@.len() <= isize::MAX
            && begins_as(v@, encoding_of(jpeg)),
{
    let format = if jpeg { ImageFormat::Jpeg } else { ImageFormat::Png };
    match RgbaImage::from_raw(width, height, rgba.clone()) {
        Some(img) => {
            let mut buffer = Vec::new();
            DynamicImage::ImageRgba8(img).write_to(&mut std::io::Cursor::new(&mut buffer), format).map(|_| buffer)
        },
        None => Err(ImageError::Parameter(ParameterError::from_kind(ParameterErrorKind::DimensionMismatch))),
    }
}

/// Calls `ImageError`'s `Display` (`to_string`). What the text is, is not stated.
#[verifier::external_body]
fn image_error_text(e: &ImageError) -> (r: String) {
    e.to_string()
}

/// Encodes an RGBA image (`width` by `height` pixels, four bytes each, row by row) in the
/// named format (JPEG for `jpeg` or `jpg`, else PNG) and returns the file as base64 text;
/// it succeeds exactly when the encoder accepts the image, and an encoder failure is
/// reported as `Failed to encode image: ...`.
pub fn encode_image_base64(width: u32, height: u32, rgba: &Vec<u8>, format_str: &str) -> (r: Result<String, String>)
    requires
        rgba@.len() == width * height * 4,
    ensures
        ({
            let encoded = encoded_rgba(width, height, rgba@, encoding_named(format_str@) == ImageEncoding::Jpeg);
            &&& r is Ok <==> encoded is Some
            &&& r matches Ok(s) ==> s@ == base64_standard(encoded->0) && begins_as(
                encoded->0,
                encoding_named(format_str@),
            )
            &&& r matches Err(m) ==> exists|detail: Seq<char>| m@ == "Failed to encode image: "@ + detail
        }),
{
    let encoding = image_encoding_for(format_str);
    let jpeg = match encoding {
        ImageEncoding::Jpeg => true,
        ImageEncoding::Png => false,
    };
    match encode_rgba(width, height, rgba, jpeg) {
        Ok(buffer) => {
            assert((buffer@.len() + 2) / 3 * 4 <= usize::MAX);
            let s = encode_base64(buffer.as_slice());
            Ok(s)
        },
        Err(e) => {
            let detail = image_error_text(&e);
            let m = String::from_str("Failed to encode image: ").concat(detail.as_str());
            assert(m@ == "Failed to encode image: "@ + detail@);
            Err(m)
        },
    }
}

/// A crop keeps exactly the part of the window that lies in the image: it starts at the
/// window's origin, never reaches past the image or the window, and is cut short only by the
/// image's edge; there is nothing to keep exactly when the window is empty or starts beyond
/// the image.
pub proof fn law_crop_is_window_within_image(x: u32, y: u32, width: u32, height: u32, image_width: u32, image_height: u32)
    ensures
        crop_region_spec(x, y, width, height, image_width, image_height) matches Some((cx, cy, cw, ch)) ==> {
            &&& cx == x && cy == y
            &&& 0 < cw <= width && 0 < ch <= height
            &&& x + cw <= image_width && y + ch <= image_height
            &&& (cw == width || x + cw == image_width)
            &&& (ch == height || y + ch == image_height)
        },
        crop_region_spec(x, y, width, height, image_width, image_height) is None <==> (width == 0 || height == 0
            || x >= image_width || y >= image_height),
{
}

} // verus!
