use vstd::prelude::*;

use image::ImageEncoder;

use crate::error::TextureError;
use crate::pixels::{lemma_rgba_len_bound, raw_error, rgba_len};
use crate::texture::ImageFormat;

verus! {

#[verifier::external_type_specification]
#[verifier::external_body]
pub struct ExImageError(image::ImageError);

/// What the codec decodes `bytes` into: width, height and RGBA8 pixels, or
/// nothing where the bytes are not an image it reads.
pub uninterp spec fn decoded_rgba8(bytes: Seq<u8>) -> Option<(u32, u32, Seq<u8>)>;

/// What the PNG encoder makes of `width` by `height` RGBA8 pixels.
pub uninterp spec fn png_encoded(pixels: Seq<u8>, width: u32, height: u32) -> Seq<u8>;

/// Relies on image::load_from_memory, which guesses the format from the bytes
/// and decodes them, and on DynamicImage::to_rgba8, which converts the pixels
/// into a new buffer of exactly `width * height * 4` bytes.
#[verifier::external_body]
fn load_rgba8(bytes: &[u8]) -> (r: Result<(u32, u32, Vec<u8>), image::ImageError>)
    ensures
        r is Ok ==> decoded_rgba8(bytes@) == Some((r->Ok_0.0, r->Ok_0.1, r->Ok_0.2@)),
        r is Ok ==> r->Ok_0.2@.len() == (r->Ok_0.0 as int) * (r->Ok_0.1 as int) * 4,
        r is Err ==> decoded_rgba8(bytes@) is None,
{
    let img = image::load_from_memory(bytes)?.to_rgba8();
    let (width, height) = img.dimensions();
    Ok((width, height, img.into_raw()))
}

/// Relies on image::codecs::png::PngEncoder::write_image with RGBA8 pixels,
/// writing into a `Vec`. It panics unless `pixels` holds
/// `width * height * 4` bytes; writing into a `Vec` cannot fail, and the PNG
/// header is refused only for a zero width or height.
#[verifier::external_body]
fn write_png(pixels: &[u8], width: u32, height: u32) -> (r: Result<Vec<u8>, image::ImageError>)
    requires
        pixels@.len() == (width as int) * (height as int) * 4,
    ensures
        r is Ok ==> r->Ok_0@ == png_encoded(pixels@, width, height),
        width > 0 && height > 0 ==> r is Ok,
{
    let mut out: Vec<u8> = Vec::new();
    image::codecs::png::PngEncoder::new(&mut out).write_image(
        pixels,
        width,
        height,
        image::ColorType::Rgba8,
    )?;
    Ok(out)
}

/// Relies on the `Display` impl of image::ImageError, through `to_string`,
/// for a description of a codec error.
#[verifier::external_body]
fn describe(e: &image::ImageError) -> String {
    e.to_string()
}

/// An image decoded into RGBA8 pixels, ready to be uploaded.
#[derive(Debug, Clone, PartialEq, Eq)]
pub struct DecodedImage {
    pub width: u16,
    pub height: u16,
    pub rgba: Vec<u8>,
}

/// The outcome of decoding `bytes`, as far as it does not depend on the
/// codec's error message.
pub open spec fn decode_outcome(bytes: Seq<u8>, r: Result<DecodedImage, TextureError>) -> bool {
    match decoded_rgba8(bytes) {
        None => r is Err && r->Err_0 is Decode,
        Some((w, h, px)) => if w == 0 || h == 0 {
            r == Err::<DecodedImage, TextureError>(TextureError::InvalidSize { width: w, height: h })
        } else if w > 65535 || h > 65535 {
            r == Err::<DecodedImage, TextureError>(TextureError::TooLarge { width: w, height: h })
        } else {
            &&& r is Ok
            &&& r->Ok_0.width == w
            &&& r->Ok_0.height == h
            &&& r->Ok_0.rgba@ == px
        },
    }
}

/// Decodes an encoded image (such as the contents of a PNG file) into RGBA8
/// pixels whose size a texture can take.
pub fn decode_image(bytes: &[u8]) -> (r: Result<DecodedImage, TextureError>)
    ensures
        decode_outcome(bytes@, r),
        r is Ok ==> raw_error(r->Ok_0.width, r->Ok_0.height, r->Ok_0.rgba@.len() as int) is None,
{
    match load_rgba8(bytes) {
        Err(e) => Err(TextureError::Decode(describe(&e))),
        Ok((width, height, rgba)) => {
            if width == 0 || height == 0 {
                Err(TextureError::InvalidSize { width, height })
            } else if width > 65535 || height > 65535 {
                Err(TextureError::TooLarge { width, height })
            } else {
                let w: u16 = width as u16;
                let h: u16 = height as u16;
                assert(raw_error(w, h, rgba@.len() as int) is None);
                Ok(DecodedImage { width: w, height: h, rgba })
            }
        },
    }
}

/// Encodes `width` by `height` RGBA8 pixels, top row first, in the given
/// format. Fails when `pixels` does not hold `width * height * 4` bytes, or
/// when the encoder refuses a zero width or height.
pub fn encode_rgba8(format: ImageFormat, pixels: &[u8], width: u16, height: u16) -> (r: Result<
    Vec<u8>,
    TextureError,
>)
    ensures
        pixels@.len() != rgba_len(width as int, height as int) ==> r == Err::<Vec<u8>, TextureError>(
            TextureError::SizeMismatch {
                width: width as u32,
                height: height as u32,
                expected: rgba_len(width as int, height as int) as u64,
                actual: pixels@.len() as u64,
            },
        ),
        r is Ok ==> r->Ok_0@ == png_encoded(pixels@, width as u32, height as u32),
        pixels@.len() == rgba_len(width as int, height as int) ==> (r is Err ==> r->Err_0 is Encode),
        pixels@.len() == rgba_len(width as int, height as int) && width > 0 && height > 0 ==> r is Ok,
{
    proof {
        lemma_rgba_len_bound(width, height);
    }
    let expected: u64 = width as u64 * height as u64 * 4;
    if expected != pixels.len() as u64 {
        return Err(
            TextureError::SizeMismatch {
                width: width as u32,
                height: height as u32,
                expected,
                actual: pixels.len() as u64,
            },
        );
    }
    match format {
        ImageFormat::Png => match write_png(pixels, width as u32, height as u32) {
            Ok(bytes) => Ok(bytes),
            Err(e) => Err(TextureError::Encode(describe(&e))),
        },
    }
}

} // verus!
