//! The raster image attached to an image-anchored step, held as plain
//! RGB8 pixel data, and its lossless round trip through PNG bytes.

use vstd::prelude::*;
use crate::error::Error;

verus! {

/// An RGB8 raster image: `data` holds three bytes per pixel in row-major
/// order. A well-formed image has nonzero dimensions and exactly
/// `3 * width * height` bytes, which is what every decoded image satisfies.
#[derive(Clone, Debug)]
pub struct Image {
    pub width: u32,
    pub height: u32,
    pub data: Vec<u8>,
}

impl Image {
    pub open spec fn wf(self) -> bool {
        &&& self.width >= 1
        &&& self.height >= 1
        &&& self.data@.len() == 3 * self.width * self.height
    }
}

/// The PNG byte stream the encoder produces for a pixel buffer. The encoder
/// is deterministic, so the bytes are a function of the dimensions and the
/// pixel data alone.
pub uninterp spec fn png_blob_of(width: u32, height: u32, data: Seq<u8>) -> Seq<u8>;

/// What decoding a byte blob (format guessed from the bytes, converted to
/// RGB8) yields: dimensions and pixel data, or nothing when the bytes do not
/// form a decodable image. Decoding is a function of the bytes alone.
pub uninterp spec fn png_pixels_of(bytes: Seq<u8>) -> Option<(u32, u32, Seq<u8>)>;

/// Relies on image's PNG encoder, through `DynamicImage::write_to` into an
/// in-memory buffer: the produced bytes depend on the pixel buffer alone,
/// and, PNG being lossless, decoding them yields the same pixels back.
///
/// The call succeeds on every well-formed image: the encoder's only format
/// errors are zero dimensions and a buffer whose length does not match
/// them, both of which `wf` excludes, and the in-memory writer cannot fail.
#[verifier::external_body]
pub(crate) fn png_encode(img: &Image) -> (r: Result<Vec<u8>, Error>)
    requires
        img.wf(),
    ensures
        r is Ok,
        (match r {
            Ok(b) => b@ == png_blob_of(img.width, img.height, img.data@)
                && png_pixels_of(b@) == Some::<(u32, u32, Seq<u8>)>((img.width, img.height, img.data@)),
            Err(e) => e == Error::EncodeFailure,
        }),
{
    let buf: image::RgbImage =
        match image::ImageBuffer::from_raw(img.width, img.height, img.data.clone()) {
            Some(b) => b,
            None => return Err(Error::EncodeFailure),
        };
    let mut bytes: Vec<u8> = Vec::new();
    match image::DynamicImage::ImageRgb8(buf).write_to(&mut bytes, image::ImageFormat::PNG) {
        Ok(()) => Ok(bytes),
        Err(_) => Err(Error::EncodeFailure),
    }
}

/// Relies on image's `load_from_memory`: the format is guessed from the
/// bytes, the decoded image is converted to RGB8, and the outcome depends on
/// the bytes alone. A decoded buffer holds exactly three bytes per pixel,
/// which is the invariant of the RGB8 image buffer it comes from.
#[verifier::external_body]
pub(crate) fn png_decode(bytes: &Vec<u8>) -> (r: Result<Image, Error>)
    ensures
        (match r {
            Ok(img) => png_pixels_of(bytes@) == Some::<(u32, u32, Seq<u8>)>((img.width, img.height, img.data@))
                && img.data@.len() == 3 * img.width * img.height,
            Err(e) => e == Error::DecodeFailure && png_pixels_of(bytes@) is None,
        }),
{
    let img = match image::load_from_memory(bytes.as_slice()) {
        Ok(d) => d.to_rgb(),
        Err(_) => return Err(Error::DecodeFailure),
    };
    Ok(Image { width: img.width(), height: img.height(), data: img.into_raw() })
}

} // verus!
