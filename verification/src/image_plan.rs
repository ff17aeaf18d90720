//! How a still image is sent: PNG and JPEG files go as their encoded bytes, unchanged, when the
//! presenter accepts them, everything else as a decoded RGBA raster within the record limit.

use vstd::prelude::*;
use sha2::Digest;
use crate::bytes::has_prefix;
use crate::error::ErrorKind;

verus! {

/// Bytes in a raster record besides its pixels.
pub const RASTER_OVERHEAD: usize = 72;

/// The eight-byte signature that opens a PNG file.
pub open spec fn png_signature() -> Seq<u8> {
    seq![0x89u8, 0x50u8, 0x4eu8, 0x47u8, 0x0du8, 0x0au8, 0x1au8, 0x0au8]
}

/// The three bytes that open a JPEG file.
pub open spec fn jpeg_signature() -> Seq<u8> {
    seq![0xffu8, 0xd8u8, 0xffu8]
}

/// The encoded formats a presenter can accept as they are.
#[derive(Debug, Clone, Copy, PartialEq, Eq, Structural)]
pub enum ImageEncoding {
    Png,
    Jpeg,
}

/// The format `image::guess_format` recognises, as far as Vivi distinguishes formats.
#[derive(Debug, Clone, Copy, PartialEq, Eq, Structural)]
pub enum GuessedFormat {
    Png,
    Jpeg,
    Other,
}

/// What `image::guess_format` decides for `bytes`: it compares magic bytes in a fixed order
/// that starts with PNG and then JPEG, so PNG is recognised exactly by its signature and JPEG
/// exactly by its signature when the PNG one is absent; every other outcome, an unrecognised
/// buffer included, is `Other`.
pub open spec fn spec_guessed_format(bytes: Seq<u8>) -> GuessedFormat {
    if has_prefix(bytes, png_signature()) {
        GuessedFormat::Png
    } else if has_prefix(bytes, jpeg_signature()) {
        GuessedFormat::Jpeg
    } else {
        GuessedFormat::Other
    }
}

/// Guesses the format of an encoded image with `image::guess_format`.
#[verifier::external_body]
fn guess_format(bytes: &[u8]) -> (format: GuessedFormat)
    ensures
        format == spec_guessed_format(bytes@),
{
    match image::guess_format(bytes) {
        Ok(image::ImageFormat::Png) => GuessedFormat::Png,
        Ok(image::ImageFormat::Jpeg) => GuessedFormat::Jpeg,
        _ => GuessedFormat::Other,
    }
}

/// The SHA-256 digest of `data`.
pub uninterp spec fn sha256_digest(data: Seq<u8>) -> Seq<u8>;

/// Computes the SHA-256 digest of `data` with `sha2::Sha256`.
#[verifier::external_body]
fn sha256(data: &[u8]) -> (digest: [u8; 32])
    ensures
        digest@ == sha256_digest(data@),
{
    sha2::Sha256::digest(data).into()
}

/// The encoding under which an image's bytes can be sent as they are, if any.
pub open spec fn spec_encoded_image_kind(bytes: Seq<u8>) -> Option<ImageEncoding> {
    match spec_guessed_format(bytes) {
        GuessedFormat::Png => Some(ImageEncoding::Png),
        GuessedFormat::Jpeg => Some(ImageEncoding::Jpeg),
        GuessedFormat::Other => None,
    }
}

/// The encoding under which an image's bytes can be sent as they are: PNG and JPEG only.
pub fn encoded_image_kind(bytes: &[u8]) -> (kind: Option<ImageEncoding>)
    ensures
        kind == spec_encoded_image_kind(bytes@),
{
    match guess_format(bytes) {
        GuessedFormat::Png => Some(ImageEncoding::Png),
        GuessedFormat::Jpeg => Some(ImageEncoding::Jpeg),
        GuessedFormat::Other => None,
    }
}

/// Reasons an image cannot be sent.
#[derive(Debug, Clone, Copy, PartialEq, Eq, Structural)]
pub enum ImageError {
    /// The encoded file is longer than a `u32` length can describe.
    EncodedTooLarge,
    /// The decoded raster does not fit in one raster record.
    RasterTooLarge,
}

impl ImageError {
    /// The I/O error kind under which the error is reported.
    pub open spec fn spec_kind(self) -> ErrorKind {
        ErrorKind::InvalidInput
    }

    /// The I/O error kind under which the error is reported.
    pub fn kind(&self) -> (kind: ErrorKind)
        ensures
            kind == self.spec_kind(),
    {
        ErrorKind::InvalidInput
    }
}

/// How an image is sent.
#[derive(Debug, Clone, Copy)]
pub enum ImagePlan {
    /// As its encoded bytes, unchanged, with their length and digest.
    Encoded { encoding: ImageEncoding, encoded_length: u32, sha256: [u8; 32] },
    /// As a decoded RGBA raster.
    Raster,
}

/// Decides how an image whose file holds `encoded` is sent: as its encoded bytes, unchanged, when it is
/// PNG or JPEG and the presenter accepts encoded images, otherwise as a raster.
pub fn plan_image(encoded: &[u8], kind: Option<ImageEncoding>, presenter_accepts_encoded: bool) -> (plan: Result<ImagePlan, ImageError>)
    ensures
        match kind {
            Some(encoding) if presenter_accepts_encoded => if encoded@.len() > u32::MAX {
                plan == Err::<ImagePlan, ImageError>(ImageError::EncodedTooLarge)
            } else {
                plan matches Ok(ImagePlan::Encoded { encoding: e, encoded_length, sha256 }) && e == encoding
                    && encoded_length == encoded@.len() && sha256@ == sha256_digest(encoded@)
            },
            _ => plan matches Ok(ImagePlan::Raster),
        },
{
    match kind {
        Some(encoding) => if presenter_accepts_encoded {
            let digest = sha256(encoded);
            if encoded.len() > u32::MAX as usize {
                return Err(ImageError::EncodedTooLarge);
            }
            Ok(ImagePlan::Encoded { encoding, encoded_length: encoded.len() as u32, sha256: digest })
        } else {
            Ok(ImagePlan::Raster)
        },
        None => Ok(ImagePlan::Raster),
    }
}

/// The most pixels one raster record can carry when records hold at most
/// `max_record_body` bytes: four bytes a pixel after the record overhead.
pub open spec fn spec_max_raster_pixels(max_record_body: u32) -> int {
    if max_record_body < RASTER_OVERHEAD { 0 } else { (max_record_body - RASTER_OVERHEAD) / 4 }
}

/// Checks that an RGBA raster of `rgba_len` bytes fits in one record of at most
/// `max_record_body` bytes.
pub fn check_raster_size(rgba_len: usize, max_record_body: u32) -> (result: Result<(), ImageError>)
    ensures
        result == if rgba_len / 4 > spec_max_raster_pixels(max_record_body) {
            Err(ImageError::RasterTooLarge)
        } else {
            Ok::<(), ImageError>(())
        },
{
    let body = max_record_body as usize;
    let maximum_pixels = if body < RASTER_OVERHEAD { 0 } else { (body - RASTER_OVERHEAD) / 4 };
    if rgba_len / 4 > maximum_pixels {
        return Err(ImageError::RasterTooLarge);
    }
    Ok(())
}

} // verus!
