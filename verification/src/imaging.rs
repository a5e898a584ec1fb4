use vstd::prelude::*;
use vstd::string::StringExecFns;

use crate::errors::{CoreError, ThumbnailError};
use crate::keys::ThumbnailSpec;

verus! {

#[verifier::external_type_specification]
#[verifier::external_body]
pub struct ExDynamicImage(image::DynamicImage);

/// Whether `image::load_from_memory` decodes these bytes; the outcome is
/// a function of the bytes alone.
pub uninterp spec fn decodable(bytes: Seq<u8>) -> bool;

/// The image that `image::load_from_memory` decodes these bytes to.
pub uninterp spec fn image_of(bytes: Seq<u8>) -> image::DynamicImage;

/// The pixel width that `image::DynamicImage::width` reports.
pub uninterp spec fn image_width(img: image::DynamicImage) -> u32;

/// The pixel height that `image::DynamicImage::height` reports.
pub uninterp spec fn image_height(img: image::DynamicImage) -> u32;

/// What `image::DynamicImage::fliph` returns for an image.
pub uninterp spec fn fliph_of(img: image::DynamicImage) -> image::DynamicImage;

/// What `image::DynamicImage::flipv` returns for an image.
pub uninterp spec fn flipv_of(img: image::DynamicImage) -> image::DynamicImage;

/// What `image::DynamicImage::rotate90` returns for an image.
pub uninterp spec fn rotate90_of(img: image::DynamicImage) -> image::DynamicImage;

/// What `image::DynamicImage::rotate180` returns for an image.
pub uninterp spec fn rotate180_of(img: image::DynamicImage) -> image::DynamicImage;

/// What `image::DynamicImage::rotate270` returns for an image.
pub uninterp spec fn rotate270_of(img: image::DynamicImage) -> image::DynamicImage;

/// What `image::DynamicImage::thumbnail` returns: the image scaled down
/// to fit the given bounds, its aspect ratio preserved.
pub uninterp spec fn thumbnail_of(img: image::DynamicImage, w: u32, h: u32) -> image::DynamicImage;

/// The JPEG bytes that `image::DynamicImage::write_to` produces for an image.
pub uninterp spec fn jpeg_bytes_of(img: image::DynamicImage) -> Seq<u8>;

/// Relies on image::load_from_memory: decoding is deterministic in the
/// bytes, succeeds exactly when they hold a decodable image, and yields
/// that image.
#[verifier::external_body]
pub fn decode_image(bytes: &[u8]) -> (r: Result<image::DynamicImage, String>)
    ensures
        r is Ok <==> decodable(bytes@),
        r is Ok ==> r->Ok_0 == image_of(bytes@),
{
    image::load_from_memory(bytes).map_err(|e| e.to_string())
}

/// Relies on image::load_from_memory: reports whether the bytes decode.
#[verifier::external_body]
pub fn bytes_decodable(bytes: &[u8]) -> (r: bool)
    ensures
        r == decodable(bytes@),
{
    image::load_from_memory(bytes).is_ok()
}

/// Relies on image::DynamicImage::width.
#[verifier::external_body]
pub fn width_of(img: &image::DynamicImage) -> (r: u32)
    ensures
        r == image_width(*img),
{
    img.width()
}

/// Relies on image::DynamicImage::height.
#[verifier::external_body]
pub fn height_of(img: &image::DynamicImage) -> (r: u32)
    ensures
        r == image_height(*img),
{
    img.height()
}

/// Relies on image::DynamicImage::fliph: a horizontal flip keeps the
/// dimensions.
#[verifier::external_body]
pub fn fliph_image(img: &image::DynamicImage) -> (r: image::DynamicImage)
    ensures
        r == fliph_of(*img),
        image_width(r) == image_width(*img),
        image_height(r) == image_height(*img),
{
    img.fliph()
}

/// Relies on image::DynamicImage::flipv: a vertical flip keeps the
/// dimensions.
#[verifier::external_body]
pub fn flipv_image(img: &image::DynamicImage) -> (r: image::DynamicImage)
    ensures
        r == flipv_of(*img),
        image_width(r) == image_width(*img),
        image_height(r) == image_height(*img),
{
    img.flipv()
}

/// Relies on image::DynamicImage::rotate90: a quarter turn swaps the
/// dimensions.
#[verifier::external_body]
pub fn rotate90_image(img: &image::DynamicImage) -> (r: image::DynamicImage)
    ensures
        r == rotate90_of(*img),
        image_width(r) == image_height(*img),
        image_height(r) == image_width(*img),
{
    img.rotate90()
}

/// Relies on image::DynamicImage::rotate180: a half turn keeps the
/// dimensions.
#[verifier::external_body]
pub fn rotate180_image(img: &image::DynamicImage) -> (r: image::DynamicImage)
    ensures
        r == rotate180_of(*img),
        image_width(r) == image_width(*img),
        image_height(r) == image_height(*img),
{
    img.rotate180()
}

/// Relies on image::DynamicImage::rotate270: a quarter turn swaps the
/// dimensions.
#[verifier::external_body]
pub fn rotate270_image(img: &image::DynamicImage) -> (r: image::DynamicImage)
    ensures
        r == rotate270_of(*img),
        image_width(r) == image_height(*img),
        image_height(r) == image_width(*img),
{
    img.rotate270()
}

/// Relies on image::DynamicImage::thumbnail: scales the image down to fit
/// within the bounds, preserving the aspect ratio.
#[verifier::external_body]
pub fn thumbnail_image(img: &image::DynamicImage, w: u32, h: u32) -> (r: image::DynamicImage)
    ensures
        r == thumbnail_of(*img, w, h),
{
    img.thumbnail(w, h)
}

/// Relies on image::DynamicImage::write_to with the JPEG format: on
/// success the buffer holds the image's JPEG encoding.
#[verifier::external_body]
pub fn encode_jpeg(img: &image::DynamicImage) -> (r: Result<Vec<u8>, String>)
    ensures
        r is Ok ==> r->Ok_0@ == jpeg_bytes_of(*img),
{
    let mut out: Vec<u8> = Vec::new();
    match img.write_to(&mut std::io::Cursor::new(&mut out), image::ImageFormat::Jpeg) {
        Ok(()) => Ok(out),
        Err(e) => Err(e.to_string()),
    }
}

/// The image after the eight EXIF orientation transforms: identity for 1
/// and for anything unrecognized, flips for 2 and 4, half turn for 3,
/// quarter turns (with a flip for the transposed forms) for 5 through 8.
pub open spec fn spec_apply_orientation(img: image::DynamicImage, orientation: u32) -> image::DynamicImage {
    if orientation == 2 {
        fliph_of(img)
    } else if orientation == 3 {
        rotate180_of(img)
    } else if orientation == 4 {
        flipv_of(img)
    } else if orientation == 5 {
        fliph_of(rotate90_of(img))
    } else if orientation == 6 {
        rotate90_of(img)
    } else if orientation == 7 {
        fliph_of(rotate270_of(img))
    } else if orientation == 8 {
        rotate270_of(img)
    } else {
        img
    }
}

/// True of the orientations whose transform swaps width and height.
pub open spec fn orientation_swaps_dims(orientation: u32) -> bool {
    orientation == 5 || orientation == 6 || orientation == 7 || orientation == 8
}

/// Applies an EXIF orientation transform to a decoded image.
///
/// Orientation 1 and unrecognized values are the identity; 5 through 8
/// turn the image a quarter turn, so a W x H image comes out H x W.
pub fn apply_orientation_to_image(img: image::DynamicImage, orientation: u32) -> (r:
    image::DynamicImage)
    ensures
        r == spec_apply_orientation(img, orientation),
        orientation_swaps_dims(orientation) ==> image_width(r) == image_height(img)
            && image_height(r) == image_width(img),
        !orientation_swaps_dims(orientation) && 2 <= orientation <= 4 ==> image_width(r)
            == image_width(img) && image_height(r) == image_height(img),
        orientation < 2 || orientation > 8 ==> r == img,
{
    match orientation {
        2 => fliph_image(&img),
        3 => rotate180_image(&img),
        4 => flipv_image(&img),
        5 => {
            let t = rotate90_image(&img);
            fliph_image(&t)
        },
        6 => rotate90_image(&img),
        7 => {
            let t = rotate270_image(&img);
            fliph_image(&t)
        },
        8 => rotate270_image(&img),
        _ => img,
    }
}

/// Decodes image bytes, applies an orientation transform, and re-encodes
/// as JPEG. Orientation 1 and below hands the bytes back untouched.
pub fn apply_orientation_correction(image_bytes: &[u8], orientation: u32) -> (r: Result<
    Vec<u8>,
    ThumbnailError,
>)
    ensures
        orientation <= 1 ==> r is Ok && r->Ok_0@ == image_bytes@,
        orientation > 1 && !decodable(image_bytes@) ==> r is Err && r->Err_0 is DecodeError,
        orientation > 1 && decodable(image_bytes@) && r is Ok ==> r->Ok_0@ == jpeg_bytes_of(
            spec_apply_orientation(image_of(image_bytes@), orientation),
        ),
        orientation > 1 && decodable(image_bytes@) && r is Err ==> r->Err_0 is EncodeError,
{
    if orientation <= 1 {
        let mut out: Vec<u8> = Vec::new();
        let mut i: usize = 0;
        while i < image_bytes.len()
            invariant
                i <= image_bytes@.len(),
                out@ == image_bytes@.take(i as int),
            decreases image_bytes@.len() - i,
        {
            out.push(image_bytes[i]);
            proof {
                assert(image_bytes@.take(i + 1) =~= image_bytes@.take(i as int).push(
                    image_bytes@[i as int],
                ));
            }
            i = i + 1;
        }
        proof {
            assert(image_bytes@.take(image_bytes@.len() as int) =~= image_bytes@);
        }
        return Ok(out);
    }
    let img = match decode_image(image_bytes) {
        Ok(img) => img,
        Err(e) => {
            return Err(
                ThumbnailError::DecodeError(
                    String::from_str("Failed to decode for orientation: ").concat(e.as_str()),
                ),
            );
        },
    };
    let corrected = apply_orientation_to_image(img, orientation);
    match encode_jpeg(&corrected) {
        Ok(out) => Ok(out),
        Err(e) => Err(ThumbnailError::EncodeError(e)),
    }
}

/// How an embedded thumbnail's intrinsic size relates to the target size.
#[derive(Debug, Clone, Copy, PartialEq, Eq, Structural)]
pub enum FitDecision {
    /// At most the target in both dimensions: use the bytes unchanged.
    UseAsIs,
    /// Larger, but within four times the target in both dimensions:
    /// downscale and re-encode, still cheaper than a full decode.
    Downscale,
    /// More than four times the target in a dimension: not worth
    /// re-encoding; fall back to the full decode.
    TooLarge,
}

/// The embedded-thumbnail policy on sizes.
pub open spec fn spec_fit_decision(w: u32, h: u32, spec: ThumbnailSpec) -> FitDecision {
    if w <= spec.width && h <= spec.height {
        FitDecision::UseAsIs
    } else if w <= 4 * spec.width && h <= 4 * spec.height {
        FitDecision::Downscale
    } else {
        FitDecision::TooLarge
    }
}

/// Decides what to do with an embedded thumbnail of intrinsic size
/// `w` x `h` against a target size.
pub fn embedded_fit_decision(w: u32, h: u32, spec: &ThumbnailSpec) -> (r: FitDecision)
    ensures
        r == spec_fit_decision(w, h, *spec),
{
    if w <= spec.width && h <= spec.height {
        FitDecision::UseAsIs
    } else if (w as u64) <= 4 * (spec.width as u64) && (h as u64) <= 4 * (spec.height as u64) {
        FitDecision::Downscale
    } else {
        FitDecision::TooLarge
    }
}

/// The pixel dimensions of an image.
#[derive(Debug, Clone, Copy, PartialEq, Eq, Structural)]
pub struct ImageDimensions {
    pub width: u32,
    pub height: u32,
}

/// Decodes image bytes and reports their intrinsic dimensions.
pub fn get_dimensions(data: &[u8]) -> (r: Result<ImageDimensions, CoreError>)
    ensures
        r is Ok <==> decodable(data@),
        r is Ok ==> r->Ok_0.width == image_width(image_of(data@)) && r->Ok_0.height
            == image_height(image_of(data@)),
        r is Err ==> r->Err_0 is ImageDecode,
{
    match decode_image(data) {
        Ok(img) => {
            let width = width_of(&img);
            let height = height_of(&img);
            Ok(ImageDimensions { width, height })
        },
        Err(_) => Err(CoreError::ImageDecode),
    }
}

} // verus!
