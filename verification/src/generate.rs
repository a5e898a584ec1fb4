use vstd::prelude::*;
use vstd::string::StringExecFns;

use crate::errors::ThumbnailError;
use crate::exifdata::{
    exif_parseable, resolve_orientation, spec_embedded_thumb_bytes, spec_orientation_of,
    spec_thumb_fields, try_extract_embedded_thumbnail,
};
use crate::imaging::{
    apply_orientation_correction, apply_orientation_to_image, decodable, decode_image,
    encode_jpeg, image_height, image_of, image_width, jpeg_bytes_of, spec_apply_orientation,
    spec_fit_decision, thumbnail_image, thumbnail_of, FitDecision,
};
use crate::keys::ThumbnailSpec;
use crate::paths::{is_raw_file, spec_is_raw_path};
use crate::rawscan::{spec_try_raw_scan, RAW_SCAN_START};

verus! {

/// Produces the thumbnail bytes for a photo: the embedded EXIF thumbnail
/// when one is usable (the fast path, with orientation correction), else
/// a full decode, orientation correction, downscale and JPEG re-encode.
/// For RAW files the embedded path is the only one: a general decoder
/// cannot read them, so its failure is final.
pub fn generate_thumbnail_bytes(path: &str, data: &[u8], spec: &ThumbnailSpec) -> (r: Result<
    Vec<u8>,
    ThumbnailError,
>)
    requires
        data@.len() <= usize::MAX - 0x10010,
    ensures
        r is Err ==> r->Err_0 is DecodeError || r->Err_0 is EncodeError,
        // The critical fast path, pinned end to end: a parseable EXIF whose
        // thumbnail fields resolve to an in-buffer, decodable payload that
        // already fits the target, with no orientation to correct, comes
        // back byte-identical.
        spec_embedded_thumb_bytes(data@) matches Some(td) ==> ((exif_parseable(data@)
            && spec_thumb_fields(data@) is Some && decodable(td) && spec_fit_decision(
            image_width(image_of(td)),
            image_height(image_of(td)),
            *spec,
        ) is UseAsIs && (spec_orientation_of(data@) is None || spec_orientation_of(data@)->0
            <= 1)) ==> r is Ok && r->Ok_0@ == td),
        // A RAW file whose embedded path yields nothing cannot be decoded
        // any other way.
        spec_is_raw_path(path@) && (!exif_parseable(data@) || (spec_thumb_fields(data@) is Some
            && spec_embedded_thumb_bytes(data@) is None) || (spec_thumb_fields(data@) is None
            && spec_try_raw_scan(data@, RAW_SCAN_START as int, None) is None)) ==> r is Err
            && r->Err_0 is DecodeError,
        // A standard-format file without a usable embedded thumbnail whose
        // bytes do not decode is an error.
        !spec_is_raw_path(path@) && (!exif_parseable(data@) || (spec_thumb_fields(data@) is Some
            && spec_embedded_thumb_bytes(data@) is None) || spec_thumb_fields(data@) is None)
            && !decodable(data@) ==> r is Err && r->Err_0 is DecodeError,
        // The slow path, pinned up to the opaque encoder: full decode,
        // orientation, bounded downscale, JPEG re-encode.
        !spec_is_raw_path(path@) && (!exif_parseable(data@) || (spec_thumb_fields(data@) is Some
            && spec_embedded_thumb_bytes(data@) is None) || spec_thumb_fields(data@) is None)
            && decodable(data@) ==> {
            let corrected = match spec_orientation_of(data@) {
                Some(o) => spec_apply_orientation(image_of(data@), o),
                None => image_of(data@),
            };
            &&& r is Ok ==> r->Ok_0@ == jpeg_bytes_of(
                thumbnail_of(corrected, spec.width, spec.height),
            )
            &&& r is Err ==> r->Err_0 is EncodeError
        },
{
    let orientation = resolve_orientation(data);
    match try_extract_embedded_thumbnail(path, data, spec) {
        Ok(embedded) => {
            match orientation {
                Some(o) => {
                    if o > 1 {
                        apply_orientation_correction(embedded.as_slice(), o)
                    } else {
                        Ok(embedded)
                    }
                },
                None => Ok(embedded),
            }
        },
        Err(_) => {
            if is_raw_file(path) {
                return Err(
                    ThumbnailError::DecodeError(
                        String::from_str("RAW file has no extractable embedded thumbnail"),
                    ),
                );
            }
            let img = match decode_image(data) {
                Ok(img) => img,
                Err(e) => {
                    return Err(ThumbnailError::DecodeError(e));
                },
            };
            let corrected = match orientation {
                Some(o) => apply_orientation_to_image(img, o),
                None => img,
            };
            let thumb = thumbnail_image(&corrected, spec.width, spec.height);
            match encode_jpeg(&thumb) {
                Ok(out) => Ok(out),
                Err(e) => Err(ThumbnailError::EncodeError(e)),
            }
        },
    }
}

} // verus!
