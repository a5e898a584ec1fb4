use vstd::prelude::*;
use vstd::string::StringExecFns;

use crate::errors::ThumbnailError;
use crate::imaging::{
    decodable, decode_image, encode_jpeg, height_of, image_height, image_of, image_width,
    jpeg_bytes_of, spec_fit_decision, embedded_fit_decision, thumbnail_image, thumbnail_of,
    width_of, FitDecision,
};
use crate::jpegscan::{
    find_jpeg_tiff_header_offset, is_tiff_based, read_range, spec_find_tiff_header, spec_is_tiff,
};
use crate::keys::ThumbnailSpec;
use crate::paths::{is_raw_file, spec_is_raw_path};
use crate::rawscan::{
    spec_try_raw_scan, try_extract_raw_preview, RAW_SCAN_START,
};

verus! {

#[verifier::external_type_specification]
#[verifier::external_body]
pub struct ExExif(exif::Exif);

/// Whether exif::Reader::read_from_container accepts these bytes; the
/// outcome is a function of the bytes alone.
pub uninterp spec fn exif_parseable(bytes: Seq<u8>) -> bool;

/// The parsed EXIF structure that exif::Reader::read_from_container
/// yields for these bytes.
pub uninterp spec fn exif_of(bytes: Seq<u8>) -> exif::Exif;

/// The first unsigned-integer value of a TIFF-context tag in the primary
/// (`false`) or thumbnail (`true`) image file directory, as
/// exif::Exif::get_field and exif::Value::get_uint report it.
pub uninterp spec fn exif_field_uint(e: exif::Exif, tag: u16, thumbnail_ifd: bool) -> Option<u32>;

/// The EXIF orientation tag.
pub const TAG_ORIENTATION: u16 = 0x112;

/// The EXIF tag giving the embedded thumbnail's offset, relative to the
/// TIFF header.
pub const TAG_THUMB_OFFSET: u16 = 0x201;

/// The EXIF tag giving the embedded thumbnail's byte length.
pub const TAG_THUMB_LENGTH: u16 = 0x202;

/// Relies on exif::Reader::read_from_container: EXIF parsing is a
/// deterministic function of the bytes, succeeding exactly on streams
/// whose container and TIFF structure the reader accepts.
#[verifier::external_body]
pub fn parse_exif(bytes: &[u8]) -> (r: Result<exif::Exif, String>)
    ensures
        r is Ok <==> exif_parseable(bytes@),
        r is Ok ==> r->Ok_0 == exif_of(bytes@),
{
    exif::Reader::new().read_from_container(&mut std::io::Cursor::new(bytes)).map_err(
        |e| e.to_string(),
    )
}

/// Relies on exif::Exif::get_field and exif::Value::get_uint: looks a
/// TIFF-context tag up in the chosen image file directory and reads its
/// first value as an unsigned integer.
#[verifier::external_body]
pub fn exif_uint(e: &exif::Exif, tag: u16, thumbnail_ifd: bool) -> (r: Option<u32>)
    ensures
        r == exif_field_uint(*e, tag, thumbnail_ifd),
{
    let ifd = if thumbnail_ifd {
        exif::In::THUMBNAIL
    } else {
        exif::In::PRIMARY
    };
    match e.get_field(exif::Tag(exif::Context::Tiff, tag), ifd) {
        Some(f) => f.value.get_uint(0),
        None => None,
    }
}

/// The orientation the EXIF data gives: the primary directory's tag when
/// present, else the thumbnail directory's (some RAW files only populate
/// the latter), else nothing.
pub open spec fn spec_orientation_of(bytes: Seq<u8>) -> Option<u32> {
    if !exif_parseable(bytes) {
        None
    } else if exif_field_uint(exif_of(bytes), TAG_ORIENTATION, false) is Some {
        exif_field_uint(exif_of(bytes), TAG_ORIENTATION, false)
    } else {
        exif_field_uint(exif_of(bytes), TAG_ORIENTATION, true)
    }
}

/// Reads the EXIF orientation from an in-memory file prefix, trying the
/// primary and then the thumbnail image file directory.
pub fn resolve_orientation(prefix: &[u8]) -> (r: Option<u32>)
    ensures
        r == spec_orientation_of(prefix@),
{
    let e = match parse_exif(prefix) {
        Ok(e) => e,
        Err(_) => {
            return None;
        },
    };
    match exif_uint(&e, TAG_ORIENTATION, false) {
        Some(v) => Some(v),
        None => exif_uint(&e, TAG_ORIENTATION, true),
    }
}

/// The embedded thumbnail's (offset, length) field pair: the thumbnail
/// directory's pair when complete, else the primary directory's (RAW
/// files vary), else nothing.
pub open spec fn spec_thumb_fields(bytes: Seq<u8>) -> Option<(u32, u32)> {
    if !exif_parseable(bytes) {
        None
    } else {
        let e = exif_of(bytes);
        let t_off = exif_field_uint(e, TAG_THUMB_OFFSET, true);
        let t_len = exif_field_uint(e, TAG_THUMB_LENGTH, true);
        if t_off is Some && t_len is Some {
            Some((t_off->0, t_len->0))
        } else {
            let p_off = exif_field_uint(e, TAG_THUMB_OFFSET, false);
            let p_len = exif_field_uint(e, TAG_THUMB_LENGTH, false);
            if p_off is Some && p_len is Some {
                Some((p_off->0, p_len->0))
            } else {
                None
            }
        }
    }
}

/// Reads the embedded thumbnail's offset and length fields from an
/// in-memory file prefix.
pub fn thumbnail_fields(prefix: &[u8]) -> (r: Option<(u32, u32)>)
    ensures
        r == spec_thumb_fields(prefix@),
{
    let e = match parse_exif(prefix) {
        Ok(e) => e,
        Err(_) => {
            return None;
        },
    };
    let t_off = exif_uint(&e, TAG_THUMB_OFFSET, true);
    let t_len = exif_uint(&e, TAG_THUMB_LENGTH, true);
    match (t_off, t_len) {
        (Some(o), Some(l)) => Some((o, l)),
        _ => {
            let p_off = exif_uint(&e, TAG_THUMB_OFFSET, false);
            let p_len = exif_uint(&e, TAG_THUMB_LENGTH, false);
            match (p_off, p_len) {
                (Some(o), Some(l)) => Some((o, l)),
                _ => None,
            }
        },
    }
}

/// Where the embedded thumbnail lies in the file, absolutely: the EXIF
/// offset field is relative to the TIFF header, which for a TIFF-based
/// (RAW) file is byte 0 and for a JPEG sits inside the APP1 segment.
pub open spec fn spec_locate_thumbnail(bytes: Seq<u8>) -> Option<(int, u32)> {
    match spec_thumb_fields(bytes) {
        None => None,
        Some((off, len)) => {
            if spec_is_tiff(bytes) {
                Some((off as int, len))
            } else {
                match spec_find_tiff_header(bytes) {
                    None => None,
                    Some(h) => Some((h + off, len)),
                }
            }
        },
    }
}

/// Resolves the absolute offset and length of the embedded thumbnail
/// from an in-memory file prefix, or nothing when the fields are absent,
/// the APP1 walk fails, or the offset overflows the machine.
pub fn locate_embedded_thumbnail(prefix: &[u8]) -> (r: Option<(usize, u32)>)
    requires
        prefix@.len() <= usize::MAX - 0x10010,
    ensures
        r matches Some(p) ==> (spec_locate_thumbnail(prefix@) matches Some(q) && p.0 as int == q.0
            && p.1 == q.1),
        r is None ==> (spec_locate_thumbnail(prefix@) is None || (spec_locate_thumbnail(prefix@)
            matches Some(q) && q.0 > usize::MAX)),
{
    match thumbnail_fields(prefix) {
        None => None,
        Some((off, len)) => {
            if is_tiff_based(prefix) {
                Some((off as usize, len))
            } else {
                match find_jpeg_tiff_header_offset(prefix) {
                    Ok(h) => match h.checked_add(off as usize) {
                        Some(abs) => Some((abs, len)),
                        None => None,
                    },
                    Err(_) => None,
                }
            }
        },
    }
}

/// The embedded thumbnail's bytes when its resolved range lies inside
/// the buffer.
pub open spec fn spec_embedded_thumb_bytes(bytes: Seq<u8>) -> Option<Seq<u8>> {
    match spec_locate_thumbnail(bytes) {
        None => None,
        Some((abs, len)) => {
            if abs + len <= bytes.len() {
                Some(bytes.subrange(abs, abs + len))
            } else {
                None
            }
        },
    }
}

/// Sizes an extracted embedded thumbnail to the target: bytes that
/// already fit are handed back untouched, moderately larger ones are
/// downscaled and re-encoded, and anything beyond four times the target
/// is rejected so the caller falls back to a full decode.
pub fn finish_embedded_thumbnail(thumb_data: Vec<u8>, spec: &ThumbnailSpec) -> (r: Result<
    Vec<u8>,
    ThumbnailError,
>)
    ensures
        !decodable(thumb_data@) ==> r is Err && r->Err_0 is DecodeError,
        decodable(thumb_data@) ==> {
            let img = image_of(thumb_data@);
            let fit = spec_fit_decision(image_width(img), image_height(img), *spec);
            &&& fit is UseAsIs ==> r is Ok && r->Ok_0@ == thumb_data@
            &&& fit is Downscale ==> (r is Ok ==> r->Ok_0@ == jpeg_bytes_of(
                thumbnail_of(img, spec.width, spec.height),
            )) && (r is Err ==> r->Err_0 is EncodeError)
            &&& fit is TooLarge ==> r is Err && r->Err_0 is DecodeError
        },
{
    let img = match decode_image(thumb_data.as_slice()) {
        Ok(img) => img,
        Err(e) => {
            return Err(
                ThumbnailError::DecodeError(
                    String::from_str("Embedded thumb decode failed: ").concat(e.as_str()),
                ),
            );
        },
    };
    let w = width_of(&img);
    let h = height_of(&img);
    match embedded_fit_decision(w, h, spec) {
        FitDecision::UseAsIs => Ok(thumb_data),
        FitDecision::Downscale => {
            let resized = thumbnail_image(&img, spec.width, spec.height);
            match encode_jpeg(&resized) {
                Ok(out) => Ok(out),
                Err(e) => Err(ThumbnailError::EncodeError(e)),
            }
        },
        FitDecision::TooLarge => Err(
            ThumbnailError::DecodeError(String::from_str("No suitable embedded thumbnail")),
        ),
    }
}

/// Extracts an embedded EXIF thumbnail from a file's bytes and sizes it
/// to the target.
///
/// The thumbnail's offset field is resolved relative to the TIFF header
/// (byte 0 for TIFF-based RAW files, the APP1 segment's header for
/// JPEG). A RAW file without the standard tags falls back to a byte scan
/// for embedded JPEG previews; everything else without a usable
/// thumbnail is an error, so the caller can fall back to a full decode.
pub fn try_extract_embedded_thumbnail(path: &str, data: &[u8], spec: &ThumbnailSpec) -> (r: Result<
    Vec<u8>,
    ThumbnailError,
>)
    requires
        data@.len() <= usize::MAX - 0x10010,
    ensures
        r is Err ==> r->Err_0 is DecodeError || r->Err_0 is EncodeError,
        !exif_parseable(data@) ==> r is Err && r->Err_0 is DecodeError,
        exif_parseable(data@) && spec_thumb_fields(data@) is Some && spec_embedded_thumb_bytes(
            data@,
        ) is Some ==> {
            let td = spec_embedded_thumb_bytes(data@)->0;
            let img = image_of(td);
            let fit = spec_fit_decision(image_width(img), image_height(img), *spec);
            &&& !decodable(td) ==> r is Err && r->Err_0 is DecodeError
            &&& decodable(td) && fit is UseAsIs ==> r is Ok && r->Ok_0@ == td
            &&& decodable(td) && fit is Downscale ==> (r is Ok ==> r->Ok_0@ == jpeg_bytes_of(
                thumbnail_of(img, spec.width, spec.height),
            )) && (r is Err ==> r->Err_0 is EncodeError)
            &&& decodable(td) && fit is TooLarge ==> r is Err && r->Err_0 is DecodeError
        },
        exif_parseable(data@) && spec_thumb_fields(data@) is None && spec_is_raw_path(path@)
            && spec_try_raw_scan(data@, RAW_SCAN_START as int, None) is Some ==> {
            let d = spec_try_raw_scan(data@, RAW_SCAN_START as int, None)->0;
            let img = image_of(d);
            &&& (image_width(img) <= spec.width && image_height(img) <= spec.height) ==> r
                is Ok && r->Ok_0@ == d
            &&& !(image_width(img) <= spec.width && image_height(img) <= spec.height) ==> (r
                is Ok ==> r->Ok_0@ == jpeg_bytes_of(thumbnail_of(img, spec.width, spec.height)))
        },
        exif_parseable(data@) && spec_thumb_fields(data@) is Some && spec_embedded_thumb_bytes(
            data@,
        ) is None ==> r is Err && r->Err_0 is DecodeError,
        exif_parseable(data@) && spec_thumb_fields(data@) is None && spec_is_raw_path(path@)
            && spec_try_raw_scan(data@, RAW_SCAN_START as int, None) is None ==> r is Err
            && r->Err_0 is DecodeError,
        exif_parseable(data@) && spec_thumb_fields(data@) is None && !spec_is_raw_path(path@)
            ==> r is Err && r->Err_0 is DecodeError,
{
    if parse_exif(data).is_err() {
        return Err(ThumbnailError::DecodeError(String::from_str("No EXIF")));
    }
    match thumbnail_fields(data) {
        Some((off, len)) => {
            let abs: usize = if is_tiff_based(data) {
                off as usize
            } else {
                let h = match find_jpeg_tiff_header_offset(data) {
                    Ok(h) => h,
                    Err(e) => {
                        return Err(e);
                    },
                };
                match h.checked_add(off as usize) {
                    Some(a) => a,
                    None => {
                        return Err(
                            ThumbnailError::DecodeError(
                                String::from_str("Invalid thumbnail offset"),
                            ),
                        );
                    },
                }
            };
            match read_range(data, abs, len as usize) {
                Some(td) => finish_embedded_thumbnail(td, spec),
                None => Err(
                    ThumbnailError::DecodeError(
                        String::from_str("Embedded thumbnail out of range"),
                    ),
                ),
            }
        },
        None => {
            if is_raw_file(path) {
                match try_extract_raw_preview(data, spec) {
                    Ok(p) => Ok(p),
                    Err(_) => Err(
                        ThumbnailError::DecodeError(
                            String::from_str("No suitable embedded thumbnail"),
                        ),
                    ),
                }
            } else {
                Err(
                    ThumbnailError::DecodeError(
                        String::from_str("No suitable embedded thumbnail"),
                    ),
                )
            }
        },
    }
}

} // verus!
