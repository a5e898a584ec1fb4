use vstd::prelude::*;
use vstd::bytes::{spec_u64_to_le_bytes, u64_to_le_bytes};
use vstd::string::{StringExecFns, StringSliceAdditionalSpecFns};
use vstd::utf8::encode_utf8;

use crate::errors::CoreError;
use crate::exifdata::{
    exif_field_uint, exif_of, exif_parseable, exif_uint, parse_exif, TAG_THUMB_LENGTH,
    TAG_THUMB_OFFSET,
};
use crate::hashes::{fnv1a_64, spec_fnv1a, FNV_OFFSET_BASIS};
use crate::hex::{hex16, spec_hex16};
use crate::imaging::{decodable, decode_image, image_of};
use crate::jpegscan::{
    find_jpeg_tiff_header_offset, is_tiff_based, read_range, spec_find_tiff_header, spec_is_tiff,
};
use crate::paths::{is_raw_file, spec_is_raw_path};

verus! {

/// The base64 rendering of image_hasher's 8x8 gradient perceptual hash
/// of an image; a function of the image alone.
pub uninterp spec fn phash_of(img: image::DynamicImage) -> Seq<char>;

/// Relies on image_hasher's HasherConfig, Hasher::hash_image and
/// ImageHash::to_base64: computes the 8x8 gradient perceptual hash of
/// the image and renders it as base64.
#[verifier::external_body]
pub fn phash_base64(img: &image::DynamicImage) -> (r: String)
    ensures
        r@ == phash_of(*img),
{
    let hasher = image_hasher::HasherConfig::new().hash_alg(
        image_hasher::HashAlg::Gradient,
    ).hash_size(8, 8).to_hasher();
    hasher.hash_image(img).to_base64()
}

/// The 64-bit file-identity value: FNV-1a over the path's UTF-8 bytes,
/// then over the file size as little-endian bytes.
pub open spec fn spec_file_hash_value(path: Seq<char>, size: u64) -> u64 {
    spec_fnv1a(spec_u64_to_le_bytes(size), spec_fnv1a(encode_utf8(path), FNV_OFFSET_BASIS))
}

/// The file-identity digest: the literal `file:` followed by 16 hex
/// digits of the identity value.
pub open spec fn spec_file_hash_digest(path: Seq<char>, size: u64) -> Seq<char> {
    "file:"@ + spec_hex16(spec_file_hash_value(path, size))
}

/// The degraded-but-stable identity digest for files that cannot be
/// decoded: derived from the path string and the file size alone.
pub fn compute_file_hash(path: &str, size: u64) -> (r: String)
    ensures
        r@ == spec_file_hash_digest(path@, size),
{
    let mut h = fnv1a_64(path.as_bytes(), FNV_OFFSET_BASIS);
    let sb = u64_to_le_bytes(size);
    h = fnv1a_64(sb.as_slice(), h);
    let hex = hex16(h);
    String::from_str("file:").concat(hex.as_str())
}

/// The embedded thumbnail's (offset, length) pair as the hash pipeline
/// reads it: from the thumbnail image file directory alone.
pub open spec fn spec_hash_thumb_fields(bytes: Seq<u8>) -> Option<(u32, u32)> {
    if !exif_parseable(bytes) {
        None
    } else {
        let off = exif_field_uint(exif_of(bytes), TAG_THUMB_OFFSET, true);
        let len = exif_field_uint(exif_of(bytes), TAG_THUMB_LENGTH, true);
        if off is Some && len is Some {
            Some((off->0, len->0))
        } else {
            None
        }
    }
}

/// The embedded thumbnail bytes the hash pipeline reads, when the fields
/// are present and the resolved absolute range lies inside the buffer.
pub open spec fn spec_hash_thumb_bytes(bytes: Seq<u8>) -> Option<Seq<u8>> {
    match spec_hash_thumb_fields(bytes) {
        None => None,
        Some((off, len)) => {
            if spec_is_tiff(bytes) {
                if off + len <= bytes.len() {
                    Some(bytes.subrange(off as int, off + len))
                } else {
                    None
                }
            } else {
                match spec_find_tiff_header(bytes) {
                    None => None,
                    Some(h) => {
                        if h + off + len <= bytes.len() {
                            Some(bytes.subrange(h + off, h + off + len))
                        } else {
                            None
                        }
                    },
                }
            }
        },
    }
}

/// True when the fast thumbnail path yields nothing the hasher can use.
pub open spec fn spec_thumb_hash_unavailable(bytes: Seq<u8>) -> bool {
    match spec_hash_thumb_bytes(bytes) {
        None => true,
        Some(td) => !decodable(td),
    }
}

/// Extracts the embedded EXIF thumbnail bytes for the hash pipeline:
/// thumbnail directory tags only, offset resolved relative to the TIFF
/// header.
pub fn try_extract_thumbnail_data(data: &[u8]) -> (r: Result<Vec<u8>, CoreError>)
    requires
        data@.len() <= usize::MAX - 0x10010,
    ensures
        r is Ok <==> spec_hash_thumb_bytes(data@) is Some,
        r is Ok ==> r->Ok_0@ == spec_hash_thumb_bytes(data@)->0,
        r is Err ==> r->Err_0 is Io,
{
    let e = match parse_exif(data) {
        Ok(e) => e,
        Err(_) => {
            return Err(CoreError::Io(String::from_str("no exif")));
        },
    };
    let off = match exif_uint(&e, TAG_THUMB_OFFSET, true) {
        Some(o) => o,
        None => {
            return Err(CoreError::Io(String::from_str("no thumb offset")));
        },
    };
    let len = match exif_uint(&e, TAG_THUMB_LENGTH, true) {
        Some(l) => l,
        None => {
            return Err(CoreError::Io(String::from_str("no thumb length")));
        },
    };
    let abs: usize = if is_tiff_based(data) {
        off as usize
    } else {
        let h = match find_jpeg_tiff_header_offset(data) {
            Ok(h) => h,
            Err(_) => {
                return Err(CoreError::Io(String::from_str("no exif app1")));
            },
        };
        match h.checked_add(off as usize) {
            Some(a) => a,
            None => {
                return Err(CoreError::Io(String::from_str("invalid offset")));
            },
        }
    };
    match read_range(data, abs, len as usize) {
        Some(td) => Ok(td),
        None => Err(CoreError::Io(String::from_str("read thumb failed"))),
    }
}

/// Computes the content digest of a photo, preferring the cheap paths:
/// the perceptual hash of the embedded EXIF thumbnail when one decodes;
/// for RAW files without one, the file-identity digest (a deliberate,
/// stable degradation, since a general decoder cannot read them); else
/// the perceptual hash of the fully decoded image.
pub fn compute_hash(path: &str, data: &[u8]) -> (r: Result<String, CoreError>)
    requires
        data@.len() <= usize::MAX - 0x10010,
    ensures
        !spec_thumb_hash_unavailable(data@) ==> r is Ok && r->Ok_0@ == phash_of(
            image_of(spec_hash_thumb_bytes(data@)->0),
        ),
        spec_thumb_hash_unavailable(data@) && spec_is_raw_path(path@) ==> r is Ok && r->Ok_0@
            == spec_file_hash_digest(path@, data@.len() as u64),
        spec_thumb_hash_unavailable(data@) && !spec_is_raw_path(path@) && decodable(data@) ==> r
            is Ok && r->Ok_0@ == phash_of(image_of(data@)),
        spec_thumb_hash_unavailable(data@) && !spec_is_raw_path(path@) && !decodable(data@) ==> r
            is Err && r->Err_0 is ImageDecode,
{
    match try_extract_thumbnail_data(data) {
        Ok(td) => {
            match decode_image(td.as_slice()) {
                Ok(img) => {
                    return Ok(phash_base64(&img));
                },
                Err(_) => {},
            }
        },
        Err(_) => {},
    }
    if is_raw_file(path) {
        return Ok(compute_file_hash(path, data.len() as u64));
    }
    match decode_image(data) {
        Ok(img) => Ok(phash_base64(&img)),
        Err(_) => Err(CoreError::ImageDecode),
    }
}

} // verus!
