use vstd::prelude::*;
use vstd::string::StringExecFns;

use crate::errors::ThumbnailError;

verus! {

/// True when the bytes open with the JPEG start-of-image marker.
pub open spec fn spec_is_jpeg(bytes: Seq<u8>) -> bool {
    bytes.len() >= 2 && bytes[0] == 0xffu8 && bytes[1] == 0xd8u8
}

/// True when the bytes open with a TIFF byte-order mark (`II` or `MM`),
/// which covers the RAW formats built on TIFF.
pub open spec fn spec_is_tiff(bytes: Seq<u8>) -> bool {
    bytes.len() >= 2 && ((bytes[0] == 0x49u8 && bytes[1] == 0x49u8) || (bytes[0] == 0x4du8
        && bytes[1] == 0x4du8))
}

/// True when the bytes open with the JPEG start-of-image marker.
pub fn is_jpeg_bytes(bytes: &[u8]) -> (r: bool)
    ensures
        r == spec_is_jpeg(bytes@),
{
    bytes.len() >= 2 && bytes[0] == 0xff && bytes[1] == 0xd8
}

/// True when the bytes open with a TIFF byte-order mark; the content-based
/// counterpart of the extension test for RAW files.
pub fn is_tiff_based(bytes: &[u8]) -> (r: bool)
    ensures
        r == spec_is_tiff(bytes@),
{
    bytes.len() >= 2 && ((bytes[0] == 0x49 && bytes[1] == 0x49) || (bytes[0] == 0x4d && bytes[1]
        == 0x4d))
}

/// True when the six bytes at `pos` spell the EXIF signature `Exif\0\0`.
pub open spec fn exif_sig_at(bytes: Seq<u8>, pos: int) -> bool {
    &&& 0 <= pos
    &&& pos + 6 <= bytes.len()
    &&& bytes[pos] == 0x45u8
    &&& bytes[pos + 1] == 0x78u8
    &&& bytes[pos + 2] == 0x69u8
    &&& bytes[pos + 3] == 0x66u8
    &&& bytes[pos + 4] == 0x00u8
    &&& bytes[pos + 5] == 0x00u8
}

/// The marker walk over a JPEG's segments, starting at `pos`: the offset
/// just after an APP1 segment's `Exif\0\0` signature, where the TIFF
/// header begins, or `None` when end-of-image or start-of-scan comes
/// first or the stream is malformed or exhausted.
pub open spec fn spec_scan_app1(bytes: Seq<u8>, pos: int) -> Option<int>
    decreases bytes.len() - pos,
{
    if pos < 0 || pos + 2 > bytes.len() {
        None
    } else if bytes[pos] != 0xffu8 {
        None
    } else if bytes[pos + 1] == 0xe1u8 {
        if pos + 10 > bytes.len() {
            None
        } else if exif_sig_at(bytes, pos + 4) {
            Some(pos + 10)
        } else {
            spec_scan_app1(bytes, pos + 10)
        }
    } else if bytes[pos + 1] == 0xd9u8 || bytes[pos + 1] == 0xdau8 {
        None
    } else if (0xe0u8 <= bytes[pos + 1] && bytes[pos + 1] <= 0xefu8) || bytes[pos + 1]
        == 0xfeu8 {
        if pos + 4 > bytes.len() {
            None
        } else {
            let seg = bytes[pos + 2] * 256 + bytes[pos + 3];
            if seg < 2 || pos + 2 + seg > bytes.len() {
                None
            } else {
                spec_scan_app1(bytes, pos + 2 + seg)
            }
        }
    } else {
        spec_scan_app1(bytes, pos + 2)
    }
}

/// Where the TIFF header starts inside a JPEG byte stream: just after the
/// `Exif\0\0` signature of the first APP1 segment that carries it.
pub open spec fn spec_find_tiff_header(bytes: Seq<u8>) -> Option<int> {
    if !spec_is_jpeg(bytes) {
        None
    } else {
        spec_scan_app1(bytes, 2)
    }
}

/// Walks a JPEG's APP/COM segments for the APP1 segment holding the EXIF
/// block and returns the absolute offset of the TIFF header inside it.
///
/// Reaching end-of-image or start-of-scan first is a "no EXIF" failure,
/// not a panic; so is any malformed marker structure.
pub fn find_jpeg_tiff_header_offset(bytes: &[u8]) -> (r: Result<usize, ThumbnailError>)
    requires
        bytes@.len() <= usize::MAX - 0x10010,
    ensures
        r is Ok <==> spec_find_tiff_header(bytes@) is Some,
        r is Ok ==> r->Ok_0 as int == spec_find_tiff_header(bytes@)->0,
        r is Err ==> r->Err_0 is DecodeError,
{
    let n = bytes.len();
    if !(n >= 2 && bytes[0] == 0xff && bytes[1] == 0xd8) {
        return Err(ThumbnailError::DecodeError(String::from_str("Not a JPEG file")));
    }
    let mut pos: usize = 2;
    while pos + 2 <= n
        invariant
            2 <= pos,
            pos <= n + 8,
            n == bytes@.len(),
            n <= usize::MAX - 0x10010,
            spec_is_jpeg(bytes@),
            spec_scan_app1(bytes@, 2) == spec_scan_app1(bytes@, pos as int),
        decreases n + 8 - pos,
    {
        let m0 = bytes[pos];
        let m1 = bytes[pos + 1];
        if m0 != 0xff {
            return Err(ThumbnailError::DecodeError(String::from_str("Invalid JPEG marker")));
        }
        if m1 == 0xe1 {
            if pos + 10 > n {
                return Err(ThumbnailError::DecodeError(String::from_str("EXIF APP1 not found")));
            }
            if bytes[pos + 4] == 0x45 && bytes[pos + 5] == 0x78 && bytes[pos + 6] == 0x69
                && bytes[pos + 7] == 0x66 && bytes[pos + 8] == 0x00 && bytes[pos + 9] == 0x00 {
                proof {
                    assert(exif_sig_at(bytes@, pos as int + 4));
                    assert(spec_scan_app1(bytes@, pos as int) == Some(pos as int + 10));
                }
                return Ok(pos + 10);
            }
            pos = pos + 10;
        } else if m1 == 0xd9 || m1 == 0xda {
            return Err(ThumbnailError::DecodeError(String::from_str("EXIF APP1 not found")));
        } else if (0xe0 <= m1 && m1 <= 0xef) || m1 == 0xfe {
            if pos + 4 > n {
                return Err(ThumbnailError::DecodeError(String::from_str("EXIF APP1 not found")));
            }
            let seg: usize = (bytes[pos + 2] as usize) * 256 + (bytes[pos + 3] as usize);
            if seg < 2 || seg - 2 > n - (pos + 4) {
                return Err(ThumbnailError::DecodeError(String::from_str("EXIF APP1 not found")));
            }
            pos = pos + 4 + (seg - 2);
        } else {
            pos = pos + 2;
        }
    }
    Err(ThumbnailError::DecodeError(String::from_str("EXIF APP1 not found")))
}

/// Resolves the absolute file offset of an embedded thumbnail from the
/// EXIF offset field, which is always relative to the TIFF header: for a
/// TIFF-based (RAW) file the header is the start of the file, and for a
/// JPEG it sits inside the APP1 segment at `jpeg_header_offset`.
pub fn resolve_absolute_offset(container_is_tiff: bool, jpeg_header_offset: usize, tiff_offset: u32) -> (r:
    Option<usize>)
    ensures
        container_is_tiff ==> r == Some(tiff_offset as usize),
        !container_is_tiff ==> ((r is Some <==> jpeg_header_offset + tiff_offset
            <= usize::MAX) && (r is Some ==> r->0 == jpeg_header_offset + tiff_offset)),
{
    if container_is_tiff {
        Some(tiff_offset as usize)
    } else {
        jpeg_header_offset.checked_add(tiff_offset as usize)
    }
}

/// Copies `len` bytes at `start` out of an in-memory buffer, or reports
/// that the range lies (partly) beyond it.
pub fn read_range(bytes: &[u8], start: usize, len: usize) -> (r: Option<Vec<u8>>)
    ensures
        r is Some <==> start + len <= bytes@.len(),
        r is Some ==> r->0@ == bytes@.subrange(start as int, start as int + len as int),
{
    if start > bytes.len() || len > bytes.len() - start {
        return None;
    }
    let mut out: Vec<u8> = Vec::new();
    let mut i: usize = 0;
    while i < len
        invariant
            i <= len,
            start + len <= bytes@.len(),
            bytes@.len() <= usize::MAX,
            out@ == bytes@.subrange(start as int, start as int + i as int),
        decreases len - i,
    {
        proof {
            assert(start + i < bytes@.len());
        }
        out.push(bytes[start + i]);
        proof {
            assert(bytes@.subrange(start as int, start as int + (i + 1) as int) =~= bytes@.subrange(
                start as int,
                start as int + i as int,
            ).push(bytes@[start as int + i as int]));
        }
        i = i + 1;
    }
    Some(out)
}

} // verus!
