use vstd::prelude::*;
use vstd::string::StringExecFns;

use crate::errors::ThumbnailError;
use crate::exifdata::{resolve_orientation, spec_orientation_of};
use crate::imaging::{
    apply_orientation_correction, bytes_decodable, decodable, decode_image, encode_jpeg,
    height_of, image_height, image_of, image_width, jpeg_bytes_of, spec_apply_orientation,
    thumbnail_image, thumbnail_of, width_of,
};
use crate::jpegscan::read_range;
use crate::keys::ThumbnailSpec;
use crate::paths::{is_raw_file, spec_is_raw_path};

verus! {

/// Bytes skipped at the head of a RAW file before scanning (the TIFF
/// header area).
pub const RAW_SCAN_START: usize = 8;

/// A candidate this large is almost certainly the main preview; the scan
/// stops as soon as one is confirmed. An empirically chosen threshold.
pub const GOOD_ENOUGH_SIZE: usize = 500000;

/// The least size for the preferred "good" candidate bucket; smaller
/// candidates only ever serve as a fallback. An empirically chosen
/// threshold.
pub const MIN_GOOD_SIZE: usize = 50000;

/// The least size for a candidate in the spec-directed extraction scan.
pub const MIN_PREVIEW_SIZE: usize = 10000;

/// The most bytes a single candidate may span.
pub const MAX_PREVIEW_SPAN: usize = 20 * 1024 * 1024;

/// Candidate end markers shorter than this are taken for false positives.
pub const MIN_JPEG_END: usize = 1024;

/// How many end markers are tried for one candidate start.
pub const MAX_END_TRIES: usize = 20;

/// True when a JPEG start-of-image signature `FF D8 FF` sits at `p`.
pub open spec fn sig3_at(bytes: Seq<u8>, p: int) -> bool {
    &&& 0 <= p
    &&& p + 3 <= bytes.len()
    &&& bytes[p] == 0xffu8
    &&& bytes[p + 1] == 0xd8u8
    &&& bytes[p + 2] == 0xffu8
}

/// The chosen end (exclusive, relative) of a JPEG candidate within
/// `data`: walking positions from `i`, each `FF D9` pair ends a
/// candidate; the first one at least `MIN_JPEG_END` long whose bytes
/// decode wins, and at most `MAX_END_TRIES` end markers are tried.
pub open spec fn spec_jpeg_end(data: Seq<u8>, i: int, tried: int) -> Option<int>
    decreases data.len() - i,
{
    if i < 2 || i >= data.len() || tried >= MAX_END_TRIES {
        None
    } else if data[i - 1] == 0xffu8 && data[i] == 0xd9u8 {
        if i + 1 >= MIN_JPEG_END && decodable(data.take(i + 1)) {
            Some(i + 1)
        } else {
            spec_jpeg_end(data, i + 1, tried + 1)
        }
    } else {
        spec_jpeg_end(data, i + 1, tried)
    }
}

/// The JPEG candidate delimited from `start` in `bytes`: the bytes from
/// `start` to the first validated end marker, looking at most
/// `MAX_PREVIEW_SPAN` bytes ahead.
pub open spec fn spec_extract_jpeg_at(bytes: Seq<u8>, start: int) -> Option<Seq<u8>> {
    let cap = if bytes.len() - start <= MAX_PREVIEW_SPAN {
        bytes.len() - start
    } else {
        MAX_PREVIEW_SPAN as int
    };
    let data = bytes.subrange(start, start + cap);
    match spec_jpeg_end(data, 2, 0) {
        Some(e) => Some(data.take(e)),
        None => None,
    }
}

/// A chosen candidate always decodes: the end search only ever settles on
/// a range that was validated by decoding it.
pub proof fn lemma_jpeg_end_decodable(data: Seq<u8>, i: int, tried: int)
    requires
        spec_jpeg_end(data, i, tried) is Some,
    ensures
        decodable(data.take(spec_jpeg_end(data, i, tried)->0)),
    decreases data.len() - i,
{
    if !(i < 2 || i >= data.len() || tried >= MAX_END_TRIES) {
        if data[i - 1] == 0xffu8 && data[i] == 0xd9u8 {
            if i + 1 >= MIN_JPEG_END && decodable(data.take(i + 1)) {
            } else {
                lemma_jpeg_end_decodable(data, i + 1, tried + 1);
            }
        } else {
            lemma_jpeg_end_decodable(data, i + 1, tried);
        }
    }
}

/// An extracted candidate always decodes.
pub proof fn lemma_extract_decodable(bytes: Seq<u8>, start: int)
    requires
        spec_extract_jpeg_at(bytes, start) is Some,
    ensures
        decodable(spec_extract_jpeg_at(bytes, start)->0),
{
    let cap = if bytes.len() - start <= MAX_PREVIEW_SPAN {
        bytes.len() - start
    } else {
        MAX_PREVIEW_SPAN as int
    };
    let data = bytes.subrange(start, start + cap);
    lemma_jpeg_end_decodable(data, 2, 0);
}

/// Delimits a complete JPEG starting at `start`: scans forward for `FF
/// D9` end markers and returns the first candidate that actually decodes,
/// guarding against false-positive markers inside raw sensor data.
pub fn extract_jpeg_at(bytes: &[u8], start: usize) -> (r: Option<Vec<u8>>)
    requires
        start < bytes@.len(),
    ensures
        r is Some <==> spec_extract_jpeg_at(bytes@, start as int) is Some,
        r is Some ==> r->0@ == spec_extract_jpeg_at(bytes@, start as int)->0,
{
    let n = bytes.len();
    let avail = n - start;
    let cap = if avail <= MAX_PREVIEW_SPAN {
        avail
    } else {
        MAX_PREVIEW_SPAN
    };
    let ghost data = bytes@.subrange(start as int, start as int + cap as int);
    let mut i: usize = 2;
    let mut tried: usize = 0;
    while i < cap && tried < MAX_END_TRIES
        invariant
            2 <= i,
            i <= cap || cap < 2,
            start + cap <= bytes@.len(),
            cap <= MAX_PREVIEW_SPAN,
            bytes@.len() <= usize::MAX,
            start < bytes@.len(),
            cap as int == (if bytes@.len() - start <= MAX_PREVIEW_SPAN {
                bytes@.len() - start
            } else {
                MAX_PREVIEW_SPAN as int
            }),
            data == bytes@.subrange(start as int, start as int + cap as int),
            data.len() == cap,
            spec_jpeg_end(data, 2, 0) == spec_jpeg_end(data, i as int, tried as int),
        decreases cap - i,
    {
        if bytes[start + i - 1] == 0xff && bytes[start + i] == 0xd9 {
            if i + 1 >= MIN_JPEG_END {
                let cand = match read_range(bytes, start, i + 1) {
                    Some(c) => c,
                    None => vstd::pervasive::unreached(),
                };
                proof {
                    assert(cand@ =~= data.take(i as int + 1));
                }
                if bytes_decodable(cand.as_slice()) {
                    proof {
                        assert(data[i as int - 1] == bytes@[start + i - 1]);
                        assert(data[i as int] == bytes@[start + i]);
                        assert(decodable(data.take(i as int + 1)));
                        assert(spec_jpeg_end(data, i as int, tried as int) == Some(i as int + 1));
                    }
                    return Some(cand);
                }
            }
            tried = tried + 1;
            i = i + 1;
        } else {
            i = i + 1;
        }
    }
    None
}

/// The length of an optional candidate, zero when absent.
pub open spec fn opt_len(o: Option<Seq<u8>>) -> int {
    match o {
        Some(d) => d.len() as int,
        None => 0,
    }
}

/// The view of an optional byte buffer.
pub open spec fn opt_view(o: Option<Vec<u8>>) -> Option<Seq<u8>> {
    match o {
        Some(v) => Some(v@),
        None => None,
    }
}

/// The scan state over candidate positions from `p` on: the best "good"
/// candidate (larger than `MIN_GOOD_SIZE`, largest wins, and the scan
/// stops at the first one reaching `GOOD_ENOUGH_SIZE`) and the largest
/// candidate of any size as a fallback.
pub open spec fn spec_raw_scan(
    bytes: Seq<u8>,
    p: int,
    best: Option<Seq<u8>>,
    fb: Option<Seq<u8>>,
) -> (Option<Seq<u8>>, Option<Seq<u8>>)
    decreases bytes.len() - p,
{
    if p < 0 || p + 3 > bytes.len() {
        (best, fb)
    } else if sig3_at(bytes, p) {
        match spec_extract_jpeg_at(bytes, p) {
            Some(d) => {
                if d.len() > opt_len(best) && d.len() > MIN_GOOD_SIZE {
                    if d.len() >= GOOD_ENOUGH_SIZE {
                        (Some(d), fb)
                    } else {
                        let fb2 = if d.len() > opt_len(fb) {
                            Some(d)
                        } else {
                            fb
                        };
                        spec_raw_scan(bytes, p + 1, Some(d), fb2)
                    }
                } else {
                    let fb2 = if d.len() > opt_len(fb) {
                        Some(d)
                    } else {
                        fb
                    };
                    spec_raw_scan(bytes, p + 1, best, fb2)
                }
            },
            None => spec_raw_scan(bytes, p + 1, best, fb),
        }
    } else {
        spec_raw_scan(bytes, p + 1, best, fb)
    }
}

/// The preview the raw scan settles on: the best "good" candidate when
/// one exists, else the largest candidate of any size.
pub open spec fn spec_raw_preview(bytes: Seq<u8>) -> Option<Seq<u8>> {
    let s = spec_raw_scan(bytes, RAW_SCAN_START as int, None, None);
    if s.0 is Some {
        s.0
    } else {
        s.1
    }
}

/// Scans a RAW byte stream for embedded JPEG previews and picks the one
/// `spec_raw_preview` describes: largest validated candidate, preferring
/// the "good" bucket, stopping early at a `GOOD_ENOUGH_SIZE` hit.
pub fn scan_raw_preview(bytes: &[u8]) -> (r: Option<Vec<u8>>)
    requires
        bytes@.len() <= usize::MAX - 16,
    ensures
        opt_view(r) == spec_raw_preview(bytes@),
{
    let n = bytes.len();
    let mut best: Option<Vec<u8>> = None;
    let mut fb: Option<Vec<u8>> = None;
    let mut p: usize = RAW_SCAN_START;
    while p + 3 <= n
        invariant
            RAW_SCAN_START <= p,
            p <= n + 8,
            n == bytes@.len(),
            n <= usize::MAX - 16,
            spec_raw_scan(bytes@, RAW_SCAN_START as int, None, None) == spec_raw_scan(
                bytes@,
                p as int,
                opt_view(best),
                opt_view(fb),
            ),
        decreases n + 8 - p,
    {
        if bytes[p] == 0xff && bytes[p + 1] == 0xd8 && bytes[p + 2] == 0xff {
            match extract_jpeg_at(bytes, p) {
                Some(d) => {
                    let dl = d.len();
                    let bl: usize = match &best {
                        Some(b) => b.len(),
                        None => 0,
                    };
                    let fl: usize = match &fb {
                        Some(f) => f.len(),
                        None => 0,
                    };
                    if dl > bl && dl > MIN_GOOD_SIZE {
                        if dl >= GOOD_ENOUGH_SIZE {
                            return Some(d);
                        }
                        if dl > fl {
                            let copy = match read_range(d.as_slice(), 0, d.len()) {
                                Some(c) => c,
                                None => vstd::pervasive::unreached(),
                            };
                            proof {
                                assert(copy@ =~= d@);
                            }
                            fb = Some(copy);
                        }
                        best = Some(d);
                    } else {
                        if dl > fl {
                            fb = Some(d);
                        }
                    }
                },
                None => {},
            }
        }
        p = p + 1;
    }
    match best {
        Some(b) => Some(b),
        None => fb,
    }
}

/// Whatever `spec_raw_preview` settles on decodes: both the good bucket
/// and the fallback only ever hold validated candidates.
pub proof fn lemma_raw_scan_decodable(
    bytes: Seq<u8>,
    p: int,
    best: Option<Seq<u8>>,
    fb: Option<Seq<u8>>,
)
    requires
        best is Some ==> decodable(best->0),
        fb is Some ==> decodable(fb->0),
    ensures
        spec_raw_scan(bytes, p, best, fb).0 is Some ==> decodable(
            spec_raw_scan(bytes, p, best, fb).0->0,
        ),
        spec_raw_scan(bytes, p, best, fb).1 is Some ==> decodable(
            spec_raw_scan(bytes, p, best, fb).1->0,
        ),
    decreases bytes.len() - p,
{
    if p < 0 || p + 3 > bytes.len() {
    } else if sig3_at(bytes, p) {
        match spec_extract_jpeg_at(bytes, p) {
            Some(d) => {
                lemma_extract_decodable(bytes, p);
                if d.len() > opt_len(best) && d.len() > MIN_GOOD_SIZE {
                    if d.len() >= GOOD_ENOUGH_SIZE {
                    } else {
                        let fb2 = if d.len() > opt_len(fb) {
                            Some(d)
                        } else {
                            fb
                        };
                        lemma_raw_scan_decodable(bytes, p + 1, Some(d), fb2);
                    }
                } else {
                    let fb2 = if d.len() > opt_len(fb) {
                        Some(d)
                    } else {
                        fb
                    };
                    lemma_raw_scan_decodable(bytes, p + 1, best, fb2);
                }
            },
            None => {
                lemma_raw_scan_decodable(bytes, p + 1, best, fb);
            },
        }
    } else {
        lemma_raw_scan_decodable(bytes, p + 1, best, fb);
    }
}

/// Extracts the full-resolution embedded JPEG preview of a RAW file, with
/// orientation correction applied when its EXIF says so.
///
/// `path` carries the file's name for the RAW extension test; `data`
/// holds the file's bytes. Fails when the path is not a RAW file's or
/// when no byte range in the file decodes as an image.
pub fn extract_raw_preview(path: &str, data: &[u8]) -> (r: Result<Vec<u8>, ThumbnailError>)
    requires
        data@.len() <= usize::MAX - 16,
    ensures
        !spec_is_raw_path(path@) ==> r is Err && r->Err_0 is DecodeError,
        spec_is_raw_path(path@) && spec_raw_preview(data@) is None ==> r is Err && r->Err_0
            is DecodeError,
        spec_is_raw_path(path@) && spec_raw_preview(data@) is Some ==> {
            let d = spec_raw_preview(data@)->0;
            let o = spec_orientation_of(data@);
            &&& (o is None || o->0 <= 1) ==> r is Ok && r->Ok_0@ == d
            &&& (o is Some && o->0 > 1) ==> {
                &&& r is Ok ==> r->Ok_0@ == jpeg_bytes_of(
                    spec_apply_orientation(image_of(d), o->0),
                )
                &&& r is Err ==> r->Err_0 is EncodeError
            }
        },
{
    if !is_raw_file(path) {
        return Err(ThumbnailError::DecodeError(String::from_str("Not a RAW file")));
    }
    let orientation = resolve_orientation(data);
    let preview = scan_raw_preview(data);
    match preview {
        Some(d) => {
            proof {
                lemma_raw_scan_decodable(data@, RAW_SCAN_START as int, None, None);
            }
            match orientation {
                Some(o) => {
                    if o > 1 {
                        apply_orientation_correction(d.as_slice(), o)
                    } else {
                        Ok(d)
                    }
                },
                None => Ok(d),
            }
        },
        None => Err(
            ThumbnailError::DecodeError(String::from_str("No embedded JPEG preview found")),
        ),
    }
}

/// The best candidate of the spec-directed fallback scan: the largest
/// validated candidate above `MIN_PREVIEW_SIZE`, with no early stop.
pub open spec fn spec_try_raw_scan(bytes: Seq<u8>, p: int, best: Option<Seq<u8>>) -> Option<
    Seq<u8>,
>
    decreases bytes.len() - p,
{
    if p < 0 || p + 3 > bytes.len() {
        best
    } else if sig3_at(bytes, p) {
        match spec_extract_jpeg_at(bytes, p) {
            Some(d) => {
                if d.len() > opt_len(best) && d.len() > MIN_PREVIEW_SIZE {
                    spec_try_raw_scan(bytes, p + 1, Some(d))
                } else {
                    spec_try_raw_scan(bytes, p + 1, best)
                }
            },
            None => spec_try_raw_scan(bytes, p + 1, best),
        }
    } else {
        spec_try_raw_scan(bytes, p + 1, best)
    }
}

/// The fallback scan's result keeps only validated candidates.
pub proof fn lemma_try_raw_scan_decodable(bytes: Seq<u8>, p: int, best: Option<Seq<u8>>)
    requires
        best is Some ==> decodable(best->0),
    ensures
        spec_try_raw_scan(bytes, p, best) is Some ==> decodable(
            spec_try_raw_scan(bytes, p, best)->0,
        ),
    decreases bytes.len() - p,
{
    if p < 0 || p + 3 > bytes.len() {
    } else if sig3_at(bytes, p) {
        match spec_extract_jpeg_at(bytes, p) {
            Some(d) => {
                lemma_extract_decodable(bytes, p);
                if d.len() > opt_len(best) && d.len() > MIN_PREVIEW_SIZE {
                    lemma_try_raw_scan_decodable(bytes, p + 1, Some(d));
                } else {
                    lemma_try_raw_scan_decodable(bytes, p + 1, best);
                }
            },
            None => {
                lemma_try_raw_scan_decodable(bytes, p + 1, best);
            },
        }
    } else {
        lemma_try_raw_scan_decodable(bytes, p + 1, best);
    }
}

/// The fallback scan never shrinks its pick: its result is at least as
/// long as the best candidate it starts from, and a run started with a
/// candidate in hand always ends with one.
pub proof fn lemma_try_raw_scan_monotone(bytes: Seq<u8>, p: int, best: Option<Seq<u8>>)
    ensures
        opt_len(spec_try_raw_scan(bytes, p, best)) >= opt_len(best),
        best is Some ==> spec_try_raw_scan(bytes, p, best) is Some,
    decreases bytes.len() - p,
{
    if p < 0 || p + 3 > bytes.len() {
    } else if sig3_at(bytes, p) {
        match spec_extract_jpeg_at(bytes, p) {
            Some(d) => {
                if d.len() > opt_len(best) && d.len() > MIN_PREVIEW_SIZE {
                    lemma_try_raw_scan_monotone(bytes, p + 1, Some(d));
                } else {
                    lemma_try_raw_scan_monotone(bytes, p + 1, best);
                }
            },
            None => {
                lemma_try_raw_scan_monotone(bytes, p + 1, best);
            },
        }
    } else {
        lemma_try_raw_scan_monotone(bytes, p + 1, best);
    }
}

/// The fallback scan's pick dominates every validated candidate above
/// the size floor that lies at or after the scan position.
pub proof fn lemma_try_raw_scan_dominates(bytes: Seq<u8>, p: int, best: Option<Seq<u8>>, q: int)
    requires
        0 <= p <= q,
        sig3_at(bytes, q),
        spec_extract_jpeg_at(bytes, q) is Some,
        spec_extract_jpeg_at(bytes, q)->0.len() > MIN_PREVIEW_SIZE,
    ensures
        opt_len(spec_try_raw_scan(bytes, p, best)) >= spec_extract_jpeg_at(bytes, q)->0.len(),
    decreases q - p,
{
    let d = spec_extract_jpeg_at(bytes, q)->0;
    if p == q {
        if d.len() > opt_len(best) {
            lemma_try_raw_scan_monotone(bytes, p + 1, Some(d));
        } else {
            lemma_try_raw_scan_monotone(bytes, p + 1, best);
        }
    } else {
        if p + 3 > bytes.len() {
            // q < bytes.len() - 2 by its signature, so the scan has not
            // run out before reaching it.
            assert(false);
        } else if sig3_at(bytes, p) {
            match spec_extract_jpeg_at(bytes, p) {
                Some(c) => {
                    if c.len() > opt_len(best) && c.len() > MIN_PREVIEW_SIZE {
                        lemma_try_raw_scan_dominates(bytes, p + 1, Some(c), q);
                    } else {
                        lemma_try_raw_scan_dominates(bytes, p + 1, best, q);
                    }
                },
                None => {
                    lemma_try_raw_scan_dominates(bytes, p + 1, best, q);
                },
            }
        } else {
            lemma_try_raw_scan_dominates(bytes, p + 1, best, q);
        }
    }
}

/// Largest wins, not first found: the fallback scan picks a candidate at
/// least as large as every validated candidate above the size floor,
/// wherever in the stream it lies. Decode-checked size correlates with
/// being the true preview better than position does.
pub proof fn lemma_raw_fallback_largest_wins(bytes: Seq<u8>, q: int)
    requires
        RAW_SCAN_START <= q,
        sig3_at(bytes, q),
        spec_extract_jpeg_at(bytes, q) is Some,
        spec_extract_jpeg_at(bytes, q)->0.len() > MIN_PREVIEW_SIZE,
    ensures
        spec_try_raw_scan(bytes, RAW_SCAN_START as int, None) is Some,
        opt_len(spec_try_raw_scan(bytes, RAW_SCAN_START as int, None)) >= spec_extract_jpeg_at(
            bytes,
            q,
        )->0.len(),
{
    lemma_try_raw_scan_dominates(bytes, RAW_SCAN_START as int, None, q);
}

/// Scans a RAW byte stream for the largest embedded JPEG above
/// `MIN_PREVIEW_SIZE`, then sizes it to the target: returned unchanged
/// when it already fits, downscaled and re-encoded otherwise.
///
/// This is the fallback used when the standard EXIF thumbnail tags are
/// not present.
pub fn try_extract_raw_preview(data: &[u8], spec: &ThumbnailSpec) -> (r: Result<
    Vec<u8>,
    ThumbnailError,
>)
    requires
        data@.len() <= usize::MAX - 16,
    ensures
        spec_try_raw_scan(data@, RAW_SCAN_START as int, None) is None ==> r is Err && r->Err_0
            is DecodeError,
        spec_try_raw_scan(data@, RAW_SCAN_START as int, None) is Some ==> {
            let d = spec_try_raw_scan(data@, RAW_SCAN_START as int, None)->0;
            let img = image_of(d);
            &&& (image_width(img) <= spec.width && image_height(img) <= spec.height) ==> r
                is Ok && r->Ok_0@ == d
            &&& !(image_width(img) <= spec.width && image_height(img) <= spec.height) ==> {
                &&& r is Ok ==> r->Ok_0@ == jpeg_bytes_of(
                    thumbnail_of(img, spec.width, spec.height),
                )
                &&& r is Err ==> r->Err_0 is EncodeError
            }
        },
{
    let n = data.len();
    let mut best: Option<Vec<u8>> = None;
    let mut p: usize = RAW_SCAN_START;
    while p + 3 <= n
        invariant
            RAW_SCAN_START <= p,
            p <= n + 8,
            n == data@.len(),
            n <= usize::MAX - 16,
            spec_try_raw_scan(data@, RAW_SCAN_START as int, None) == spec_try_raw_scan(
                data@,
                p as int,
                opt_view(best),
            ),
        decreases n + 8 - p,
    {
        if data[p] == 0xff && data[p + 1] == 0xd8 && data[p + 2] == 0xff {
            match extract_jpeg_at(data, p) {
                Some(d) => {
                    let dl = d.len();
                    let bl: usize = match &best {
                        Some(b) => b.len(),
                        None => 0,
                    };
                    if dl > bl && dl > MIN_PREVIEW_SIZE {
                        best = Some(d);
                    }
                },
                None => {},
            }
        }
        p = p + 1;
    }
    match best {
        Some(d) => {
            proof {
                lemma_try_raw_scan_decodable(data@, RAW_SCAN_START as int, None);
            }
            let img = match decode_image(d.as_slice()) {
                Ok(img) => img,
                Err(_) => vstd::pervasive::unreached(),
            };
            let w = width_of(&img);
            let h = height_of(&img);
            if w <= spec.width && h <= spec.height {
                return Ok(d);
            }
            let resized = thumbnail_image(&img, spec.width, spec.height);
            match encode_jpeg(&resized) {
                Ok(out) => Ok(out),
                Err(e) => Err(ThumbnailError::EncodeError(e)),
            }
        },
        None => Err(
            ThumbnailError::DecodeError(String::from_str("No embedded JPEG preview found")),
        ),
    }
}

} // verus!
