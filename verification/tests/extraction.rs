use fotos_core::errors::{CoreError, ThumbnailError};
use fotos_core::exifdata::{resolve_orientation, try_extract_embedded_thumbnail};
use fotos_core::generate::generate_thumbnail_bytes;
use fotos_core::hashing::{compute_file_hash, compute_hash, phash_base64, try_extract_thumbnail_data};
use fotos_core::imaging::{
    apply_orientation_correction, apply_orientation_to_image, embedded_fit_decision,
    get_dimensions, FitDecision,
};
use fotos_core::jpegscan::find_jpeg_tiff_header_offset;
use fotos_core::keys::ThumbnailSpec;
use fotos_core::rawscan::{extract_raw_preview, scan_raw_preview};

/// A minimal TIFF stream: an orientation tag in the primary directory,
/// the thumbnail offset/length pair in the thumbnail directory, and the
/// payload at TIFF-relative offset 56.
fn make_tiff_with_thumb(payload: &[u8]) -> Vec<u8> {
    let mut v = vec![0x49, 0x49, 0x2a, 0x00];
    v.extend_from_slice(&8u32.to_le_bytes());
    // IFD0: one entry (Orientation, SHORT, 1), next directory at 26.
    v.extend_from_slice(&1u16.to_le_bytes());
    v.extend_from_slice(&0x0112u16.to_le_bytes());
    v.extend_from_slice(&3u16.to_le_bytes());
    v.extend_from_slice(&1u32.to_le_bytes());
    v.extend_from_slice(&[0x01, 0x00, 0x00, 0x00]);
    v.extend_from_slice(&26u32.to_le_bytes());
    assert_eq!(v.len(), 26);
    // IFD1: JPEGInterchangeFormat = 56, JPEGInterchangeFormatLength.
    v.extend_from_slice(&2u16.to_le_bytes());
    v.extend_from_slice(&0x0201u16.to_le_bytes());
    v.extend_from_slice(&4u16.to_le_bytes());
    v.extend_from_slice(&1u32.to_le_bytes());
    v.extend_from_slice(&56u32.to_le_bytes());
    v.extend_from_slice(&0x0202u16.to_le_bytes());
    v.extend_from_slice(&4u16.to_le_bytes());
    v.extend_from_slice(&1u32.to_le_bytes());
    v.extend_from_slice(&(payload.len() as u32).to_le_bytes());
    v.extend_from_slice(&0u32.to_le_bytes());
    assert_eq!(v.len(), 56);
    v.extend_from_slice(payload);
    v
}

/// The same EXIF block wrapped in a JPEG APP1 segment, so the TIFF
/// header sits at absolute offset 12 and the payload at 12 + 56.
fn make_jpeg_with_exif(payload: &[u8]) -> Vec<u8> {
    let tiff = make_tiff_with_thumb(payload);
    let mut v = vec![0xff, 0xd8, 0xff, 0xe1];
    let seg_len = 2 + 6 + tiff.len();
    assert!(seg_len <= u16::MAX as usize);
    v.extend_from_slice(&(seg_len as u16).to_be_bytes());
    v.extend_from_slice(b"Exif\x00\x00");
    v.extend_from_slice(&tiff);
    v.extend_from_slice(&[0xff, 0xd9]);
    v
}

/// A decodable JPEG of pseudo-random noise, sized to compress poorly.
fn noise_jpeg(w: u32, h: u32, seed: u64) -> Vec<u8> {
    let mut img = image::RgbImage::new(w, h);
    let mut state = seed;
    for p in img.pixels_mut() {
        state = state
            .wrapping_mul(6364136223846793005)
            .wrapping_add(1442695040888963407);
        let b = (state >> 33) as u32;
        *p = image::Rgb([
            (b & 0xff) as u8,
            ((b >> 8) & 0xff) as u8,
            ((b >> 16) & 0xff) as u8,
        ]);
    }
    let dynimg = image::DynamicImage::ImageRgb8(img);
    let mut out = Vec::new();
    dynimg
        .write_to(&mut std::io::Cursor::new(&mut out), image::ImageFormat::Jpeg)
        .unwrap();
    out
}

#[test]
fn test_find_tiff_header_in_jpeg() {
    let file = make_jpeg_with_exif(b"x");
    assert_eq!(find_jpeg_tiff_header_offset(&file).unwrap(), 12);

    // A JPEG with no APP1 reaches end-of-image without finding EXIF.
    let bare = vec![0xff, 0xd8, 0xff, 0xd9];
    assert!(find_jpeg_tiff_header_offset(&bare).is_err());

    // Not a JPEG at all.
    assert!(find_jpeg_tiff_header_offset(b"plain").is_err());
}

#[test]
fn test_absolute_offset_resolution() {
    // The same tags in a TIFF-based file (header at byte 0) and inside a
    // JPEG's APP1 segment must yield byte-identical payloads: the EXIF
    // offset field is TIFF-header-relative in both cases.
    let payload: Vec<u8> = (0..64u8).map(|i| i.wrapping_mul(37).wrapping_add(5)).collect();
    let tiff_file = make_tiff_with_thumb(&payload);
    let jpeg_file = make_jpeg_with_exif(&payload);
    let t1 = try_extract_thumbnail_data(&tiff_file).unwrap();
    let t2 = try_extract_thumbnail_data(&jpeg_file).unwrap();
    assert_eq!(t1, payload);
    assert_eq!(t2, payload);
    assert_eq!(t1, t2);
}

#[test]
fn test_thumbnail_data_missing_tags() {
    let r = try_extract_thumbnail_data(b"not an image at all");
    assert!(r.is_err());
    match r.unwrap_err() {
        CoreError::Io(_) => (),
        _ => panic!("expected Io error"),
    }
}

#[test]
fn test_orientation_resolution() {
    let tiff_file = make_tiff_with_thumb(b"p");
    assert_eq!(resolve_orientation(&tiff_file), Some(1));
    assert_eq!(resolve_orientation(b"garbage"), None);
}

#[test]
fn test_embedded_thumbnail_use_as_is() {
    // An embedded thumbnail already within the target size comes back
    // byte-identical, with no re-encode.
    let tiny = noise_jpeg(8, 8, 3);
    let file = make_jpeg_with_exif(&tiny);
    let spec = ThumbnailSpec { width: 100, height: 100 };
    let out = try_extract_embedded_thumbnail("p.jpg", &file, &spec).unwrap();
    assert_eq!(out, tiny);
}

#[test]
fn test_embedded_thumbnail_downscale() {
    let mid = noise_jpeg(64, 64, 4);
    let file = make_tiff_with_thumb(&mid);
    let spec = ThumbnailSpec { width: 32, height: 32 };
    let out = try_extract_embedded_thumbnail("p.dng", &file, &spec).unwrap();
    let img = image::load_from_memory(&out).unwrap();
    assert!(img.width() <= 32 && img.height() <= 32);
    assert_ne!(out, mid);
}

#[test]
fn test_embedded_thumbnail_too_large() {
    // More than four times the target in a dimension: rejected, so the
    // caller falls back to the full decode.
    let big = noise_jpeg(200, 200, 5);
    let file = make_tiff_with_thumb(&big);
    let spec = ThumbnailSpec { width: 20, height: 20 };
    let r = try_extract_embedded_thumbnail("p.dng", &file, &spec);
    assert!(r.is_err());
}

#[test]
fn test_fit_decision_policy() {
    let spec = ThumbnailSpec { width: 100, height: 100 };
    assert_eq!(embedded_fit_decision(100, 100, &spec), FitDecision::UseAsIs);
    assert_eq!(embedded_fit_decision(100, 1, &spec), FitDecision::UseAsIs);
    assert_eq!(embedded_fit_decision(101, 100, &spec), FitDecision::Downscale);
    assert_eq!(embedded_fit_decision(400, 400, &spec), FitDecision::Downscale);
    assert_eq!(embedded_fit_decision(401, 100, &spec), FitDecision::TooLarge);
    assert_eq!(embedded_fit_decision(100, 401, &spec), FitDecision::TooLarge);
}

#[test]
fn test_raw_scan_selection() {
    // Two embedded JPEGs, one small and one large: the scan must select
    // the large one, not the first found.
    let small = noise_jpeg(120, 120, 6);
    let big = noise_jpeg(1800, 1800, 7);
    assert!(small.len() >= 1024);
    assert!(big.len() >= 500_000, "noise JPEG too small: {}", big.len());
    assert!(big.len() > small.len());

    let mut stream = vec![0u8; 8];
    stream.extend_from_slice(&small);
    stream.extend(std::iter::repeat(0u8).take(512));
    stream.extend_from_slice(&big);
    stream.extend(vec![0u8; 16]);

    let got = scan_raw_preview(&stream).unwrap();
    assert_eq!(got, big);

    let viaraw = extract_raw_preview("x.nef", &stream).unwrap();
    assert_eq!(viaraw, big);
}

#[test]
fn test_raw_scan_fallback_bucket() {
    // With every candidate below the "good" floor, the largest one still
    // comes back as the fallback.
    let a = noise_jpeg(40, 40, 10);
    let b = noise_jpeg(80, 80, 11);
    assert!(a.len() >= 1024 && b.len() >= 1024);
    assert!(a.len() < 50_000 && b.len() < 50_000);
    assert!(b.len() > a.len());

    let mut stream = vec![0u8; 8];
    stream.extend_from_slice(&a);
    stream.extend(std::iter::repeat(0u8).take(64));
    stream.extend_from_slice(&b);

    let got = scan_raw_preview(&stream).unwrap();
    assert_eq!(got, b);
}

#[test]
fn test_raw_scan_ignores_tiny_candidates() {
    // A decodable JPEG shorter than the false-positive floor is never a
    // candidate.
    let tiny = noise_jpeg(1, 1, 12);
    assert!(tiny.len() < 1024, "tiny JPEG unexpectedly large: {}", tiny.len());
    let mut stream = vec![0u8; 8];
    stream.extend_from_slice(&tiny);
    assert!(scan_raw_preview(&stream).is_none());
}

#[test]
fn test_raw_preview_rejects_non_raw() {
    let r = extract_raw_preview("x.jpg", &[0u8; 32]);
    assert!(r.is_err());
    match r.unwrap_err() {
        ThumbnailError::DecodeError(_) => (),
        _ => panic!("expected DecodeError"),
    }
}

#[test]
fn test_raw_preview_no_candidate() {
    let r = extract_raw_preview("x.nef", &[0u8; 4096]);
    assert!(r.is_err());
}

#[test]
fn test_orientation_six_rotates_quarter_turn() {
    // Orientation 6 turns a W x H image into H x W, consistent with a 90
    // degree clockwise rotation.
    let mut img = image::RgbImage::new(30, 20);
    img.put_pixel(0, 0, image::Rgb([255, 0, 0]));
    let d = image::DynamicImage::ImageRgb8(img);
    let out = apply_orientation_to_image(d, 6);
    assert_eq!(out.width(), 20);
    assert_eq!(out.height(), 30);
    let px = image::GenericImageView::get_pixel(&out, 19, 0);
    assert_eq!(px[0], 255);
    assert_eq!(px[1], 0);
}

#[test]
fn test_orientation_identity_and_flips() {
    let d = image::DynamicImage::ImageRgb8(image::RgbImage::new(30, 20));
    let same = apply_orientation_to_image(d.clone(), 1);
    assert_eq!((same.width(), same.height()), (30, 20));
    let flipped = apply_orientation_to_image(d.clone(), 2);
    assert_eq!((flipped.width(), flipped.height()), (30, 20));
    let upside = apply_orientation_to_image(d.clone(), 3);
    assert_eq!((upside.width(), upside.height()), (30, 20));
    let transposed = apply_orientation_to_image(d.clone(), 5);
    assert_eq!((transposed.width(), transposed.height()), (20, 30));
    let unknown = apply_orientation_to_image(d, 9);
    assert_eq!((unknown.width(), unknown.height()), (30, 20));
}

#[test]
fn test_orientation_correction_identity_bytes() {
    // Orientation 1 and below hands the bytes back untouched, decodable
    // or not.
    let bytes = b"anything at all";
    assert_eq!(apply_orientation_correction(bytes, 1).unwrap(), bytes);
    assert_eq!(apply_orientation_correction(bytes, 0).unwrap(), bytes);
    // Above 1 the bytes must decode.
    assert!(apply_orientation_correction(bytes, 6).is_err());
}

#[test]
fn test_orientation_correction_reencodes() {
    let jpeg = noise_jpeg(30, 20, 8);
    let out = apply_orientation_correction(&jpeg, 6).unwrap();
    let img = image::load_from_memory(&out).unwrap();
    assert_eq!((img.width(), img.height()), (20, 30));
}

#[test]
fn test_get_dimensions() {
    let mut png = Vec::new();
    image::DynamicImage::ImageRgb8(image::RgbImage::new(10, 7))
        .write_to(&mut std::io::Cursor::new(&mut png), image::ImageFormat::Png)
        .unwrap();
    let dims = get_dimensions(&png).unwrap();
    assert_eq!((dims.width, dims.height), (10, 7));

    let r = get_dimensions(b"not an image at all");
    assert!(matches!(r.unwrap_err(), CoreError::ImageDecode));
}

#[test]
fn test_generate_thumbnail_bytes_workflow() {
    // A 100 x 100 source with a 20 x 20 target: the full-decode path
    // produces a JPEG of exactly the target size.
    let mut png = Vec::new();
    image::DynamicImage::ImageRgb8(image::RgbImage::new(100, 100))
        .write_to(&mut std::io::Cursor::new(&mut png), image::ImageFormat::Png)
        .unwrap();
    let spec = ThumbnailSpec { width: 20, height: 20 };
    let out = generate_thumbnail_bytes("test.png", &png, &spec).unwrap();
    let img = image::load_from_memory(&out).unwrap();
    assert_eq!((img.width(), img.height()), (20, 20));
}

#[test]
fn test_generate_thumbnail_bytes_failures() {
    let spec = ThumbnailSpec { width: 20, height: 20 };
    // A corrupt standard-format file fails to decode.
    let r = generate_thumbnail_bytes("v1.jpg", b"some fake data", &spec);
    assert!(matches!(r.unwrap_err(), ThumbnailError::DecodeError(_)));
    // A RAW file without an embedded preview is a hard failure.
    let r2 = generate_thumbnail_bytes("v2.nef", &[0u8; 2048], &spec);
    assert!(matches!(r2.unwrap_err(), ThumbnailError::DecodeError(_)));
}

#[test]
fn test_compute_hash_embedded_fast_path() {
    // With a decodable embedded thumbnail, the digest is the perceptual
    // hash of the thumbnail, not of the container.
    let tiny = noise_jpeg(16, 16, 9);
    let file = make_jpeg_with_exif(&tiny);
    let got = compute_hash("p.jpg", &file).unwrap();
    let expect = phash_base64(&image::load_from_memory(&tiny).unwrap());
    assert_eq!(got, expect);
}

#[test]
fn test_compute_hash_raw_fallback() {
    // A RAW file with no embedded thumbnail gets the stable file-identity
    // digest instead of a decode attempt.
    let data = vec![9u8; 4096];
    let got = compute_hash("x.nef", &data).unwrap();
    assert_eq!(got, compute_file_hash("x.nef", data.len() as u64));
    assert!(got.starts_with("file:"));
    assert_eq!(got.len(), 21);
}

#[test]
fn test_compute_hash_full_decode() {
    let mut png = Vec::new();
    image::DynamicImage::ImageRgb8(image::RgbImage::new(24, 24))
        .write_to(&mut std::io::Cursor::new(&mut png), image::ImageFormat::Png)
        .unwrap();
    let got = compute_hash("x.png", &png).unwrap();
    let expect = phash_base64(&image::load_from_memory(&png).unwrap());
    assert_eq!(got, expect);
    assert!(!got.starts_with("file:"));
}

#[test]
fn test_compute_hash_corrupt_standard_file() {
    let r = compute_hash("x.png", b"not an image at all");
    assert!(matches!(r.unwrap_err(), CoreError::ImageDecode));
}
