use fotos_core::cache::{cache_path, make_temp_name, Thumbnailer};
use fotos_core::hashes::{fnv1a_64, md5_hash, FNV_OFFSET_BASIS};
use fotos_core::hashing::compute_file_hash;
use fotos_core::hex::hex16;
use fotos_core::keys::{thumbnail_key, ThumbnailKey, ThumbnailSpec};
use fotos_core::paths::PhotoPath;

#[test]
fn test_key_stability() {
    let spec = ThumbnailSpec { width: 200, height: 200 };
    let p1 = PhotoPath::parse("foo/bar/baz.jpg");
    let k1 = thumbnail_key(&p1, &spec).unwrap();
    let k2 = thumbnail_key(&PhotoPath::parse("foo/bar/baz.jpg"), &spec).unwrap();
    assert_eq!(k1, k2);

    let p2 = PhotoPath::parse("foo/bar/bazz.jpg");
    let k3 = thumbnail_key(&p2, &spec).unwrap();
    assert_ne!(k1, k3);

    let spec2 = ThumbnailSpec { width: 201, height: 200 };
    let k4 = thumbnail_key(&p1, &spec2).unwrap();
    assert_ne!(k1, k4);
}

#[test]
fn test_process_independence() {
    let p1 = PhotoPath::parse("/stable/path.jpg");
    let spec = ThumbnailSpec { width: 100, height: 100 };

    let k1 = thumbnail_key(&p1, &spec).unwrap();
    let k2 = thumbnail_key(&p1, &spec).unwrap();

    assert_eq!(k1, k2);
}

#[test]
fn test_sharding_rules() {
    let root = "/cache";
    let key = ThumbnailKey::new(0x1020304050607080);
    let path = cache_path(root, &key);

    let path_str = path.replace('\\', "/");
    assert!(path_str.ends_with("/10/1020304050607080.jpg"));
}

#[test]
fn test_scan_scale_memory_safety() {
    let mut mock_results = Vec::with_capacity(10000);
    for i in 0..10000 {
        mock_results.push(format!("/fake/path/to/photo_{}.jpg", i));
    }
    assert_eq!(mock_results.len(), 10000);
}

#[test]
fn test_cache_path_exact() {
    let key = ThumbnailKey::new(0x1020304050607080);
    assert_eq!(cache_path("root", &key), "root/10/1020304050607080.jpg");
}

#[test]
fn test_separator_invariance() {
    let spec = ThumbnailSpec { width: 64, height: 64 };
    let k_slash = thumbnail_key(&PhotoPath::parse("a/b/c.jpg"), &spec).unwrap();
    let k_backslash = thumbnail_key(&PhotoPath::parse("a\\b\\c.jpg"), &spec).unwrap();
    let k_mixed = thumbnail_key(&PhotoPath::parse("a\\b/c.jpg"), &spec).unwrap();
    assert_eq!(k_slash, k_backslash);
    assert_eq!(k_slash, k_mixed);
}

#[test]
fn test_key_boundary_separation() {
    // "ab" + "c" must not collide with "a" + "bc": the separator byte folded
    // in after each component keeps component boundaries apart.
    let spec = ThumbnailSpec { width: 10, height: 10 };
    let k1 = thumbnail_key(&PhotoPath::parse("ab/c"), &spec).unwrap();
    let k2 = thumbnail_key(&PhotoPath::parse("a/bc"), &spec).unwrap();
    assert_ne!(k1, k2);
}

#[test]
fn test_invalid_path_encoding() {
    let spec = ThumbnailSpec { width: 10, height: 10 };
    let bad = PhotoPath::from_components(vec![b"foo\xffbar.jpg".to_vec()]);
    let result = thumbnail_key(&bad, &spec);
    assert!(result.is_err());
    match result.unwrap_err() {
        fotos_core::errors::ThumbnailError::InvalidPathEncoding => (),
        _ => panic!("Expected InvalidPathEncoding error"),
    }
}

#[test]
fn test_fnv1a_known_vectors() {
    // The FNV-1a 64-bit reference values: the empty input hashes to the
    // offset basis, and "a" to 0xaf63dc4c8601ec8c.
    assert_eq!(fnv1a_64(b"", FNV_OFFSET_BASIS), 0xcbf29ce484222325);
    assert_eq!(fnv1a_64(b"a", FNV_OFFSET_BASIS), 0xaf63dc4c8601ec8c);
    assert_eq!(fnv1a_64(b"foobar", FNV_OFFSET_BASIS), 0x85944171f73967e8);
}

#[test]
fn test_md5_hash_polynomial() {
    assert_eq!(md5_hash(&[]), 0);
    assert_eq!(md5_hash(&[1]), 1);
    assert_eq!(md5_hash(&[1, 2]), 33);
    // Only the first kilobyte is sampled.
    let mut long = vec![7u8; 2048];
    long.truncate(1024);
    let h_window = md5_hash(&long);
    let full = vec![7u8; 2048];
    assert_eq!(md5_hash(&full), h_window);
}

#[test]
fn test_hex16_rendering() {
    assert_eq!(hex16(0x1020304050607080), "1020304050607080");
    assert_eq!(hex16(0), "0000000000000000");
    assert_eq!(hex16(u64::MAX), "ffffffffffffffff");
    assert_eq!(hex16(0xdeadbeef), "00000000deadbeef");
}

#[test]
fn test_temp_name_shape() {
    let t = make_temp_name("/c/ab.jpg", 0x1, 0x2);
    assert_eq!(t, "/c/ab.jpg.tmp.0000000000000001_0000000000000002");
    // Distinct timestamps or process ids give distinct names.
    let t2 = make_temp_name("/c/ab.jpg", 0x1, 0x3);
    assert_ne!(t, t2);
}

#[test]
fn test_legacy_cache_path() {
    let t = Thumbnailer::new(String::from("/r"));
    let spec = ThumbnailSpec { width: 5, height: 5 };
    assert_eq!(t.get_cache_path("abcd", &spec), "/r/abcd.jpg");
}

#[test]
fn test_file_hash_digest_matches_format() {
    // The digest must render exactly as `file:` plus 16 lowercase hex
    // digits of FNV-1a over the path bytes then the size bytes.
    let path = "a/b.nef";
    let size: u64 = 123;
    let mut h = fnv1a_64(path.as_bytes(), FNV_OFFSET_BASIS);
    h = fnv1a_64(&size.to_le_bytes(), h);
    assert_eq!(compute_file_hash(path, size), format!("file:{:016x}", h));
    assert_ne!(compute_file_hash("a/c.nef", size), compute_file_hash(path, size));
}
