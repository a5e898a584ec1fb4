use fotos_core::paths::{is_raw_file, is_supported_image, PhotoPath};

#[test]
fn test_supported_extensions() {
    assert!(is_supported_image("a/b.jpg"));
    assert!(is_supported_image("a/b.JPG"));
    assert!(is_supported_image("a/b.jpeg"));
    assert!(is_supported_image("a/b.png"));
    assert!(is_supported_image("a/b.webp"));
    assert!(is_supported_image("a/b.heic"));
    assert!(is_supported_image("a/b.heif"));
    assert!(is_supported_image("a/b.cr2"));
    assert!(is_supported_image("a/b.NEF"));
    assert!(!is_supported_image("a/doc.txt"));
    assert!(!is_supported_image("a/noext"));
    assert!(!is_supported_image(""));
}

#[test]
fn test_dotfile_has_no_extension() {
    assert!(!is_supported_image(".jpg"));
    assert!(!is_supported_image("dir/.jpg"));
    assert!(is_supported_image("dir/a.jpg"));
}

#[test]
fn test_raw_extensions() {
    for ext in [
        "cr2", "cr3", "nef", "nrw", "arw", "srf", "sr2", "dng", "raf", "orf", "rw2", "pef", "raw",
    ] {
        let path = format!("photos/img.{}", ext);
        assert!(is_raw_file(&path), "{} should be RAW", ext);
        let upper = format!("photos/img.{}", ext.to_uppercase());
        assert!(is_raw_file(&upper), "{} should be RAW", upper);
    }
    assert!(!is_raw_file("photos/img.jpg"));
    assert!(!is_raw_file("photos/img.png"));
    assert!(!is_raw_file("photos/img"));
}

#[test]
fn test_parse_components() {
    let p = PhotoPath::parse("foo/bar/baz.jpg");
    assert_eq!(p.component_count(), 3);
    assert_eq!(p.component(0).as_slice(), b"foo");
    assert_eq!(p.component(1).as_slice(), b"bar");
    assert_eq!(p.component(2).as_slice(), b"baz.jpg");
}

#[test]
fn test_parse_drops_non_normal_components() {
    // Leading roots, duplicate separators, `.` and `..` never reach the key.
    let p = PhotoPath::parse("/a//b/./../c.png");
    assert_eq!(p.component_count(), 3);
    assert_eq!(p.component(0).as_slice(), b"a");
    assert_eq!(p.component(1).as_slice(), b"b");
    assert_eq!(p.component(2).as_slice(), b"c.png");
}

#[test]
fn test_parse_backslash_components() {
    let p = PhotoPath::parse("a\\b\\c.jpg");
    assert_eq!(p.component_count(), 3);
    assert_eq!(p.component(0).as_slice(), b"a");
    assert_eq!(p.component(1).as_slice(), b"b");
    assert_eq!(p.component(2).as_slice(), b"c.jpg");
}

#[test]
fn test_from_components_keeps_bytes() {
    let p = PhotoPath::from_components(vec![b"x".to_vec(), b"y\xff".to_vec()]);
    assert_eq!(p.component_count(), 2);
    assert_eq!(p.component(1).as_slice(), b"y\xff");
}
