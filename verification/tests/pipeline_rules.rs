use fotos_core::cache::{cache_populate_step, CacheOp, CacheStep};
use fotos_core::errors::{CoreError, PlatformError, ThumbnailError};
use fotos_core::pipeline::{
    index_insert_decision, tally_outcomes, thumbnail_spec_for, ImportResult, IndexInsertAction,
    PhotoCoreConfig,
};
use fotos_core::platform::{
    PermissionStatus, PlatformCapabilities, PlatformContext, PlatformType,
};

#[test]
fn test_cache_populate_fast_path() {
    // A hit on the existence check ends the run at once, with no write.
    let (s, op) = cache_populate_step(CacheStep::CheckExists, true);
    assert_eq!(s, CacheStep::Done);
    assert_eq!(op, CacheOp::ReturnPath);
    let (s2, op2) = cache_populate_step(s, true);
    assert_eq!(s2, CacheStep::Done);
    assert_eq!(op2, CacheOp::Idle);
}

#[test]
fn test_cache_populate_full_run() {
    let (s, op) = cache_populate_step(CacheStep::CheckExists, false);
    assert_eq!((s, op), (CacheStep::EnsureDir, CacheOp::MakeDir));
    let (s, op) = cache_populate_step(s, true);
    assert_eq!((s, op), (CacheStep::Generate, CacheOp::GenerateTemp));
    let (s, op) = cache_populate_step(s, true);
    assert_eq!((s, op), (CacheStep::Rename, CacheOp::RenameTempToDest));
    let (s, op) = cache_populate_step(s, true);
    assert_eq!((s, op), (CacheStep::Done, CacheOp::ReturnPath));
}

#[test]
fn test_cache_populate_cleanup_on_failure() {
    // Failures after generation began always order the scratch file removed.
    let (s, op) = cache_populate_step(CacheStep::Generate, false);
    assert_eq!((s, op), (CacheStep::Failed, CacheOp::RemoveTempAndFail));
    let (s, op) = cache_populate_step(CacheStep::Rename, false);
    assert_eq!((s, op), (CacheStep::Failed, CacheOp::RemoveTempAndFail));
    let (s, op) = cache_populate_step(CacheStep::EnsureDir, false);
    assert_eq!((s, op), (CacheStep::Failed, CacheOp::FailNoTemp));
}

#[test]
fn test_tally_outcomes() {
    let r = tally_outcomes(&vec![true, false, true]);
    assert_eq!(r.success, 2);
    assert_eq!(r.failure, 1);
    let r2 = tally_outcomes(&vec![]);
    assert_eq!(r2.success, 0);
    assert_eq!(r2.failure, 0);
    // Error tolerance: one success and one failure both get counted.
    let r3 = tally_outcomes(&vec![true, false]);
    assert_eq!((r3.success, r3.failure), (1, 1));
}

#[test]
fn test_import_result_recording() {
    let mut r = ImportResult::default();
    assert_eq!((r.success, r.failure), (0, 0));
    r.record_success();
    r.record_failure();
    r.record_failure();
    assert_eq!((r.success, r.failure), (1, 2));
}

#[test]
fn test_index_insert_decision() {
    assert_eq!(
        index_insert_decision(Some(7), Some(9)),
        IndexInsertAction::UseExisting(7)
    );
    assert_eq!(
        index_insert_decision(Some(7), None),
        IndexInsertAction::UseExisting(7)
    );
    assert_eq!(
        index_insert_decision(None, Some(9)),
        IndexInsertAction::UpdatePath(9)
    );
    assert_eq!(index_insert_decision(None, None), IndexInsertAction::InsertNew);
}

#[test]
fn test_thumbnail_spec_for_config() {
    let config = PhotoCoreConfig { thumbnail_dir: String::from("/t"), thumbnail_size: 256 };
    let spec = thumbnail_spec_for(&config);
    assert_eq!(spec.width, 256);
    assert_eq!(spec.height, 256);
}

#[test]
fn test_platform_capabilities() {
    let d = PlatformCapabilities::desktop();
    assert!(d.arbitrary_file_access);
    assert!(!d.native_photo_library);
    assert!(!d.runtime_permissions);
    assert!(d.file_picker);
    assert!(d.reveal_in_file_manager);
    assert!(d.external_storage);

    let a = PlatformCapabilities::android();
    assert!(!a.arbitrary_file_access);
    assert!(a.native_photo_library);
    assert!(a.runtime_permissions);
    assert!(!a.reveal_in_file_manager);
    assert!(a.external_storage);

    let i = PlatformCapabilities::ios();
    assert!(!i.external_storage);
    assert!(i.native_photo_library);

    assert_eq!(PlatformCapabilities::for_platform(PlatformType::Desktop), d);
    assert_eq!(PlatformCapabilities::for_platform(PlatformType::Android), a);
    assert_eq!(PlatformCapabilities::for_platform(PlatformType::Ios), i);
}

#[test]
fn test_platform_type_queries() {
    assert!(PlatformType::current().is_desktop());
    assert!(!PlatformType::current().is_mobile());
    assert!(PlatformType::Android.is_mobile());
    assert!(PlatformType::Ios.is_mobile());
    assert!(!PlatformType::Android.is_desktop());
}

#[test]
fn test_platform_context_dirs() {
    let ctx = PlatformContext::new(
        PlatformType::Desktop,
        String::from("/data"),
        String::from("/cache"),
    );
    assert_eq!(ctx.db_path(), "/data/fotos.db");
    assert_eq!(ctx.thumbnails_dir(), "/data/thumbnails");
    assert_eq!(ctx.raw_previews_dir(), "/data/raw_previews");
    assert_eq!(ctx.map_tiles_dir(), "/cache/map_tiles");
    assert!(ctx.capabilities.arbitrary_file_access);
}

#[test]
fn test_permission_status() {
    assert!(PermissionStatus::Granted.is_granted());
    assert!(PermissionStatus::Limited.is_granted());
    assert!(!PermissionStatus::Denied.is_granted());
    assert!(!PermissionStatus::NotDetermined.is_granted());
    assert!(PermissionStatus::NotDetermined.can_request());
    assert!(!PermissionStatus::Restricted.can_request());
}

#[test]
fn test_error_messages() {
    assert_eq!(CoreError::Io(String::from("x")).message(), "IO error: x");
    assert_eq!(CoreError::ImageDecode.message(), "Image decode error");
    assert_eq!(
        CoreError::Database(String::from("d")).message(),
        "Database error: d"
    );
    assert_eq!(
        CoreError::InvalidInput(String::from("i")).message(),
        "Invalid input: i"
    );
    assert_eq!(
        ThumbnailError::InvalidPathEncoding.message(),
        "Path is not UTF-8 valid"
    );
    assert_eq!(
        ThumbnailError::DecodeError(String::from("e")).message(),
        "Image decode failed: e"
    );
    assert_eq!(
        ThumbnailError::EncodeError(String::from("e")).message(),
        "Image encode/save failed: e"
    );
    assert_eq!(PlatformError::Cancelled.message(), "Operation cancelled");
    assert_eq!(
        PlatformError::FileNotFound(String::from("f")).message(),
        "File not found: f"
    );
}
