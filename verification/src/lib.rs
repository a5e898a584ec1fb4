//! Core of a photo-library engine: deterministic thumbnail cache keys,
//! sharded cache paths, EXIF/JPEG/TIFF byte-offset navigation, embedded
//! preview extraction for RAW files, orientation normalization, and a
//! multi-tier perceptual-hash pipeline.
//!
//! All logic here is pure over byte buffers and plain values; the thin
//! host layer around it performs the actual file reads and writes.

pub mod cache;
pub mod errors;
pub mod exifdata;
pub mod generate;
pub mod hashes;
pub mod hashing;
pub mod hex;
pub mod imaging;
pub mod jpegscan;
pub mod keys;
pub mod paths;
pub mod pipeline;
pub mod platform;
pub mod rawscan;
pub mod services;

pub use cache::{cache_path, Thumbnailer};
pub use errors::{CoreError, PlatformError, ThumbnailError};
pub use generate::generate_thumbnail_bytes;
pub use hashing::{compute_file_hash, compute_hash};
pub use imaging::{get_dimensions, ImageDimensions};
pub use keys::{thumbnail_key, ThumbnailKey, ThumbnailSpec};
pub use paths::{is_raw_file, is_supported_image, PhotoPath};
pub use pipeline::{ImportResult, PhotoCoreConfig, PhotoId};
pub use rawscan::extract_raw_preview;
