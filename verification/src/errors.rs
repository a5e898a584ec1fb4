use vstd::prelude::*;
use vstd::string::StringExecFns;

verus! {

/// Errors of the core photo operations.
#[derive(Debug, Clone)]
pub enum CoreError {
    /// An underlying read, write or seek failed.
    Io(String),
    /// The bytes could not be interpreted as an image.
    ImageDecode,
    /// The photo index rejected or failed an operation.
    Database(String),
    /// A caller-supplied value was rejected.
    InvalidInput(String),
}

impl CoreError {
    /// Human-readable description of the error.
    pub fn message(&self) -> (r: String)
        ensures
            self is Io ==> r@ == "IO error: "@ + self->Io_0@,
            self is ImageDecode ==> r@ == "Image decode error"@,
            self is Database ==> r@ == "Database error: "@ + self->Database_0@,
            self is InvalidInput ==> r@ == "Invalid input: "@ + self->InvalidInput_0@,
    {
        match self {
            CoreError::Io(s) => String::from_str("IO error: ").concat(s.as_str()),
            CoreError::ImageDecode => String::from_str("Image decode error"),
            CoreError::Database(s) => String::from_str("Database error: ").concat(s.as_str()),
            CoreError::InvalidInput(s) => String::from_str("Invalid input: ").concat(s.as_str()),
        }
    }
}

/// Errors of thumbnail derivation and cache population.
#[derive(Debug, Clone)]
pub enum ThumbnailError {
    /// A path component is not valid UTF-8; no cache key can be derived.
    InvalidPathEncoding,
    /// The source bytes could not be decoded as the expected image or EXIF format.
    DecodeError(String),
    /// The thumbnail could not be re-encoded or written.
    EncodeError(String),
}

impl ThumbnailError {
    /// Human-readable description of the error.
    pub fn message(&self) -> (r: String)
        ensures
            self is InvalidPathEncoding ==> r@ == "Path is not UTF-8 valid"@,
            self is DecodeError ==> r@ == "Image decode failed: "@ + self->DecodeError_0@,
            self is EncodeError ==> r@ == "Image encode/save failed: "@ + self->EncodeError_0@,
    {
        match self {
            ThumbnailError::InvalidPathEncoding => String::from_str("Path is not UTF-8 valid"),
            ThumbnailError::DecodeError(s) => {
                String::from_str("Image decode failed: ").concat(s.as_str())
            },
            ThumbnailError::EncodeError(s) => {
                String::from_str("Image encode/save failed: ").concat(s.as_str())
            },
        }
    }
}

/// Errors of the host-platform services.
#[derive(Debug, Clone)]
pub enum PlatformError {
    /// The user or the system denied a required permission.
    PermissionDenied(String),
    /// A file that an operation needs does not exist.
    FileNotFound(String),
    /// An underlying I/O operation failed.
    Io(String),
    /// The operation was cancelled before it completed.
    Cancelled,
    /// The operation is not available on this platform.
    NotSupported(String),
    /// Any other platform-specific failure.
    Platform(String),
}

impl PlatformError {
    /// Human-readable description of the error.
    pub fn message(&self) -> (r: String)
        ensures
            self is PermissionDenied ==> r@ == "Permission denied: "@ + self->PermissionDenied_0@,
            self is FileNotFound ==> r@ == "File not found: "@ + self->FileNotFound_0@,
            self is Io ==> r@ == "IO error: "@ + self->Io_0@,
            self is Cancelled ==> r@ == "Operation cancelled"@,
            self is NotSupported ==> r@ == "Not supported on this platform: "@
                + self->NotSupported_0@,
            self is Platform ==> r@ == "Platform error: "@ + self->Platform_0@,
    {
        match self {
            PlatformError::PermissionDenied(s) => {
                String::from_str("Permission denied: ").concat(s.as_str())
            },
            PlatformError::FileNotFound(s) => {
                String::from_str("File not found: ").concat(s.as_str())
            },
            PlatformError::Io(s) => String::from_str("IO error: ").concat(s.as_str()),
            PlatformError::Cancelled => String::from_str("Operation cancelled"),
            PlatformError::NotSupported(s) => {
                String::from_str("Not supported on this platform: ").concat(s.as_str())
            },
            PlatformError::Platform(s) => String::from_str("Platform error: ").concat(s.as_str()),
        }
    }
}

} // verus!
