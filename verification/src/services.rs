use vstd::prelude::*;

verus! {

/// Where photos are imported from on the different platforms.
#[derive(Debug, Clone)]
pub enum PhotoSource {
    /// The camera roll, or all photos.
    CameraRoll,
    /// The screenshots album.
    Screenshots,
    /// The favorites album.
    Favorites,
    /// A custom album, by name.
    Album(String),
    /// A filesystem path, on the desktop.
    Path(String),
}

/// A photo album the host platform exposes.
#[derive(Debug, Clone)]
pub struct PhotoAlbum {
    pub id: String,
    pub name: String,
    pub photo_count: u32,
    pub thumbnail_path: Option<String>,
}

/// How an import run is to be carried out.
#[derive(Debug, Clone)]
pub struct ImportOptions {
    /// The source to import from.
    pub source: Option<PhotoSource>,
    /// Whether subfolders are included, on the desktop.
    pub recursive: bool,
    /// The file extensions to include.
    pub extensions: Option<Vec<String>>,
    /// An upper bound on how many photos to import.
    pub limit: Option<u32>,
}

impl Default for ImportOptions {
    /// No source chosen, not recursive, no extension filter, no limit.
    fn default() -> (r: Self)
        ensures
            r.source is None,
            r.recursive == false,
            r.extensions is None,
            r.limit is None,
    {
        ImportOptions { source: None, recursive: false, extensions: None, limit: None }
    }
}

/// Where an import run stands, for progress reporting.
#[derive(Debug, Clone)]
pub struct ImportProgress {
    pub current: u32,
    pub total: u32,
    pub current_file: String,
    pub phase: ImportPhase,
}

/// The phase an import run is in.
#[derive(Debug, Clone, Copy, PartialEq, Eq, Structural)]
pub enum ImportPhase {
    Scanning,
    Processing,
    GeneratingThumbnails,
    Complete,
    Cancelled,
}

/// A named extension filter for picker dialogs.
#[derive(Debug, Clone)]
pub struct FileFilter {
    pub name: String,
    pub extensions: Vec<String>,
}

/// What a file or folder picker came back with.
#[derive(Debug, Clone)]
pub enum PickerResult {
    /// A single file was selected.
    File(String),
    /// Several files were selected.
    Files(Vec<String>),
    /// A folder was selected.
    Folder(String),
    /// The user cancelled.
    Cancelled,
}

/// How a file picker is to be shown.
#[derive(Debug, Clone)]
pub struct FilePickerOptions {
    pub title: Option<String>,
    pub filters: Vec<FileFilter>,
    pub multiple: bool,
    pub directory: bool,
    pub default_path: Option<String>,
}

impl Default for FilePickerOptions {
    /// An untitled, single-selection file picker with no filters.
    fn default() -> (r: Self)
        ensures
            r.title is None,
            r.filters@.len() == 0,
            r.multiple == false,
            r.directory == false,
            r.default_path is None,
    {
        FilePickerOptions {
            title: None,
            filters: Vec::new(),
            multiple: false,
            directory: false,
            default_path: None,
        }
    }
}

/// An event the application reports to its frontend.
#[derive(Debug, Clone)]
pub enum AppEvent {
    /// An import progress update.
    ImportProgress(ImportProgress),
    /// The import was cancelled.
    ImportCancelled,
    /// Thumbnail regeneration progress.
    ThumbnailProgress { current: u32, total: u32 },
    /// An error occurred.
    Error { message: String },
}

} // verus!
