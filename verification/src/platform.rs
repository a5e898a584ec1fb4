use vstd::prelude::*;
use vstd::string::StringExecFns;

verus! {

/// The kind of host the application runs on.
#[derive(Debug, Clone, Copy, PartialEq, Eq, Structural)]
pub enum PlatformType {
    Desktop,
    Android,
    Ios,
}

impl PlatformType {
    /// The platform this build targets. This library is built for
    /// desktop hosts; the mobile shells carry their own builds.
    pub fn current() -> (r: Self)
        ensures
            r is Desktop,
    {
        PlatformType::Desktop
    }

    /// True of the phone and tablet platforms.
    pub fn is_mobile(&self) -> (r: bool)
        ensures
            r == (*self is Android || *self is Ios),
    {
        match self {
            PlatformType::Android => true,
            PlatformType::Ios => true,
            PlatformType::Desktop => false,
        }
    }

    /// True of the desktop platform.
    pub fn is_desktop(&self) -> (r: bool)
        ensures
            r == (*self is Desktop),
    {
        match self {
            PlatformType::Desktop => true,
            _ => false,
        }
    }
}

/// What a platform lets the application do.
#[derive(Debug, Clone, Copy, PartialEq, Eq, Structural)]
pub struct PlatformCapabilities {
    /// Can access arbitrary filesystem paths.
    pub arbitrary_file_access: bool,
    /// Has native photo-library integration.
    pub native_photo_library: bool,
    /// Requires runtime permission requests.
    pub runtime_permissions: bool,
    /// Supports file and folder picker dialogs.
    pub file_picker: bool,
    /// Supports revealing files in the native file manager.
    pub reveal_in_file_manager: bool,
    /// Supports external storage such as SD cards and USB drives.
    pub external_storage: bool,
}

/// The capability set of each platform: the desktop reaches the whole
/// filesystem, Android lives under scoped storage with the MediaStore
/// library, and iOS is sandboxed onto its photo library.
pub open spec fn spec_caps_for(platform: PlatformType) -> PlatformCapabilities {
    match platform {
        PlatformType::Desktop => (PlatformCapabilities {
            arbitrary_file_access: true,
            native_photo_library: false,
            runtime_permissions: false,
            file_picker: true,
            reveal_in_file_manager: true,
            external_storage: true,
        }),
        PlatformType::Android => (PlatformCapabilities {
            arbitrary_file_access: false,
            native_photo_library: true,
            runtime_permissions: true,
            file_picker: true,
            reveal_in_file_manager: false,
            external_storage: true,
        }),
        PlatformType::Ios => (PlatformCapabilities {
            arbitrary_file_access: false,
            native_photo_library: true,
            runtime_permissions: true,
            file_picker: true,
            reveal_in_file_manager: false,
            external_storage: false,
        }),
    }
}

impl PlatformCapabilities {
    /// The desktop capability set.
    pub fn desktop() -> (r: Self)
        ensures
            r == spec_caps_for(PlatformType::Desktop),
    {
        PlatformCapabilities {
            arbitrary_file_access: true,
            native_photo_library: false,
            runtime_permissions: false,
            file_picker: true,
            reveal_in_file_manager: true,
            external_storage: true,
        }
    }

    /// The Android capability set.
    pub fn android() -> (r: Self)
        ensures
            r == spec_caps_for(PlatformType::Android),
    {
        PlatformCapabilities {
            arbitrary_file_access: false,
            native_photo_library: true,
            runtime_permissions: true,
            file_picker: true,
            reveal_in_file_manager: false,
            external_storage: true,
        }
    }

    /// The iOS capability set.
    pub fn ios() -> (r: Self)
        ensures
            r == spec_caps_for(PlatformType::Ios),
    {
        PlatformCapabilities {
            arbitrary_file_access: false,
            native_photo_library: true,
            runtime_permissions: true,
            file_picker: true,
            reveal_in_file_manager: false,
            external_storage: false,
        }
    }

    /// The capability set of the given platform.
    pub fn for_platform(platform: PlatformType) -> (r: Self)
        ensures
            r == spec_caps_for(platform),
    {
        match platform {
            PlatformType::Desktop => Self::desktop(),
            PlatformType::Android => Self::android(),
            PlatformType::Ios => Self::ios(),
        }
    }
}

/// Runtime knowledge about the platform: its kind, what it can do, and
/// where the application keeps its data and caches.
#[derive(Debug, Clone)]
pub struct PlatformContext {
    pub platform_type: PlatformType,
    pub capabilities: PlatformCapabilities,
    pub app_data_dir: String,
    pub cache_dir: String,
}

impl PlatformContext {
    /// A context for the given platform and directories, with the
    /// platform's capability set filled in.
    pub fn new(platform_type: PlatformType, app_data_dir: String, cache_dir: String) -> (r: Self)
        ensures
            r.platform_type == platform_type,
            r.capabilities == spec_caps_for(platform_type),
            r.app_data_dir@ == app_data_dir@,
            r.cache_dir@ == cache_dir@,
    {
        Self {
            capabilities: PlatformCapabilities::for_platform(platform_type),
            platform_type,
            app_data_dir,
            cache_dir,
        }
    }

    /// Where the photo index database lives.
    pub fn db_path(&self) -> (r: String)
        ensures
            r@ == self.app_data_dir@ + "/fotos.db"@,
    {
        String::from_str(self.app_data_dir.as_str()).concat("/fotos.db")
    }

    /// Where generated thumbnails live.
    pub fn thumbnails_dir(&self) -> (r: String)
        ensures
            r@ == self.app_data_dir@ + "/thumbnails"@,
    {
        String::from_str(self.app_data_dir.as_str()).concat("/thumbnails")
    }

    /// Where extracted RAW previews live.
    pub fn raw_previews_dir(&self) -> (r: String)
        ensures
            r@ == self.app_data_dir@ + "/raw_previews"@,
    {
        String::from_str(self.app_data_dir.as_str()).concat("/raw_previews")
    }

    /// Where cached map tiles live.
    pub fn map_tiles_dir(&self) -> (r: String)
        ensures
            r@ == self.cache_dir@ + "/map_tiles"@,
    {
        String::from_str(self.cache_dir.as_str()).concat("/map_tiles")
    }
}

/// A permission the application may have to hold.
#[derive(Debug, Clone, Copy, PartialEq, Eq, Structural)]
pub enum Permission {
    /// Read photos from the device library.
    PhotoLibraryRead,
    /// Write or delete photos in the device library.
    PhotoLibraryWrite,
    /// Read from external storage.
    StorageRead,
    /// Write to external storage.
    StorageWrite,
    /// Access the camera.
    Camera,
    /// Access the location, for geotagging.
    Location,
}

/// Where a permission stands.
#[derive(Debug, Clone, Copy, PartialEq, Eq, Structural)]
pub enum PermissionStatus {
    /// Granted in full.
    Granted,
    /// Denied.
    Denied,
    /// Never asked for.
    NotDetermined,
    /// Blocked by system policy.
    Restricted,
    /// Granted for a limited selection only.
    Limited,
}

impl PermissionStatus {
    /// True when the application may proceed: full or limited access.
    pub fn is_granted(&self) -> (r: bool)
        ensures
            r == (*self is Granted || *self is Limited),
    {
        match self {
            PermissionStatus::Granted => true,
            PermissionStatus::Limited => true,
            _ => false,
        }
    }

    /// True when asking the user can still change the status.
    pub fn can_request(&self) -> (r: bool)
        ensures
            r == (*self is NotDetermined),
    {
        match self {
            PermissionStatus::NotDetermined => true,
            _ => false,
        }
    }
}

} // verus!
