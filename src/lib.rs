//! A bridge between a filesystem-virtualization driver and an application
//! policy: marshaling of driver values, directory-enumeration sessions with
//! paginated listing, and the lifecycle of a virtualization instance.

pub mod bridge;
pub mod cache;
pub mod enumeration;
pub mod flags;
pub mod guid;
pub mod info;
pub mod instance;
pub mod policy;
pub mod status;
pub mod wide;

pub use cache::CacheMap;
pub use enumeration::{fill_entries, DirCursor, DirEntry, DirEntryBuffer};
pub use flags::CallbackDataFlags;
pub use guid::{guid_from_raw, guid_to_raw, Guid, RawGuid};
pub use info::{FileBasicInfo, PrjFileBasicInfo};
pub use instance::{start_proj_virtualization, Instance};
pub use policy::{CachedProjFS, ProjFS, ProjFSDirEnum, ProjFSRead, VersionInfo};
pub use status::{io_error_to_raw, IoError};
pub use wide::RawPath;
