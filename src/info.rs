use vstd::prelude::*;

verus! {

/// The metadata of one filesystem entry, as a policy describes it.
///
/// Times are in the driver's native representation; the size is meaningful
/// for files only.
#[derive(Clone, Debug, PartialEq, Eq)]
pub struct FileBasicInfo {
    pub file_name: String,
    pub is_dir: bool,
    pub file_size: u64,
    pub created: i64,
    pub accessed: i64,
    pub writed: i64,
    pub changed: i64,
    pub attrs: u32,
}

/// The driver's basic-information record of an entry.
#[derive(Clone, Copy, Debug, PartialEq, Eq, Structural)]
pub struct PrjFileBasicInfo {
    pub is_directory: u8,
    pub file_size: i64,
    pub creation_time: i64,
    pub last_access_time: i64,
    pub last_write_time: i64,
    pub change_time: i64,
    pub file_attributes: u32,
}

/// The driver's record of `f`: the directory flag as 0 or 1, the size
/// reinterpreted as signed, the times and attributes as they are.
pub open spec fn basic_info_of(f: FileBasicInfo) -> PrjFileBasicInfo {
    PrjFileBasicInfo {
        is_directory: if f.is_dir { 1 } else { 0 },
        file_size: f.file_size as i64,
        creation_time: f.created,
        last_access_time: f.accessed,
        last_write_time: f.writed,
        change_time: f.changed,
        file_attributes: f.attrs,
    }
}

impl FileBasicInfo {
    /// The driver's basic-information record of this entry.
    pub fn to_prj_basic_info(&self) -> (r: PrjFileBasicInfo)
        ensures
            r == basic_info_of(*self),
    {
        PrjFileBasicInfo {
            is_directory: if self.is_dir { 1 } else { 0 },
            file_size: #[verifier::truncate] (self.file_size as i64),
            creation_time: self.created,
            last_access_time: self.accessed,
            last_write_time: self.writed,
            change_time: self.changed,
            file_attributes: self.attrs,
        }
    }
}

} // verus!
