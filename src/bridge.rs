use vstd::prelude::*;

use crate::enumeration::DirEntryBuffer;
use crate::flags::{CallbackDataFlags, KNOWN_FLAG_BITS};
use crate::guid::{guid_from_raw, RawGuid};
use crate::info::{basic_info_of, FileBasicInfo, PrjFileBasicInfo};
use crate::policy::{ProjFS, VersionInfo};
use crate::status::{io_error_to_raw, result_status, result_to_raw, status_of, IoError, GENERIC_FAILURE};
use crate::wide::RawPath;

verus! {

/// Answers the driver's signal that enumeration `id` starts on `path`:
/// the status of the policy's answer.
pub fn start_dir_enum_callback<P: ProjFS>(this: &mut P, id: RawGuid, path: RawPath<'_>, version: VersionInfo) -> (r: i32)
    ensures
        exists|res: Result<(), IoError>| r == result_status(res),
{
    let res = this.start_dir_enum(guid_from_raw(id), path, version);
    result_to_raw(res)
}

/// Answers the driver's signal that enumeration `id` ends: the status of the
/// policy's answer.
pub fn end_dir_enum_callback<P: ProjFS>(this: &mut P, id: RawGuid, version: VersionInfo) -> (r: i32)
    ensures
        exists|res: Result<(), IoError>| r == result_status(res),
{
    let res = this.end_dir_enum(guid_from_raw(id), version);
    result_to_raw(res)
}

/// What the driver is told about a metadata lookup: the record to write
/// back as placeholder information, or the status of the failure (and no
/// write-back).
pub open spec fn placeholder_reply_of(r: Result<FileBasicInfo, IoError>) -> Result<PrjFileBasicInfo, i32> {
    match r {
        Ok(f) => Ok(basic_info_of(f)),
        Err(e) => Err(status_of(e)),
    }
}

/// The reply to the driver for the outcome of a metadata lookup.
pub fn placeholder_reply(r: Result<FileBasicInfo, IoError>) -> (out: Result<PrjFileBasicInfo, i32>)
    ensures
        out == placeholder_reply_of(r),
{
    match r {
        Ok(f) => Ok(f.to_prj_basic_info()),
        Err(e) => Err(io_error_to_raw(e)),
    }
}

/// Answers the driver's request for the placeholder information of `path`:
/// the record to write back, or the status to return.
pub fn get_placeholder_info_callback<P: ProjFS>(this: &P, path: RawPath<'_>, version: VersionInfo) -> (r: Result<PrjFileBasicInfo, i32>)
    ensures
        exists|m: Result<FileBasicInfo, IoError>| r == placeholder_reply_of(m),
{
    let m = this.get_metadata(path, version);
    placeholder_reply(m)
}

/// What the driver is told after a read into `data` for a request of
/// `length` bytes ended with `res`: the bytes to write back when the read
/// succeeded and filled exactly `length` bytes (the driver copies that many),
/// the generic failure when it succeeded with another length, and the status
/// of the error when it failed.
pub open spec fn file_data_reply_of(res: Result<(), IoError>, data: Seq<u8>, length: u32, r: Result<Vec<u8>, i32>) -> bool {
    match res {
        Ok(()) => if data.len() == length {
            r matches Ok(d) && d@ == data
        } else {
            r == Err::<Vec<u8>, i32>(GENERIC_FAILURE)
        },
        Err(e) => r == Err::<Vec<u8>, i32>(status_of(e)),
    }
}

/// The reply to the driver for a read into `data` that ended with `res`.
pub fn file_data_reply(res: Result<(), IoError>, data: Vec<u8>, length: u32) -> (r: Result<Vec<u8>, i32>)
    ensures
        file_data_reply_of(res, data@, length, r),
{
    match res {
        Ok(()) => if data.len() == length as usize {
            Ok(data)
        } else {
            Err(GENERIC_FAILURE)
        },
        Err(e) => Err(io_error_to_raw(e)),
    }
}

/// Answers the driver's request for `length` bytes of the file at `path`
/// from `offset` on: the policy reads into a zeroed buffer of that length,
/// and the reply is that of `file_data_reply` for what the read left there
/// and returned.
pub fn get_file_data_callback<P: ProjFS>(this: &P, path: RawPath<'_>, version: VersionInfo, offset: u64, length: u32) -> (r: Result<Vec<u8>, i32>)
    ensures
        exists|res: Result<(), IoError>, data: Seq<u8>| file_data_reply_of(res, data, length, r),
{
    let mut data: Vec<u8> = vec![0u8; length as usize];
    let res = this.read(path, version, offset, data.as_mut_slice());
    let ghost d = data@;
    let r = file_data_reply(res, data, length);
    assert(file_data_reply_of(res, d, length, r));
    r
}

/// Answers the driver's request for the next rows of enumeration `id`,
/// with its raw GUID and flag bits. Flag bits that are not recognised are
/// refused with the generic failure status, before the policy is asked
/// anything; otherwise the status is that of the policy's answer.
pub fn get_dir_enum_callback<P: ProjFS>(
    this: &mut P,
    id: RawGuid,
    path: RawPath<'_>,
    flags: u32,
    version: VersionInfo,
    pattern: Option<RawPath<'_>>,
    buffer: &mut DirEntryBuffer,
) -> (r: i32)
    ensures
        flags & !KNOWN_FLAG_BITS != 0 ==> {
            &&& r == GENERIC_FAILURE
            &&& *final(this) == *old(this)
            &&& final(buffer).filled() == old(buffer).filled()
        },
{
    match CallbackDataFlags::from_bits(flags) {
        Some(f) => {
            let res = this.get_dir_enum(guid_from_raw(id), path, f, version, pattern, buffer);
            result_to_raw(res)
        },
        None => GENERIC_FAILURE,
    }
}

} // verus!
