use vstd::prelude::*;

use crate::cache::{request_done, CacheMap};
use crate::enumeration::DirEntryBuffer;
use crate::flags::CallbackDataFlags;
use crate::guid::Guid;
use crate::info::FileBasicInfo;
use crate::status::IoError;
use crate::wide::RawPath;

verus! {

/// The driver's version record of a placeholder, by address. The bridge
/// forwards it to the policy and never reads it.
#[derive(Clone, Copy, Debug, PartialEq, Eq, Structural)]
pub struct VersionInfo {
    pub address: usize,
}

/// What an application supplies for directory listings: the entries of a
/// directory, in the order in which they are to be listed.
pub trait ProjFSDirEnum {
    fn dir_iter(&self, id: Guid, path: RawPath<'_>, pattern: Option<RawPath<'_>>, version: VersionInfo) -> Result<Vec<FileBasicInfo>, IoError>;
}

/// What an application supplies for single entries: the metadata of a path,
/// and the contents of a file.
pub trait ProjFSRead {
    fn get_metadata(&self, path: RawPath<'_>, version: VersionInfo) -> Result<FileBasicInfo, IoError>;

    /// Fills all of `buf` with the file's bytes from `offset` on, or fails.
    fn read(&self, path: RawPath<'_>, version: VersionInfo, offset: u64, buf: &mut [u8]) -> Result<(), IoError>;
}

/// What the bridge asks of a virtualization policy: the enumeration
/// lifecycle of directories, the metadata of a path, and file contents.
pub trait ProjFS {
    fn start_dir_enum(&mut self, id: Guid, path: RawPath<'_>, version: VersionInfo) -> Result<(), IoError>;

    fn end_dir_enum(&mut self, id: Guid, version: VersionInfo) -> Result<(), IoError>;

    fn get_dir_enum(
        &mut self,
        id: Guid,
        path: RawPath<'_>,
        flags: CallbackDataFlags,
        version: VersionInfo,
        pattern: Option<RawPath<'_>>,
        buffer: &mut DirEntryBuffer,
    ) -> Result<(), IoError>;

    fn get_metadata(&self, path: RawPath<'_>, version: VersionInfo) -> Result<FileBasicInfo, IoError>;

    fn read(&self, path: RawPath<'_>, version: VersionInfo, offset: u64, buf: &mut [u8]) -> Result<(), IoError>;
}

/// A policy that lists directories and reads entries, made into a full
/// `ProjFS` by a map of enumeration sessions that pages its listings.
pub struct CachedProjFS<T> {
    policy: T,
    sessions: CacheMap,
}

impl<T> CachedProjFS<T> {
    pub closed spec fn spec_policy(&self) -> T {
        self.policy
    }

    pub closed spec fn spec_sessions(&self) -> CacheMap {
        self.sessions
    }

    /// `policy`, with no enumeration session yet.
    pub fn new(policy: T) -> (r: Self)
        ensures
            r.spec_policy() == policy,
            r.spec_sessions()@ == Map::<Guid, crate::cache::SessionView>::empty(),
    {
        CachedProjFS { policy, sessions: CacheMap::new() }
    }

    /// The policy.
    pub fn policy(&self) -> (r: &T)
        ensures
            *r == self.spec_policy(),
    {
        &self.policy
    }

    /// The enumeration sessions.
    pub fn sessions(&self) -> (r: &CacheMap)
        ensures
            *r == self.spec_sessions(),
    {
        &self.sessions
    }

    /// Gives the policy back.
    pub fn into_policy(self) -> (r: T)
        ensures
            r == self.spec_policy(),
    {
        self.policy
    }
}

impl<T: ProjFSDirEnum + ProjFSRead> ProjFS for CachedProjFS<T> {
    fn start_dir_enum(&mut self, id: Guid, _path: RawPath<'_>, _version: VersionInfo) -> (r: Result<(), IoError>)
        ensures
            r is Ok,
            final(self).spec_sessions()@ == old(self).spec_sessions()@.insert(id, None),
            final(self).spec_policy() == old(self).spec_policy(),
    {
        self.sessions.start_dir_enum(id);
        Ok(())
    }

    fn end_dir_enum(&mut self, id: Guid, _version: VersionInfo) -> (r: Result<(), IoError>)
        ensures
            r is Ok,
            final(self).spec_sessions()@ == old(self).spec_sessions()@.remove(id),
            final(self).spec_policy() == old(self).spec_policy(),
    {
        self.sessions.end_dir_enum(id);
        Ok(())
    }

    fn get_dir_enum(
        &mut self,
        id: Guid,
        path: RawPath<'_>,
        flags: CallbackDataFlags,
        version: VersionInfo,
        pattern: Option<RawPath<'_>>,
        buffer: &mut DirEntryBuffer,
    ) -> (r: Result<(), IoError>)
        ensures
            final(buffer).spec_capacity() == old(buffer).spec_capacity(),
            final(self).spec_policy() == old(self).spec_policy(),
            exists|listing: Result<Seq<FileBasicInfo>, IoError>|
                request_done(
                    old(self).spec_sessions()@,
                    final(self).spec_sessions()@,
                    id,
                    flags.spec_restart_scan(),
                    flags.spec_return_single_entry(),
                    listing,
                    old(buffer).filled(),
                    final(buffer).filled(),
                    old(buffer).room(),
                    r,
                ),
    {
        let ghost before = self.sessions@;
        let ghost filled = buffer.filled();
        let ghost room = buffer.room();
        let r = self.sessions.get_dir_enum(&self.policy, id, path, flags, version, pattern, buffer);
        proof {
            let restart = flags.spec_restart_scan();
            let single = flags.spec_return_single_entry();
            let l = choose|l: Result<Seq<FileBasicInfo>, IoError>|
                request_done(before, self.sessions@, id, restart, single, l, filled, buffer.filled(), room, r);
            assert(before == old(self).spec_sessions()@);
            assert(filled == old(buffer).filled());
            assert(room == old(buffer).room());
            assert(request_done(old(self).spec_sessions()@, self.spec_sessions()@, id, restart, single, l, old(buffer).filled(), buffer.filled(), old(buffer).room(), r));
        }
        r
    }

    fn get_metadata(&self, path: RawPath<'_>, version: VersionInfo) -> Result<FileBasicInfo, IoError> {
        self.policy.get_metadata(path, version)
    }

    fn read(&self, path: RawPath<'_>, version: VersionInfo, offset: u64, buf: &mut [u8]) -> Result<(), IoError> {
        self.policy.read(path, version, offset, buf)
    }
}

} // verus!
