use vstd::prelude::*;

use crate::guid::{guid_to_raw, Guid, RawGuid};
use crate::status::S_OK;
use crate::wide::{encode_wide, utf16_of};

verus! {

/// Relies on uuid::Uuid::new_v4 (read back with Uuid::as_u128): a random
/// identifier, of which only the version nibble (4, the high half of byte 6)
/// and the variant bits (binary 10, the top of byte 8) are fixed.
#[verifier::external_body]
fn random_guid() -> (r: Guid)
    ensures
        (r >> 76u128) & 0xfu128 == 4u128,
        (r >> 62u128) & 0x3u128 == 2u128,
{
    uuid::Uuid::new_v4().as_u128()
}

/// What the driver is handed to mark a directory as a virtualization root
/// and start virtualizing it.
pub struct StartRequest {
    /// The root's path in wide characters, with a terminator.
    pub root: Vec<u16>,
    /// A fresh identifier for the root.
    pub instance_id: RawGuid,
}

/// The request that starts virtualizing the directory at `root` (a full
/// path), under a freshly drawn identifier.
pub fn start_request(root: &str) -> (r: StartRequest)
    ensures
        r.root@ == utf16_of(root@).push(0),
        (r.instance_id.value() >> 76u128) & 0xfu128 == 4u128,
        (r.instance_id.value() >> 62u128) & 0x3u128 == 2u128,
{
    let id = random_guid();
    StartRequest { root: encode_wide(root), instance_id: guid_to_raw(id) }
}

/// A running virtualization: the driver's handle of the session (0 when
/// there is none), and the policy that answers its callbacks, which the
/// instance alone owns until it is stopped.
pub struct Instance<T> {
    raw: u64,
    this: T,
}

impl<T> Instance<T> {
    pub closed spec fn spec_handle(&self) -> u64 {
        self.raw
    }

    pub closed spec fn spec_policy(&self) -> T {
        self.this
    }

    /// The driver's handle of the session.
    pub fn handle(&self) -> (r: u64)
        ensures
            r == self.spec_handle(),
    {
        self.raw
    }

    /// The policy.
    pub fn policy(&self) -> (r: &T)
        ensures
            *r == self.spec_policy(),
    {
        &self.this
    }

    /// The policy, to answer a callback that changes it.
    pub fn policy_mut(&mut self) -> (r: &mut T)
        ensures
            *r == old(self).spec_policy(),
            final(self).spec_policy() == *final(r),
            final(self).spec_handle() == old(self).spec_handle(),
    {
        &mut self.this
    }

    /// Ends the virtualization: the handle to stop, if there is one, and the
    /// policy, which is to be dropped only after the driver has stopped that
    /// session (it calls back no more after that).
    pub fn stop(self) -> (r: (Option<u64>, T))
        ensures
            r.0 == (if self.spec_handle() == 0 { None } else { Some(self.spec_handle()) }),
            r.1 == self.spec_policy(),
    {
        let handle = if self.raw == 0 { None } else { Some(self.raw) };
        (handle, self.this)
    }
}

/// Builds the instance once the driver has answered the start request with
/// `status` and `handle`. On success the instance owns `this`; on failure
/// the status is returned and `this` is dropped here, so that a failed
/// start leaks nothing.
pub fn start_proj_virtualization<T>(this: T, status: i32, handle: u64) -> (r: Result<Instance<T>, i32>)
    ensures
        r is Ok <==> status == S_OK,
        r matches Ok(i) ==> i.spec_policy() == this && i.spec_handle() == handle,
        r matches Err(code) ==> code == status,
{
    if status == S_OK {
        Ok(Instance { raw: handle, this })
    } else {
        Err(status)
    }
}

} // verus!
