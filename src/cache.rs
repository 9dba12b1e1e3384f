use vstd::prelude::*;

use chashmap::CHashMap;

use crate::enumeration::{fill_count, fill_entries, rows, DirCursor, DirEntryBuffer, PrjRow};
use crate::flags::CallbackDataFlags;
use crate::guid::Guid;
use crate::info::FileBasicInfo;
use crate::policy::{ProjFSDirEnum, VersionInfo};
use crate::status::IoError;
use crate::wide::RawPath;

verus! {

#[verifier::external_type_specification]
#[verifier::external_body]
#[verifier::reject_recursive_types(K)]
#[verifier::reject_recursive_types(V)]
pub struct ExCHashMap<K, V>(CHashMap<K, V>);

/// What a session map holds: for each enumeration identifier, the session's
/// cursor, or `None` while its listing is not materialized yet.
pub uninterp spec fn sessions_of(m: CHashMap<u128, Option<DirCursor>>) -> Map<u128, Option<DirCursor>>;

/// Whether the map's table still has a bucket that never held an entry.
/// A lookup of a key that is not in the map scans until it meets such a
/// bucket, and panics when there is none.
pub uninterp spec fn has_empty_bucket(m: CHashMap<u128, Option<DirCursor>>) -> bool;

/// Relies on CHashMap::new: a map without entries, whose table of 256
/// buckets is all empty.
#[verifier::external_body]
fn sessions_new() -> (r: CHashMap<u128, Option<DirCursor>>)
    ensures
        sessions_of(r).dom() == Set::<u128>::empty(),
        has_empty_bucket(r),
{
    CHashMap::new()
}

/// Relies on CHashMap::shrink_to_fit: the entries move to a fresh table of
/// at least 8 buckets and four times as many as there are entries, so the
/// contents stay and some bucket of the new table is empty.
#[verifier::external_body]
fn sessions_compact(m: &mut CHashMap<u128, Option<DirCursor>>)
    ensures
        sessions_of(*final(m)) == sessions_of(*old(m)),
        has_empty_bucket(*final(m)),
{
    m.shrink_to_fit()
}

/// Relies on CHashMap::insert: the entry of `k` becomes `v`, and the value it
/// had before, if any, is returned.
#[verifier::external_body]
fn sessions_insert(m: &mut CHashMap<u128, Option<DirCursor>>, k: u128, v: Option<DirCursor>) -> (r: Option<Option<DirCursor>>)
    ensures
        sessions_of(*final(m)) == sessions_of(*old(m)).insert(k, v),
        r == (if sessions_of(*old(m)).contains_key(k) { Some(sessions_of(*old(m))[k]) } else { None }),
{
    m.insert(k, v)
}

/// Relies on CHashMap::remove: the entry of `k` leaves the map, and its value,
/// if there was one, is returned. Its scan for `k` ends at an empty bucket,
/// so the table must have one.
#[verifier::external_body]
fn sessions_remove(m: &mut CHashMap<u128, Option<DirCursor>>, k: u128) -> (r: Option<Option<DirCursor>>)
    requires
        has_empty_bucket(*old(m)),
    ensures
        sessions_of(*final(m)) == sessions_of(*old(m)).remove(k),
        r == (if sessions_of(*old(m)).contains_key(k) { Some(sessions_of(*old(m))[k]) } else { None }),
{
    m.remove(&k)
}

/// The state of one session: its listing and the position of the next entry,
/// once the listing is materialized.
pub type SessionView = Option<(Seq<FileBasicInfo>, nat)>;

/// The state of a session whose cursor is `s`.
pub open spec fn session_view(s: Option<DirCursor>) -> SessionView {
    match s {
        Some(c) => Some(c@),
        None => None,
    }
}

/// What a policy returned for a listing, as a sequence.
pub open spec fn listing_view(l: Result<Vec<FileBasicInfo>, IoError>) -> Result<Seq<FileBasicInfo>, IoError> {
    match l {
        Ok(v) => Ok(v@),
        Err(e) => Err(e),
    }
}

/// Whether a request on session `s` materializes the listing anew: when the
/// session has none yet, or the driver asks for a restart.
pub open spec fn needs_listing(s: SessionView, restart: bool) -> bool {
    s is None || restart
}

/// What a listing request does to a started session `s`, with `room` rows
/// free in the driver's buffer: either it fails with the policy's error, or
/// it leaves the session on a listing and reports that the rows of that
/// listing from the first to the second index were appended (the second
/// index being the session's new position). A fresh listing is used only
/// where `needs_listing` holds, and starts at its first entry.
pub open spec fn next_session(
    s: SessionView,
    restart: bool,
    single: bool,
    listing: Result<Seq<FileBasicInfo>, IoError>,
    room: nat,
) -> Result<(Seq<FileBasicInfo>, nat, nat), IoError> {
    if needs_listing(s, restart) {
        match listing {
            Ok(l) => Ok((l, 0, fill_count(l.len(), room, single))),
            Err(e) => Err(e),
        }
    } else {
        let (l, p) = s->0;
        Ok((l, p, p + fill_count((l.len() - p) as nat, room, single)))
    }
}

/// One listing request on session `id`, with the given flags and listing,
/// took the sessions from `before` to `after`, the buffer's rows from
/// `filled` to `filled2`, and returned `r`.
pub open spec fn request_done(
    before: Map<Guid, SessionView>,
    after: Map<Guid, SessionView>,
    id: Guid,
    restart: bool,
    single: bool,
    listing: Result<Seq<FileBasicInfo>, IoError>,
    filled: Seq<PrjRow>,
    filled2: Seq<PrjRow>,
    room: nat,
    r: Result<(), IoError>,
) -> bool {
    if !before.contains_key(id) {
        &&& r == Err::<(), IoError>(IoError::InvalidSession)
        &&& after == before
        &&& filled2 == filled
    } else {
        match next_session(before[id], restart, single, listing, room) {
            Err(e) => {
                &&& r == Err::<(), IoError>(e)
                &&& after == before
                &&& filled2 == filled
            },
            Ok((l, from, to)) => {
                &&& r == Ok::<(), IoError>(())
                &&& after == before.insert(id, Some((l, to)))
                &&& filled2 == filled + rows(l, from as int, to as int)
            },
        }
    }
}

/// A listing request on an identifier without a session (never started, or
/// ended) fails with `InvalidSession` and changes nothing.
pub proof fn lemma_request_without_session(
    before: Map<Guid, SessionView>,
    after: Map<Guid, SessionView>,
    id: Guid,
    restart: bool,
    single: bool,
    listing: Result<Seq<FileBasicInfo>, IoError>,
    filled: Seq<PrjRow>,
    filled2: Seq<PrjRow>,
    room: nat,
    r: Result<(), IoError>,
)
    requires
        !before.contains_key(id),
        request_done(before, after, id, restart, single, listing, filled, filled2, room, r),
    ensures
        r == Err::<(), IoError>(IoError::InvalidSession),
        after == before,
        filled2 == filled,
{
}

/// Once session `id` has ended, a listing request on it fails with
/// `InvalidSession`, whatever the sessions were.
pub proof fn lemma_request_after_end(
    sessions: Map<Guid, SessionView>,
    after: Map<Guid, SessionView>,
    id: Guid,
    restart: bool,
    single: bool,
    listing: Result<Seq<FileBasicInfo>, IoError>,
    filled: Seq<PrjRow>,
    filled2: Seq<PrjRow>,
    room: nat,
    r: Result<(), IoError>,
)
    requires
        request_done(sessions.remove(id), after, id, restart, single, listing, filled, filled2, room, r),
    ensures
        r == Err::<(), IoError>(IoError::InvalidSession),
        after == sessions.remove(id),
        filled2 == filled,
{
}

/// Two restart requests in a row on a started session, with the same
/// listing and empty buffers of the same room, hand out the same rows: the
/// first entries of the listing, as many as fit (one at most when a single
/// entry is asked for), so all of it when it fits. The second leaves the
/// session as the first did.
pub proof fn lemma_restart_repeats(
    m0: Map<Guid, SessionView>,
    id: Guid,
    single: bool,
    l: Seq<FileBasicInfo>,
    room: nat,
    m1: Map<Guid, SessionView>,
    f1: Seq<PrjRow>,
    r1: Result<(), IoError>,
    m2: Map<Guid, SessionView>,
    f2: Seq<PrjRow>,
    r2: Result<(), IoError>,
)
    requires
        m0.contains_key(id),
        request_done(m0, m1, id, true, single, Ok(l), Seq::empty(), f1, room, r1),
        request_done(m1, m2, id, true, single, Ok(l), Seq::empty(), f2, room, r2),
    ensures
        r1 == Ok::<(), IoError>(()),
        r2 == Ok::<(), IoError>(()),
        f1 == f2,
        f1 == rows(l, 0, fill_count(l.len(), room, single) as int),
        !single && room >= l.len() ==> f1 == rows(l, 0, l.len() as int),
        m2 == m1,
{
    assert(f1 =~= rows(l, 0, fill_count(l.len(), room, single) as int));
    assert(f2 =~= rows(l, 0, fill_count(l.len(), room, single) as int));
    assert(m1.contains_key(id));
    assert(m2 =~= m1);
}

/// A request without restart on a materialized session resumes where the
/// previous one stopped: it appends the rows of the session's listing from
/// its position on, as many as fit, and advances the position past them.
pub proof fn lemma_request_resumes(
    before: Map<Guid, SessionView>,
    after: Map<Guid, SessionView>,
    id: Guid,
    l: Seq<FileBasicInfo>,
    pos: nat,
    single: bool,
    listing: Result<Seq<FileBasicInfo>, IoError>,
    filled: Seq<PrjRow>,
    filled2: Seq<PrjRow>,
    room: nat,
    r: Result<(), IoError>,
)
    requires
        before.contains_key(id),
        before[id] == Some((l, pos)),
        request_done(before, after, id, false, single, listing, filled, filled2, room, r),
    ensures
        r == Ok::<(), IoError>(()),
        filled2 == filled + rows(l, pos as int, (pos + fill_count((l.len() - pos) as nat, room, single)) as int),
        after == before.insert(id, Some((l, pos + fill_count((l.len() - pos) as nat, room, single)))),
{
}

/// The rows that successive requests without restart, on a session of
/// listing `l` standing at `pos`, hand out into buffers of rooms `rooms`,
/// concatenated.
pub open spec fn paged(l: Seq<FileBasicInfo>, pos: nat, rooms: Seq<nat>) -> Seq<PrjRow>
    decreases rooms.len(),
{
    if rooms.len() == 0 {
        Seq::empty()
    } else {
        let to = pos + fill_count((l.len() - pos) as nat, rooms[0], false);
        rows(l, pos as int, to as int) + paged(l, to, rooms.drop_first())
    }
}

/// The sum of `rooms`.
pub open spec fn total_room(rooms: Seq<nat>) -> nat
    decreases rooms.len(),
{
    if rooms.len() == 0 {
        0
    } else {
        rooms[0] + total_room(rooms.drop_first())
    }
}

proof fn lemma_rows_concat(l: Seq<FileBasicInfo>, a: int, b: int, c: int)
    requires
        0 <= a <= b <= c <= l.len(),
    ensures
        rows(l, a, b) + rows(l, b, c) == rows(l, a, c),
{
    assert(rows(l, a, b) + rows(l, b, c) =~= rows(l, a, c));
}

/// Paging a listing through buffers of rooms `rooms` hands out its rows in
/// order, without loss or repetition: the concatenated pages are the rows
/// from `pos` on, as many as the rooms add up to. When they add up to the
/// rest of the listing, that is exactly what one request into a buffer with
/// room for all of it appends.
pub proof fn lemma_pagination(l: Seq<FileBasicInfo>, pos: nat, rooms: Seq<nat>)
    requires
        pos <= l.len(),
    ensures
        paged(l, pos, rooms) == rows(
            l,
            pos as int,
            (pos + fill_count((l.len() - pos) as nat, total_room(rooms), false)) as int,
        ),
        total_room(rooms) >= l.len() - pos ==> paged(l, pos, rooms) == rows(l, pos as int, l.len() as int),
    decreases rooms.len(),
{
    if rooms.len() == 0 {
        assert(rows(l, pos as int, pos as int) =~= Seq::<PrjRow>::empty());
    } else {
        let to = pos + fill_count((l.len() - pos) as nat, rooms[0], false);
        lemma_pagination(l, to, rooms.drop_first());
        let end = pos + fill_count((l.len() - pos) as nat, total_room(rooms), false);
        lemma_rows_concat(l, pos as int, to as int, end as int);
    }
}

/// With the single-entry flag, a request appends at most one row.
pub proof fn lemma_single_entry(
    before: Map<Guid, SessionView>,
    after: Map<Guid, SessionView>,
    id: Guid,
    restart: bool,
    listing: Result<Seq<FileBasicInfo>, IoError>,
    filled: Seq<PrjRow>,
    filled2: Seq<PrjRow>,
    room: nat,
    r: Result<(), IoError>,
)
    requires
        request_done(before, after, id, restart, true, listing, filled, filled2, room, r),
    ensures
        filled2.len() <= filled.len() + 1,
{
}

/// The enumeration sessions of a policy, keyed by enumeration identifier.
///
/// A session is created empty by `start_dir_enum`, materializes its listing
/// on its first listing request (or on a restart), is advanced by each
/// request, and is dropped by `end_dir_enum`.
pub struct CacheMap {
    sessions: CHashMap<u128, Option<DirCursor>>,
}

impl View for CacheMap {
    type V = Map<Guid, SessionView>;

    closed spec fn view(&self) -> Map<Guid, SessionView> {
        sessions_of(self.sessions).map_values(|s: Option<DirCursor>| session_view(s))
    }
}

impl CacheMap {
    /// A map without sessions.
    pub fn new() -> (r: Self)
        ensures
            r@ == Map::<Guid, SessionView>::empty(),
    {
        let r = CacheMap { sessions: sessions_new() };
        assert(r@ =~= Map::<Guid, SessionView>::empty());
        r
    }

    /// Starts session `id` with no listing yet. A session left under the same
    /// identifier (its end never signalled) is replaced.
    pub fn start_dir_enum(&mut self, id: Guid)
        ensures
            final(self)@ == old(self)@.insert(id, None),
    {
        let _ = sessions_insert(&mut self.sessions, id, None);
        assert(self@ =~= old(self)@.insert(id, None));
    }

    /// Ends session `id`, dropping its listing.
    pub fn end_dir_enum(&mut self, id: Guid)
        ensures
            final(self)@ == old(self)@.remove(id),
    {
        sessions_compact(&mut self.sessions);
        let _ = sessions_remove(&mut self.sessions, id);
        assert(self@ =~= old(self)@.remove(id));
    }

    /// Takes session `id` out of the map: `None` when there is no such
    /// session, else its cursor (`None` while not materialized).
    fn take(&mut self, id: Guid) -> (r: Option<Option<DirCursor>>)
        ensures
            final(self)@ == old(self)@.remove(id),
            r is Some <==> old(self)@.contains_key(id),
            r is Some ==> session_view(r->0) == old(self)@[id],
    {
        sessions_compact(&mut self.sessions);
        let r = sessions_remove(&mut self.sessions, id);
        assert(self@ =~= old(self)@.remove(id));
        r
    }

    /// Puts session `id` back in the map.
    fn put(&mut self, id: Guid, s: Option<DirCursor>)
        ensures
            final(self)@ == old(self)@.insert(id, session_view(s)),
    {
        let _ = sessions_insert(&mut self.sessions, id, s);
        assert(self@ =~= old(self)@.insert(id, session_view(s)));
    }

    /// Hands rows of `cursor` to `buffer` and keeps the advanced cursor as
    /// session `id`.
    fn serve(&mut self, id: Guid, cursor: DirCursor, single: bool, buffer: &mut DirEntryBuffer)
        ensures
            final(buffer).spec_capacity() == old(buffer).spec_capacity(),
            final(self)@ == old(self)@.insert(id, Some((cursor.listing(), cursor.spec_position() + fill_count((cursor.listing().len() - cursor.spec_position()) as nat, old(buffer).room(), single)))),
            final(buffer).filled() == old(buffer).filled() + rows(cursor.listing(), cursor.spec_position() as int, (cursor.spec_position() + fill_count((cursor.listing().len() - cursor.spec_position()) as nat, old(buffer).room(), single)) as int),
    {
        let mut cursor = cursor;
        fill_entries(&mut cursor, buffer, single);
        self.put(id, Some(cursor));
    }

    /// Answers a listing request on session `id` with `listing` standing for
    /// what the policy lists for the directory; `listing` is used only when
    /// the session has no listing yet or `flags` asks for a restart.
    ///
    /// Without such a session the request fails with `InvalidSession`. If the
    /// listing is needed and is an error, that error is returned and nothing
    /// changes. Otherwise rows are handed to `buffer` from the session's
    /// position (from the start of a fresh listing) until it refuses one, at
    /// most one if `flags` asks for a single entry, and the session advances
    /// past them.
    pub fn get_dir_enum_listed(
        &mut self,
        id: Guid,
        flags: CallbackDataFlags,
        listing: Result<Vec<FileBasicInfo>, IoError>,
        buffer: &mut DirEntryBuffer,
    ) -> (r: Result<(), IoError>)
        ensures
            final(buffer).spec_capacity() == old(buffer).spec_capacity(),
            request_done(
                old(self)@,
                final(self)@,
                id,
                flags.spec_restart_scan(),
                flags.spec_return_single_entry(),
                listing_view(listing),
                old(buffer).filled(),
                final(buffer).filled(),
                old(buffer).room(),
                r,
            ),
    {
        let ghost before = self@;
        let slot = match self.take(id) {
            None => {
                assert(self@ =~= before);
                return Err(IoError::InvalidSession);
            },
            Some(slot) => slot,
        };
        let cursor = if slot.is_none() || flags.restart_scan() {
            match listing {
                Ok(entries) => DirCursor::new(entries),
                Err(e) => {
                    self.put(id, slot);
                    assert(self@ =~= before);
                    return Err(e);
                },
            }
        } else {
            match slot {
                Some(c) => c,
                None => {
                    return Err(IoError::InvalidSession);
                },
            }
        };
        self.serve(id, cursor, flags.return_single_entry(), buffer);
        assert(self@ =~= before.insert(id, self@[id]));
        Ok(())
    }

    /// Whether a listing request on session `id` with `flags` would use a
    /// fresh listing: the session exists, and it has no listing yet or a
    /// restart is asked. The sessions stay as they are.
    pub fn wants_listing(&mut self, id: Guid, flags: CallbackDataFlags) -> (r: bool)
        ensures
            r == (old(self)@.contains_key(id) && needs_listing(old(self)@[id], flags.spec_restart_scan())),
            final(self)@ == old(self)@,
    {
        let ghost before = self@;
        match self.take(id) {
            None => {
                assert(self@ =~= before);
                false
            },
            Some(slot) => {
                let r = slot.is_none() || flags.restart_scan();
                self.put(id, slot);
                assert(self@ =~= before);
                r
            },
        }
    }

    /// Answers a listing request on session `id`, asking `policy` for the
    /// directory's entries only when the session has no listing yet or
    /// `flags` asks for a restart. The outcome is that of
    /// `get_dir_enum_listed` for what the policy returned.
    pub fn get_dir_enum<P: ProjFSDirEnum>(
        &mut self,
        policy: &P,
        id: Guid,
        path: RawPath<'_>,
        flags: CallbackDataFlags,
        version: VersionInfo,
        pattern: Option<RawPath<'_>>,
        buffer: &mut DirEntryBuffer,
    ) -> (r: Result<(), IoError>)
        ensures
            final(buffer).spec_capacity() == old(buffer).spec_capacity(),
            exists|listing: Result<Seq<FileBasicInfo>, IoError>|
                request_done(
                    old(self)@,
                    final(self)@,
                    id,
                    flags.spec_restart_scan(),
                    flags.spec_return_single_entry(),
                    listing,
                    old(buffer).filled(),
                    final(buffer).filled(),
                    old(buffer).room(),
                    r,
                ),
    {
        let listing = if self.wants_listing(id, flags) {
            policy.dir_iter(id, path, pattern, version)
        } else {
            Ok(Vec::new())
        };
        self.get_dir_enum_listed(id, flags, listing, buffer)
    }
}

} // verus!
