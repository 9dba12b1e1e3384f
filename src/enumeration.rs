use vstd::prelude::*;

use crate::info::{basic_info_of, FileBasicInfo, PrjFileBasicInfo};
use crate::wide::{encode_wide, utf16_of};

verus! {

/// A row of a listing: a terminated wide name and basic information.
pub type PrjRow = (Seq<u16>, PrjFileBasicInfo);

/// One row of a directory listing as the driver stores it: the entry's name
/// in wide characters with a terminator, and its basic information.
#[derive(Clone, Debug, PartialEq, Eq)]
pub struct DirEntry {
    pub name: Vec<u16>,
    pub info: PrjFileBasicInfo,
}

impl View for DirEntry {
    type V = PrjRow;

    open spec fn view(&self) -> PrjRow {
        (self.name@, self.info)
    }
}

/// The row that stands for `f` in a listing.
pub open spec fn row_of(f: FileBasicInfo) -> PrjRow {
    (utf16_of(f.file_name@).push(0), basic_info_of(f))
}

/// The rows of the entries of `listing` from `from` up to `to`.
pub open spec fn rows(listing: Seq<FileBasicInfo>, from: int, to: int) -> Seq<PrjRow> {
    Seq::new((to - from) as nat, |i: int| row_of(listing[from + i]))
}

/// The row of one entry.
pub fn dir_entry_of(f: &FileBasicInfo) -> (r: DirEntry)
    ensures
        r@ == row_of(*f),
{
    DirEntry { name: encode_wide(f.file_name.as_str()), info: f.to_prj_basic_info() }
}

/// An output buffer of the driver for one listing request: it takes rows
/// until it holds as many as its capacity, and refuses any row after that.
pub struct DirEntryBuffer {
    capacity: usize,
    entries: Vec<DirEntry>,
}

impl DirEntryBuffer {
    pub closed spec fn spec_capacity(&self) -> nat {
        self.capacity as nat
    }

    /// The rows taken so far, in order.
    pub closed spec fn filled(&self) -> Seq<PrjRow> {
        self.entries@.map_values(|e: DirEntry| e@)
    }

    /// How many more rows the buffer takes.
    pub open spec fn room(&self) -> nat {
        if self.filled().len() <= self.spec_capacity() {
            (self.spec_capacity() - self.filled().len()) as nat
        } else {
            0
        }
    }

    /// An empty buffer that takes `capacity` rows.
    pub fn new(capacity: usize) -> (r: Self)
        ensures
            r.spec_capacity() == capacity,
            r.filled() == Seq::<PrjRow>::empty(),
    {
        let r = DirEntryBuffer { capacity, entries: Vec::new() };
        assert(r.filled() =~= Seq::<PrjRow>::empty());
        r
    }

    /// Appends `e` if there is room for it; says whether it did.
    pub fn try_push(&mut self, e: DirEntry) -> (r: bool)
        ensures
            final(self).spec_capacity() == old(self).spec_capacity(),
            final(self).filled().len() <= old(self).filled().len() + 1,
            r == (old(self).filled().len() < old(self).spec_capacity()),
            r ==> final(self).filled() == old(self).filled().push(e@),
            !r ==> final(self).filled() == old(self).filled(),
    {
        if self.entries.len() < self.capacity {
            let ghost v = e@;
            self.entries.push(e);
            assert(self.filled() =~= old(self).filled().push(v));
            true
        } else {
            false
        }
    }

    /// The number of rows the buffer takes.
    pub fn capacity(&self) -> (r: usize)
        ensures
            r == self.spec_capacity(),
    {
        self.capacity
    }

    /// The rows taken so far.
    pub fn entries(&self) -> (r: &Vec<DirEntry>)
        ensures
            r@.map_values(|e: DirEntry| e@) == self.filled(),
    {
        &self.entries
    }
}

/// A materialized listing and the position of the next entry to hand out.
pub struct DirCursor {
    entries: Vec<FileBasicInfo>,
    pos: usize,
}

impl View for DirCursor {
    type V = (Seq<FileBasicInfo>, nat);

    open spec fn view(&self) -> (Seq<FileBasicInfo>, nat) {
        (self.listing(), self.spec_position())
    }
}

impl DirCursor {
    /// The listing.
    pub closed spec fn listing(&self) -> Seq<FileBasicInfo> {
        self.entries@
    }

    /// The index of the next entry to hand out.
    pub closed spec fn spec_position(&self) -> nat {
        self.pos as nat
    }

    #[verifier::type_invariant]
    spec fn inv(&self) -> bool {
        self.pos <= self.entries@.len()
    }

    /// A cursor at the start of `entries`.
    pub fn new(entries: Vec<FileBasicInfo>) -> (r: Self)
        ensures
            r.listing() == entries@,
            r.spec_position() == 0,
    {
        DirCursor { entries, pos: 0 }
    }

    /// The index of the next entry to hand out.
    pub fn position(&self) -> (r: usize)
        ensures
            r == self.spec_position(),
    {
        self.pos
    }

    /// The row to offer the driver next, in a request that has taken `taken`
    /// rows so far: the row of the entry at the position, unless the listing
    /// is exhausted or a single entry was asked for and one is taken.
    pub fn next_offer(&self, taken: usize, single: bool) -> (r: Option<DirEntry>)
        ensures
            r is Some <==> (self.spec_position() < self.listing().len() && !(single && taken >= 1)),
            r matches Some(e) ==> e@ == row_of(self.listing()[self.spec_position() as int]),
    {
        proof {
            use_type_invariant(self);
        }
        if self.pos < self.entries.len() && !(single && taken >= 1) {
            Some(dir_entry_of(&self.entries[self.pos]))
        } else {
            None
        }
    }

    /// Records the driver's answer to the row last offered: an accepted row
    /// is passed, a refused one stays next in line for a later request.
    pub fn answer(&mut self, accepted: bool)
        requires
            old(self).spec_position() < old(self).listing().len(),
        ensures
            final(self).listing() == old(self).listing(),
            final(self).spec_position() == old(self).spec_position() + if accepted { 1nat } else { 0nat },
    {
        if accepted && self.pos < self.entries.len() {
            self.pos = self.pos + 1;
        }
    }

    /// The number of entries of the listing.
    pub fn len(&self) -> (r: usize)
        ensures
            r == self.listing().len(),
    {
        self.entries.len()
    }
}

/// How many rows one pass of the filler appends, with `remaining` entries
/// left in the listing and `room` rows free in the buffer: as many as both
/// allow, and at most one when a single entry is asked for.
pub open spec fn fill_count(remaining: nat, room: nat, single: bool) -> nat {
    let cap = if single && room > 1 { 1 } else { room };
    if remaining < cap { remaining } else { cap }
}

/// Hands the entries of `cursor` to `buffer` in order, from the cursor's
/// position, until the buffer refuses one or the listing is exhausted (or
/// one has been taken, when `single` is set). A refused entry stays next in
/// line. Returns the number of rows appended.
pub fn fill_entries(cursor: &mut DirCursor, buffer: &mut DirEntryBuffer, single: bool) -> (k: usize)
    ensures
        k == fill_count(
            (old(cursor).listing().len() - old(cursor).spec_position()) as nat,
            old(buffer).room(),
            single,
        ),
        single ==> k <= 1,
        final(cursor).listing() == old(cursor).listing(),
        final(cursor).spec_position() == old(cursor).spec_position() + k,
        final(buffer).spec_capacity() == old(buffer).spec_capacity(),
        final(buffer).filled() == old(buffer).filled() + rows(
            old(cursor).listing(),
            old(cursor).spec_position() as int,
            old(cursor).spec_position() + k,
        ),
{
    proof {
        use_type_invariant(&*cursor);
    }
    let ghost start = cursor.pos as int;
    let ghost listing = cursor.entries@;
    let ghost before = buffer.filled();
    let ghost target = fill_count((listing.len() - start) as nat, buffer.room(), single);
    let mut k: usize = 0;
    while cursor.pos < cursor.entries.len()
        invariant_except_break
            k <= target,
        invariant
            cursor.pos <= cursor.entries@.len(),
            cursor.entries@ == listing,
            0 <= start,
            cursor.pos == start + k,
            buffer.spec_capacity() == old(buffer).spec_capacity(),
            buffer.filled().len() == before.len() + k,
            buffer.filled() == before + rows(listing, start, start + k),
            target == fill_count((listing.len() - start) as nat, old(buffer).room(), single),
            before == old(buffer).filled(),
        ensures
            k == target,
        decreases cursor.entries.len() - cursor.pos,
    {
        let e = match cursor.next_offer(k, single) {
            Some(e) => e,
            None => {
                break;
            },
        };
        let accepted = buffer.try_push(e);
        cursor.answer(accepted);
        if !accepted {
            break;
        }
        proof {
            let a = rows(listing, start, start + k + 1);
            let b = rows(listing, start, start + k);
            assert(a.len() == b.len() + 1);
            assert(a[k as int] == row_of(listing[start + k]));
            assert(a =~= b.push(row_of(listing[start + k])));
        }
        k = k + 1;
    }
    k
}

} // verus!
