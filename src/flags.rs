use vstd::prelude::*;

verus! {

/// Flag bit asking for the listing to be produced again from its start.
pub const PRJ_CB_DATA_FLAG_ENUM_RESTART_SCAN: u32 = 1;

/// Flag bit asking for at most one entry in the answer.
pub const PRJ_CB_DATA_FLAG_ENUM_RETURN_SINGLE_ENTRY: u32 = 2;

/// Every bit that this bridge recognises.
pub const KNOWN_FLAG_BITS: u32 = 3;

/// The flags that the driver attaches to a directory-enumeration request.
///
/// Only the two recognised bits can be set: `from_bits` refuses any other.
#[derive(Clone, Copy, Debug, PartialEq, Eq, Structural)]
pub struct CallbackDataFlags {
    bits: u32,
}

impl CallbackDataFlags {
    pub closed spec fn spec_bits(self) -> u32 {
        self.bits
    }

    /// Whether the restart bit is set.
    pub open spec fn spec_restart_scan(self) -> bool {
        self.spec_bits() & PRJ_CB_DATA_FLAG_ENUM_RESTART_SCAN != 0
    }

    /// Whether the single-entry bit is set.
    pub open spec fn spec_return_single_entry(self) -> bool {
        self.spec_bits() & PRJ_CB_DATA_FLAG_ENUM_RETURN_SINGLE_ENTRY != 0
    }

    /// No flag set.
    pub fn empty() -> (r: Self)
        ensures
            r.spec_bits() == 0,
            !r.spec_restart_scan(),
            !r.spec_return_single_entry(),
    {
        let r = CallbackDataFlags { bits: 0 };
        assert(0u32 & 1u32 == 0u32 && 0u32 & 2u32 == 0u32) by (bit_vector);
        r
    }

    /// Parses a raw bitmask; `None` when it holds a bit that is not recognised.
    pub fn from_bits(bits: u32) -> (r: Option<Self>)
        ensures
            r is Some <==> bits & !KNOWN_FLAG_BITS == 0,
            r is Some <==> bits <= KNOWN_FLAG_BITS,
            r is Some ==> r->0.spec_bits() == bits,
    {
        assert(bits & !3u32 == 0u32 <==> bits <= 3u32) by (bit_vector);
        if bits & !KNOWN_FLAG_BITS == 0 {
            Some(CallbackDataFlags { bits })
        } else {
            None
        }
    }

    /// The raw bitmask.
    pub fn bits(&self) -> (r: u32)
        ensures
            r == self.spec_bits(),
    {
        self.bits
    }

    /// Whether every bit of `other` is set here.
    pub fn contains(&self, other: CallbackDataFlags) -> (r: bool)
        ensures
            r == (self.spec_bits() & other.spec_bits() == other.spec_bits()),
    {
        self.bits & other.bits == other.bits
    }

    /// Whether the driver asks for the listing to start over.
    pub fn restart_scan(&self) -> (r: bool)
        ensures
            r == self.spec_restart_scan(),
    {
        self.bits & PRJ_CB_DATA_FLAG_ENUM_RESTART_SCAN != 0
    }

    /// Whether the driver asks for at most one entry.
    pub fn return_single_entry(&self) -> (r: bool)
        ensures
            r == self.spec_return_single_entry(),
    {
        self.bits & PRJ_CB_DATA_FLAG_ENUM_RETURN_SINGLE_ENTRY != 0
    }
}

} // verus!
