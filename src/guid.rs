use vstd::prelude::*;

verus! {

/// An enumeration identifier: the 128-bit value of a UUID, most significant
/// byte first.
pub type Guid = u128;

/// A GUID in the driver's layout: a 32-bit, two 16-bit and eight 8-bit
/// fields.
#[derive(Clone, Copy, Debug)]
pub struct RawGuid {
    pub data1: u32,
    pub data2: u16,
    pub data3: u16,
    pub data4: [u8; 8],
}

/// The value of the identifier whose bytes, most significant first, are
/// those of `d1`, `d2` and `d3` in big-endian order followed by `b0` to `b7`.
pub open spec fn value_of_bytes(d1: u32, d2: u16, d3: u16, b0: u8, b1: u8, b2: u8, b3: u8, b4: u8, b5: u8, b6: u8, b7: u8) -> u128 {
    (d1 as u128) << 96u128 | (d2 as u128) << 80u128 | (d3 as u128) << 64u128
        | (b0 as u128) << 56u128 | (b1 as u128) << 48u128 | (b2 as u128) << 40u128
        | (b3 as u128) << 32u128 | (b4 as u128) << 24u128 | (b5 as u128) << 16u128
        | (b6 as u128) << 8u128 | (b7 as u128)
}

/// The value of the identifier with fields `d1`, `d2`, `d3` and `d4`.
pub open spec fn guid_value(d1: u32, d2: u16, d3: u16, d4: Seq<u8>) -> u128 {
    value_of_bytes(d1, d2, d3, d4[0], d4[1], d4[2], d4[3], d4[4], d4[5], d4[6], d4[7])
}

/// The eight bytes of the low half of `v`, most significant first.
pub open spec fn low_bytes(v: u128) -> Seq<u8> {
    seq![
        (v >> 56u128) as u8, (v >> 48u128) as u8, (v >> 40u128) as u8, (v >> 32u128) as u8,
        (v >> 24u128) as u8, (v >> 16u128) as u8, (v >> 8u128) as u8, v as u8,
    ]
}

impl RawGuid {
    /// The value that the fields stand for.
    pub open spec fn value(self) -> u128 {
        guid_value(self.data1, self.data2, self.data3, self.data4@)
    }

    /// The fields stand for `v`.
    pub open spec fn holds(self, v: u128) -> bool {
        &&& self.data1 == (v >> 96u128) as u32
        &&& self.data2 == (v >> 80u128) as u16
        &&& self.data3 == (v >> 64u128) as u16
        &&& self.data4@ == low_bytes(v)
    }
}

/// Relies on uuid::Uuid::from_fields (read back with Uuid::as_u128): the
/// identifier whose bytes are those of `d1`, `d2`, `d3` in big-endian order
/// followed by `d4`. It fails only on a `d4` of another length than eight.
#[verifier::external_body]
fn uuid_from_fields(d1: u32, d2: u16, d3: u16, d4: &[u8; 8]) -> (r: Option<u128>)
    ensures
        r == Some(guid_value(d1, d2, d3, d4@)),
{
    match uuid::Uuid::from_fields(d1, d2, d3, d4) {
        Ok(u) => Some(u.as_u128()),
        Err(_) => None,
    }
}

/// Relies on uuid::Uuid::as_fields (of Uuid::from_u128): the fields of the
/// identifier with value `v`, each read from its bytes in big-endian order.
#[verifier::external_body]
fn uuid_fields(v: u128) -> (r: RawGuid)
    ensures
        r.holds(v),
{
    let id = uuid::Uuid::from_u128(v);
    let (data1, data2, data3, data4) = id.as_fields();
    RawGuid { data1, data2, data3, data4: *data4 }
}

proof fn lemma_value_bits(v: u128, d1: u32, d2: u16, d3: u16, b0: u8, b1: u8, b2: u8, b3: u8, b4: u8, b5: u8, b6: u8, b7: u8)
    by (bit_vector)
    ensures
        (v == value_of_bytes(d1, d2, d3, b0, b1, b2, b3, b4, b5, b6, b7)) <==> (
            d1 == (v >> 96u128) as u32 && d2 == (v >> 80u128) as u16 && d3 == (v >> 64u128) as u16
            && b0 == (v >> 56u128) as u8 && b1 == (v >> 48u128) as u8 && b2 == (v >> 40u128) as u8
            && b3 == (v >> 32u128) as u8 && b4 == (v >> 24u128) as u8 && b5 == (v >> 16u128) as u8
            && b6 == (v >> 8u128) as u8 && b7 == v as u8),
{
}

/// The fields stand for `v` exactly when `v` is their value.
pub proof fn lemma_raw_guid_value(g: RawGuid, v: u128)
    ensures
        g.holds(v) <==> g.value() == v,
{
    let d = g.data4@;
    lemma_value_bits(v, g.data1, g.data2, g.data3, d[0], d[1], d[2], d[3], d[4], d[5], d[6], d[7]);
    if g.value() == v {
        assert(d =~= low_bytes(v));
    }
}

/// The identifier that a driver GUID stands for.
pub fn guid_from_raw(guid: RawGuid) -> (r: Guid)
    ensures
        r == guid.value(),
{
    match uuid_from_fields(guid.data1, guid.data2, guid.data3, &guid.data4) {
        Some(v) => v,
        None => 0,
    }
}

/// The driver GUID of an identifier.
pub fn guid_to_raw(guid: Guid) -> (r: RawGuid)
    ensures
        r.holds(guid),
        r.value() == guid,
{
    let r = uuid_fields(guid);
    proof {
        lemma_raw_guid_value(r, guid);
    }
    r
}

/// Converting an identifier to the driver's layout and back gives it again,
/// and so does the other order, field for field.
pub proof fn lemma_guid_round_trip(g: RawGuid, v: u128)
    ensures
        g.value() == v <==> g.holds(v),
        g.holds(g.value()),
{
    lemma_raw_guid_value(g, v);
    lemma_raw_guid_value(g, g.value());
}

} // verus!
