//! Persistent-state data model: addresses, records, and the `Counter`
//! payload with its fixed four-byte little-endian layout.

use vstd::prelude::*;

verus! {

/// An opaque address identifying a record, an authority, or the reserved
/// platform allocation facility. Addresses carry no behaviour of their own;
/// they are comparison keys.
#[derive(Clone, Copy, Debug, PartialEq, Eq, Structural)]
pub struct Address {
    pub value: u64,
}

/// The well-known reserved platform address that must be presented in the
/// third record position during initialization.
pub open spec fn spec_reserved_address() -> Address {
    Address { value: 0 }
}

/// Executable counterpart of [`spec_reserved_address`].
pub fn reserved_address() -> (r: Address)
    ensures
        r == spec_reserved_address(),
{
    Address { value: 0 }
}

/// A host-managed persistent byte buffer, annotated with the two capability
/// flags this processor consults: *writable* (the processor may mutate the
/// data region) and *authorized* (the presenting party asserted authority
/// over it, checked upstream).
pub struct Record {
    pub address: Address,
    pub is_writable: bool,
    pub is_authorized: bool,
    pub data: Vec<u8>,
}

/// The mathematical model of a [`Record`]: the same fields, with the data
/// region abstracted to a byte sequence.
#[verifier::ext_equal]
pub ghost struct RecordModel {
    pub address: Address,
    pub is_writable: bool,
    pub is_authorized: bool,
    pub data: Seq<u8>,
}

impl View for Record {
    type V = RecordModel;

    open spec fn view(&self) -> RecordModel {
        RecordModel {
            address: self.address,
            is_writable: self.is_writable,
            is_authorized: self.is_authorized,
            data: self.data@,
        }
    }
}

/// The model of an ordered record list, record by record.
pub open spec fn records_view(rs: Seq<Record>) -> Seq<RecordModel> {
    rs.map_values(|r: Record| r@)
}

/// The persisted record payload: one unsigned 32-bit counter, stored as the
/// entirety of a record's data region.
#[derive(Clone, Copy, Debug, PartialEq, Eq, Structural)]
pub struct Counter {
    pub count: u32,
}

/// The canonical four-byte little-endian layout of a counter value.
pub open spec fn spec_u32_to_le(v: u32) -> Seq<u8> {
    seq![
        (v & 0xff) as u8,
        ((v >> 8) & 0xff) as u8,
        ((v >> 16) & 0xff) as u8,
        ((v >> 24) & 0xff) as u8,
    ]
}

/// The counter value denoted by a four-byte little-endian data region.
pub open spec fn spec_u32_from_le(s: Seq<u8>) -> u32
    recommends
        s.len() == 4,
{
    (s[0] as u32) | ((s[1] as u32) << 8) | ((s[2] as u32) << 16) | ((s[3] as u32) << 24)
}

/// Decoding inverts encoding: the four little-endian bytes of `v` denote `v`.
pub proof fn lemma_u32_le_round_trip(v: u32)
    ensures
        spec_u32_from_le(spec_u32_to_le(v)) == v,
{
    let b0 = (v & 0xff) as u8;
    let b1 = ((v >> 8) & 0xff) as u8;
    let b2 = ((v >> 16) & 0xff) as u8;
    let b3 = ((v >> 24) & 0xff) as u8;
    assert((b0 as u32) | ((b1 as u32) << 8) | ((b2 as u32) << 16) | ((b3 as u32) << 24) == v)
        by (bit_vector)
        requires
            b0 == (v & 0xff) as u8,
            b1 == ((v >> 8) & 0xff) as u8,
            b2 == ((v >> 16) & 0xff) as u8,
            b3 == ((v >> 24) & 0xff) as u8,
    ;
}

impl Counter {
    /// Serialize the counter into its canonical four-byte layout.
    pub fn to_bytes(&self) -> (r: Vec<u8>)
        ensures
            r@ == spec_u32_to_le(self.count),
    {
        let mut r: Vec<u8> = Vec::new();
        r.push((self.count & 0xff) as u8);
        r.push(((self.count >> 8) & 0xff) as u8);
        r.push(((self.count >> 16) & 0xff) as u8);
        r.push(((self.count >> 24) & 0xff) as u8);
        proof {
            assert(r@ =~= spec_u32_to_le(self.count));
        }
        r
    }

    /// Deserialize a counter from a record's data region. Exactly the
    /// four-byte regions decode; every other length is rejected.
    pub fn from_bytes(data: &[u8]) -> (r: Option<Counter>)
        ensures
            match r {
                Some(c) => data@.len() == 4 && c.count == spec_u32_from_le(data@),
                None => data@.len() != 4,
            },
    {
        if data.len() != 4 {
            return None;
        }
        let count = (data[0] as u32) | ((data[1] as u32) << 8) | ((data[2] as u32) << 16)
            | ((data[3] as u32) << 24);
        Some(Counter { count })
    }
}

} // verus!
