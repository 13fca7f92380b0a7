//! Globally unique identifiers, written as the registry prints them:
//! `{509969B5-B0E0-452C-A372-A9A754D0423C}` is a group of four bytes, two
//! groups of two and eight single bytes.

use vstd::prelude::*;

verus! {

/// A 128-bit identifier in its four fields.
#[derive(Clone, Copy, Debug, PartialEq, Eq)]
pub struct Guid {
    pub data1: u32,
    pub data2: u16,
    pub data3: u16,
    pub data4: [u8; 8],
}

/// The identifier with the given groups, in the order in which they are
/// written: `d1`, `d2`, `d3`, then the eight bytes `d4` to `d11`.
pub fn define_guid(
    d1: u32,
    d2: u16,
    d3: u16,
    d4: u8,
    d5: u8,
    d6: u8,
    d7: u8,
    d8: u8,
    d9: u8,
    d10: u8,
    d11: u8,
) -> (guid: Guid)
    ensures
        guid.data1 == d1,
        guid.data2 == d2,
        guid.data3 == d3,
        guid.data4@ == seq![d4, d5, d6, d7, d8, d9, d10, d11],
{
    Guid { data1: d1, data2: d2, data3: d3, data4: [d4, d5, d6, d7, d8, d9, d10, d11] }
}

/// The identifier of the driver's interface class,
/// `{509969B5-B0E0-452C-A372-A9A754D0423C}`.
pub fn hestia_guid() -> (guid: Guid)
    ensures
        guid.data1 == 0x509969b5,
        guid.data2 == 0xb0e0,
        guid.data3 == 0x452c,
        guid.data4@ == seq![0xa3u8, 0x72, 0xa9, 0xa7, 0x54, 0xd0, 0x42, 0x3c],
{
    define_guid(0x509969b5, 0xb0e0, 0x452c, 0xa3, 0x72, 0xa9, 0xa7, 0x54, 0xd0, 0x42, 0x3c)
}

} // verus!
