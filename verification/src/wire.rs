//! Big-endian 16-bit fields, read and written by the `byteorder` crate.

use byteorder::{BigEndian, ByteOrder};
use vstd::prelude::*;

verus! {

/// The number that two bytes hold in big-endian order.
pub open spec fn u16_from_be(hi: u8, lo: u8) -> int {
    hi as int * 256 + lo as int
}

/// Calls `byteorder::BigEndian::read_u16`, which reads the first two bytes
/// of the slice as a big-endian number and panics on a shorter slice.
#[verifier::external_body]
pub(crate) fn read_u16_be(buf: &[u8]) -> (r: u16)
    requires
        buf@.len() >= 2,
    ensures
        r as int == u16_from_be(buf@[0], buf@[1]),
{
    BigEndian::read_u16(buf)
}

/// Calls `byteorder::BigEndian::write_u16`, which stores the number in the
/// first two bytes of the slice, high byte first.
#[verifier::external_body]
pub(crate) fn write_u16_be(buf: &mut [u8; 2], n: u16)
    ensures
        final(buf)@ == seq![(n / 256) as u8, (n % 256) as u8],
{
    BigEndian::write_u16(buf, n)
}

} // verus!
