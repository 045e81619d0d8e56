//! Byte framing of the addressed bus protocol.
//!
//! Every register access is a single transaction against the chip's fixed
//! bus address.  A read sends the one-byte register address and receives the
//! register's two bytes, most significant first.  A write sends the register
//! address immediately followed by the two payload bytes, most significant
//! first.  The functions here build and interpret those byte sequences; the
//! transport that moves them is outside this crate.

use vstd::prelude::*;

use crate::registers::Register;

verus! {

/// The chip's fixed 7-bit bus address.
pub const BUS_ADDRESS: u8 = 0x09;

/// The most significant byte of a raw register value, sent first on the bus.
pub open spec fn spec_hi_byte(raw: u16) -> u8 {
    (raw / 256) as u8
}

/// The least significant byte of a raw register value, sent second.
pub open spec fn spec_lo_byte(raw: u16) -> u8 {
    (raw % 256) as u8
}

/// The raw register value carried by two bus bytes, most significant first.
pub open spec fn spec_raw_of_bytes(hi: u8, lo: u8) -> u16 {
    ((hi as u16) * 256 + (lo as u16)) as u16
}

/// The bytes a read transaction writes on the bus before receiving the
/// register content: exactly the register's one-byte address.
pub fn read_request<R: Register>() -> (r: Vec<u8>)
    ensures
        r@.len() == 1,
        r@[0] == R::spec_addr(),
{
    let mut out: Vec<u8> = Vec::new();
    out.push(R::addr());
    out
}

/// The number of bytes a read transaction receives: the register width in
/// bytes, fixed at two for every register of this chip.
pub fn reply_len() -> (r: usize)
    ensures
        r == 2,
{
    2
}

/// Reassembles the two bytes received from the bus, most significant first,
/// into the structured register value.
pub fn parse_reply<R: Register>(hi: u8, lo: u8) -> (r: R)
    ensures
        r == R::spec_of_bits(spec_raw_of_bytes(hi, lo)),
        r.spec_bits() == spec_raw_of_bytes(hi, lo),
        spec_hi_byte(r.spec_bits()) == hi,
        spec_lo_byte(r.spec_bits()) == lo,
{
    let raw: u16 = (hi as u16) * 256 + (lo as u16);
    proof {
        assert(raw / 256 == hi && raw % 256 == lo) by (nonlinear_arith)
            requires
                raw == (hi as u16) * 256 + (lo as u16),
        ;
    }
    R::from_bits(raw)
}

/// The bytes a write transaction puts on the bus: the register's one-byte
/// address followed by the raw value, most significant byte first.
pub fn write_frame<R: Register>(value: R) -> (r: Vec<u8>)
    ensures
        r@.len() == 3,
        r@[0] == R::spec_addr(),
        r@[1] == spec_hi_byte(value.spec_bits()),
        r@[2] == spec_lo_byte(value.spec_bits()),
{
    let raw: u16 = value.into_bits();
    let mut out: Vec<u8> = Vec::new();
    out.push(R::addr());
    out.push((raw / 256) as u8);
    out.push((raw % 256) as u8);
    out
}

/// The two bytes of a write frame carry the raw value losslessly: putting
/// the most significant byte back in front of the least significant byte
/// yields the value that was framed.
pub proof fn lemma_frame_reassembles(raw: u16)
    ensures
        (spec_hi_byte(raw) as u16) * 256 + (spec_lo_byte(raw) as u16) == raw,
{
    assert((raw / 256) * 256 + raw % 256 == raw) by (nonlinear_arith);
}

} // verus!
