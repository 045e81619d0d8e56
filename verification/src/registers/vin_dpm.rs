//! Vin DPM Register.

use vstd::prelude::*;

use crate::bits::field_get;
use crate::bits::field_set;
use crate::bits::get_field;
use crate::bits::lemma_set_preserves_rest;
use crate::bits::lemma_set_then_get_w13;
use crate::bits::set_field;
use crate::registers::Register;

verus! {

/// Vin DPM Register: raw 16-bit value at bus address 0x3d.
#[derive(Clone, Copy, Debug, PartialEq, Eq)]
pub struct VinDpm {
    bits: u16,
}

impl Register for VinDpm {
    closed spec fn spec_bits(self) -> u16 {
        self.bits
    }

    open spec fn spec_addr() -> u8 {
        0x3d
    }

    closed spec fn spec_of_bits(bits: u16) -> Self {
        VinDpm { bits }
    }

    fn from_bits(bits: u16) -> (r: Self) {
        VinDpm { bits }
    }

    fn into_bits(self) -> (r: u16) {
        self.bits
    }

    fn addr() -> (r: u8) {
        0x3d
    }

    proof fn lemma_encode_decode(bits: u16) {
    }

    proof fn lemma_decode_encode(self) {
    }
}

impl VinDpm {
    /// The raw value the register holds immediately after device power-up.
    pub fn new() -> (r: Self)
        ensures
            r.spec_bits() == 0x280,
    {
        VinDpm { bits: 0x280 }
    }

    /// Input voltage limit:
    pub fn voltage(&self) -> (r: u16)
        ensures
            r == field_get(self.spec_bits(), 0, 0x1fff),
            r <= 0x1fff,
    {
        get_field(self.bits, 0, 0x1fff)
    }

    /// Input voltage limit:
    pub fn set_voltage(&mut self, value: u16)
        requires
            value <= 0x1fff,
        ensures
            final(self).spec_bits() == field_set(old(self).spec_bits(), 0, 0x1fff, value),
            final(self).spec_bits() & !(0x1fffu16 << 0) == old(self).spec_bits() & !(0x1fffu16 << 0),
            field_get(final(self).spec_bits(), 0, 0x1fff) == value,
    {
        proof {
            lemma_set_preserves_rest(self.bits, 0, 0x1fff, value);
            lemma_set_then_get_w13(self.bits, 0, value);
        }
        self.bits = set_field(self.bits, 0, 0x1fff, value);
    }
}

} // verus!
