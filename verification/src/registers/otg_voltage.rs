//! Otg Voltage Register.

use vstd::prelude::*;

use crate::bits::field_get;
use crate::bits::field_set;
use crate::bits::get_field;
use crate::bits::lemma_set_preserves_rest;
use crate::bits::lemma_set_then_get_w11;
use crate::bits::set_field;
use crate::registers::Register;

verus! {

/// Otg Voltage Register: raw 16-bit value at bus address 0x3b.
#[derive(Clone, Copy, Debug, PartialEq, Eq)]
pub struct OtgVoltage {
    bits: u16,
}

impl Register for OtgVoltage {
    closed spec fn spec_bits(self) -> u16 {
        self.bits
    }

    open spec fn spec_addr() -> u8 {
        0x3b
    }

    closed spec fn spec_of_bits(bits: u16) -> Self {
        OtgVoltage { bits }
    }

    fn from_bits(bits: u16) -> (r: Self) {
        OtgVoltage { bits }
    }

    fn into_bits(self) -> (r: u16) {
        self.bits
    }

    fn addr() -> (r: u8) {
        0x3b
    }

    proof fn lemma_encode_decode(bits: u16) {
    }

    proof fn lemma_decode_encode(self) {
    }
}

impl OtgVoltage {
    /// The raw value the register holds immediately after device power-up.
    pub fn new() -> (r: Self)
        ensures
            r.spec_bits() == 0x3e8,
    {
        OtgVoltage { bits: 0x3e8 }
    }

    /// OTG output voltage regulation:
    pub fn voltage(&self) -> (r: u16)
        ensures
            r == field_get(self.spec_bits(), 2, 0x7ff),
            r <= 0x7ff,
    {
        get_field(self.bits, 2, 0x7ff)
    }

    /// OTG output voltage regulation:
    pub fn set_voltage(&mut self, value: u16)
        requires
            value <= 0x7ff,
        ensures
            final(self).spec_bits() == field_set(old(self).spec_bits(), 2, 0x7ff, value),
            final(self).spec_bits() & !(0x7ffu16 << 2) == old(self).spec_bits() & !(0x7ffu16 << 2),
            field_get(final(self).spec_bits(), 2, 0x7ff) == value,
    {
        proof {
            lemma_set_preserves_rest(self.bits, 2, 0x7ff, value);
            lemma_set_then_get_w11(self.bits, 2, value);
        }
        self.bits = set_field(self.bits, 2, 0x7ff, value);
    }
}

} // verus!
