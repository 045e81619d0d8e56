//! Charge Current Register.

use vstd::prelude::*;

use crate::bits::field_get;
use crate::bits::field_set;
use crate::bits::get_field;
use crate::bits::lemma_set_preserves_rest;
use crate::bits::lemma_set_then_get_w11;
use crate::bits::set_field;
use crate::registers::Register;

verus! {

/// Charge Current Register: raw 16-bit value at bus address 0x14.
#[derive(Clone, Copy, Debug, PartialEq, Eq)]
pub struct ChargeCurrent {
    bits: u16,
}

impl Register for ChargeCurrent {
    closed spec fn spec_bits(self) -> u16 {
        self.bits
    }

    open spec fn spec_addr() -> u8 {
        0x14
    }

    closed spec fn spec_of_bits(bits: u16) -> Self {
        ChargeCurrent { bits }
    }

    fn from_bits(bits: u16) -> (r: Self) {
        ChargeCurrent { bits }
    }

    fn into_bits(self) -> (r: u16) {
        self.bits
    }

    fn addr() -> (r: u8) {
        0x14
    }

    proof fn lemma_encode_decode(bits: u16) {
    }

    proof fn lemma_decode_encode(self) {
    }
}

impl ChargeCurrent {
    /// The raw value the register holds immediately after device power-up.
    pub fn new() -> (r: Self)
        ensures
            r.spec_bits() == 0x0,
    {
        ChargeCurrent { bits: 0x0 }
    }

    /// Charge current setting with 5mΩ sense resistor (non-zero value
    pub fn current(&self) -> (r: u16)
        ensures
            r == field_get(self.spec_bits(), 3, 0x7ff),
            r <= 0x7ff,
    {
        get_field(self.bits, 3, 0x7ff)
    }

    /// Charge current setting with 5mΩ sense resistor (non-zero value
    pub fn set_current(&mut self, value: u16)
        requires
            value <= 0x7ff,
        ensures
            final(self).spec_bits() == field_set(old(self).spec_bits(), 3, 0x7ff, value),
            final(self).spec_bits() & !(0x7ffu16 << 3) == old(self).spec_bits() & !(0x7ffu16 << 3),
            field_get(final(self).spec_bits(), 3, 0x7ff) == value,
    {
        proof {
            lemma_set_preserves_rest(self.bits, 3, 0x7ff, value);
            lemma_set_then_get_w11(self.bits, 3, value);
        }
        self.bits = set_field(self.bits, 3, 0x7ff, value);
    }
}

} // verus!
