//! ADC Psys Register.

use vstd::prelude::*;

use crate::bits::field_get;
use crate::bits::field_set;
use crate::bits::get_field;
use crate::bits::lemma_set_preserves_rest;
use crate::bits::lemma_set_then_get_w16;
use crate::bits::set_field;
use crate::registers::Register;

verus! {

/// ADC Psys Register: raw 16-bit value at bus address 0x28.
#[derive(Clone, Copy, Debug, PartialEq, Eq)]
pub struct AdcPsys {
    bits: u16,
}

impl Register for AdcPsys {
    closed spec fn spec_bits(self) -> u16 {
        self.bits
    }

    open spec fn spec_addr() -> u8 {
        0x28
    }

    closed spec fn spec_of_bits(bits: u16) -> Self {
        AdcPsys { bits }
    }

    fn from_bits(bits: u16) -> (r: Self) {
        AdcPsys { bits }
    }

    fn into_bits(self) -> (r: u16) {
        self.bits
    }

    fn addr() -> (r: u8) {
        0x28
    }

    proof fn lemma_encode_decode(bits: u16) {
    }

    proof fn lemma_decode_encode(self) {
    }
}

impl AdcPsys {
    /// The raw value the register holds immediately after device power-up.
    pub fn new() -> (r: Self)
        ensures
            r.spec_bits() == 0x0,
    {
        AdcPsys { bits: 0x0 }
    }

    /// System Power PSYS ADC reading.
    pub fn power(&self) -> (r: u16)
        ensures
            r == field_get(self.spec_bits(), 0, 0xffff),
    {
        get_field(self.bits, 0, 0xffff)
    }

    /// System Power PSYS ADC reading.
    pub fn set_power(&mut self, value: u16)
        ensures
            final(self).spec_bits() == field_set(old(self).spec_bits(), 0, 0xffff, value),
            final(self).spec_bits() & !(0xffffu16 << 0) == old(self).spec_bits() & !(0xffffu16 << 0),
            field_get(final(self).spec_bits(), 0, 0xffff) == value,
    {
        proof {
            lemma_set_preserves_rest(self.bits, 0, 0xffff, value);
            lemma_set_then_get_w16(self.bits, 0, value);
        }
        self.bits = set_field(self.bits, 0, 0xffff, value);
    }
}

} // verus!
