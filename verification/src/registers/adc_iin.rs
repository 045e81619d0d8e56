//! ADC Iin Register.

use vstd::prelude::*;

use crate::bits::raw_of_signed16;
use crate::bits::signed16_of_raw;
use crate::bits::spec_signed16;
use crate::registers::Register;

verus! {

/// ADC Iin Register: raw 16-bit value at bus address 0x25.
#[derive(Clone, Copy, Debug, PartialEq, Eq)]
pub struct AdcIin {
    bits: u16,
}

impl Register for AdcIin {
    closed spec fn spec_bits(self) -> u16 {
        self.bits
    }

    open spec fn spec_addr() -> u8 {
        0x25
    }

    closed spec fn spec_of_bits(bits: u16) -> Self {
        AdcIin { bits }
    }

    fn from_bits(bits: u16) -> (r: Self) {
        AdcIin { bits }
    }

    fn into_bits(self) -> (r: u16) {
        self.bits
    }

    fn addr() -> (r: u8) {
        0x25
    }

    proof fn lemma_encode_decode(bits: u16) {
    }

    proof fn lemma_decode_encode(self) {
    }
}

impl AdcIin {
    /// The raw value the register holds immediately after device power-up.
    pub fn new() -> (r: Self)
        ensures
            r.spec_bits() == 0x0,
    {
        AdcIin { bits: 0x0 }
    }

    /// IIN ADC reading with 10mÎ© sense resistor: current flowing from
    pub fn current(&self) -> (r: i16)
        ensures
            r as int == spec_signed16(self.spec_bits()),
    {
        signed16_of_raw(self.bits)
    }

    /// IIN ADC reading with 10mÎ© sense resistor: current flowing from
    pub fn set_current(&mut self, value: i16)
        ensures
            spec_signed16(final(self).spec_bits()) == value as int,
    {
        self.bits = raw_of_signed16(value);
    }
}

} // verus!
