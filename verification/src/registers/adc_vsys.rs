//! ADC Vsys Register.

use vstd::prelude::*;

use crate::bits::raw_of_signed16;
use crate::bits::signed16_of_raw;
use crate::bits::spec_signed16;
use crate::registers::Register;

verus! {

/// ADC Vsys Register: raw 16-bit value at bus address 0x26.
#[derive(Clone, Copy, Debug, PartialEq, Eq)]
pub struct AdcVsys {
    bits: u16,
}

impl Register for AdcVsys {
    closed spec fn spec_bits(self) -> u16 {
        self.bits
    }

    open spec fn spec_addr() -> u8 {
        0x26
    }

    closed spec fn spec_of_bits(bits: u16) -> Self {
        AdcVsys { bits }
    }

    fn from_bits(bits: u16) -> (r: Self) {
        AdcVsys { bits }
    }

    fn into_bits(self) -> (r: u16) {
        self.bits
    }

    fn addr() -> (r: u8) {
        0x26
    }

    proof fn lemma_encode_decode(bits: u16) {
    }

    proof fn lemma_decode_encode(self) {
    }
}

impl AdcVsys {
    /// The raw value the register holds immediately after device power-up.
    pub fn new() -> (r: Self)
        ensures
            r.spec_bits() == 0x0,
    {
        AdcVsys { bits: 0x0 }
    }

    /// VSYS ADC reading.
    pub fn voltage(&self) -> (r: i16)
        ensures
            r as int == spec_signed16(self.spec_bits()),
    {
        signed16_of_raw(self.bits)
    }

    /// VSYS ADC reading.
    pub fn set_voltage(&mut self, value: i16)
        ensures
            spec_signed16(final(self).spec_bits()) == value as int,
    {
        self.bits = raw_of_signed16(value);
    }
}

} // verus!
