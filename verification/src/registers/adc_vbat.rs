//! ADC Vbat Register.

use vstd::prelude::*;

use crate::bits::raw_of_signed16;
use crate::bits::signed16_of_raw;
use crate::bits::spec_signed16;
use crate::registers::Register;

verus! {

/// ADC Vbat Register: raw 16-bit value at bus address 0x27.
#[derive(Clone, Copy, Debug, PartialEq, Eq)]
pub struct AdcVbat {
    bits: u16,
}

impl Register for AdcVbat {
    closed spec fn spec_bits(self) -> u16 {
        self.bits
    }

    open spec fn spec_addr() -> u8 {
        0x27
    }

    closed spec fn spec_of_bits(bits: u16) -> Self {
        AdcVbat { bits }
    }

    fn from_bits(bits: u16) -> (r: Self) {
        AdcVbat { bits }
    }

    fn into_bits(self) -> (r: u16) {
        self.bits
    }

    fn addr() -> (r: u8) {
        0x27
    }

    proof fn lemma_encode_decode(bits: u16) {
    }

    proof fn lemma_decode_encode(self) {
    }
}

impl AdcVbat {
    /// The raw value the register holds immediately after device power-up.
    pub fn new() -> (r: Self)
        ensures
            r.spec_bits() == 0x0,
    {
        AdcVbat { bits: 0x0 }
    }

    /// VBAT ADC reading: POR: 0mV (0h)
    pub fn voltage(&self) -> (r: i16)
        ensures
            r as int == spec_signed16(self.spec_bits()),
    {
        signed16_of_raw(self.bits)
    }

    /// VBAT ADC reading: POR: 0mV (0h)
    pub fn set_voltage(&mut self, value: i16)
        ensures
            spec_signed16(final(self).spec_bits()) == value as int,
    {
        self.bits = raw_of_signed16(value);
    }
}

} // verus!
