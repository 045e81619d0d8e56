//! Iin Dpm Register.

use vstd::prelude::*;

use crate::bits::field_get;
use crate::bits::field_set;
use crate::bits::get_field;
use crate::bits::lemma_set_preserves_rest;
use crate::bits::lemma_set_then_get_w9;
use crate::bits::set_field;
use crate::registers::Register;

verus! {

/// Iin Dpm Register: raw 16-bit value at bus address 0x22.
#[derive(Clone, Copy, Debug, PartialEq, Eq)]
pub struct IinDpm {
    bits: u16,
}

impl Register for IinDpm {
    closed spec fn spec_bits(self) -> u16 {
        self.bits
    }

    open spec fn spec_addr() -> u8 {
        0x22
    }

    closed spec fn spec_of_bits(bits: u16) -> Self {
        IinDpm { bits }
    }

    fn from_bits(bits: u16) -> (r: Self) {
        IinDpm { bits }
    }

    fn into_bits(self) -> (r: u16) {
        self.bits
    }

    fn addr() -> (r: u8) {
        0x22
    }

    proof fn lemma_encode_decode(bits: u16) {
    }

    proof fn lemma_decode_encode(self) {
    }
}

impl IinDpm {
    /// The raw value the register holds immediately after device power-up.
    pub fn new() -> (r: Self)
        ensures
            r.spec_bits() == 0x320,
    {
        IinDpm { bits: 0x320 }
    }

    /// Input current setting with 10mΩ sense resistor.
    pub fn current(&self) -> (r: u16)
        ensures
            r == field_get(self.spec_bits(), 2, 0x1ff),
            r <= 0x1ff,
    {
        get_field(self.bits, 2, 0x1ff)
    }

    /// Input current setting with 10mΩ sense resistor.
    pub fn set_current(&mut self, value: u16)
        requires
            value <= 0x1ff,
        ensures
            final(self).spec_bits() == field_set(old(self).spec_bits(), 2, 0x1ff, value),
            final(self).spec_bits() & !(0x1ffu16 << 2) == old(self).spec_bits() & !(0x1ffu16 << 2),
            field_get(final(self).spec_bits(), 2, 0x1ff) == value,
    {
        proof {
            lemma_set_preserves_rest(self.bits, 2, 0x1ff, value);
            lemma_set_then_get_w9(self.bits, 2, value);
        }
        self.bits = set_field(self.bits, 2, 0x1ff, value);
    }
}

} // verus!
