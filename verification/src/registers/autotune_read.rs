//! Autotune Read Register.

use vstd::prelude::*;

use crate::bits::field_get;
use crate::bits::field_set;
use crate::bits::get_field;
use crate::bits::lemma_set_preserves_rest;
use crate::bits::lemma_set_then_get_w8;
use crate::bits::set_field;
use crate::registers::Register;

verus! {

/// Autotune Read Register: raw 16-bit value at bus address 0x60.
#[derive(Clone, Copy, Debug, PartialEq, Eq)]
pub struct AutotuneRead {
    bits: u16,
}

impl Register for AutotuneRead {
    closed spec fn spec_bits(self) -> u16 {
        self.bits
    }

    open spec fn spec_addr() -> u8 {
        0x60
    }

    closed spec fn spec_of_bits(bits: u16) -> Self {
        AutotuneRead { bits }
    }

    fn from_bits(bits: u16) -> (r: Self) {
        AutotuneRead { bits }
    }

    fn into_bits(self) -> (r: u16) {
        self.bits
    }

    fn addr() -> (r: u8) {
        0x60
    }

    proof fn lemma_encode_decode(bits: u16) {
    }

    proof fn lemma_decode_encode(self) {
    }
}

impl AutotuneRead {
    /// The raw value the register holds immediately after device power-up.
    pub fn new() -> (r: Self)
        ensures
            r.spec_bits() == 0x0,
    {
        AutotuneRead { bits: 0x0 }
    }

    /// Phase B inductor time constant L(uH)/DCR(mΩ) value.
    pub fn autotune_b(&self) -> (r: u8)
        ensures
            r == field_get(self.spec_bits(), 0, 0xff) as u8,
    {
        get_field(self.bits, 0, 0xff) as u8
    }

    /// Phase B inductor time constant L(uH)/DCR(mΩ) value.
    pub fn set_autotune_b(&mut self, value: u8)
        ensures
            final(self).spec_bits() == field_set(old(self).spec_bits(), 0, 0xff, value as u16),
            final(self).spec_bits() & !(0xffu16 << 0) == old(self).spec_bits() & !(0xffu16 << 0),
            field_get(final(self).spec_bits(), 0, 0xff) == value as u16,
    {
        proof {
            lemma_set_preserves_rest(self.bits, 0, 0xff, value as u16);
            lemma_set_then_get_w8(self.bits, 0, value as u16);
        }
        self.bits = set_field(self.bits, 0, 0xff, value as u16);
    }

    /// Phase A inductor time constant L(uH)/DCR(mΩ) value.
    pub fn autotune_a(&self) -> (r: u8)
        ensures
            r == field_get(self.spec_bits(), 8, 0xff) as u8,
    {
        get_field(self.bits, 8, 0xff) as u8
    }

    /// Phase A inductor time constant L(uH)/DCR(mΩ) value.
    pub fn set_autotune_a(&mut self, value: u8)
        ensures
            final(self).spec_bits() == field_set(old(self).spec_bits(), 8, 0xff, value as u16),
            final(self).spec_bits() & !(0xffu16 << 8) == old(self).spec_bits() & !(0xffu16 << 8),
            field_get(final(self).spec_bits(), 8, 0xff) == value as u16,
    {
        proof {
            lemma_set_preserves_rest(self.bits, 8, 0xff, value as u16);
            lemma_set_then_get_w8(self.bits, 8, value as u16);
        }
        self.bits = set_field(self.bits, 8, 0xff, value as u16);
    }
}

} // verus!
