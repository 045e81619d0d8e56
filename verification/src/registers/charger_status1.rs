//! Charger Status 1 Register.

use vstd::prelude::*;

use crate::registers::Register;

verus! {

/// Charger Status 1 Register: raw 16-bit value at bus address 0x20.
#[derive(Clone, Copy, Debug, PartialEq, Eq)]
pub struct ChargerStatus1 {
    bits: u16,
}

impl Register for ChargerStatus1 {
    closed spec fn spec_bits(self) -> u16 {
        self.bits
    }

    open spec fn spec_addr() -> u8 {
        0x20
    }

    closed spec fn spec_of_bits(bits: u16) -> Self {
        ChargerStatus1 { bits }
    }

    fn from_bits(bits: u16) -> (r: Self) {
        ChargerStatus1 { bits }
    }

    fn into_bits(self) -> (r: u16) {
        self.bits
    }

    fn addr() -> (r: u8) {
        0x20
    }

    proof fn lemma_encode_decode(bits: u16) {
    }

    proof fn lemma_decode_encode(self) {
    }
}

impl ChargerStatus1 {
    /// The raw value the register holds immediately after device power-up.
    pub fn new() -> (r: Self)
        ensures
            r.spec_bits() == 0x0,
    {
        ChargerStatus1 { bits: 0x0 }
    }
}

} // verus!
