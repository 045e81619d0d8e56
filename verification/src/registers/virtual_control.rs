//! Virtual Control Register.

use vstd::prelude::*;

use crate::bits::field_get;
use crate::bits::field_set;
use crate::bits::get_field;
use crate::bits::lemma_set_preserves_rest;
use crate::bits::lemma_set_then_get_w1;
use crate::bits::lemma_set_then_get_w2;
use crate::bits::set_field;
use crate::registers::Register;
use crate::registers::RegReset;
use crate::registers::WdRst;
use crate::registers::WdTmrAdj;

verus! {

/// Virtual Control Register: raw 16-bit value at bus address 0xfd.
#[derive(Clone, Copy, Debug, PartialEq, Eq)]
pub struct VirtualControl {
    bits: u16,
}

impl Register for VirtualControl {
    closed spec fn spec_bits(self) -> u16 {
        self.bits
    }

    open spec fn spec_addr() -> u8 {
        0xfd
    }

    closed spec fn spec_of_bits(bits: u16) -> Self {
        VirtualControl { bits }
    }

    fn from_bits(bits: u16) -> (r: Self) {
        VirtualControl { bits }
    }

    fn into_bits(self) -> (r: u16) {
        self.bits
    }

    fn addr() -> (r: u8) {
        0xfd
    }

    proof fn lemma_encode_decode(bits: u16) {
    }

    proof fn lemma_decode_encode(self) {
    }
}

impl VirtualControl {
    /// The raw value the register holds immediately after device power-up.
    pub fn new() -> (r: Self)
        ensures
            r.spec_bits() == 0x13,
    {
        VirtualControl { bits: 0x13 }
    }

    /// WATCHDOG Timer Adjust
    pub fn wdtmr_adj(&self) -> (r: WdTmrAdj)
        ensures
            r == WdTmrAdj::spec_from_bits(field_get(self.spec_bits(), 0, 0x3) as u8),
    {
        WdTmrAdj::from_bits(get_field(self.bits, 0, 0x3) as u8)
    }

    /// WATCHDOG Timer Adjust
    pub fn set_wdtmr_adj(&mut self, value: WdTmrAdj)
        ensures
            final(self).spec_bits() == field_set(
                old(self).spec_bits(),
                0,
                0x3,
                value.spec_into_bits() as u16,
            ),
            final(self).spec_bits() & !(0x3u16 << 0) == old(self).spec_bits() & !(0x3u16 << 0),
            WdTmrAdj::spec_from_bits(field_get(final(self).spec_bits(), 0, 0x3) as u8)
                == value,
    {
        proof {
            lemma_set_preserves_rest(self.bits, 0, 0x3, value.spec_into_bits() as u16);
            lemma_set_then_get_w2(self.bits, 0, value.spec_into_bits() as u16);
            value.lemma_code_roundtrip();
        }
        let code: u16 = value.into_bits() as u16;
        self.bits = set_field(self.bits, 0, 0x3, code);
    }

    /// Reset watch dog timer control.
    pub fn wd_rst(&self) -> (r: WdRst)
        ensures
            r == WdRst::spec_from_bits(field_get(self.spec_bits(), 2, 0x1) as u8),
    {
        WdRst::from_bits(get_field(self.bits, 2, 0x1) as u8)
    }

    /// Reset watch dog timer control.
    pub fn set_wd_rst(&mut self, value: WdRst)
        ensures
            final(self).spec_bits() == field_set(
                old(self).spec_bits(),
                2,
                0x1,
                value.spec_into_bits() as u16,
            ),
            final(self).spec_bits() & !(0x1u16 << 2) == old(self).spec_bits() & !(0x1u16 << 2),
            WdRst::spec_from_bits(field_get(final(self).spec_bits(), 2, 0x1) as u8)
                == value,
    {
        proof {
            lemma_set_preserves_rest(self.bits, 2, 0x1, value.spec_into_bits() as u16);
            lemma_set_then_get_w1(self.bits, 2, value.spec_into_bits() as u16);
            value.lemma_code_roundtrip();
        }
        let code: u16 = value.into_bits() as u16;
        self.bits = set_field(self.bits, 2, 0x1, code);
    }

    /// Enable ILIM_HIZ pin to set input current limit.
    pub fn en_extilim(&self) -> (r: IlimHiZ)
        ensures
            r == IlimHiZ::spec_from_bits(field_get(self.spec_bits(), 4, 0x1) as u8),
    {
        IlimHiZ::from_bits(get_field(self.bits, 4, 0x1) as u8)
    }

    /// Enable ILIM_HIZ pin to set input current limit.
    pub fn set_en_extilim(&mut self, value: IlimHiZ)
        ensures
            final(self).spec_bits() == field_set(
                old(self).spec_bits(),
                4,
                0x1,
                value.spec_into_bits() as u16,
            ),
            final(self).spec_bits() & !(0x1u16 << 4) == old(self).spec_bits() & !(0x1u16 << 4),
            IlimHiZ::spec_from_bits(field_get(final(self).spec_bits(), 4, 0x1) as u8)
                == value,
    {
        proof {
            lemma_set_preserves_rest(self.bits, 4, 0x1, value.spec_into_bits() as u16);
            lemma_set_then_get_w1(self.bits, 4, value.spec_into_bits() as u16);
            value.lemma_code_roundtrip();
        }
        let code: u16 = value.into_bits() as u16;
        self.bits = set_field(self.bits, 4, 0x1, code);
    }

    /// Reset Registers
    pub fn reg_reset(&self) -> (r: RegReset)
        ensures
            r == RegReset::spec_from_bits(field_get(self.spec_bits(), 7, 0x1) as u8),
    {
        RegReset::from_bits(get_field(self.bits, 7, 0x1) as u8)
    }

    /// Reset Registers
    pub fn set_reg_reset(&mut self, value: RegReset)
        ensures
            final(self).spec_bits() == field_set(
                old(self).spec_bits(),
                7,
                0x1,
                value.spec_into_bits() as u16,
            ),
            final(self).spec_bits() & !(0x1u16 << 7) == old(self).spec_bits() & !(0x1u16 << 7),
            RegReset::spec_from_bits(field_get(final(self).spec_bits(), 7, 0x1) as u8)
                == value,
    {
        proof {
            lemma_set_preserves_rest(self.bits, 7, 0x1, value.spec_into_bits() as u16);
            lemma_set_then_get_w1(self.bits, 7, value.spec_into_bits() as u16);
            value.lemma_code_roundtrip();
        }
        let code: u16 = value.into_bits() as u16;
        self.bits = set_field(self.bits, 7, 0x1, code);
    }

    /// OTG Mode Enable
    pub fn en_otg(&self) -> (r: Otg)
        ensures
            r == Otg::spec_from_bits(field_get(self.spec_bits(), 8, 0x1) as u8),
    {
        Otg::from_bits(get_field(self.bits, 8, 0x1) as u8)
    }

    /// OTG Mode Enable
    pub fn set_en_otg(&mut self, value: Otg)
        ensures
            final(self).spec_bits() == field_set(
                old(self).spec_bits(),
                8,
                0x1,
                value.spec_into_bits() as u16,
            ),
            final(self).spec_bits() & !(0x1u16 << 8) == old(self).spec_bits() & !(0x1u16 << 8),
            Otg::spec_from_bits(field_get(final(self).spec_bits(), 8, 0x1) as u8)
                == value,
    {
        proof {
            lemma_set_preserves_rest(self.bits, 8, 0x1, value.spec_into_bits() as u16);
            lemma_set_then_get_w1(self.bits, 8, value.spec_into_bits() as u16);
            value.lemma_code_roundtrip();
        }
        let code: u16 = value.into_bits() as u16;
        self.bits = set_field(self.bits, 8, 0x1, code);
    }
}

/// Enable ILIM_HIZ pin to set input current limit.
#[derive(Clone, Copy, Debug, PartialEq, Eq)]
pub enum IlimHiZ {
    Disable,
    Enable,
}

impl IlimHiZ {
    /// The chip-defined code of each variant.
    pub open spec fn spec_into_bits(self) -> u8 {
        match self {
            IlimHiZ::Disable => 0,
            IlimHiZ::Enable => 1,
        }
    }

    /// The variant each code decodes to; total over all codes, undeclared
    /// codes falling back to the last declared variant in code order.
    pub open spec fn spec_from_bits(value: u8) -> Self {
        if value == 0 {
            IlimHiZ::Disable
        } else {
            IlimHiZ::Enable
        }
    }

    pub fn into_bits(self) -> (r: u8)
        ensures
            r == self.spec_into_bits(),
    {
        match self {
            IlimHiZ::Disable => 0,
            IlimHiZ::Enable => 1,
        }
    }

    pub fn from_bits(value: u8) -> (r: Self)
        ensures
            r == Self::spec_from_bits(value),
    {
        match value {
            0 => IlimHiZ::Disable,
            _ => IlimHiZ::Enable,
        }
    }

    /// Decoding the code of a variant yields that variant back.
    pub proof fn lemma_code_roundtrip(self)
        ensures
            Self::spec_from_bits(self.spec_into_bits()) == self,
    {
    }
}

/// OTG Mode Enable.
#[derive(Clone, Copy, Debug, PartialEq, Eq)]
pub enum Otg {
    Disable,
    Enable,
}

impl Otg {
    /// The chip-defined code of each variant.
    pub open spec fn spec_into_bits(self) -> u8 {
        match self {
            Otg::Disable => 0,
            Otg::Enable => 1,
        }
    }

    /// The variant each code decodes to; total over all codes, undeclared
    /// codes falling back to the last declared variant in code order.
    pub open spec fn spec_from_bits(value: u8) -> Self {
        if value == 0 {
            Otg::Disable
        } else {
            Otg::Enable
        }
    }

    pub fn into_bits(self) -> (r: u8)
        ensures
            r == self.spec_into_bits(),
    {
        match self {
            Otg::Disable => 0,
            Otg::Enable => 1,
        }
    }

    pub fn from_bits(value: u8) -> (r: Self)
        ensures
            r == Self::spec_from_bits(value),
    {
        match value {
            0 => Otg::Disable,
            _ => Otg::Enable,
        }
    }

    /// Decoding the code of a variant yields that variant back.
    pub proof fn lemma_code_roundtrip(self)
        ensures
            Self::spec_from_bits(self.spec_into_bits()) == self,
    {
    }
}

} // verus!
