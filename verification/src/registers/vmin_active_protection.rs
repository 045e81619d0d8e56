//! VMin Active Protection Register.

use vstd::prelude::*;

use crate::bits::field_get;
use crate::bits::field_set;
use crate::bits::get_field;
use crate::bits::lemma_set_preserves_rest;
use crate::bits::lemma_set_then_get_w1;
use crate::bits::lemma_set_then_get_w6;
use crate::bits::lemma_set_then_get_w7;
use crate::bits::set_field;
use crate::registers::Register;

verus! {

/// VMin Active Protection Register: raw 16-bit value at bus address 0x37.
#[derive(Clone, Copy, Debug, PartialEq, Eq)]
pub struct VminActiveProtection {
    bits: u16,
}

impl Register for VminActiveProtection {
    closed spec fn spec_bits(self) -> u16 {
        self.bits
    }

    open spec fn spec_addr() -> u8 {
        0x37
    }

    closed spec fn spec_of_bits(bits: u16) -> Self {
        VminActiveProtection { bits }
    }

    fn from_bits(bits: u16) -> (r: Self) {
        VminActiveProtection { bits }
    }

    fn into_bits(self) -> (r: u16) {
        self.bits
    }

    fn addr() -> (r: u8) {
        0x37
    }

    proof fn lemma_encode_decode(bits: u16) {
    }

    proof fn lemma_decode_encode(self) {
    }
}

impl VminActiveProtection {
    /// The raw value the register holds immediately after device power-up.
    pub fn new() -> (r: Self)
        ensures
            r.spec_bits() == 0x24,
    {
        VminActiveProtection { bits: 0x24 }
    }

    /// Fast Role Swap Feature Enable.
    pub fn en_frs(&self) -> (r: FastRoleSwap)
        ensures
            r == FastRoleSwap::spec_from_bits(field_get(self.spec_bits(), 0, 0x1) as u8),
    {
        FastRoleSwap::from_bits(get_field(self.bits, 0, 0x1) as u8)
    }

    /// Fast Role Swap Feature Enable.
    pub fn set_en_frs(&mut self, value: FastRoleSwap)
        ensures
            final(self).spec_bits() == field_set(
                old(self).spec_bits(),
                0,
                0x1,
                value.spec_into_bits() as u16,
            ),
            final(self).spec_bits() & !(0x1u16 << 0) == old(self).spec_bits() & !(0x1u16 << 0),
            FastRoleSwap::spec_from_bits(field_get(final(self).spec_bits(), 0, 0x1) as u8)
                == value,
    {
        proof {
            lemma_set_preserves_rest(self.bits, 0, 0x1, value.spec_into_bits() as u16);
            lemma_set_then_get_w1(self.bits, 0, value.spec_into_bits() as u16);
            value.lemma_code_roundtrip();
        }
        let code: u16 = value.into_bits() as u16;
        self.bits = set_field(self.bits, 0, 0x1, code);
    }

    /// Enable internal VSYS_TH2 follow VSYS_TH1 setting neglecting
    pub fn en_vsysth2_follow_vsysth1(&self) -> (r: Follow)
        ensures
            r == Follow::spec_from_bits(field_get(self.spec_bits(), 1, 0x1) as u8),
    {
        Follow::from_bits(get_field(self.bits, 1, 0x1) as u8)
    }

    /// Enable internal VSYS_TH2 follow VSYS_TH1 setting neglecting
    pub fn set_en_vsysth2_follow_vsysth1(&mut self, value: Follow)
        ensures
            final(self).spec_bits() == field_set(
                old(self).spec_bits(),
                1,
                0x1,
                value.spec_into_bits() as u16,
            ),
            final(self).spec_bits() & !(0x1u16 << 1) == old(self).spec_bits() & !(0x1u16 << 1),
            Follow::spec_from_bits(field_get(final(self).spec_bits(), 1, 0x1) as u8)
                == value,
    {
        proof {
            lemma_set_preserves_rest(self.bits, 1, 0x1, value.spec_into_bits() as u16);
            lemma_set_then_get_w1(self.bits, 1, value.spec_into_bits() as u16);
            value.lemma_code_roundtrip();
        }
        let code: u16 = value.into_bits() as u16;
        self.bits = set_field(self.bits, 1, 0x1, code);
    }

    /// VAP Mode2 VBUS /PROCHOT trigger voltage threshold.
    pub fn vsys_th2(&self) -> (r: u16)
        ensures
            r == field_get(self.spec_bits(), 2, 0x3f),
            r <= 0x3f,
    {
        get_field(self.bits, 2, 0x3f)
    }

    /// VAP Mode2 VBUS /PROCHOT trigger voltage threshold.
    pub fn set_vsys_th2(&mut self, value: u16)
        requires
            value <= 0x3f,
        ensures
            final(self).spec_bits() == field_set(old(self).spec_bits(), 2, 0x3f, value),
            final(self).spec_bits() & !(0x3fu16 << 2) == old(self).spec_bits() & !(0x3fu16 << 2),
            field_get(final(self).spec_bits(), 2, 0x3f) == value,
    {
        proof {
            lemma_set_preserves_rest(self.bits, 2, 0x3f, value);
            lemma_set_then_get_w6(self.bits, 2, value);
        }
        self.bits = set_field(self.bits, 2, 0x3f, value);
    }

    /// Disable BATOVP 20mA discharge current through VSYS pin.
    pub fn dis_batovp_20ma(&self) -> (r: BatOvpDchrg)
        ensures
            r == BatOvpDchrg::spec_from_bits(field_get(self.spec_bits(), 8, 0x1) as u8),
    {
        BatOvpDchrg::from_bits(get_field(self.bits, 8, 0x1) as u8)
    }

    /// Disable BATOVP 20mA discharge current through VSYS pin.
    pub fn set_dis_batovp_20ma(&mut self, value: BatOvpDchrg)
        ensures
            final(self).spec_bits() == field_set(
                old(self).spec_bits(),
                8,
                0x1,
                value.spec_into_bits() as u16,
            ),
            final(self).spec_bits() & !(0x1u16 << 8) == old(self).spec_bits() & !(0x1u16 << 8),
            BatOvpDchrg::spec_from_bits(field_get(final(self).spec_bits(), 8, 0x1) as u8)
                == value,
    {
        proof {
            lemma_set_preserves_rest(self.bits, 8, 0x1, value.spec_into_bits() as u16);
            lemma_set_then_get_w1(self.bits, 8, value.spec_into_bits() as u16);
            value.lemma_code_roundtrip();
        }
        let code: u16 = value.into_bits() as u16;
        self.bits = set_field(self.bits, 8, 0x1, code);
    }

    /// VAP Mode2 VBUS /PROCHOT trigger voltage threshold.
    pub fn vbus_vap_th(&self) -> (r: u16)
        ensures
            r == field_get(self.spec_bits(), 9, 0x7f),
            r <= 0x7f,
    {
        get_field(self.bits, 9, 0x7f)
    }

    /// VAP Mode2 VBUS /PROCHOT trigger voltage threshold.
    pub fn set_vbus_vap_th(&mut self, value: u16)
        requires
            value <= 0x7f,
        ensures
            final(self).spec_bits() == field_set(old(self).spec_bits(), 9, 0x7f, value),
            final(self).spec_bits() & !(0x7fu16 << 9) == old(self).spec_bits() & !(0x7fu16 << 9),
            field_get(final(self).spec_bits(), 9, 0x7f) == value,
    {
        proof {
            lemma_set_preserves_rest(self.bits, 9, 0x7f, value);
            lemma_set_then_get_w7(self.bits, 9, value);
        }
        self.bits = set_field(self.bits, 9, 0x7f, value);
    }
}

/// Fast Role Swap Feature Enable.
#[derive(Clone, Copy, Debug, PartialEq, Eq)]
pub enum FastRoleSwap {
    Disable,
    Enable,
}

impl FastRoleSwap {
    /// The chip-defined code of each variant.
    pub open spec fn spec_into_bits(self) -> u8 {
        match self {
            FastRoleSwap::Disable => 0,
            FastRoleSwap::Enable => 1,
        }
    }

    /// The variant each code decodes to; total over all codes, undeclared
    /// codes falling back to the last declared variant in code order.
    pub open spec fn spec_from_bits(value: u8) -> Self {
        if value == 0 {
            FastRoleSwap::Disable
        } else {
            FastRoleSwap::Enable
        }
    }

    pub fn into_bits(self) -> (r: u8)
        ensures
            r == self.spec_into_bits(),
    {
        match self {
            FastRoleSwap::Disable => 0,
            FastRoleSwap::Enable => 1,
        }
    }

    pub fn from_bits(value: u8) -> (r: Self)
        ensures
            r == Self::spec_from_bits(value),
    {
        match value {
            0 => FastRoleSwap::Disable,
            _ => FastRoleSwap::Enable,
        }
    }

    /// Decoding the code of a variant yields that variant back.
    pub proof fn lemma_code_roundtrip(self)
        ensures
            Self::spec_from_bits(self.spec_into_bits()) == self,
    {
    }
}

/// Enable internal VSYS_TH2 follow VSYS_TH1 setting neglecting.
#[derive(Clone, Copy, Debug, PartialEq, Eq)]
pub enum Follow {
    Disable,
    Enable,
}

impl Follow {
    /// The chip-defined code of each variant.
    pub open spec fn spec_into_bits(self) -> u8 {
        match self {
            Follow::Disable => 0,
            Follow::Enable => 1,
        }
    }

    /// The variant each code decodes to; total over all codes, undeclared
    /// codes falling back to the last declared variant in code order.
    pub open spec fn spec_from_bits(value: u8) -> Self {
        if value == 0 {
            Follow::Disable
        } else {
            Follow::Enable
        }
    }

    pub fn into_bits(self) -> (r: u8)
        ensures
            r == self.spec_into_bits(),
    {
        match self {
            Follow::Disable => 0,
            Follow::Enable => 1,
        }
    }

    pub fn from_bits(value: u8) -> (r: Self)
        ensures
            r == Self::spec_from_bits(value),
    {
        match value {
            0 => Follow::Disable,
            _ => Follow::Enable,
        }
    }

    /// Decoding the code of a variant yields that variant back.
    pub proof fn lemma_code_roundtrip(self)
        ensures
            Self::spec_from_bits(self.spec_into_bits()) == self,
    {
    }
}

/// Disable BATOVP 20mA discharge current through VSYS pin.
#[derive(Clone, Copy, Debug, PartialEq, Eq)]
pub enum BatOvpDchrg {
    Dchrg20mA,
    NoDchrg20mA,
}

impl BatOvpDchrg {
    /// The chip-defined code of each variant.
    pub open spec fn spec_into_bits(self) -> u8 {
        match self {
            BatOvpDchrg::Dchrg20mA => 0,
            BatOvpDchrg::NoDchrg20mA => 1,
        }
    }

    /// The variant each code decodes to; total over all codes, undeclared
    /// codes falling back to the last declared variant in code order.
    pub open spec fn spec_from_bits(value: u8) -> Self {
        if value == 0 {
            BatOvpDchrg::Dchrg20mA
        } else {
            BatOvpDchrg::NoDchrg20mA
        }
    }

    pub fn into_bits(self) -> (r: u8)
        ensures
            r == self.spec_into_bits(),
    {
        match self {
            BatOvpDchrg::Dchrg20mA => 0,
            BatOvpDchrg::NoDchrg20mA => 1,
        }
    }

    pub fn from_bits(value: u8) -> (r: Self)
        ensures
            r == Self::spec_from_bits(value),
    {
        match value {
            0 => BatOvpDchrg::Dchrg20mA,
            _ => BatOvpDchrg::NoDchrg20mA,
        }
    }

    /// Decoding the code of a variant yields that variant back.
    pub proof fn lemma_code_roundtrip(self)
        ensures
            Self::spec_from_bits(self.spec_into_bits()) == self,
    {
    }
}

} // verus!
