//! Gate Drive Register.

use vstd::prelude::*;

use crate::bits::field_get;
use crate::bits::field_set;
use crate::bits::get_field;
use crate::bits::lemma_set_preserves_rest;
use crate::bits::lemma_set_then_get_w1;
use crate::bits::lemma_set_then_get_w3;
use crate::bits::set_field;
use crate::registers::Register;

verus! {

/// Gate Drive Register: raw 16-bit value at bus address 0x18.
#[derive(Clone, Copy, Debug, PartialEq, Eq)]
pub struct GateDrive {
    bits: u16,
}

impl Register for GateDrive {
    closed spec fn spec_bits(self) -> u16 {
        self.bits
    }

    open spec fn spec_addr() -> u8 {
        0x18
    }

    closed spec fn spec_of_bits(bits: u16) -> Self {
        GateDrive { bits }
    }

    fn from_bits(bits: u16) -> (r: Self) {
        GateDrive { bits }
    }

    fn into_bits(self) -> (r: u16) {
        self.bits
    }

    fn addr() -> (r: u8) {
        0x18
    }

    proof fn lemma_encode_decode(bits: u16) {
    }

    proof fn lemma_decode_encode(self) {
    }
}

impl GateDrive {
    /// The raw value the register holds immediately after device power-up.
    pub fn new() -> (r: Self)
        ensures
            r.spec_bits() == 0x246c,
    {
        GateDrive { bits: 0x246c }
    }

    /// System regulation loop bandwidth slow down to reduce input
    pub fn vsys_reg_slow(&self) -> (r: VsysRegSlow)
        ensures
            r == VsysRegSlow::spec_from_bits(field_get(self.spec_bits(), 1, 0x1) as u8),
    {
        VsysRegSlow::from_bits(get_field(self.bits, 1, 0x1) as u8)
    }

    /// System regulation loop bandwidth slow down to reduce input
    pub fn set_vsys_reg_slow(&mut self, value: VsysRegSlow)
        ensures
            final(self).spec_bits() == field_set(
                old(self).spec_bits(),
                1,
                0x1,
                value.spec_into_bits() as u16,
            ),
            final(self).spec_bits() & !(0x1u16 << 1) == old(self).spec_bits() & !(0x1u16 << 1),
            VsysRegSlow::spec_from_bits(field_get(final(self).spec_bits(), 1, 0x1) as u8)
                == value,
    {
        proof {
            lemma_set_preserves_rest(self.bits, 1, 0x1, value.spec_into_bits() as u16);
            lemma_set_then_get_w1(self.bits, 1, value.spec_into_bits() as u16);
            value.lemma_code_roundtrip();
        }
        let code: u16 = value.into_bits() as u16;
        self.bits = set_field(self.bits, 1, 0x1, code);
    }

    /// LODRV2 LS MOSFET gate drive strength adjustment for both turn
    pub fn lodrv2_stat(&self) -> (r: DrvStat)
        ensures
            r == DrvStat::spec_from_bits(field_get(self.spec_bits(), 2, 0x7) as u8),
    {
        DrvStat::from_bits(get_field(self.bits, 2, 0x7) as u8)
    }

    /// LODRV2 LS MOSFET gate drive strength adjustment for both turn
    pub fn set_lodrv2_stat(&mut self, value: DrvStat)
        ensures
            final(self).spec_bits() == field_set(
                old(self).spec_bits(),
                2,
                0x7,
                value.spec_into_bits() as u16,
            ),
            final(self).spec_bits() & !(0x7u16 << 2) == old(self).spec_bits() & !(0x7u16 << 2),
            DrvStat::spec_from_bits(field_get(final(self).spec_bits(), 2, 0x7) as u8)
                == value,
    {
        proof {
            lemma_set_preserves_rest(self.bits, 2, 0x7, value.spec_into_bits() as u16);
            lemma_set_then_get_w3(self.bits, 2, value.spec_into_bits() as u16);
            value.lemma_code_roundtrip();
        }
        let code: u16 = value.into_bits() as u16;
        self.bits = set_field(self.bits, 2, 0x7, code);
    }

    /// HIDRV2 HS MOSFET gate drive strength adjustment for both turn
    pub fn hidrv2_stat(&self) -> (r: DrvStat)
        ensures
            r == DrvStat::spec_from_bits(field_get(self.spec_bits(), 5, 0x7) as u8),
    {
        DrvStat::from_bits(get_field(self.bits, 5, 0x7) as u8)
    }

    /// HIDRV2 HS MOSFET gate drive strength adjustment for both turn
    pub fn set_hidrv2_stat(&mut self, value: DrvStat)
        ensures
            final(self).spec_bits() == field_set(
                old(self).spec_bits(),
                5,
                0x7,
                value.spec_into_bits() as u16,
            ),
            final(self).spec_bits() & !(0x7u16 << 5) == old(self).spec_bits() & !(0x7u16 << 5),
            DrvStat::spec_from_bits(field_get(final(self).spec_bits(), 5, 0x7) as u8)
                == value,
    {
        proof {
            lemma_set_preserves_rest(self.bits, 5, 0x7, value.spec_into_bits() as u16);
            lemma_set_then_get_w3(self.bits, 5, value.spec_into_bits() as u16);
            value.lemma_code_roundtrip();
        }
        let code: u16 = value.into_bits() as u16;
        self.bits = set_field(self.bits, 5, 0x7, code);
    }

    /// 0b = Disable
    pub fn batovp_extend(&self) -> (r: BatOvpExtend)
        ensures
            r == BatOvpExtend::spec_from_bits(field_get(self.spec_bits(), 8, 0x1) as u8),
    {
        BatOvpExtend::from_bits(get_field(self.bits, 8, 0x1) as u8)
    }

    /// 0b = Disable
    pub fn set_batovp_extend(&mut self, value: BatOvpExtend)
        ensures
            final(self).spec_bits() == field_set(
                old(self).spec_bits(),
                8,
                0x1,
                value.spec_into_bits() as u16,
            ),
            final(self).spec_bits() & !(0x1u16 << 8) == old(self).spec_bits() & !(0x1u16 << 8),
            BatOvpExtend::spec_from_bits(field_get(final(self).spec_bits(), 8, 0x1) as u8)
                == value,
    {
        proof {
            lemma_set_preserves_rest(self.bits, 8, 0x1, value.spec_into_bits() as u16);
            lemma_set_then_get_w1(self.bits, 8, value.spec_into_bits() as u16);
            value.lemma_code_roundtrip();
        }
        let code: u16 = value.into_bits() as u16;
        self.bits = set_field(self.bits, 8, 0x1, code);
    }

    /// LODRV1_A and LODRV1_B LS MOSFET gate drive strength adjustment
    pub fn lodrv1_stat(&self) -> (r: DrvStat)
        ensures
            r == DrvStat::spec_from_bits(field_get(self.spec_bits(), 10, 0x7) as u8),
    {
        DrvStat::from_bits(get_field(self.bits, 10, 0x7) as u8)
    }

    /// LODRV1_A and LODRV1_B LS MOSFET gate drive strength adjustment
    pub fn set_lodrv1_stat(&mut self, value: DrvStat)
        ensures
            final(self).spec_bits() == field_set(
                old(self).spec_bits(),
                10,
                0x7,
                value.spec_into_bits() as u16,
            ),
            final(self).spec_bits() & !(0x7u16 << 10) == old(self).spec_bits() & !(0x7u16 << 10),
            DrvStat::spec_from_bits(field_get(final(self).spec_bits(), 10, 0x7) as u8)
                == value,
    {
        proof {
            lemma_set_preserves_rest(self.bits, 10, 0x7, value.spec_into_bits() as u16);
            lemma_set_then_get_w3(self.bits, 10, value.spec_into_bits() as u16);
            value.lemma_code_roundtrip();
        }
        let code: u16 = value.into_bits() as u16;
        self.bits = set_field(self.bits, 10, 0x7, code);
    }

    /// HIDRV1_A and HIDRV1_B HS MOSFET gate drive strength adjustment
    pub fn hidrv1_stat(&self) -> (r: DrvStat)
        ensures
            r == DrvStat::spec_from_bits(field_get(self.spec_bits(), 13, 0x7) as u8),
    {
        DrvStat::from_bits(get_field(self.bits, 13, 0x7) as u8)
    }

    /// HIDRV1_A and HIDRV1_B HS MOSFET gate drive strength adjustment
    pub fn set_hidrv1_stat(&mut self, value: DrvStat)
        ensures
            final(self).spec_bits() == field_set(
                old(self).spec_bits(),
                13,
                0x7,
                value.spec_into_bits() as u16,
            ),
            final(self).spec_bits() & !(0x7u16 << 13) == old(self).spec_bits() & !(0x7u16 << 13),
            DrvStat::spec_from_bits(field_get(final(self).spec_bits(), 13, 0x7) as u8)
                == value,
    {
        proof {
            lemma_set_preserves_rest(self.bits, 13, 0x7, value.spec_into_bits() as u16);
            lemma_set_then_get_w3(self.bits, 13, value.spec_into_bits() as u16);
            value.lemma_code_roundtrip();
        }
        let code: u16 = value.into_bits() as u16;
        self.bits = set_field(self.bits, 13, 0x7, code);
    }
}

/// System regulation loop bandwidth slow down to reduce input.
#[derive(Clone, Copy, Debug, PartialEq, Eq)]
pub enum VsysRegSlow {
    Disable,
    Enable,
}

impl VsysRegSlow {
    /// The chip-defined code of each variant.
    pub open spec fn spec_into_bits(self) -> u8 {
        match self {
            VsysRegSlow::Disable => 0,
            VsysRegSlow::Enable => 1,
        }
    }

    /// The variant each code decodes to; total over all codes, undeclared
    /// codes falling back to the last declared variant in code order.
    pub open spec fn spec_from_bits(value: u8) -> Self {
        if value == 0 {
            VsysRegSlow::Disable
        } else {
            VsysRegSlow::Enable
        }
    }

    pub fn into_bits(self) -> (r: u8)
        ensures
            r == self.spec_into_bits(),
    {
        match self {
            VsysRegSlow::Disable => 0,
            VsysRegSlow::Enable => 1,
        }
    }

    pub fn from_bits(value: u8) -> (r: Self)
        ensures
            r == Self::spec_from_bits(value),
    {
        match value {
            0 => VsysRegSlow::Disable,
            _ => VsysRegSlow::Enable,
        }
    }

    /// Decoding the code of a variant yields that variant back.
    pub proof fn lemma_code_roundtrip(self)
        ensures
            Self::spec_from_bits(self.spec_into_bits()) == self,
    {
    }
}

/// LODRV2 LS MOSFET gate drive strength adjustment for both turn.
#[derive(Clone, Copy, Debug, PartialEq, Eq)]
pub enum DrvStat {
    Scale0,
    Scale1,
    Scale2,
    Scale3,
    Scale4,
    Scale5,
    Scale6,
    Scale7,
}

impl DrvStat {
    /// The chip-defined code of each variant.
    pub open spec fn spec_into_bits(self) -> u8 {
        match self {
            DrvStat::Scale0 => 0,
            DrvStat::Scale1 => 1,
            DrvStat::Scale2 => 2,
            DrvStat::Scale3 => 3,
            DrvStat::Scale4 => 4,
            DrvStat::Scale5 => 5,
            DrvStat::Scale6 => 6,
            DrvStat::Scale7 => 7,
        }
    }

    /// The variant each code decodes to; total over all codes, undeclared
    /// codes falling back to the last declared variant in code order.
    pub open spec fn spec_from_bits(value: u8) -> Self {
        if value == 0 {
            DrvStat::Scale0
        } else if value == 1 {
            DrvStat::Scale1
        } else if value == 2 {
            DrvStat::Scale2
        } else if value == 3 {
            DrvStat::Scale3
        } else if value == 4 {
            DrvStat::Scale4
        } else if value == 5 {
            DrvStat::Scale5
        } else if value == 6 {
            DrvStat::Scale6
        } else {
            DrvStat::Scale7
        }
    }

    pub fn into_bits(self) -> (r: u8)
        ensures
            r == self.spec_into_bits(),
    {
        match self {
            DrvStat::Scale0 => 0,
            DrvStat::Scale1 => 1,
            DrvStat::Scale2 => 2,
            DrvStat::Scale3 => 3,
            DrvStat::Scale4 => 4,
            DrvStat::Scale5 => 5,
            DrvStat::Scale6 => 6,
            DrvStat::Scale7 => 7,
        }
    }

    pub fn from_bits(value: u8) -> (r: Self)
        ensures
            r == Self::spec_from_bits(value),
    {
        match value {
            0 => DrvStat::Scale0,
            1 => DrvStat::Scale1,
            2 => DrvStat::Scale2,
            3 => DrvStat::Scale3,
            4 => DrvStat::Scale4,
            5 => DrvStat::Scale5,
            6 => DrvStat::Scale6,
            _ => DrvStat::Scale7,
        }
    }

    /// Decoding the code of a variant yields that variant back.
    pub proof fn lemma_code_roundtrip(self)
        ensures
            Self::spec_from_bits(self.spec_into_bits()) == self,
    {
    }
}

/// 0b = Disable.
#[derive(Clone, Copy, Debug, PartialEq, Eq)]
pub enum BatOvpExtend {
    Disable,
    Enable,
}

impl BatOvpExtend {
    /// The chip-defined code of each variant.
    pub open spec fn spec_into_bits(self) -> u8 {
        match self {
            BatOvpExtend::Disable => 0,
            BatOvpExtend::Enable => 1,
        }
    }

    /// The variant each code decodes to; total over all codes, undeclared
    /// codes falling back to the last declared variant in code order.
    pub open spec fn spec_from_bits(value: u8) -> Self {
        if value == 0 {
            BatOvpExtend::Disable
        } else {
            BatOvpExtend::Enable
        }
    }

    pub fn into_bits(self) -> (r: u8)
        ensures
            r == self.spec_into_bits(),
    {
        match self {
            BatOvpExtend::Disable => 0,
            BatOvpExtend::Enable => 1,
        }
    }

    pub fn from_bits(value: u8) -> (r: Self)
        ensures
            r == Self::spec_from_bits(value),
    {
        match value {
            0 => BatOvpExtend::Disable,
            _ => BatOvpExtend::Enable,
        }
    }

    /// Decoding the code of a variant yields that variant back.
    pub proof fn lemma_code_roundtrip(self)
        ensures
            Self::spec_from_bits(self.spec_into_bits()) == self,
    {
    }
}

} // verus!
