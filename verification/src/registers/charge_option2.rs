//! Charge Option 2 Register.

use vstd::prelude::*;

use crate::bits::field_get;
use crate::bits::field_set;
use crate::bits::get_field;
use crate::bits::lemma_set_preserves_rest;
use crate::bits::lemma_set_then_get_w1;
use crate::bits::lemma_set_then_get_w2;
use crate::bits::set_field;
use crate::registers::Register;

verus! {

/// Charge Option 2 Register: raw 16-bit value at bus address 0x31.
#[derive(Clone, Copy, Debug, PartialEq, Eq)]
pub struct ChargeOption2 {
    bits: u16,
}

impl Register for ChargeOption2 {
    closed spec fn spec_bits(self) -> u16 {
        self.bits
    }

    open spec fn spec_addr() -> u8 {
        0x31
    }

    closed spec fn spec_of_bits(bits: u16) -> Self {
        ChargeOption2 { bits }
    }

    fn from_bits(bits: u16) -> (r: Self) {
        ChargeOption2 { bits }
    }

    fn into_bits(self) -> (r: u16) {
        self.bits
    }

    fn addr() -> (r: u8) {
        0x31
    }

    proof fn lemma_encode_decode(bits: u16) {
    }

    proof fn lemma_decode_encode(self) {
    }
}

impl ChargeOption2 {
    /// The raw value the register holds immediately after device power-up.
    pub fn new() -> (r: Self)
        ensures
            r.spec_bits() == 0xb7,
    {
        ChargeOption2 { bits: 0xb7 }
    }

    /// Set battery discharge overcurrent threshold as percentage of
    pub fn batdoc_vth(&self) -> (r: BatDocVth)
        ensures
            r == BatDocVth::spec_from_bits(field_get(self.spec_bits(), 0, 0x1) as u8),
    {
        BatDocVth::from_bits(get_field(self.bits, 0, 0x1) as u8)
    }

    /// Set battery discharge overcurrent threshold as percentage of
    pub fn set_batdoc_vth(&mut self, value: BatDocVth)
        ensures
            final(self).spec_bits() == field_set(
                old(self).spec_bits(),
                0,
                0x1,
                value.spec_into_bits() as u16,
            ),
            final(self).spec_bits() & !(0x1u16 << 0) == old(self).spec_bits() & !(0x1u16 << 0),
            BatDocVth::spec_from_bits(field_get(final(self).spec_bits(), 0, 0x1) as u8)
                == value,
    {
        proof {
            lemma_set_preserves_rest(self.bits, 0, 0x1, value.spec_into_bits() as u16);
            lemma_set_then_get_w1(self.bits, 0, value.spec_into_bits() as u16);
            value.lemma_code_roundtrip();
        }
        let code: u16 = value.into_bits() as u16;
        self.bits = set_field(self.bits, 0, 0x1, code);
    }

    /// BATDOC Enable
    pub fn en_batdoc(&self) -> (r: EnBatDoc)
        ensures
            r == EnBatDoc::spec_from_bits(field_get(self.spec_bits(), 1, 0x1) as u8),
    {
        EnBatDoc::from_bits(get_field(self.bits, 1, 0x1) as u8)
    }

    /// BATDOC Enable
    pub fn set_en_batdoc(&mut self, value: EnBatDoc)
        ensures
            final(self).spec_bits() == field_set(
                old(self).spec_bits(),
                1,
                0x1,
                value.spec_into_bits() as u16,
            ),
            final(self).spec_bits() & !(0x1u16 << 1) == old(self).spec_bits() & !(0x1u16 << 1),
            EnBatDoc::spec_from_bits(field_get(final(self).spec_bits(), 1, 0x1) as u8)
                == value,
    {
        proof {
            lemma_set_preserves_rest(self.bits, 1, 0x1, value.spec_into_bits() as u16);
            lemma_set_then_get_w1(self.bits, 1, value.spec_into_bits() as u16);
            value.lemma_code_roundtrip();
        }
        let code: u16 = value.into_bits() as u16;
        self.bits = set_field(self.bits, 1, 0x1, code);
    }

    /// ACOC Limit
    pub fn acoc_vth(&self) -> (r: AcocVth)
        ensures
            r == AcocVth::spec_from_bits(field_get(self.spec_bits(), 2, 0x1) as u8),
    {
        AcocVth::from_bits(get_field(self.bits, 2, 0x1) as u8)
    }

    /// ACOC Limit
    pub fn set_acoc_vth(&mut self, value: AcocVth)
        ensures
            final(self).spec_bits() == field_set(
                old(self).spec_bits(),
                2,
                0x1,
                value.spec_into_bits() as u16,
            ),
            final(self).spec_bits() & !(0x1u16 << 2) == old(self).spec_bits() & !(0x1u16 << 2),
            AcocVth::spec_from_bits(field_get(final(self).spec_bits(), 2, 0x1) as u8)
                == value,
    {
        proof {
            lemma_set_preserves_rest(self.bits, 2, 0x1, value.spec_into_bits() as u16);
            lemma_set_then_get_w1(self.bits, 2, value.spec_into_bits() as u16);
            value.lemma_code_roundtrip();
        }
        let code: u16 = value.into_bits() as u16;
        self.bits = set_field(self.bits, 2, 0x1, code);
    }

    /// ACOC Enable
    pub fn en_acoc(&self) -> (r: EnAcoc)
        ensures
            r == EnAcoc::spec_from_bits(field_get(self.spec_bits(), 3, 0x1) as u8),
    {
        EnAcoc::from_bits(get_field(self.bits, 3, 0x1) as u8)
    }

    /// ACOC Enable
    pub fn set_en_acoc(&mut self, value: EnAcoc)
        ensures
            final(self).spec_bits() == field_set(
                old(self).spec_bits(),
                3,
                0x1,
                value.spec_into_bits() as u16,
            ),
            final(self).spec_bits() & !(0x1u16 << 3) == old(self).spec_bits() & !(0x1u16 << 3),
            EnAcoc::spec_from_bits(field_get(final(self).spec_bits(), 3, 0x1) as u8)
                == value,
    {
        proof {
            lemma_set_preserves_rest(self.bits, 3, 0x1, value.spec_into_bits() as u16);
            lemma_set_then_get_w1(self.bits, 3, value.spec_into_bits() as u16);
            value.lemma_code_roundtrip();
        }
        let code: u16 = value.into_bits() as u16;
        self.bits = set_field(self.bits, 3, 0x1, code);
    }

    /// Over current protection threshold by sensing RAC resistor
    pub fn ocp_sw1x_high_range(&self) -> (r: OcpSw1x)
        ensures
            r == OcpSw1x::spec_from_bits(field_get(self.spec_bits(), 4, 0x1) as u8),
    {
        OcpSw1x::from_bits(get_field(self.bits, 4, 0x1) as u8)
    }

    /// Over current protection threshold by sensing RAC resistor
    pub fn set_ocp_sw1x_high_range(&mut self, value: OcpSw1x)
        ensures
            final(self).spec_bits() == field_set(
                old(self).spec_bits(),
                4,
                0x1,
                value.spec_into_bits() as u16,
            ),
            final(self).spec_bits() & !(0x1u16 << 4) == old(self).spec_bits() & !(0x1u16 << 4),
            OcpSw1x::spec_from_bits(field_get(final(self).spec_bits(), 4, 0x1) as u8)
                == value,
    {
        proof {
            lemma_set_preserves_rest(self.bits, 4, 0x1, value.spec_into_bits() as u16);
            lemma_set_then_get_w1(self.bits, 4, value.spec_into_bits() as u16);
            value.lemma_code_roundtrip();
        }
        let code: u16 = value.into_bits() as u16;
        self.bits = set_field(self.bits, 4, 0x1, code);
    }

    /// Over current protection threshold by sensing Q4 Vds. When this
    pub fn ocp_sw2_high_range(&self) -> (r: OcpSw2)
        ensures
            r == OcpSw2::spec_from_bits(field_get(self.spec_bits(), 5, 0x1) as u8),
    {
        OcpSw2::from_bits(get_field(self.bits, 5, 0x1) as u8)
    }

    /// Over current protection threshold by sensing Q4 Vds. When this
    pub fn set_ocp_sw2_high_range(&mut self, value: OcpSw2)
        ensures
            final(self).spec_bits() == field_set(
                old(self).spec_bits(),
                5,
                0x1,
                value.spec_into_bits() as u16,
            ),
            final(self).spec_bits() & !(0x1u16 << 5) == old(self).spec_bits() & !(0x1u16 << 5),
            OcpSw2::spec_from_bits(field_get(final(self).spec_bits(), 5, 0x1) as u8)
                == value,
    {
        proof {
            lemma_set_preserves_rest(self.bits, 5, 0x1, value.spec_into_bits() as u16);
            lemma_set_then_get_w1(self.bits, 5, value.spec_into_bits() as u16);
            value.lemma_code_roundtrip();
        }
        let code: u16 = value.into_bits() as u16;
        self.bits = set_field(self.bits, 5, 0x1, code);
    }

    /// IBAT pin monitor selection for discharge current and charge current.
    pub fn en_ichg_idchg(&self) -> (r: EnIchgIdchg)
        ensures
            r == EnIchgIdchg::spec_from_bits(field_get(self.spec_bits(), 6, 0x1) as u8),
    {
        EnIchgIdchg::from_bits(get_field(self.bits, 6, 0x1) as u8)
    }

    /// IBAT pin monitor selection for discharge current and charge current.
    pub fn set_en_ichg_idchg(&mut self, value: EnIchgIdchg)
        ensures
            final(self).spec_bits() == field_set(
                old(self).spec_bits(),
                6,
                0x1,
                value.spec_into_bits() as u16,
            ),
            final(self).spec_bits() & !(0x1u16 << 6) == old(self).spec_bits() & !(0x1u16 << 6),
            EnIchgIdchg::spec_from_bits(field_get(final(self).spec_bits(), 6, 0x1) as u8)
                == value,
    {
        proof {
            lemma_set_preserves_rest(self.bits, 6, 0x1, value.spec_into_bits() as u16);
            lemma_set_then_get_w1(self.bits, 6, value.spec_into_bits() as u16);
            value.lemma_code_roundtrip();
        }
        let code: u16 = value.into_bits() as u16;
        self.bits = set_field(self.bits, 6, 0x1, code);
    }

    /// Enable ILIM_HIZ pin to set input current limit.
    pub fn en_extilim(&self) -> (r: EnExtIlim)
        ensures
            r == EnExtIlim::spec_from_bits(field_get(self.spec_bits(), 7, 0x1) as u8),
    {
        EnExtIlim::from_bits(get_field(self.bits, 7, 0x1) as u8)
    }

    /// Enable ILIM_HIZ pin to set input current limit.
    pub fn set_en_extilim(&mut self, value: EnExtIlim)
        ensures
            final(self).spec_bits() == field_set(
                old(self).spec_bits(),
                7,
                0x1,
                value.spec_into_bits() as u16,
            ),
            final(self).spec_bits() & !(0x1u16 << 7) == old(self).spec_bits() & !(0x1u16 << 7),
            EnExtIlim::spec_from_bits(field_get(final(self).spec_bits(), 7, 0x1) as u8)
                == value,
    {
        proof {
            lemma_set_preserves_rest(self.bits, 7, 0x1, value.spec_into_bits() as u16);
            lemma_set_then_get_w1(self.bits, 7, value.spec_into_bits() as u16);
            value.lemma_code_roundtrip();
        }
        let code: u16 = value.into_bits() as u16;
        self.bits = set_field(self.bits, 7, 0x1, code);
    }

    /// Peak power mode overload and relax cycle time.
    pub fn pkpwr_tmax(&self) -> (r: PkPwrTmax)
        ensures
            r == PkPwrTmax::spec_from_bits(field_get(self.spec_bits(), 8, 0x3) as u8),
    {
        PkPwrTmax::from_bits(get_field(self.bits, 8, 0x3) as u8)
    }

    /// Peak power mode overload and relax cycle time.
    pub fn set_pkpwr_tmax(&mut self, value: PkPwrTmax)
        ensures
            final(self).spec_bits() == field_set(
                old(self).spec_bits(),
                8,
                0x3,
                value.spec_into_bits() as u16,
            ),
            final(self).spec_bits() & !(0x3u16 << 8) == old(self).spec_bits() & !(0x3u16 << 8),
            PkPwrTmax::spec_from_bits(field_get(final(self).spec_bits(), 8, 0x3) as u8)
                == value,
    {
        proof {
            lemma_set_preserves_rest(self.bits, 8, 0x3, value.spec_into_bits() as u16);
            lemma_set_then_get_w2(self.bits, 8, value.spec_into_bits() as u16);
            value.lemma_code_roundtrip();
        }
        let code: u16 = value.into_bits() as u16;
        self.bits = set_field(self.bits, 8, 0x3, code);
    }

    /// Indicator that the device is in relaxation cycle. Write 0 to
    pub fn stat_pkpwr_relax(&self) -> (r: StatPkPwrRelax)
        ensures
            r == StatPkPwrRelax::spec_from_bits(field_get(self.spec_bits(), 10, 0x1) as u8),
    {
        StatPkPwrRelax::from_bits(get_field(self.bits, 10, 0x1) as u8)
    }

    /// Indicator that the device is in relaxation cycle. Write 0 to
    pub fn set_stat_pkpwr_relax(&mut self, value: StatPkPwrRelax)
        ensures
            final(self).spec_bits() == field_set(
                old(self).spec_bits(),
                10,
                0x1,
                value.spec_into_bits() as u16,
            ),
            final(self).spec_bits() & !(0x1u16 << 10) == old(self).spec_bits() & !(0x1u16 << 10),
            StatPkPwrRelax::spec_from_bits(field_get(final(self).spec_bits(), 10, 0x1) as u8)
                == value,
    {
        proof {
            lemma_set_preserves_rest(self.bits, 10, 0x1, value.spec_into_bits() as u16);
            lemma_set_then_get_w1(self.bits, 10, value.spec_into_bits() as u16);
            value.lemma_code_roundtrip();
        }
        let code: u16 = value.into_bits() as u16;
        self.bits = set_field(self.bits, 10, 0x1, code);
    }

    /// Indicator that the device is in overloading cycle. Write 0 to
    pub fn stat_pkpwr_ovld(&self) -> (r: StatPkPwrOvld)
        ensures
            r == StatPkPwrOvld::spec_from_bits(field_get(self.spec_bits(), 11, 0x1) as u8),
    {
        StatPkPwrOvld::from_bits(get_field(self.bits, 11, 0x1) as u8)
    }

    /// Indicator that the device is in overloading cycle. Write 0 to
    pub fn set_stat_pkpwr_ovld(&mut self, value: StatPkPwrOvld)
        ensures
            final(self).spec_bits() == field_set(
                old(self).spec_bits(),
                11,
                0x1,
                value.spec_into_bits() as u16,
            ),
            final(self).spec_bits() & !(0x1u16 << 11) == old(self).spec_bits() & !(0x1u16 << 11),
            StatPkPwrOvld::spec_from_bits(field_get(final(self).spec_bits(), 11, 0x1) as u8)
                == value,
    {
        proof {
            lemma_set_preserves_rest(self.bits, 11, 0x1, value.spec_into_bits() as u16);
            lemma_set_then_get_w1(self.bits, 11, value.spec_into_bits() as u16);
            value.lemma_code_roundtrip();
        }
        let code: u16 = value.into_bits() as u16;
        self.bits = set_field(self.bits, 11, 0x1, code);
    }

    /// Enable Peak Power Mode triggered by system voltage
    pub fn en_pkpwr_vsys(&self) -> (r: EnPkPwrVsys)
        ensures
            r == EnPkPwrVsys::spec_from_bits(field_get(self.spec_bits(), 12, 0x1) as u8),
    {
        EnPkPwrVsys::from_bits(get_field(self.bits, 12, 0x1) as u8)
    }

    /// Enable Peak Power Mode triggered by system voltage
    pub fn set_en_pkpwr_vsys(&mut self, value: EnPkPwrVsys)
        ensures
            final(self).spec_bits() == field_set(
                old(self).spec_bits(),
                12,
                0x1,
                value.spec_into_bits() as u16,
            ),
            final(self).spec_bits() & !(0x1u16 << 12) == old(self).spec_bits() & !(0x1u16 << 12),
            EnPkPwrVsys::spec_from_bits(field_get(final(self).spec_bits(), 12, 0x1) as u8)
                == value,
    {
        proof {
            lemma_set_preserves_rest(self.bits, 12, 0x1, value.spec_into_bits() as u16);
            lemma_set_then_get_w1(self.bits, 12, value.spec_into_bits() as u16);
            value.lemma_code_roundtrip();
        }
        let code: u16 = value.into_bits() as u16;
        self.bits = set_field(self.bits, 12, 0x1, code);
    }

    /// Enable Peak Power Mode triggered by input current
    pub fn en_pkpwr_iin_dpm(&self) -> (r: EnPkPwrIinDpm)
        ensures
            r == EnPkPwrIinDpm::spec_from_bits(field_get(self.spec_bits(), 13, 0x1) as u8),
    {
        EnPkPwrIinDpm::from_bits(get_field(self.bits, 13, 0x1) as u8)
    }

    /// Enable Peak Power Mode triggered by input current
    pub fn set_en_pkpwr_iin_dpm(&mut self, value: EnPkPwrIinDpm)
        ensures
            final(self).spec_bits() == field_set(
                old(self).spec_bits(),
                13,
                0x1,
                value.spec_into_bits() as u16,
            ),
            final(self).spec_bits() & !(0x1u16 << 13) == old(self).spec_bits() & !(0x1u16 << 13),
            EnPkPwrIinDpm::spec_from_bits(field_get(final(self).spec_bits(), 13, 0x1) as u8)
                == value,
    {
        proof {
            lemma_set_preserves_rest(self.bits, 13, 0x1, value.spec_into_bits() as u16);
            lemma_set_then_get_w1(self.bits, 13, value.spec_into_bits() as u16);
            value.lemma_code_roundtrip();
        }
        let code: u16 = value.into_bits() as u16;
        self.bits = set_field(self.bits, 13, 0x1, code);
    }

    /// Input Overload time in Peak Power Mode.
    pub fn pkpwr_tovld_deg(&self) -> (r: PkPwrTovldDeg)
        ensures
            r == PkPwrTovldDeg::spec_from_bits(field_get(self.spec_bits(), 14, 0x3) as u8),
    {
        PkPwrTovldDeg::from_bits(get_field(self.bits, 14, 0x3) as u8)
    }

    /// Input Overload time in Peak Power Mode.
    pub fn set_pkpwr_tovld_deg(&mut self, value: PkPwrTovldDeg)
        ensures
            final(self).spec_bits() == field_set(
                old(self).spec_bits(),
                14,
                0x3,
                value.spec_into_bits() as u16,
            ),
            final(self).spec_bits() & !(0x3u16 << 14) == old(self).spec_bits() & !(0x3u16 << 14),
            PkPwrTovldDeg::spec_from_bits(field_get(final(self).spec_bits(), 14, 0x3) as u8)
                == value,
    {
        proof {
            lemma_set_preserves_rest(self.bits, 14, 0x3, value.spec_into_bits() as u16);
            lemma_set_then_get_w2(self.bits, 14, value.spec_into_bits() as u16);
            value.lemma_code_roundtrip();
        }
        let code: u16 = value.into_bits() as u16;
        self.bits = set_field(self.bits, 14, 0x3, code);
    }
}

/// Set battery discharge overcurrent threshold as percentage of.
#[derive(Clone, Copy, Debug, PartialEq, Eq)]
pub enum BatDocVth {
    Threshold2,
    Threshold3,
}

impl BatDocVth {
    /// The chip-defined code of each variant.
    pub open spec fn spec_into_bits(self) -> u8 {
        match self {
            BatDocVth::Threshold2 => 0,
            BatDocVth::Threshold3 => 1,
        }
    }

    /// The variant each code decodes to; total over all codes, undeclared
    /// codes falling back to the last declared variant in code order.
    pub open spec fn spec_from_bits(value: u8) -> Self {
        if value == 0 {
            BatDocVth::Threshold2
        } else {
            BatDocVth::Threshold3
        }
    }

    pub fn into_bits(self) -> (r: u8)
        ensures
            r == self.spec_into_bits(),
    {
        match self {
            BatDocVth::Threshold2 => 0,
            BatDocVth::Threshold3 => 1,
        }
    }

    pub fn from_bits(value: u8) -> (r: Self)
        ensures
            r == Self::spec_from_bits(value),
    {
        match value {
            0 => BatDocVth::Threshold2,
            _ => BatDocVth::Threshold3,
        }
    }

    /// Decoding the code of a variant yields that variant back.
    pub proof fn lemma_code_roundtrip(self)
        ensures
            Self::spec_from_bits(self.spec_into_bits()) == self,
    {
    }
}

/// BATDOC Enable.
#[derive(Clone, Copy, Debug, PartialEq, Eq)]
pub enum EnBatDoc {
    Disable,
    Enable,
}

impl EnBatDoc {
    /// The chip-defined code of each variant.
    pub open spec fn spec_into_bits(self) -> u8 {
        match self {
            EnBatDoc::Disable => 0,
            EnBatDoc::Enable => 1,
        }
    }

    /// The variant each code decodes to; total over all codes, undeclared
    /// codes falling back to the last declared variant in code order.
    pub open spec fn spec_from_bits(value: u8) -> Self {
        if value == 0 {
            EnBatDoc::Disable
        } else {
            EnBatDoc::Enable
        }
    }

    pub fn into_bits(self) -> (r: u8)
        ensures
            r == self.spec_into_bits(),
    {
        match self {
            EnBatDoc::Disable => 0,
            EnBatDoc::Enable => 1,
        }
    }

    pub fn from_bits(value: u8) -> (r: Self)
        ensures
            r == Self::spec_from_bits(value),
    {
        match value {
            0 => EnBatDoc::Disable,
            _ => EnBatDoc::Enable,
        }
    }

    /// Decoding the code of a variant yields that variant back.
    pub proof fn lemma_code_roundtrip(self)
        ensures
            Self::spec_from_bits(self.spec_into_bits()) == self,
    {
    }
}

/// ACOC Limit.
#[derive(Clone, Copy, Debug, PartialEq, Eq)]
pub enum AcocVth {
    Threshold1_33,
    Threshold2,
}

impl AcocVth {
    /// The chip-defined code of each variant.
    pub open spec fn spec_into_bits(self) -> u8 {
        match self {
            AcocVth::Threshold1_33 => 0,
            AcocVth::Threshold2 => 1,
        }
    }

    /// The variant each code decodes to; total over all codes, undeclared
    /// codes falling back to the last declared variant in code order.
    pub open spec fn spec_from_bits(value: u8) -> Self {
        if value == 0 {
            AcocVth::Threshold1_33
        } else {
            AcocVth::Threshold2
        }
    }

    pub fn into_bits(self) -> (r: u8)
        ensures
            r == self.spec_into_bits(),
    {
        match self {
            AcocVth::Threshold1_33 => 0,
            AcocVth::Threshold2 => 1,
        }
    }

    pub fn from_bits(value: u8) -> (r: Self)
        ensures
            r == Self::spec_from_bits(value),
    {
        match value {
            0 => AcocVth::Threshold1_33,
            _ => AcocVth::Threshold2,
        }
    }

    /// Decoding the code of a variant yields that variant back.
    pub proof fn lemma_code_roundtrip(self)
        ensures
            Self::spec_from_bits(self.spec_into_bits()) == self,
    {
    }
}

/// ACOC Enable.
#[derive(Clone, Copy, Debug, PartialEq, Eq)]
pub enum EnAcoc {
    Disable,
    Enable,
}

impl EnAcoc {
    /// The chip-defined code of each variant.
    pub open spec fn spec_into_bits(self) -> u8 {
        match self {
            EnAcoc::Disable => 0,
            EnAcoc::Enable => 1,
        }
    }

    /// The variant each code decodes to; total over all codes, undeclared
    /// codes falling back to the last declared variant in code order.
    pub open spec fn spec_from_bits(value: u8) -> Self {
        if value == 0 {
            EnAcoc::Disable
        } else {
            EnAcoc::Enable
        }
    }

    pub fn into_bits(self) -> (r: u8)
        ensures
            r == self.spec_into_bits(),
    {
        match self {
            EnAcoc::Disable => 0,
            EnAcoc::Enable => 1,
        }
    }

    pub fn from_bits(value: u8) -> (r: Self)
        ensures
            r == Self::spec_from_bits(value),
    {
        match value {
            0 => EnAcoc::Disable,
            _ => EnAcoc::Enable,
        }
    }

    /// Decoding the code of a variant yields that variant back.
    pub proof fn lemma_code_roundtrip(self)
        ensures
            Self::spec_from_bits(self.spec_into_bits()) == self,
    {
    }
}

/// Over current protection threshold by sensing RAC resistor.
#[derive(Clone, Copy, Debug, PartialEq, Eq)]
pub enum OcpSw1x {
    Threshold300mV,
    Threshold450mV,
}

impl OcpSw1x {
    /// The chip-defined code of each variant.
    pub open spec fn spec_into_bits(self) -> u8 {
        match self {
            OcpSw1x::Threshold300mV => 0,
            OcpSw1x::Threshold450mV => 1,
        }
    }

    /// The variant each code decodes to; total over all codes, undeclared
    /// codes falling back to the last declared variant in code order.
    pub open spec fn spec_from_bits(value: u8) -> Self {
        if value == 0 {
            OcpSw1x::Threshold300mV
        } else {
            OcpSw1x::Threshold450mV
        }
    }

    pub fn into_bits(self) -> (r: u8)
        ensures
            r == self.spec_into_bits(),
    {
        match self {
            OcpSw1x::Threshold300mV => 0,
            OcpSw1x::Threshold450mV => 1,
        }
    }

    pub fn from_bits(value: u8) -> (r: Self)
        ensures
            r == Self::spec_from_bits(value),
    {
        match value {
            0 => OcpSw1x::Threshold300mV,
            _ => OcpSw1x::Threshold450mV,
        }
    }

    /// Decoding the code of a variant yields that variant back.
    pub proof fn lemma_code_roundtrip(self)
        ensures
            Self::spec_from_bits(self.spec_into_bits()) == self,
    {
    }
}

/// Over current protection threshold by sensing Q4 Vds. When this.
#[derive(Clone, Copy, Debug, PartialEq, Eq)]
pub enum OcpSw2 {
    Threshold150mV,
    Threshold260mV,
}

impl OcpSw2 {
    /// The chip-defined code of each variant.
    pub open spec fn spec_into_bits(self) -> u8 {
        match self {
            OcpSw2::Threshold150mV => 0,
            OcpSw2::Threshold260mV => 1,
        }
    }

    /// The variant each code decodes to; total over all codes, undeclared
    /// codes falling back to the last declared variant in code order.
    pub open spec fn spec_from_bits(value: u8) -> Self {
        if value == 0 {
            OcpSw2::Threshold150mV
        } else {
            OcpSw2::Threshold260mV
        }
    }

    pub fn into_bits(self) -> (r: u8)
        ensures
            r == self.spec_into_bits(),
    {
        match self {
            OcpSw2::Threshold150mV => 0,
            OcpSw2::Threshold260mV => 1,
        }
    }

    pub fn from_bits(value: u8) -> (r: Self)
        ensures
            r == Self::spec_from_bits(value),
    {
        match value {
            0 => OcpSw2::Threshold150mV,
            _ => OcpSw2::Threshold260mV,
        }
    }

    /// Decoding the code of a variant yields that variant back.
    pub proof fn lemma_code_roundtrip(self)
        ensures
            Self::spec_from_bits(self.spec_into_bits()) == self,
    {
    }
}

/// IBAT pin monitor selection for discharge current and charge current.
#[derive(Clone, Copy, Debug, PartialEq, Eq)]
pub enum EnIchgIdchg {
    Discharge,
    Charge,
}

impl EnIchgIdchg {
    /// The chip-defined code of each variant.
    pub open spec fn spec_into_bits(self) -> u8 {
        match self {
            EnIchgIdchg::Discharge => 0,
            EnIchgIdchg::Charge => 1,
        }
    }

    /// The variant each code decodes to; total over all codes, undeclared
    /// codes falling back to the last declared variant in code order.
    pub open spec fn spec_from_bits(value: u8) -> Self {
        if value == 0 {
            EnIchgIdchg::Discharge
        } else {
            EnIchgIdchg::Charge
        }
    }

    pub fn into_bits(self) -> (r: u8)
        ensures
            r == self.spec_into_bits(),
    {
        match self {
            EnIchgIdchg::Discharge => 0,
            EnIchgIdchg::Charge => 1,
        }
    }

    pub fn from_bits(value: u8) -> (r: Self)
        ensures
            r == Self::spec_from_bits(value),
    {
        match value {
            0 => EnIchgIdchg::Discharge,
            _ => EnIchgIdchg::Charge,
        }
    }

    /// Decoding the code of a variant yields that variant back.
    pub proof fn lemma_code_roundtrip(self)
        ensures
            Self::spec_from_bits(self.spec_into_bits()) == self,
    {
    }
}

/// Enable ILIM_HIZ pin to set input current limit.
#[derive(Clone, Copy, Debug, PartialEq, Eq)]
pub enum EnExtIlim {
    Disable,
    Enable,
}

impl EnExtIlim {
    /// The chip-defined code of each variant.
    pub open spec fn spec_into_bits(self) -> u8 {
        match self {
            EnExtIlim::Disable => 0,
            EnExtIlim::Enable => 1,
        }
    }

    /// The variant each code decodes to; total over all codes, undeclared
    /// codes falling back to the last declared variant in code order.
    pub open spec fn spec_from_bits(value: u8) -> Self {
        if value == 0 {
            EnExtIlim::Disable
        } else {
            EnExtIlim::Enable
        }
    }

    pub fn into_bits(self) -> (r: u8)
        ensures
            r == self.spec_into_bits(),
    {
        match self {
            EnExtIlim::Disable => 0,
            EnExtIlim::Enable => 1,
        }
    }

    pub fn from_bits(value: u8) -> (r: Self)
        ensures
            r == Self::spec_from_bits(value),
    {
        match value {
            0 => EnExtIlim::Disable,
            _ => EnExtIlim::Enable,
        }
    }

    /// Decoding the code of a variant yields that variant back.
    pub proof fn lemma_code_roundtrip(self)
        ensures
            Self::spec_from_bits(self.spec_into_bits()) == self,
    {
    }
}

/// Peak power mode overload and relax cycle time.
#[derive(Clone, Copy, Debug, PartialEq, Eq)]
pub enum PkPwrTmax {
    Time20ms,
    Time40ms,
    Time80ms,
    Time1000ms,
}

impl PkPwrTmax {
    /// The chip-defined code of each variant.
    pub open spec fn spec_into_bits(self) -> u8 {
        match self {
            PkPwrTmax::Time20ms => 0,
            PkPwrTmax::Time40ms => 1,
            PkPwrTmax::Time80ms => 2,
            PkPwrTmax::Time1000ms => 3,
        }
    }

    /// The variant each code decodes to; total over all codes, undeclared
    /// codes falling back to the last declared variant in code order.
    pub open spec fn spec_from_bits(value: u8) -> Self {
        if value == 0 {
            PkPwrTmax::Time20ms
        } else if value == 1 {
            PkPwrTmax::Time40ms
        } else if value == 2 {
            PkPwrTmax::Time80ms
        } else {
            PkPwrTmax::Time1000ms
        }
    }

    pub fn into_bits(self) -> (r: u8)
        ensures
            r == self.spec_into_bits(),
    {
        match self {
            PkPwrTmax::Time20ms => 0,
            PkPwrTmax::Time40ms => 1,
            PkPwrTmax::Time80ms => 2,
            PkPwrTmax::Time1000ms => 3,
        }
    }

    pub fn from_bits(value: u8) -> (r: Self)
        ensures
            r == Self::spec_from_bits(value),
    {
        match value {
            0 => PkPwrTmax::Time20ms,
            1 => PkPwrTmax::Time40ms,
            2 => PkPwrTmax::Time80ms,
            _ => PkPwrTmax::Time1000ms,
        }
    }

    /// Decoding the code of a variant yields that variant back.
    pub proof fn lemma_code_roundtrip(self)
        ensures
            Self::spec_from_bits(self.spec_into_bits()) == self,
    {
    }
}

/// Indicator that the device is in relaxation cycle. Write 0 to.
#[derive(Clone, Copy, Debug, PartialEq, Eq)]
pub enum StatPkPwrRelax {
    NotInRelaxation,
    InRelaxation,
}

impl StatPkPwrRelax {
    /// The chip-defined code of each variant.
    pub open spec fn spec_into_bits(self) -> u8 {
        match self {
            StatPkPwrRelax::NotInRelaxation => 0,
            StatPkPwrRelax::InRelaxation => 1,
        }
    }

    /// The variant each code decodes to; total over all codes, undeclared
    /// codes falling back to the last declared variant in code order.
    pub open spec fn spec_from_bits(value: u8) -> Self {
        if value == 0 {
            StatPkPwrRelax::NotInRelaxation
        } else {
            StatPkPwrRelax::InRelaxation
        }
    }

    pub fn into_bits(self) -> (r: u8)
        ensures
            r == self.spec_into_bits(),
    {
        match self {
            StatPkPwrRelax::NotInRelaxation => 0,
            StatPkPwrRelax::InRelaxation => 1,
        }
    }

    pub fn from_bits(value: u8) -> (r: Self)
        ensures
            r == Self::spec_from_bits(value),
    {
        match value {
            0 => StatPkPwrRelax::NotInRelaxation,
            _ => StatPkPwrRelax::InRelaxation,
        }
    }

    /// Decoding the code of a variant yields that variant back.
    pub proof fn lemma_code_roundtrip(self)
        ensures
            Self::spec_from_bits(self.spec_into_bits()) == self,
    {
    }
}

/// Indicator that the device is in overloading cycle. Write 0 to.
#[derive(Clone, Copy, Debug, PartialEq, Eq)]
pub enum StatPkPwrOvld {
    NotInPeak,
    InPeak,
}

impl StatPkPwrOvld {
    /// The chip-defined code of each variant.
    pub open spec fn spec_into_bits(self) -> u8 {
        match self {
            StatPkPwrOvld::NotInPeak => 0,
            StatPkPwrOvld::InPeak => 1,
        }
    }

    /// The variant each code decodes to; total over all codes, undeclared
    /// codes falling back to the last declared variant in code order.
    pub open spec fn spec_from_bits(value: u8) -> Self {
        if value == 0 {
            StatPkPwrOvld::NotInPeak
        } else {
            StatPkPwrOvld::InPeak
        }
    }

    pub fn into_bits(self) -> (r: u8)
        ensures
            r == self.spec_into_bits(),
    {
        match self {
            StatPkPwrOvld::NotInPeak => 0,
            StatPkPwrOvld::InPeak => 1,
        }
    }

    pub fn from_bits(value: u8) -> (r: Self)
        ensures
            r == Self::spec_from_bits(value),
    {
        match value {
            0 => StatPkPwrOvld::NotInPeak,
            _ => StatPkPwrOvld::InPeak,
        }
    }

    /// Decoding the code of a variant yields that variant back.
    pub proof fn lemma_code_roundtrip(self)
        ensures
            Self::spec_from_bits(self.spec_into_bits()) == self,
    {
    }
}

/// Enable Peak Power Mode triggered by system voltage.
#[derive(Clone, Copy, Debug, PartialEq, Eq)]
pub enum EnPkPwrVsys {
    Disable,
    Enable,
}

impl EnPkPwrVsys {
    /// The chip-defined code of each variant.
    pub open spec fn spec_into_bits(self) -> u8 {
        match self {
            EnPkPwrVsys::Disable => 0,
            EnPkPwrVsys::Enable => 1,
        }
    }

    /// The variant each code decodes to; total over all codes, undeclared
    /// codes falling back to the last declared variant in code order.
    pub open spec fn spec_from_bits(value: u8) -> Self {
        if value == 0 {
            EnPkPwrVsys::Disable
        } else {
            EnPkPwrVsys::Enable
        }
    }

    pub fn into_bits(self) -> (r: u8)
        ensures
            r == self.spec_into_bits(),
    {
        match self {
            EnPkPwrVsys::Disable => 0,
            EnPkPwrVsys::Enable => 1,
        }
    }

    pub fn from_bits(value: u8) -> (r: Self)
        ensures
            r == Self::spec_from_bits(value),
    {
        match value {
            0 => EnPkPwrVsys::Disable,
            _ => EnPkPwrVsys::Enable,
        }
    }

    /// Decoding the code of a variant yields that variant back.
    pub proof fn lemma_code_roundtrip(self)
        ensures
            Self::spec_from_bits(self.spec_into_bits()) == self,
    {
    }
}

/// Enable Peak Power Mode triggered by input current.
#[derive(Clone, Copy, Debug, PartialEq, Eq)]
pub enum EnPkPwrIinDpm {
    Disable,
    Enable,
}

impl EnPkPwrIinDpm {
    /// The chip-defined code of each variant.
    pub open spec fn spec_into_bits(self) -> u8 {
        match self {
            EnPkPwrIinDpm::Disable => 0,
            EnPkPwrIinDpm::Enable => 1,
        }
    }

    /// The variant each code decodes to; total over all codes, undeclared
    /// codes falling back to the last declared variant in code order.
    pub open spec fn spec_from_bits(value: u8) -> Self {
        if value == 0 {
            EnPkPwrIinDpm::Disable
        } else {
            EnPkPwrIinDpm::Enable
        }
    }

    pub fn into_bits(self) -> (r: u8)
        ensures
            r == self.spec_into_bits(),
    {
        match self {
            EnPkPwrIinDpm::Disable => 0,
            EnPkPwrIinDpm::Enable => 1,
        }
    }

    pub fn from_bits(value: u8) -> (r: Self)
        ensures
            r == Self::spec_from_bits(value),
    {
        match value {
            0 => EnPkPwrIinDpm::Disable,
            _ => EnPkPwrIinDpm::Enable,
        }
    }

    /// Decoding the code of a variant yields that variant back.
    pub proof fn lemma_code_roundtrip(self)
        ensures
            Self::spec_from_bits(self.spec_into_bits()) == self,
    {
    }
}

/// Input Overload time in Peak Power Mode.
#[derive(Clone, Copy, Debug, PartialEq, Eq)]
pub enum PkPwrTovldDeg {
    Time1ms,
    Time2ms,
    Time5ms,
    Time10ms,
}

impl PkPwrTovldDeg {
    /// The chip-defined code of each variant.
    pub open spec fn spec_into_bits(self) -> u8 {
        match self {
            PkPwrTovldDeg::Time1ms => 0,
            PkPwrTovldDeg::Time2ms => 1,
            PkPwrTovldDeg::Time5ms => 2,
            PkPwrTovldDeg::Time10ms => 3,
        }
    }

    /// The variant each code decodes to; total over all codes, undeclared
    /// codes falling back to the last declared variant in code order.
    pub open spec fn spec_from_bits(value: u8) -> Self {
        if value == 0 {
            PkPwrTovldDeg::Time1ms
        } else if value == 1 {
            PkPwrTovldDeg::Time2ms
        } else if value == 2 {
            PkPwrTovldDeg::Time5ms
        } else {
            PkPwrTovldDeg::Time10ms
        }
    }

    pub fn into_bits(self) -> (r: u8)
        ensures
            r == self.spec_into_bits(),
    {
        match self {
            PkPwrTovldDeg::Time1ms => 0,
            PkPwrTovldDeg::Time2ms => 1,
            PkPwrTovldDeg::Time5ms => 2,
            PkPwrTovldDeg::Time10ms => 3,
        }
    }

    pub fn from_bits(value: u8) -> (r: Self)
        ensures
            r == Self::spec_from_bits(value),
    {
        match value {
            0 => PkPwrTovldDeg::Time1ms,
            1 => PkPwrTovldDeg::Time2ms,
            2 => PkPwrTovldDeg::Time5ms,
            _ => PkPwrTovldDeg::Time10ms,
        }
    }

    /// Decoding the code of a variant yields that variant back.
    pub proof fn lemma_code_roundtrip(self)
        ensures
            Self::spec_from_bits(self.spec_into_bits()) == self,
    {
    }
}

} // verus!
