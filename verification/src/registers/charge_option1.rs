//! Charge Option 1 Register.

use vstd::prelude::*;

use crate::bits::field_get;
use crate::bits::field_set;
use crate::bits::get_field;
use crate::bits::lemma_set_preserves_rest;
use crate::bits::lemma_set_then_get_w1;
use crate::bits::lemma_set_then_get_w2;
use crate::bits::set_field;
use crate::registers::Register;

verus! {

/// Charge Option 1 Register: raw 16-bit value at bus address 0x30.
#[derive(Clone, Copy, Debug, PartialEq, Eq)]
pub struct ChargeOption1 {
    bits: u16,
}

impl Register for ChargeOption1 {
    closed spec fn spec_bits(self) -> u16 {
        self.bits
    }

    open spec fn spec_addr() -> u8 {
        0x30
    }

    closed spec fn spec_of_bits(bits: u16) -> Self {
        ChargeOption1 { bits }
    }

    fn from_bits(bits: u16) -> (r: Self) {
        ChargeOption1 { bits }
    }

    fn into_bits(self) -> (r: u16) {
        self.bits
    }

    fn addr() -> (r: u8) {
        0x30
    }

    proof fn lemma_encode_decode(bits: u16) {
    }

    proof fn lemma_decode_encode(self) {
    }
}

impl ChargeOption1 {
    /// The raw value the register holds immediately after device power-up.
    pub fn new() -> (r: Self)
        ensures
            r.spec_bits() == 0x3201,
    {
        ChargeOption1 { bits: 0x3201 }
    }

    /// SC_VBUSACP protection enable register bit.
    pub fn en_sc_vbusacp(&self) -> (r: VbusAcp)
        ensures
            r == VbusAcp::spec_from_bits(field_get(self.spec_bits(), 0, 0x1) as u8),
    {
        VbusAcp::from_bits(get_field(self.bits, 0, 0x1) as u8)
    }

    /// SC_VBUSACP protection enable register bit.
    pub fn set_en_sc_vbusacp(&mut self, value: VbusAcp)
        ensures
            final(self).spec_bits() == field_set(
                old(self).spec_bits(),
                0,
                0x1,
                value.spec_into_bits() as u16,
            ),
            final(self).spec_bits() & !(0x1u16 << 0) == old(self).spec_bits() & !(0x1u16 << 0),
            VbusAcp::spec_from_bits(field_get(final(self).spec_bits(), 0, 0x1) as u8)
                == value,
    {
        proof {
            lemma_set_preserves_rest(self.bits, 0, 0x1, value.spec_into_bits() as u16);
            lemma_set_then_get_w1(self.bits, 0, value.spec_into_bits() as u16);
            value.lemma_code_roundtrip();
        }
        let code: u16 = value.into_bits() as u16;
        self.bits = set_field(self.bits, 0, 0x1, code);
    }

    /// Discharge SRN for Shipping Mode
    pub fn en_ship_dchg(&self) -> (r: ShipDchg)
        ensures
            r == ShipDchg::spec_from_bits(field_get(self.spec_bits(), 1, 0x1) as u8),
    {
        ShipDchg::from_bits(get_field(self.bits, 1, 0x1) as u8)
    }

    /// Discharge SRN for Shipping Mode
    pub fn set_en_ship_dchg(&mut self, value: ShipDchg)
        ensures
            final(self).spec_bits() == field_set(
                old(self).spec_bits(),
                1,
                0x1,
                value.spec_into_bits() as u16,
            ),
            final(self).spec_bits() & !(0x1u16 << 1) == old(self).spec_bits() & !(0x1u16 << 1),
            ShipDchg::spec_from_bits(field_get(final(self).spec_bits(), 1, 0x1) as u8)
                == value,
    {
        proof {
            lemma_set_preserves_rest(self.bits, 1, 0x1, value.spec_into_bits() as u16);
            lemma_set_then_get_w1(self.bits, 1, value.spec_into_bits() as u16);
            value.lemma_code_roundtrip();
        }
        let code: u16 = value.into_bits() as u16;
        self.bits = set_field(self.bits, 1, 0x1, code);
    }

    /// PTM enable register bit, it will automatically reset to zero.
    pub fn en_ptm(&self) -> (r: Ptm)
        ensures
            r == Ptm::spec_from_bits(field_get(self.spec_bits(), 2, 0x1) as u8),
    {
        Ptm::from_bits(get_field(self.bits, 2, 0x1) as u8)
    }

    /// PTM enable register bit, it will automatically reset to zero.
    pub fn set_en_ptm(&mut self, value: Ptm)
        ensures
            final(self).spec_bits() == field_set(
                old(self).spec_bits(),
                2,
                0x1,
                value.spec_into_bits() as u16,
            ),
            final(self).spec_bits() & !(0x1u16 << 2) == old(self).spec_bits() & !(0x1u16 << 2),
            Ptm::spec_from_bits(field_get(final(self).spec_bits(), 2, 0x1) as u8)
                == value,
    {
        proof {
            lemma_set_preserves_rest(self.bits, 2, 0x1, value.spec_into_bits() as u16);
            lemma_set_then_get_w1(self.bits, 2, value.spec_into_bits() as u16);
            value.lemma_code_roundtrip();
        }
        let code: u16 = value.into_bits() as u16;
        self.bits = set_field(self.bits, 2, 0x1, code);
    }

    /// Force Power Path Off
    pub fn frc_conv_off(&self) -> (r: FrcConvOff)
        ensures
            r == FrcConvOff::spec_from_bits(field_get(self.spec_bits(), 3, 0x1) as u8),
    {
        FrcConvOff::from_bits(get_field(self.bits, 3, 0x1) as u8)
    }

    /// Force Power Path Off
    pub fn set_frc_conv_off(&mut self, value: FrcConvOff)
        ensures
            final(self).spec_bits() == field_set(
                old(self).spec_bits(),
                3,
                0x1,
                value.spec_into_bits() as u16,
            ),
            final(self).spec_bits() & !(0x1u16 << 3) == old(self).spec_bits() & !(0x1u16 << 3),
            FrcConvOff::spec_from_bits(field_get(final(self).spec_bits(), 3, 0x1) as u8)
                == value,
    {
        proof {
            lemma_set_preserves_rest(self.bits, 3, 0x1, value.spec_into_bits() as u16);
            lemma_set_then_get_w1(self.bits, 3, value.spec_into_bits() as u16);
            value.lemma_code_roundtrip();
        }
        let code: u16 = value.into_bits() as u16;
        self.bits = set_field(self.bits, 3, 0x1, code);
    }

    /// Independent comparator deglitch time, only applied to the
    pub fn cmp_deg(&self) -> (r: CmpDeg)
        ensures
            r == CmpDeg::spec_from_bits(field_get(self.spec_bits(), 4, 0x3) as u8),
    {
        CmpDeg::from_bits(get_field(self.bits, 4, 0x3) as u8)
    }

    /// Independent comparator deglitch time, only applied to the
    pub fn set_cmp_deg(&mut self, value: CmpDeg)
        ensures
            final(self).spec_bits() == field_set(
                old(self).spec_bits(),
                4,
                0x3,
                value.spec_into_bits() as u16,
            ),
            final(self).spec_bits() & !(0x3u16 << 4) == old(self).spec_bits() & !(0x3u16 << 4),
            CmpDeg::spec_from_bits(field_get(final(self).spec_bits(), 4, 0x3) as u8)
                == value,
    {
        proof {
            lemma_set_preserves_rest(self.bits, 4, 0x3, value.spec_into_bits() as u16);
            lemma_set_then_get_w2(self.bits, 4, value.spec_into_bits() as u16);
            value.lemma_code_roundtrip();
        }
        let code: u16 = value.into_bits() as u16;
        self.bits = set_field(self.bits, 4, 0x3, code);
    }

    /// Independent Comparator output Polarity.
    pub fn cmp_pol(&self) -> (r: CmpPol)
        ensures
            r == CmpPol::spec_from_bits(field_get(self.spec_bits(), 6, 0x1) as u8),
    {
        CmpPol::from_bits(get_field(self.bits, 6, 0x1) as u8)
    }

    /// Independent Comparator output Polarity.
    pub fn set_cmp_pol(&mut self, value: CmpPol)
        ensures
            final(self).spec_bits() == field_set(
                old(self).spec_bits(),
                6,
                0x1,
                value.spec_into_bits() as u16,
            ),
            final(self).spec_bits() & !(0x1u16 << 6) == old(self).spec_bits() & !(0x1u16 << 6),
            CmpPol::spec_from_bits(field_get(final(self).spec_bits(), 6, 0x1) as u8)
                == value,
    {
        proof {
            lemma_set_preserves_rest(self.bits, 6, 0x1, value.spec_into_bits() as u16);
            lemma_set_then_get_w1(self.bits, 6, value.spec_into_bits() as u16);
            value.lemma_code_roundtrip();
        }
        let code: u16 = value.into_bits() as u16;
        self.bits = set_field(self.bits, 6, 0x1, code);
    }

    /// Force SYSOVP protection threshold to 27V neglecting
    pub fn sysovp_max(&self) -> (r: SysOvpMax)
        ensures
            r == SysOvpMax::spec_from_bits(field_get(self.spec_bits(), 7, 0x1) as u8),
    {
        SysOvpMax::from_bits(get_field(self.bits, 7, 0x1) as u8)
    }

    /// Force SYSOVP protection threshold to 27V neglecting
    pub fn set_sysovp_max(&mut self, value: SysOvpMax)
        ensures
            final(self).spec_bits() == field_set(
                old(self).spec_bits(),
                7,
                0x1,
                value.spec_into_bits() as u16,
            ),
            final(self).spec_bits() & !(0x1u16 << 7) == old(self).spec_bits() & !(0x1u16 << 7),
            SysOvpMax::spec_from_bits(field_get(final(self).spec_bits(), 7, 0x1) as u8)
                == value,
    {
        proof {
            lemma_set_preserves_rest(self.bits, 7, 0x1, value.spec_into_bits() as u16);
            lemma_set_then_get_w1(self.bits, 7, value.spec_into_bits() as u16);
            value.lemma_code_roundtrip();
        }
        let code: u16 = value.into_bits() as u16;
        self.bits = set_field(self.bits, 7, 0x1, code);
    }

    /// Enable OTG compensation for VBUS effective capacitance larger
    pub fn en_otg_big_cap(&self) -> (r: EnOtgBigCap)
        ensures
            r == EnOtgBigCap::spec_from_bits(field_get(self.spec_bits(), 8, 0x1) as u8),
    {
        EnOtgBigCap::from_bits(get_field(self.bits, 8, 0x1) as u8)
    }

    /// Enable OTG compensation for VBUS effective capacitance larger
    pub fn set_en_otg_big_cap(&mut self, value: EnOtgBigCap)
        ensures
            final(self).spec_bits() == field_set(
                old(self).spec_bits(),
                8,
                0x1,
                value.spec_into_bits() as u16,
            ),
            final(self).spec_bits() & !(0x1u16 << 8) == old(self).spec_bits() & !(0x1u16 << 8),
            EnOtgBigCap::spec_from_bits(field_get(final(self).spec_bits(), 8, 0x1) as u8)
                == value,
    {
        proof {
            lemma_set_preserves_rest(self.bits, 8, 0x1, value.spec_into_bits() as u16);
            lemma_set_then_get_w1(self.bits, 8, value.spec_into_bits() as u16);
            value.lemma_code_roundtrip();
        }
        let code: u16 = value.into_bits() as u16;
        self.bits = set_field(self.bits, 8, 0x1, code);
    }

    /// PSYS Gain
    pub fn psys_ratio(&self) -> (r: PsysGain)
        ensures
            r == PsysGain::spec_from_bits(field_get(self.spec_bits(), 9, 0x1) as u8),
    {
        PsysGain::from_bits(get_field(self.bits, 9, 0x1) as u8)
    }

    /// PSYS Gain
    pub fn set_psys_ratio(&mut self, value: PsysGain)
        ensures
            final(self).spec_bits() == field_set(
                old(self).spec_bits(),
                9,
                0x1,
                value.spec_into_bits() as u16,
            ),
            final(self).spec_bits() & !(0x1u16 << 9) == old(self).spec_bits() & !(0x1u16 << 9),
            PsysGain::spec_from_bits(field_get(final(self).spec_bits(), 9, 0x1) as u8)
                == value,
    {
        proof {
            lemma_set_preserves_rest(self.bits, 9, 0x1, value.spec_into_bits() as u16);
            lemma_set_then_get_w1(self.bits, 9, value.spec_into_bits() as u16);
            value.lemma_code_roundtrip();
        }
        let code: u16 = value.into_bits() as u16;
        self.bits = set_field(self.bits, 9, 0x1, code);
    }

    /// Charge sense resistor RSR. Not recommend change this value
    pub fn rsns_rsr(&self) -> (r: RsnsRsr)
        ensures
            r == RsnsRsr::spec_from_bits(field_get(self.spec_bits(), 10, 0x1) as u8),
    {
        RsnsRsr::from_bits(get_field(self.bits, 10, 0x1) as u8)
    }

    /// Charge sense resistor RSR. Not recommend change this value
    pub fn set_rsns_rsr(&mut self, value: RsnsRsr)
        ensures
            final(self).spec_bits() == field_set(
                old(self).spec_bits(),
                10,
                0x1,
                value.spec_into_bits() as u16,
            ),
            final(self).spec_bits() & !(0x1u16 << 10) == old(self).spec_bits() & !(0x1u16 << 10),
            RsnsRsr::spec_from_bits(field_get(final(self).spec_bits(), 10, 0x1) as u8)
                == value,
    {
        proof {
            lemma_set_preserves_rest(self.bits, 10, 0x1, value.spec_into_bits() as u16);
            lemma_set_then_get_w1(self.bits, 10, value.spec_into_bits() as u16);
            value.lemma_code_roundtrip();
        }
        let code: u16 = value.into_bits() as u16;
        self.bits = set_field(self.bits, 10, 0x1, code);
    }

    /// Input sense resistor RAC. Not recommend change this value
    pub fn rsns_rac(&self) -> (r: RsnsRac)
        ensures
            r == RsnsRac::spec_from_bits(field_get(self.spec_bits(), 11, 0x1) as u8),
    {
        RsnsRac::from_bits(get_field(self.bits, 11, 0x1) as u8)
    }

    /// Input sense resistor RAC. Not recommend change this value
    pub fn set_rsns_rac(&mut self, value: RsnsRac)
        ensures
            final(self).spec_bits() == field_set(
                old(self).spec_bits(),
                11,
                0x1,
                value.spec_into_bits() as u16,
            ),
            final(self).spec_bits() & !(0x1u16 << 11) == old(self).spec_bits() & !(0x1u16 << 11),
            RsnsRac::spec_from_bits(field_get(final(self).spec_bits(), 11, 0x1) as u8)
                == value,
    {
        proof {
            lemma_set_preserves_rest(self.bits, 11, 0x1, value.spec_into_bits() as u16);
            lemma_set_then_get_w1(self.bits, 11, value.spec_into_bits() as u16);
            value.lemma_code_roundtrip();
        }
        let code: u16 = value.into_bits() as u16;
        self.bits = set_field(self.bits, 11, 0x1, code);
    }

    /// PSYS Enable and Definition Register.
    pub fn psys_config(&self) -> (r: PsysConfig)
        ensures
            r == PsysConfig::spec_from_bits(field_get(self.spec_bits(), 12, 0x3) as u8),
    {
        PsysConfig::from_bits(get_field(self.bits, 12, 0x3) as u8)
    }

    /// PSYS Enable and Definition Register.
    pub fn set_psys_config(&mut self, value: PsysConfig)
        ensures
            final(self).spec_bits() == field_set(
                old(self).spec_bits(),
                12,
                0x3,
                value.spec_into_bits() as u16,
            ),
            final(self).spec_bits() & !(0x3u16 << 12) == old(self).spec_bits() & !(0x3u16 << 12),
            PsysConfig::spec_from_bits(field_get(final(self).spec_bits(), 12, 0x3) as u8)
                == value,
    {
        proof {
            lemma_set_preserves_rest(self.bits, 12, 0x3, value.spec_into_bits() as u16);
            lemma_set_then_get_w2(self.bits, 12, value.spec_into_bits() as u16);
            value.lemma_code_roundtrip();
        }
        let code: u16 = value.into_bits() as u16;
        self.bits = set_field(self.bits, 12, 0x3, code);
    }

    /// Independent Comparator Enable
    pub fn en_lwpwr_cmp(&self) -> (r: EnLwPwrCmp)
        ensures
            r == EnLwPwrCmp::spec_from_bits(field_get(self.spec_bits(), 14, 0x1) as u8),
    {
        EnLwPwrCmp::from_bits(get_field(self.bits, 14, 0x1) as u8)
    }

    /// Independent Comparator Enable
    pub fn set_en_lwpwr_cmp(&mut self, value: EnLwPwrCmp)
        ensures
            final(self).spec_bits() == field_set(
                old(self).spec_bits(),
                14,
                0x1,
                value.spec_into_bits() as u16,
            ),
            final(self).spec_bits() & !(0x1u16 << 14) == old(self).spec_bits() & !(0x1u16 << 14),
            EnLwPwrCmp::spec_from_bits(field_get(final(self).spec_bits(), 14, 0x1) as u8)
                == value,
    {
        proof {
            lemma_set_preserves_rest(self.bits, 14, 0x1, value.spec_into_bits() as u16);
            lemma_set_then_get_w1(self.bits, 14, value.spec_into_bits() as u16);
            value.lemma_code_roundtrip();
        }
        let code: u16 = value.into_bits() as u16;
        self.bits = set_field(self.bits, 14, 0x1, code);
    }

    /// IBAT Enable
    pub fn en_ibat(&self) -> (r: EnIbat)
        ensures
            r == EnIbat::spec_from_bits(field_get(self.spec_bits(), 15, 0x1) as u8),
    {
        EnIbat::from_bits(get_field(self.bits, 15, 0x1) as u8)
    }

    /// IBAT Enable
    pub fn set_en_ibat(&mut self, value: EnIbat)
        ensures
            final(self).spec_bits() == field_set(
                old(self).spec_bits(),
                15,
                0x1,
                value.spec_into_bits() as u16,
            ),
            final(self).spec_bits() & !(0x1u16 << 15) == old(self).spec_bits() & !(0x1u16 << 15),
            EnIbat::spec_from_bits(field_get(final(self).spec_bits(), 15, 0x1) as u8)
                == value,
    {
        proof {
            lemma_set_preserves_rest(self.bits, 15, 0x1, value.spec_into_bits() as u16);
            lemma_set_then_get_w1(self.bits, 15, value.spec_into_bits() as u16);
            value.lemma_code_roundtrip();
        }
        let code: u16 = value.into_bits() as u16;
        self.bits = set_field(self.bits, 15, 0x1, code);
    }
}

/// SC_VBUSACP protection enable register bit.
#[derive(Clone, Copy, Debug, PartialEq, Eq)]
pub enum VbusAcp {
    Disable,
    Enable,
}

impl VbusAcp {
    /// The chip-defined code of each variant.
    pub open spec fn spec_into_bits(self) -> u8 {
        match self {
            VbusAcp::Disable => 0,
            VbusAcp::Enable => 1,
        }
    }

    /// The variant each code decodes to; total over all codes, undeclared
    /// codes falling back to the last declared variant in code order.
    pub open spec fn spec_from_bits(value: u8) -> Self {
        if value == 0 {
            VbusAcp::Disable
        } else {
            VbusAcp::Enable
        }
    }

    pub fn into_bits(self) -> (r: u8)
        ensures
            r == self.spec_into_bits(),
    {
        match self {
            VbusAcp::Disable => 0,
            VbusAcp::Enable => 1,
        }
    }

    pub fn from_bits(value: u8) -> (r: Self)
        ensures
            r == Self::spec_from_bits(value),
    {
        match value {
            0 => VbusAcp::Disable,
            _ => VbusAcp::Enable,
        }
    }

    /// Decoding the code of a variant yields that variant back.
    pub proof fn lemma_code_roundtrip(self)
        ensures
            Self::spec_from_bits(self.spec_into_bits()) == self,
    {
    }
}

/// Discharge SRN for Shipping Mode.
#[derive(Clone, Copy, Debug, PartialEq, Eq)]
pub enum ShipDchg {
    Disable,
    Enable,
}

impl ShipDchg {
    /// The chip-defined code of each variant.
    pub open spec fn spec_into_bits(self) -> u8 {
        match self {
            ShipDchg::Disable => 0,
            ShipDchg::Enable => 1,
        }
    }

    /// The variant each code decodes to; total over all codes, undeclared
    /// codes falling back to the last declared variant in code order.
    pub open spec fn spec_from_bits(value: u8) -> Self {
        if value == 0 {
            ShipDchg::Disable
        } else {
            ShipDchg::Enable
        }
    }

    pub fn into_bits(self) -> (r: u8)
        ensures
            r == self.spec_into_bits(),
    {
        match self {
            ShipDchg::Disable => 0,
            ShipDchg::Enable => 1,
        }
    }

    pub fn from_bits(value: u8) -> (r: Self)
        ensures
            r == Self::spec_from_bits(value),
    {
        match value {
            0 => ShipDchg::Disable,
            _ => ShipDchg::Enable,
        }
    }

    /// Decoding the code of a variant yields that variant back.
    pub proof fn lemma_code_roundtrip(self)
        ensures
            Self::spec_from_bits(self.spec_into_bits()) == self,
    {
    }
}

/// PTM enable register bit, it will automatically reset to zero.
#[derive(Clone, Copy, Debug, PartialEq, Eq)]
pub enum Ptm {
    Disable,
    Enable,
}

impl Ptm {
    /// The chip-defined code of each variant.
    pub open spec fn spec_into_bits(self) -> u8 {
        match self {
            Ptm::Disable => 0,
            Ptm::Enable => 1,
        }
    }

    /// The variant each code decodes to; total over all codes, undeclared
    /// codes falling back to the last declared variant in code order.
    pub open spec fn spec_from_bits(value: u8) -> Self {
        if value == 0 {
            Ptm::Disable
        } else {
            Ptm::Enable
        }
    }

    pub fn into_bits(self) -> (r: u8)
        ensures
            r == self.spec_into_bits(),
    {
        match self {
            Ptm::Disable => 0,
            Ptm::Enable => 1,
        }
    }

    pub fn from_bits(value: u8) -> (r: Self)
        ensures
            r == Self::spec_from_bits(value),
    {
        match value {
            0 => Ptm::Disable,
            _ => Ptm::Enable,
        }
    }

    /// Decoding the code of a variant yields that variant back.
    pub proof fn lemma_code_roundtrip(self)
        ensures
            Self::spec_from_bits(self.spec_into_bits()) == self,
    {
    }
}

/// Force Power Path Off.
#[derive(Clone, Copy, Debug, PartialEq, Eq)]
pub enum FrcConvOff {
    Disable,
    Enable,
}

impl FrcConvOff {
    /// The chip-defined code of each variant.
    pub open spec fn spec_into_bits(self) -> u8 {
        match self {
            FrcConvOff::Disable => 0,
            FrcConvOff::Enable => 1,
        }
    }

    /// The variant each code decodes to; total over all codes, undeclared
    /// codes falling back to the last declared variant in code order.
    pub open spec fn spec_from_bits(value: u8) -> Self {
        if value == 0 {
            FrcConvOff::Disable
        } else {
            FrcConvOff::Enable
        }
    }

    pub fn into_bits(self) -> (r: u8)
        ensures
            r == self.spec_into_bits(),
    {
        match self {
            FrcConvOff::Disable => 0,
            FrcConvOff::Enable => 1,
        }
    }

    pub fn from_bits(value: u8) -> (r: Self)
        ensures
            r == Self::spec_from_bits(value),
    {
        match value {
            0 => FrcConvOff::Disable,
            _ => FrcConvOff::Enable,
        }
    }

    /// Decoding the code of a variant yields that variant back.
    pub proof fn lemma_code_roundtrip(self)
        ensures
            Self::spec_from_bits(self.spec_into_bits()) == self,
    {
    }
}

/// Independent comparator deglitch time, only applied to the.
#[derive(Clone, Copy, Debug, PartialEq, Eq)]
pub enum CmpDeg {
    Time1us,
    Time20500us,
    Time20850us,
    Time5340000us,
}

impl CmpDeg {
    /// The chip-defined code of each variant.
    pub open spec fn spec_into_bits(self) -> u8 {
        match self {
            CmpDeg::Time1us => 0,
            CmpDeg::Time20500us => 1,
            CmpDeg::Time20850us => 2,
            CmpDeg::Time5340000us => 3,
        }
    }

    /// The variant each code decodes to; total over all codes, undeclared
    /// codes falling back to the last declared variant in code order.
    pub open spec fn spec_from_bits(value: u8) -> Self {
        if value == 0 {
            CmpDeg::Time1us
        } else if value == 1 {
            CmpDeg::Time20500us
        } else if value == 2 {
            CmpDeg::Time20850us
        } else {
            CmpDeg::Time5340000us
        }
    }

    pub fn into_bits(self) -> (r: u8)
        ensures
            r == self.spec_into_bits(),
    {
        match self {
            CmpDeg::Time1us => 0,
            CmpDeg::Time20500us => 1,
            CmpDeg::Time20850us => 2,
            CmpDeg::Time5340000us => 3,
        }
    }

    pub fn from_bits(value: u8) -> (r: Self)
        ensures
            r == Self::spec_from_bits(value),
    {
        match value {
            0 => CmpDeg::Time1us,
            1 => CmpDeg::Time20500us,
            2 => CmpDeg::Time20850us,
            _ => CmpDeg::Time5340000us,
        }
    }

    /// Decoding the code of a variant yields that variant back.
    pub proof fn lemma_code_roundtrip(self)
        ensures
            Self::spec_from_bits(self.spec_into_bits()) == self,
    {
    }
}

/// Independent Comparator output Polarity.
#[derive(Clone, Copy, Debug, PartialEq, Eq)]
pub enum CmpPol {
    ActiveLow,
    ActiveHigh,
}

impl CmpPol {
    /// The chip-defined code of each variant.
    pub open spec fn spec_into_bits(self) -> u8 {
        match self {
            CmpPol::ActiveLow => 0,
            CmpPol::ActiveHigh => 1,
        }
    }

    /// The variant each code decodes to; total over all codes, undeclared
    /// codes falling back to the last declared variant in code order.
    pub open spec fn spec_from_bits(value: u8) -> Self {
        if value == 0 {
            CmpPol::ActiveLow
        } else {
            CmpPol::ActiveHigh
        }
    }

    pub fn into_bits(self) -> (r: u8)
        ensures
            r == self.spec_into_bits(),
    {
        match self {
            CmpPol::ActiveLow => 0,
            CmpPol::ActiveHigh => 1,
        }
    }

    pub fn from_bits(value: u8) -> (r: Self)
        ensures
            r == Self::spec_from_bits(value),
    {
        match value {
            0 => CmpPol::ActiveLow,
            _ => CmpPol::ActiveHigh,
        }
    }

    /// Decoding the code of a variant yields that variant back.
    pub proof fn lemma_code_roundtrip(self)
        ensures
            Self::spec_from_bits(self.spec_into_bits()) == self,
    {
    }
}

/// Force SYSOVP protection threshold to 27V neglecting.
#[derive(Clone, Copy, Debug, PartialEq, Eq)]
pub enum SysOvpMax {
    Disable,
    Enable,
}

impl SysOvpMax {
    /// The chip-defined code of each variant.
    pub open spec fn spec_into_bits(self) -> u8 {
        match self {
            SysOvpMax::Disable => 0,
            SysOvpMax::Enable => 1,
        }
    }

    /// The variant each code decodes to; total over all codes, undeclared
    /// codes falling back to the last declared variant in code order.
    pub open spec fn spec_from_bits(value: u8) -> Self {
        if value == 0 {
            SysOvpMax::Disable
        } else {
            SysOvpMax::Enable
        }
    }

    pub fn into_bits(self) -> (r: u8)
        ensures
            r == self.spec_into_bits(),
    {
        match self {
            SysOvpMax::Disable => 0,
            SysOvpMax::Enable => 1,
        }
    }

    pub fn from_bits(value: u8) -> (r: Self)
        ensures
            r == Self::spec_from_bits(value),
    {
        match value {
            0 => SysOvpMax::Disable,
            _ => SysOvpMax::Enable,
        }
    }

    /// Decoding the code of a variant yields that variant back.
    pub proof fn lemma_code_roundtrip(self)
        ensures
            Self::spec_from_bits(self.spec_into_bits()) == self,
    {
    }
}

/// Enable OTG compensation for VBUS effective capacitance larger.
#[derive(Clone, Copy, Debug, PartialEq, Eq)]
pub enum EnOtgBigCap {
    Disable,
    Enable,
}

impl EnOtgBigCap {
    /// The chip-defined code of each variant.
    pub open spec fn spec_into_bits(self) -> u8 {
        match self {
            EnOtgBigCap::Disable => 0,
            EnOtgBigCap::Enable => 1,
        }
    }

    /// The variant each code decodes to; total over all codes, undeclared
    /// codes falling back to the last declared variant in code order.
    pub open spec fn spec_from_bits(value: u8) -> Self {
        if value == 0 {
            EnOtgBigCap::Disable
        } else {
            EnOtgBigCap::Enable
        }
    }

    pub fn into_bits(self) -> (r: u8)
        ensures
            r == self.spec_into_bits(),
    {
        match self {
            EnOtgBigCap::Disable => 0,
            EnOtgBigCap::Enable => 1,
        }
    }

    pub fn from_bits(value: u8) -> (r: Self)
        ensures
            r == Self::spec_from_bits(value),
    {
        match value {
            0 => EnOtgBigCap::Disable,
            _ => EnOtgBigCap::Enable,
        }
    }

    /// Decoding the code of a variant yields that variant back.
    pub proof fn lemma_code_roundtrip(self)
        ensures
            Self::spec_from_bits(self.spec_into_bits()) == self,
    {
    }
}

/// PSYS Gain.
#[derive(Clone, Copy, Debug, PartialEq, Eq)]
pub enum PsysGain {
    Gain0_25,
    Gain1_00,
}

impl PsysGain {
    /// The chip-defined code of each variant.
    pub open spec fn spec_into_bits(self) -> u8 {
        match self {
            PsysGain::Gain0_25 => 0,
            PsysGain::Gain1_00 => 1,
        }
    }

    /// The variant each code decodes to; total over all codes, undeclared
    /// codes falling back to the last declared variant in code order.
    pub open spec fn spec_from_bits(value: u8) -> Self {
        if value == 0 {
            PsysGain::Gain0_25
        } else {
            PsysGain::Gain1_00
        }
    }

    pub fn into_bits(self) -> (r: u8)
        ensures
            r == self.spec_into_bits(),
    {
        match self {
            PsysGain::Gain0_25 => 0,
            PsysGain::Gain1_00 => 1,
        }
    }

    pub fn from_bits(value: u8) -> (r: Self)
        ensures
            r == Self::spec_from_bits(value),
    {
        match value {
            0 => PsysGain::Gain0_25,
            _ => PsysGain::Gain1_00,
        }
    }

    /// Decoding the code of a variant yields that variant back.
    pub proof fn lemma_code_roundtrip(self)
        ensures
            Self::spec_from_bits(self.spec_into_bits()) == self,
    {
    }
}

/// Charge sense resistor RSR. Not recommend change this value.
#[derive(Clone, Copy, Debug, PartialEq, Eq)]
pub enum RsnsRsr {
    MilliOhms5,
    MilliOhms2,
}

impl RsnsRsr {
    /// The chip-defined code of each variant.
    pub open spec fn spec_into_bits(self) -> u8 {
        match self {
            RsnsRsr::MilliOhms5 => 0,
            RsnsRsr::MilliOhms2 => 1,
        }
    }

    /// The variant each code decodes to; total over all codes, undeclared
    /// codes falling back to the last declared variant in code order.
    pub open spec fn spec_from_bits(value: u8) -> Self {
        if value == 0 {
            RsnsRsr::MilliOhms5
        } else {
            RsnsRsr::MilliOhms2
        }
    }

    pub fn into_bits(self) -> (r: u8)
        ensures
            r == self.spec_into_bits(),
    {
        match self {
            RsnsRsr::MilliOhms5 => 0,
            RsnsRsr::MilliOhms2 => 1,
        }
    }

    pub fn from_bits(value: u8) -> (r: Self)
        ensures
            r == Self::spec_from_bits(value),
    {
        match value {
            0 => RsnsRsr::MilliOhms5,
            _ => RsnsRsr::MilliOhms2,
        }
    }

    /// Decoding the code of a variant yields that variant back.
    pub proof fn lemma_code_roundtrip(self)
        ensures
            Self::spec_from_bits(self.spec_into_bits()) == self,
    {
    }
}

/// Input sense resistor RAC. Not recommend change this value.
#[derive(Clone, Copy, Debug, PartialEq, Eq)]
pub enum RsnsRac {
    MilliOhms10,
    MilliOhms5,
}

impl RsnsRac {
    /// The chip-defined code of each variant.
    pub open spec fn spec_into_bits(self) -> u8 {
        match self {
            RsnsRac::MilliOhms10 => 0,
            RsnsRac::MilliOhms5 => 1,
        }
    }

    /// The variant each code decodes to; total over all codes, undeclared
    /// codes falling back to the last declared variant in code order.
    pub open spec fn spec_from_bits(value: u8) -> Self {
        if value == 0 {
            RsnsRac::MilliOhms10
        } else {
            RsnsRac::MilliOhms5
        }
    }

    pub fn into_bits(self) -> (r: u8)
        ensures
            r == self.spec_into_bits(),
    {
        match self {
            RsnsRac::MilliOhms10 => 0,
            RsnsRac::MilliOhms5 => 1,
        }
    }

    pub fn from_bits(value: u8) -> (r: Self)
        ensures
            r == Self::spec_from_bits(value),
    {
        match value {
            0 => RsnsRac::MilliOhms10,
            _ => RsnsRac::MilliOhms5,
        }
    }

    /// Decoding the code of a variant yields that variant back.
    pub proof fn lemma_code_roundtrip(self)
        ensures
            Self::spec_from_bits(self.spec_into_bits()) == self,
    {
    }
}

/// PSYS Enable and Definition Register.
#[derive(Clone, Copy, Debug, PartialEq, Eq)]
pub enum PsysConfig {
    PbusPbat,
    Pbus,
    Off,
}

impl PsysConfig {
    /// The chip-defined code of each variant.
    pub open spec fn spec_into_bits(self) -> u8 {
        match self {
            PsysConfig::PbusPbat => 0,
            PsysConfig::Pbus => 1,
            PsysConfig::Off => 3,
        }
    }

    /// The variant each code decodes to; total over all codes, undeclared
    /// codes falling back to the last declared variant in code order.
    pub open spec fn spec_from_bits(value: u8) -> Self {
        if value == 0 {
            PsysConfig::PbusPbat
        } else if value == 1 {
            PsysConfig::Pbus
        } else {
            PsysConfig::Off
        }
    }

    pub fn into_bits(self) -> (r: u8)
        ensures
            r == self.spec_into_bits(),
    {
        match self {
            PsysConfig::PbusPbat => 0,
            PsysConfig::Pbus => 1,
            PsysConfig::Off => 3,
        }
    }

    pub fn from_bits(value: u8) -> (r: Self)
        ensures
            r == Self::spec_from_bits(value),
    {
        match value {
            0 => PsysConfig::PbusPbat,
            1 => PsysConfig::Pbus,
            _ => PsysConfig::Off,
        }
    }

    /// Decoding the code of a variant yields that variant back.
    pub proof fn lemma_code_roundtrip(self)
        ensures
            Self::spec_from_bits(self.spec_into_bits()) == self,
    {
    }
}

/// Independent Comparator Enable.
#[derive(Clone, Copy, Debug, PartialEq, Eq)]
pub enum EnLwPwrCmp {
    Disable,
    Enable,
}

impl EnLwPwrCmp {
    /// The chip-defined code of each variant.
    pub open spec fn spec_into_bits(self) -> u8 {
        match self {
            EnLwPwrCmp::Disable => 0,
            EnLwPwrCmp::Enable => 1,
        }
    }

    /// The variant each code decodes to; total over all codes, undeclared
    /// codes falling back to the last declared variant in code order.
    pub open spec fn spec_from_bits(value: u8) -> Self {
        if value == 0 {
            EnLwPwrCmp::Disable
        } else {
            EnLwPwrCmp::Enable
        }
    }

    pub fn into_bits(self) -> (r: u8)
        ensures
            r == self.spec_into_bits(),
    {
        match self {
            EnLwPwrCmp::Disable => 0,
            EnLwPwrCmp::Enable => 1,
        }
    }

    pub fn from_bits(value: u8) -> (r: Self)
        ensures
            r == Self::spec_from_bits(value),
    {
        match value {
            0 => EnLwPwrCmp::Disable,
            _ => EnLwPwrCmp::Enable,
        }
    }

    /// Decoding the code of a variant yields that variant back.
    pub proof fn lemma_code_roundtrip(self)
        ensures
            Self::spec_from_bits(self.spec_into_bits()) == self,
    {
    }
}

/// IBAT Enable.
#[derive(Clone, Copy, Debug, PartialEq, Eq)]
pub enum EnIbat {
    Disable,
    Enable,
}

impl EnIbat {
    /// The chip-defined code of each variant.
    pub open spec fn spec_into_bits(self) -> u8 {
        match self {
            EnIbat::Disable => 0,
            EnIbat::Enable => 1,
        }
    }

    /// The variant each code decodes to; total over all codes, undeclared
    /// codes falling back to the last declared variant in code order.
    pub open spec fn spec_from_bits(value: u8) -> Self {
        if value == 0 {
            EnIbat::Disable
        } else {
            EnIbat::Enable
        }
    }

    pub fn into_bits(self) -> (r: u8)
        ensures
            r == self.spec_into_bits(),
    {
        match self {
            EnIbat::Disable => 0,
            EnIbat::Enable => 1,
        }
    }

    pub fn from_bits(value: u8) -> (r: Self)
        ensures
            r == Self::spec_from_bits(value),
    {
        match value {
            0 => EnIbat::Disable,
            _ => EnIbat::Enable,
        }
    }

    /// Decoding the code of a variant yields that variant back.
    pub proof fn lemma_code_roundtrip(self)
        ensures
            Self::spec_from_bits(self.spec_into_bits()) == self,
    {
    }
}

} // verus!
