//! Charge Option 3 Register.

use vstd::prelude::*;

use crate::bits::field_get;
use crate::bits::field_set;
use crate::bits::get_field;
use crate::bits::lemma_set_preserves_rest;
use crate::bits::lemma_set_then_get_w1;
use crate::bits::lemma_set_then_get_w2;
use crate::bits::set_field;
use crate::registers::Register;
use crate::registers::RegReset;

verus! {

/// Charge Option 3 Register: raw 16-bit value at bus address 0x32.
#[derive(Clone, Copy, Debug, PartialEq, Eq)]
pub struct ChargeOption3 {
    bits: u16,
}

impl Register for ChargeOption3 {
    closed spec fn spec_bits(self) -> u16 {
        self.bits
    }

    open spec fn spec_addr() -> u8 {
        0x32
    }

    closed spec fn spec_of_bits(bits: u16) -> Self {
        ChargeOption3 { bits }
    }

    fn from_bits(bits: u16) -> (r: Self) {
        ChargeOption3 { bits }
    }

    fn into_bits(self) -> (r: u16) {
        self.bits
    }

    fn addr() -> (r: u8) {
        0x32
    }

    proof fn lemma_encode_decode(bits: u16) {
    }

    proof fn lemma_decode_encode(self) {
    }
}

impl ChargeOption3 {
    /// The raw value the register holds immediately after device power-up.
    pub fn new() -> (r: Self)
        ensures
            r.spec_bits() == 0x534,
    {
        ChargeOption3 { bits: 0x534 }
    }

    /// 0b = PSYS as battery discharge power minus OTG output power
    pub fn psys_otg_idchg(&self) -> (r: PsysOtgIdchg)
        ensures
            r == PsysOtgIdchg::spec_from_bits(field_get(self.spec_bits(), 0, 0x1) as u8),
    {
        PsysOtgIdchg::from_bits(get_field(self.bits, 0, 0x1) as u8)
    }

    /// 0b = PSYS as battery discharge power minus OTG output power
    pub fn set_psys_otg_idchg(&mut self, value: PsysOtgIdchg)
        ensures
            final(self).spec_bits() == field_set(
                old(self).spec_bits(),
                0,
                0x1,
                value.spec_into_bits() as u16,
            ),
            final(self).spec_bits() & !(0x1u16 << 0) == old(self).spec_bits() & !(0x1u16 << 0),
            PsysOtgIdchg::spec_from_bits(field_get(final(self).spec_bits(), 0, 0x1) as u8)
                == value,
    {
        proof {
            lemma_set_preserves_rest(self.bits, 0, 0x1, value.spec_into_bits() as u16);
            lemma_set_then_get_w1(self.bits, 0, value.spec_into_bits() as u16);
            value.lemma_code_roundtrip();
        }
        let code: u16 = value.into_bits() as u16;
        self.bits = set_field(self.bits, 0, 0x1, code);
    }

    /// Turn off BATFET during HIZ mode.
    pub fn batfetoff_hiz(&self) -> (r: BatFetOffHiZ)
        ensures
            r == BatFetOffHiZ::spec_from_bits(field_get(self.spec_bits(), 1, 0x1) as u8),
    {
        BatFetOffHiZ::from_bits(get_field(self.bits, 1, 0x1) as u8)
    }

    /// Turn off BATFET during HIZ mode.
    pub fn set_batfetoff_hiz(&mut self, value: BatFetOffHiZ)
        ensures
            final(self).spec_bits() == field_set(
                old(self).spec_bits(),
                1,
                0x1,
                value.spec_into_bits() as u16,
            ),
            final(self).spec_bits() & !(0x1u16 << 1) == old(self).spec_bits() & !(0x1u16 << 1),
            BatFetOffHiZ::spec_from_bits(field_get(final(self).spec_bits(), 1, 0x1) as u8)
                == value,
    {
        proof {
            lemma_set_preserves_rest(self.bits, 1, 0x1, value.spec_into_bits() as u16);
            lemma_set_then_get_w1(self.bits, 1, value.spec_into_bits() as u16);
            value.lemma_code_roundtrip();
        }
        let code: u16 = value.into_bits() as u16;
        self.bits = set_field(self.bits, 1, 0x1, code);
    }

    /// Enable Independent Comparator with effective low.
    pub fn cmp_en(&self) -> (r: CmpEn)
        ensures
            r == CmpEn::spec_from_bits(field_get(self.spec_bits(), 2, 0x1) as u8),
    {
        CmpEn::from_bits(get_field(self.bits, 2, 0x1) as u8)
    }

    /// Enable Independent Comparator with effective low.
    pub fn set_cmp_en(&mut self, value: CmpEn)
        ensures
            final(self).spec_bits() == field_set(
                old(self).spec_bits(),
                2,
                0x1,
                value.spec_into_bits() as u16,
            ),
            final(self).spec_bits() & !(0x1u16 << 2) == old(self).spec_bits() & !(0x1u16 << 2),
            CmpEn::spec_from_bits(field_get(final(self).spec_bits(), 2, 0x1) as u8)
                == value,
    {
        proof {
            lemma_set_preserves_rest(self.bits, 2, 0x1, value.spec_into_bits() as u16);
            lemma_set_then_get_w1(self.bits, 2, value.spec_into_bits() as u16);
            value.lemma_code_roundtrip();
        }
        let code: u16 = value.into_bits() as u16;
        self.bits = set_field(self.bits, 2, 0x1, code);
    }

    /// 4 levels inductor average current clamp.
    pub fn il_avg(&self) -> (r: IlAvg)
        ensures
            r == IlAvg::spec_from_bits(field_get(self.spec_bits(), 3, 0x3) as u8),
    {
        IlAvg::from_bits(get_field(self.bits, 3, 0x3) as u8)
    }

    /// 4 levels inductor average current clamp.
    pub fn set_il_avg(&mut self, value: IlAvg)
        ensures
            final(self).spec_bits() == field_set(
                old(self).spec_bits(),
                3,
                0x3,
                value.spec_into_bits() as u16,
            ),
            final(self).spec_bits() & !(0x3u16 << 3) == old(self).spec_bits() & !(0x3u16 << 3),
            IlAvg::spec_from_bits(field_get(final(self).spec_bits(), 3, 0x3) as u8)
                == value,
    {
        proof {
            lemma_set_preserves_rest(self.bits, 3, 0x3, value.spec_into_bits() as u16);
            lemma_set_then_get_w2(self.bits, 3, value.spec_into_bits() as u16);
            value.lemma_code_roundtrip();
        }
        let code: u16 = value.into_bits() as u16;
        self.bits = set_field(self.bits, 3, 0x3, code);
    }

    /// The selection of the external EN_OTG pin control.
    pub fn otg_vap_mode(&self) -> (r: OtgVapMode)
        ensures
            r == OtgVapMode::spec_from_bits(field_get(self.spec_bits(), 5, 0x1) as u8),
    {
        OtgVapMode::from_bits(get_field(self.bits, 5, 0x1) as u8)
    }

    /// The selection of the external EN_OTG pin control.
    pub fn set_otg_vap_mode(&mut self, value: OtgVapMode)
        ensures
            final(self).spec_bits() == field_set(
                old(self).spec_bits(),
                5,
                0x1,
                value.spec_into_bits() as u16,
            ),
            final(self).spec_bits() & !(0x1u16 << 5) == old(self).spec_bits() & !(0x1u16 << 5),
            OtgVapMode::spec_from_bits(field_get(final(self).spec_bits(), 5, 0x1) as u8)
                == value,
    {
        proof {
            lemma_set_preserves_rest(self.bits, 5, 0x1, value.spec_into_bits() as u16);
            lemma_set_then_get_w1(self.bits, 5, value.spec_into_bits() as u16);
            value.lemma_code_roundtrip();
        }
        let code: u16 = value.into_bits() as u16;
        self.bits = set_field(self.bits, 5, 0x1, code);
    }

    /// Turn off BATFET under battery only low power mode. When not in
    pub fn batfet_enz(&self) -> (r: BatFetEnZ)
        ensures
            r == BatFetEnZ::spec_from_bits(field_get(self.spec_bits(), 7, 0x1) as u8),
    {
        BatFetEnZ::from_bits(get_field(self.bits, 7, 0x1) as u8)
    }

    /// Turn off BATFET under battery only low power mode. When not in
    pub fn set_batfet_enz(&mut self, value: BatFetEnZ)
        ensures
            final(self).spec_bits() == field_set(
                old(self).spec_bits(),
                7,
                0x1,
                value.spec_into_bits() as u16,
            ),
            final(self).spec_bits() & !(0x1u16 << 7) == old(self).spec_bits() & !(0x1u16 << 7),
            BatFetEnZ::spec_from_bits(field_get(final(self).spec_bits(), 7, 0x1) as u8)
                == value,
    {
        proof {
            lemma_set_preserves_rest(self.bits, 7, 0x1, value.spec_into_bits() as u16);
            lemma_set_then_get_w1(self.bits, 7, value.spec_into_bits() as u16);
            value.lemma_code_roundtrip();
        }
        let code: u16 = value.into_bits() as u16;
        self.bits = set_field(self.bits, 7, 0x1, code);
    }

    /// VSYS_MIN soft slew rate control for VSYS_MIN step up
    pub fn en_vsys_min_soft_sr(&self) -> (r: EnVsysMinSoftSr)
        ensures
            r == EnVsysMinSoftSr::spec_from_bits(field_get(self.spec_bits(), 8, 0x3) as u8),
    {
        EnVsysMinSoftSr::from_bits(get_field(self.bits, 8, 0x3) as u8)
    }

    /// VSYS_MIN soft slew rate control for VSYS_MIN step up
    pub fn set_en_vsys_min_soft_sr(&mut self, value: EnVsysMinSoftSr)
        ensures
            final(self).spec_bits() == field_set(
                old(self).spec_bits(),
                8,
                0x3,
                value.spec_into_bits() as u16,
            ),
            final(self).spec_bits() & !(0x3u16 << 8) == old(self).spec_bits() & !(0x3u16 << 8),
            EnVsysMinSoftSr::spec_from_bits(field_get(final(self).spec_bits(), 8, 0x3) as u8)
                == value,
    {
        proof {
            lemma_set_preserves_rest(self.bits, 8, 0x3, value.spec_into_bits() as u16);
            lemma_set_then_get_w2(self.bits, 8, value.spec_into_bits() as u16);
            value.lemma_code_roundtrip();
        }
        let code: u16 = value.into_bits() as u16;
        self.bits = set_field(self.bits, 8, 0x3, code);
    }

    /// Enable BATFET control for dual port application.
    pub fn en_port_ctrl(&self) -> (r: EnPortCtrl)
        ensures
            r == EnPortCtrl::spec_from_bits(field_get(self.spec_bits(), 10, 0x1) as u8),
    {
        EnPortCtrl::from_bits(get_field(self.bits, 10, 0x1) as u8)
    }

    /// Enable BATFET control for dual port application.
    pub fn set_en_port_ctrl(&mut self, value: EnPortCtrl)
        ensures
            final(self).spec_bits() == field_set(
                old(self).spec_bits(),
                10,
                0x1,
                value.spec_into_bits() as u16,
            ),
            final(self).spec_bits() & !(0x1u16 << 10) == old(self).spec_bits() & !(0x1u16 << 10),
            EnPortCtrl::spec_from_bits(field_get(final(self).spec_bits(), 10, 0x1) as u8)
                == value,
    {
        proof {
            lemma_set_preserves_rest(self.bits, 10, 0x1, value.spec_into_bits() as u16);
            lemma_set_then_get_w1(self.bits, 10, value.spec_into_bits() as u16);
            value.lemma_code_roundtrip();
        }
        let code: u16 = value.into_bits() as u16;
        self.bits = set_field(self.bits, 10, 0x1, code);
    }

    /// Enable ICO Algorithm.
    pub fn en_ico_mode(&self) -> (r: EnIcoMode)
        ensures
            r == EnIcoMode::spec_from_bits(field_get(self.spec_bits(), 11, 0x1) as u8),
    {
        EnIcoMode::from_bits(get_field(self.bits, 11, 0x1) as u8)
    }

    /// Enable ICO Algorithm.
    pub fn set_en_ico_mode(&mut self, value: EnIcoMode)
        ensures
            final(self).spec_bits() == field_set(
                old(self).spec_bits(),
                11,
                0x1,
                value.spec_into_bits() as u16,
            ),
            final(self).spec_bits() & !(0x1u16 << 11) == old(self).spec_bits() & !(0x1u16 << 11),
            EnIcoMode::spec_from_bits(field_get(final(self).spec_bits(), 11, 0x1) as u8)
                == value,
    {
        proof {
            lemma_set_preserves_rest(self.bits, 11, 0x1, value.spec_into_bits() as u16);
            lemma_set_then_get_w1(self.bits, 11, value.spec_into_bits() as u16);
            value.lemma_code_roundtrip();
        }
        let code: u16 = value.into_bits() as u16;
        self.bits = set_field(self.bits, 11, 0x1, code);
    }

    /// OTG Mode Enable
    pub fn en_otg(&self) -> (r: EnOtg)
        ensures
            r == EnOtg::spec_from_bits(field_get(self.spec_bits(), 12, 0x1) as u8),
    {
        EnOtg::from_bits(get_field(self.bits, 12, 0x1) as u8)
    }

    /// OTG Mode Enable
    pub fn set_en_otg(&mut self, value: EnOtg)
        ensures
            final(self).spec_bits() == field_set(
                old(self).spec_bits(),
                12,
                0x1,
                value.spec_into_bits() as u16,
            ),
            final(self).spec_bits() & !(0x1u16 << 12) == old(self).spec_bits() & !(0x1u16 << 12),
            EnOtg::spec_from_bits(field_get(final(self).spec_bits(), 12, 0x1) as u8)
                == value,
    {
        proof {
            lemma_set_preserves_rest(self.bits, 12, 0x1, value.spec_into_bits() as u16);
            lemma_set_then_get_w1(self.bits, 12, value.spec_into_bits() as u16);
            value.lemma_code_roundtrip();
        }
        let code: u16 = value.into_bits() as u16;
        self.bits = set_field(self.bits, 12, 0x1, code);
    }

    /// Set VINDPM threshold based on VBUS measurement result minus
    pub fn detect_vindpm(&self) -> (r: DetectVinDpm)
        ensures
            r == DetectVinDpm::spec_from_bits(field_get(self.spec_bits(), 13, 0x1) as u8),
    {
        DetectVinDpm::from_bits(get_field(self.bits, 13, 0x1) as u8)
    }

    /// Set VINDPM threshold based on VBUS measurement result minus
    pub fn set_detect_vindpm(&mut self, value: DetectVinDpm)
        ensures
            final(self).spec_bits() == field_set(
                old(self).spec_bits(),
                13,
                0x1,
                value.spec_into_bits() as u16,
            ),
            final(self).spec_bits() & !(0x1u16 << 13) == old(self).spec_bits() & !(0x1u16 << 13),
            DetectVinDpm::spec_from_bits(field_get(final(self).spec_bits(), 13, 0x1) as u8)
                == value,
    {
        proof {
            lemma_set_preserves_rest(self.bits, 13, 0x1, value.spec_into_bits() as u16);
            lemma_set_then_get_w1(self.bits, 13, value.spec_into_bits() as u16);
            value.lemma_code_roundtrip();
        }
        let code: u16 = value.into_bits() as u16;
        self.bits = set_field(self.bits, 13, 0x1, code);
    }

    /// Reset Registers
    pub fn reg_reset(&self) -> (r: RegReset)
        ensures
            r == RegReset::spec_from_bits(field_get(self.spec_bits(), 14, 0x1) as u8),
    {
        RegReset::from_bits(get_field(self.bits, 14, 0x1) as u8)
    }

    /// Reset Registers
    pub fn set_reg_reset(&mut self, value: RegReset)
        ensures
            final(self).spec_bits() == field_set(
                old(self).spec_bits(),
                14,
                0x1,
                value.spec_into_bits() as u16,
            ),
            final(self).spec_bits() & !(0x1u16 << 14) == old(self).spec_bits() & !(0x1u16 << 14),
            RegReset::spec_from_bits(field_get(final(self).spec_bits(), 14, 0x1) as u8)
                == value,
    {
        proof {
            lemma_set_preserves_rest(self.bits, 14, 0x1, value.spec_into_bits() as u16);
            lemma_set_then_get_w1(self.bits, 14, value.spec_into_bits() as u16);
            value.lemma_code_roundtrip();
        }
        let code: u16 = value.into_bits() as u16;
        self.bits = set_field(self.bits, 14, 0x1, code);
    }

    /// Device Hi-Z Mode Enable
    pub fn en_hiz(&self) -> (r: EnHiZ)
        ensures
            r == EnHiZ::spec_from_bits(field_get(self.spec_bits(), 15, 0x1) as u8),
    {
        EnHiZ::from_bits(get_field(self.bits, 15, 0x1) as u8)
    }

    /// Device Hi-Z Mode Enable
    pub fn set_en_hiz(&mut self, value: EnHiZ)
        ensures
            final(self).spec_bits() == field_set(
                old(self).spec_bits(),
                15,
                0x1,
                value.spec_into_bits() as u16,
            ),
            final(self).spec_bits() & !(0x1u16 << 15) == old(self).spec_bits() & !(0x1u16 << 15),
            EnHiZ::spec_from_bits(field_get(final(self).spec_bits(), 15, 0x1) as u8)
                == value,
    {
        proof {
            lemma_set_preserves_rest(self.bits, 15, 0x1, value.spec_into_bits() as u16);
            lemma_set_then_get_w1(self.bits, 15, value.spec_into_bits() as u16);
            value.lemma_code_roundtrip();
        }
        let code: u16 = value.into_bits() as u16;
        self.bits = set_field(self.bits, 15, 0x1, code);
    }
}

/// 0b = PSYS as battery discharge power minus OTG output power.
#[derive(Clone, Copy, Debug, PartialEq, Eq)]
pub enum PsysOtgIdchg {
    BatteryMinusOtg,
    BatteryOnly,
}

impl PsysOtgIdchg {
    /// The chip-defined code of each variant.
    pub open spec fn spec_into_bits(self) -> u8 {
        match self {
            PsysOtgIdchg::BatteryMinusOtg => 0,
            PsysOtgIdchg::BatteryOnly => 1,
        }
    }

    /// The variant each code decodes to; total over all codes, undeclared
    /// codes falling back to the last declared variant in code order.
    pub open spec fn spec_from_bits(value: u8) -> Self {
        if value == 0 {
            PsysOtgIdchg::BatteryMinusOtg
        } else {
            PsysOtgIdchg::BatteryOnly
        }
    }

    pub fn into_bits(self) -> (r: u8)
        ensures
            r == self.spec_into_bits(),
    {
        match self {
            PsysOtgIdchg::BatteryMinusOtg => 0,
            PsysOtgIdchg::BatteryOnly => 1,
        }
    }

    pub fn from_bits(value: u8) -> (r: Self)
        ensures
            r == Self::spec_from_bits(value),
    {
        match value {
            0 => PsysOtgIdchg::BatteryMinusOtg,
            _ => PsysOtgIdchg::BatteryOnly,
        }
    }

    /// Decoding the code of a variant yields that variant back.
    pub proof fn lemma_code_roundtrip(self)
        ensures
            Self::spec_from_bits(self.spec_into_bits()) == self,
    {
    }
}

/// Turn off BATFET during HIZ mode.
#[derive(Clone, Copy, Debug, PartialEq, Eq)]
pub enum BatFetOffHiZ {
    Off,
    On,
}

impl BatFetOffHiZ {
    /// The chip-defined code of each variant.
    pub open spec fn spec_into_bits(self) -> u8 {
        match self {
            BatFetOffHiZ::Off => 0,
            BatFetOffHiZ::On => 1,
        }
    }

    /// The variant each code decodes to; total over all codes, undeclared
    /// codes falling back to the last declared variant in code order.
    pub open spec fn spec_from_bits(value: u8) -> Self {
        if value == 0 {
            BatFetOffHiZ::Off
        } else {
            BatFetOffHiZ::On
        }
    }

    pub fn into_bits(self) -> (r: u8)
        ensures
            r == self.spec_into_bits(),
    {
        match self {
            BatFetOffHiZ::Off => 0,
            BatFetOffHiZ::On => 1,
        }
    }

    pub fn from_bits(value: u8) -> (r: Self)
        ensures
            r == Self::spec_from_bits(value),
    {
        match value {
            0 => BatFetOffHiZ::Off,
            _ => BatFetOffHiZ::On,
        }
    }

    /// Decoding the code of a variant yields that variant back.
    pub proof fn lemma_code_roundtrip(self)
        ensures
            Self::spec_from_bits(self.spec_into_bits()) == self,
    {
    }
}

/// Enable Independent Comparator with effective low.
#[derive(Clone, Copy, Debug, PartialEq, Eq)]
pub enum CmpEn {
    Disable,
    Enable,
}

impl CmpEn {
    /// The chip-defined code of each variant.
    pub open spec fn spec_into_bits(self) -> u8 {
        match self {
            CmpEn::Disable => 0,
            CmpEn::Enable => 1,
        }
    }

    /// The variant each code decodes to; total over all codes, undeclared
    /// codes falling back to the last declared variant in code order.
    pub open spec fn spec_from_bits(value: u8) -> Self {
        if value == 0 {
            CmpEn::Disable
        } else {
            CmpEn::Enable
        }
    }

    pub fn into_bits(self) -> (r: u8)
        ensures
            r == self.spec_into_bits(),
    {
        match self {
            CmpEn::Disable => 0,
            CmpEn::Enable => 1,
        }
    }

    pub fn from_bits(value: u8) -> (r: Self)
        ensures
            r == Self::spec_from_bits(value),
    {
        match value {
            0 => CmpEn::Disable,
            _ => CmpEn::Enable,
        }
    }

    /// Decoding the code of a variant yields that variant back.
    pub proof fn lemma_code_roundtrip(self)
        ensures
            Self::spec_from_bits(self.spec_into_bits()) == self,
    {
    }
}

/// 4 levels inductor average current clamp.
#[derive(Clone, Copy, Debug, PartialEq, Eq)]
pub enum IlAvg {
    Limit10A,
    Limit18A,
    Limit24A,
    Disable,
}

impl IlAvg {
    /// The chip-defined code of each variant.
    pub open spec fn spec_into_bits(self) -> u8 {
        match self {
            IlAvg::Limit10A => 0,
            IlAvg::Limit18A => 1,
            IlAvg::Limit24A => 2,
            IlAvg::Disable => 3,
        }
    }

    /// The variant each code decodes to; total over all codes, undeclared
    /// codes falling back to the last declared variant in code order.
    pub open spec fn spec_from_bits(value: u8) -> Self {
        if value == 0 {
            IlAvg::Limit10A
        } else if value == 1 {
            IlAvg::Limit18A
        } else if value == 2 {
            IlAvg::Limit24A
        } else {
            IlAvg::Disable
        }
    }

    pub fn into_bits(self) -> (r: u8)
        ensures
            r == self.spec_into_bits(),
    {
        match self {
            IlAvg::Limit10A => 0,
            IlAvg::Limit18A => 1,
            IlAvg::Limit24A => 2,
            IlAvg::Disable => 3,
        }
    }

    pub fn from_bits(value: u8) -> (r: Self)
        ensures
            r == Self::spec_from_bits(value),
    {
        match value {
            0 => IlAvg::Limit10A,
            1 => IlAvg::Limit18A,
            2 => IlAvg::Limit24A,
            _ => IlAvg::Disable,
        }
    }

    /// Decoding the code of a variant yields that variant back.
    pub proof fn lemma_code_roundtrip(self)
        ensures
            Self::spec_from_bits(self.spec_into_bits()) == self,
    {
    }
}

/// The selection of the external EN_OTG pin control.
#[derive(Clone, Copy, Debug, PartialEq, Eq)]
pub enum OtgVapMode {
    VapMode,
    OtgMode,
}

impl OtgVapMode {
    /// The chip-defined code of each variant.
    pub open spec fn spec_into_bits(self) -> u8 {
        match self {
            OtgVapMode::VapMode => 0,
            OtgVapMode::OtgMode => 1,
        }
    }

    /// The variant each code decodes to; total over all codes, undeclared
    /// codes falling back to the last declared variant in code order.
    pub open spec fn spec_from_bits(value: u8) -> Self {
        if value == 0 {
            OtgVapMode::VapMode
        } else {
            OtgVapMode::OtgMode
        }
    }

    pub fn into_bits(self) -> (r: u8)
        ensures
            r == self.spec_into_bits(),
    {
        match self {
            OtgVapMode::VapMode => 0,
            OtgVapMode::OtgMode => 1,
        }
    }

    pub fn from_bits(value: u8) -> (r: Self)
        ensures
            r == Self::spec_from_bits(value),
    {
        match value {
            0 => OtgVapMode::VapMode,
            _ => OtgVapMode::OtgMode,
        }
    }

    /// Decoding the code of a variant yields that variant back.
    pub proof fn lemma_code_roundtrip(self)
        ensures
            Self::spec_from_bits(self.spec_into_bits()) == self,
    {
    }
}

/// Turn off BATFET under battery only low power mode. When not in.
#[derive(Clone, Copy, Debug, PartialEq, Eq)]
pub enum BatFetEnZ {
    NoForceOff,
    ForceOff,
}

impl BatFetEnZ {
    /// The chip-defined code of each variant.
    pub open spec fn spec_into_bits(self) -> u8 {
        match self {
            BatFetEnZ::NoForceOff => 0,
            BatFetEnZ::ForceOff => 1,
        }
    }

    /// The variant each code decodes to; total over all codes, undeclared
    /// codes falling back to the last declared variant in code order.
    pub open spec fn spec_from_bits(value: u8) -> Self {
        if value == 0 {
            BatFetEnZ::NoForceOff
        } else {
            BatFetEnZ::ForceOff
        }
    }

    pub fn into_bits(self) -> (r: u8)
        ensures
            r == self.spec_into_bits(),
    {
        match self {
            BatFetEnZ::NoForceOff => 0,
            BatFetEnZ::ForceOff => 1,
        }
    }

    pub fn from_bits(value: u8) -> (r: Self)
        ensures
            r == Self::spec_from_bits(value),
    {
        match value {
            0 => BatFetEnZ::NoForceOff,
            _ => BatFetEnZ::ForceOff,
        }
    }

    /// Decoding the code of a variant yields that variant back.
    pub proof fn lemma_code_roundtrip(self)
        ensures
            Self::spec_from_bits(self.spec_into_bits()) == self,
    {
    }
}

/// VSYS_MIN soft slew rate control for VSYS_MIN step up.
#[derive(Clone, Copy, Debug, PartialEq, Eq)]
pub enum EnVsysMinSoftSr {
    Disable,
    SlewRate6_25,
    SlewRate3_125,
    SlewRate1_5625,
}

impl EnVsysMinSoftSr {
    /// The chip-defined code of each variant.
    pub open spec fn spec_into_bits(self) -> u8 {
        match self {
            EnVsysMinSoftSr::Disable => 0,
            EnVsysMinSoftSr::SlewRate6_25 => 1,
            EnVsysMinSoftSr::SlewRate3_125 => 2,
            EnVsysMinSoftSr::SlewRate1_5625 => 3,
        }
    }

    /// The variant each code decodes to; total over all codes, undeclared
    /// codes falling back to the last declared variant in code order.
    pub open spec fn spec_from_bits(value: u8) -> Self {
        if value == 0 {
            EnVsysMinSoftSr::Disable
        } else if value == 1 {
            EnVsysMinSoftSr::SlewRate6_25
        } else if value == 2 {
            EnVsysMinSoftSr::SlewRate3_125
        } else {
            EnVsysMinSoftSr::SlewRate1_5625
        }
    }

    pub fn into_bits(self) -> (r: u8)
        ensures
            r == self.spec_into_bits(),
    {
        match self {
            EnVsysMinSoftSr::Disable => 0,
            EnVsysMinSoftSr::SlewRate6_25 => 1,
            EnVsysMinSoftSr::SlewRate3_125 => 2,
            EnVsysMinSoftSr::SlewRate1_5625 => 3,
        }
    }

    pub fn from_bits(value: u8) -> (r: Self)
        ensures
            r == Self::spec_from_bits(value),
    {
        match value {
            0 => EnVsysMinSoftSr::Disable,
            1 => EnVsysMinSoftSr::SlewRate6_25,
            2 => EnVsysMinSoftSr::SlewRate3_125,
            _ => EnVsysMinSoftSr::SlewRate1_5625,
        }
    }

    /// Decoding the code of a variant yields that variant back.
    pub proof fn lemma_code_roundtrip(self)
        ensures
            Self::spec_from_bits(self.spec_into_bits()) == self,
    {
    }
}

/// Enable BATFET control for dual port application.
#[derive(Clone, Copy, Debug, PartialEq, Eq)]
pub enum EnPortCtrl {
    Disable,
    Enable,
}

impl EnPortCtrl {
    /// The chip-defined code of each variant.
    pub open spec fn spec_into_bits(self) -> u8 {
        match self {
            EnPortCtrl::Disable => 0,
            EnPortCtrl::Enable => 1,
        }
    }

    /// The variant each code decodes to; total over all codes, undeclared
    /// codes falling back to the last declared variant in code order.
    pub open spec fn spec_from_bits(value: u8) -> Self {
        if value == 0 {
            EnPortCtrl::Disable
        } else {
            EnPortCtrl::Enable
        }
    }

    pub fn into_bits(self) -> (r: u8)
        ensures
            r == self.spec_into_bits(),
    {
        match self {
            EnPortCtrl::Disable => 0,
            EnPortCtrl::Enable => 1,
        }
    }

    pub fn from_bits(value: u8) -> (r: Self)
        ensures
            r == Self::spec_from_bits(value),
    {
        match value {
            0 => EnPortCtrl::Disable,
            _ => EnPortCtrl::Enable,
        }
    }

    /// Decoding the code of a variant yields that variant back.
    pub proof fn lemma_code_roundtrip(self)
        ensures
            Self::spec_from_bits(self.spec_into_bits()) == self,
    {
    }
}

/// Enable ICO Algorithm.
#[derive(Clone, Copy, Debug, PartialEq, Eq)]
pub enum EnIcoMode {
    Disable,
    Enable,
}

impl EnIcoMode {
    /// The chip-defined code of each variant.
    pub open spec fn spec_into_bits(self) -> u8 {
        match self {
            EnIcoMode::Disable => 0,
            EnIcoMode::Enable => 1,
        }
    }

    /// The variant each code decodes to; total over all codes, undeclared
    /// codes falling back to the last declared variant in code order.
    pub open spec fn spec_from_bits(value: u8) -> Self {
        if value == 0 {
            EnIcoMode::Disable
        } else {
            EnIcoMode::Enable
        }
    }

    pub fn into_bits(self) -> (r: u8)
        ensures
            r == self.spec_into_bits(),
    {
        match self {
            EnIcoMode::Disable => 0,
            EnIcoMode::Enable => 1,
        }
    }

    pub fn from_bits(value: u8) -> (r: Self)
        ensures
            r == Self::spec_from_bits(value),
    {
        match value {
            0 => EnIcoMode::Disable,
            _ => EnIcoMode::Enable,
        }
    }

    /// Decoding the code of a variant yields that variant back.
    pub proof fn lemma_code_roundtrip(self)
        ensures
            Self::spec_from_bits(self.spec_into_bits()) == self,
    {
    }
}

/// OTG Mode Enable.
#[derive(Clone, Copy, Debug, PartialEq, Eq)]
pub enum EnOtg {
    Disable,
    Enable,
}

impl EnOtg {
    /// The chip-defined code of each variant.
    pub open spec fn spec_into_bits(self) -> u8 {
        match self {
            EnOtg::Disable => 0,
            EnOtg::Enable => 1,
        }
    }

    /// The variant each code decodes to; total over all codes, undeclared
    /// codes falling back to the last declared variant in code order.
    pub open spec fn spec_from_bits(value: u8) -> Self {
        if value == 0 {
            EnOtg::Disable
        } else {
            EnOtg::Enable
        }
    }

    pub fn into_bits(self) -> (r: u8)
        ensures
            r == self.spec_into_bits(),
    {
        match self {
            EnOtg::Disable => 0,
            EnOtg::Enable => 1,
        }
    }

    pub fn from_bits(value: u8) -> (r: Self)
        ensures
            r == Self::spec_from_bits(value),
    {
        match value {
            0 => EnOtg::Disable,
            _ => EnOtg::Enable,
        }
    }

    /// Decoding the code of a variant yields that variant back.
    pub proof fn lemma_code_roundtrip(self)
        ensures
            Self::spec_from_bits(self.spec_into_bits()) == self,
    {
    }
}

/// Set VINDPM threshold based on VBUS measurement result minus.
#[derive(Clone, Copy, Debug, PartialEq, Eq)]
pub enum DetectVinDpm {
    Idle,
    Measure,
}

impl DetectVinDpm {
    /// The chip-defined code of each variant.
    pub open spec fn spec_into_bits(self) -> u8 {
        match self {
            DetectVinDpm::Idle => 0,
            DetectVinDpm::Measure => 1,
        }
    }

    /// The variant each code decodes to; total over all codes, undeclared
    /// codes falling back to the last declared variant in code order.
    pub open spec fn spec_from_bits(value: u8) -> Self {
        if value == 0 {
            DetectVinDpm::Idle
        } else {
            DetectVinDpm::Measure
        }
    }

    pub fn into_bits(self) -> (r: u8)
        ensures
            r == self.spec_into_bits(),
    {
        match self {
            DetectVinDpm::Idle => 0,
            DetectVinDpm::Measure => 1,
        }
    }

    pub fn from_bits(value: u8) -> (r: Self)
        ensures
            r == Self::spec_from_bits(value),
    {
        match value {
            0 => DetectVinDpm::Idle,
            _ => DetectVinDpm::Measure,
        }
    }

    /// Decoding the code of a variant yields that variant back.
    pub proof fn lemma_code_roundtrip(self)
        ensures
            Self::spec_from_bits(self.spec_into_bits()) == self,
    {
    }
}

/// Device Hi-Z Mode Enable.
#[derive(Clone, Copy, Debug, PartialEq, Eq)]
pub enum EnHiZ {
    Disable,
    Enable,
}

impl EnHiZ {
    /// The chip-defined code of each variant.
    pub open spec fn spec_into_bits(self) -> u8 {
        match self {
            EnHiZ::Disable => 0,
            EnHiZ::Enable => 1,
        }
    }

    /// The variant each code decodes to; total over all codes, undeclared
    /// codes falling back to the last declared variant in code order.
    pub open spec fn spec_from_bits(value: u8) -> Self {
        if value == 0 {
            EnHiZ::Disable
        } else {
            EnHiZ::Enable
        }
    }

    pub fn into_bits(self) -> (r: u8)
        ensures
            r == self.spec_into_bits(),
    {
        match self {
            EnHiZ::Disable => 0,
            EnHiZ::Enable => 1,
        }
    }

    pub fn from_bits(value: u8) -> (r: Self)
        ensures
            r == Self::spec_from_bits(value),
    {
        match value {
            0 => EnHiZ::Disable,
            _ => EnHiZ::Enable,
        }
    }

    /// Decoding the code of a variant yields that variant back.
    pub proof fn lemma_code_roundtrip(self)
        ensures
            Self::spec_from_bits(self.spec_into_bits()) == self,
    {
    }
}

} // verus!
