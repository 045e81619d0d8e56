//! Charge Option 0 Register.

use vstd::prelude::*;

use crate::bits::field_get;
use crate::bits::field_set;
use crate::bits::get_field;
use crate::bits::lemma_set_preserves_rest;
use crate::bits::lemma_set_then_get_w1;
use crate::bits::lemma_set_then_get_w2;
use crate::bits::set_field;
use crate::registers::Register;
use crate::registers::WdTmrAdj;

verus! {

/// Charge Option 0 Register: raw 16-bit value at bus address 0x12.
#[derive(Clone, Copy, Debug, PartialEq, Eq)]
pub struct ChargeOption0 {
    bits: u16,
}

impl Register for ChargeOption0 {
    closed spec fn spec_bits(self) -> u16 {
        self.bits
    }

    open spec fn spec_addr() -> u8 {
        0x12
    }

    closed spec fn spec_of_bits(bits: u16) -> Self {
        ChargeOption0 { bits }
    }

    fn from_bits(bits: u16) -> (r: Self) {
        ChargeOption0 { bits }
    }

    fn into_bits(self) -> (r: u16) {
        self.bits
    }

    fn addr() -> (r: u8) {
        0x12
    }

    proof fn lemma_encode_decode(bits: u16) {
    }

    proof fn lemma_decode_encode(self) {
    }
}

impl ChargeOption0 {
    /// The raw value the register holds immediately after device power-up.
    pub fn new() -> (r: Self)
        ensures
            r.spec_bits() == 0xe70e,
    {
        ChargeOption0 { bits: 0xe70e }
    }

    /// Charge Inhibit
    pub fn chrg_inhibit(&self) -> (r: ChargeInhibit)
        ensures
            r == ChargeInhibit::spec_from_bits(field_get(self.spec_bits(), 0, 0x1) as u8),
    {
        ChargeInhibit::from_bits(get_field(self.bits, 0, 0x1) as u8)
    }

    /// Charge Inhibit
    pub fn set_chrg_inhibit(&mut self, value: ChargeInhibit)
        ensures
            final(self).spec_bits() == field_set(
                old(self).spec_bits(),
                0,
                0x1,
                value.spec_into_bits() as u16,
            ),
            final(self).spec_bits() & !(0x1u16 << 0) == old(self).spec_bits() & !(0x1u16 << 0),
            ChargeInhibit::spec_from_bits(field_get(final(self).spec_bits(), 0, 0x1) as u8)
                == value,
    {
        proof {
            lemma_set_preserves_rest(self.bits, 0, 0x1, value.spec_into_bits() as u16);
            lemma_set_then_get_w1(self.bits, 0, value.spec_into_bits() as u16);
            value.lemma_code_roundtrip();
        }
        let code: u16 = value.into_bits() as u16;
        self.bits = set_field(self.bits, 0, 0x1, code);
    }

    /// IIN_DPM Enable
    pub fn iin_dpm_enable(&self) -> (r: IinDpmEnable)
        ensures
            r == IinDpmEnable::spec_from_bits(field_get(self.spec_bits(), 1, 0x1) as u8),
    {
        IinDpmEnable::from_bits(get_field(self.bits, 1, 0x1) as u8)
    }

    /// IIN_DPM Enable
    pub fn set_iin_dpm_enable(&mut self, value: IinDpmEnable)
        ensures
            final(self).spec_bits() == field_set(
                old(self).spec_bits(),
                1,
                0x1,
                value.spec_into_bits() as u16,
            ),
            final(self).spec_bits() & !(0x1u16 << 1) == old(self).spec_bits() & !(0x1u16 << 1),
            IinDpmEnable::spec_from_bits(field_get(final(self).spec_bits(), 1, 0x1) as u8)
                == value,
    {
        proof {
            lemma_set_preserves_rest(self.bits, 1, 0x1, value.spec_into_bits() as u16);
            lemma_set_then_get_w1(self.bits, 1, value.spec_into_bits() as u16);
            value.lemma_code_roundtrip();
        }
        let code: u16 = value.into_bits() as u16;
        self.bits = set_field(self.bits, 1, 0x1, code);
    }

    /// LDO Mode Enable
    pub fn en_ldo(&self) -> (r: LdoModeEnable)
        ensures
            r == LdoModeEnable::spec_from_bits(field_get(self.spec_bits(), 2, 0x1) as u8),
    {
        LdoModeEnable::from_bits(get_field(self.bits, 2, 0x1) as u8)
    }

    /// LDO Mode Enable
    pub fn set_en_ldo(&mut self, value: LdoModeEnable)
        ensures
            final(self).spec_bits() == field_set(
                old(self).spec_bits(),
                2,
                0x1,
                value.spec_into_bits() as u16,
            ),
            final(self).spec_bits() & !(0x1u16 << 2) == old(self).spec_bits() & !(0x1u16 << 2),
            LdoModeEnable::spec_from_bits(field_get(final(self).spec_bits(), 2, 0x1) as u8)
                == value,
    {
        proof {
            lemma_set_preserves_rest(self.bits, 2, 0x1, value.spec_into_bits() as u16);
            lemma_set_then_get_w1(self.bits, 2, value.spec_into_bits() as u16);
            value.lemma_code_roundtrip();
        }
        let code: u16 = value.into_bits() as u16;
        self.bits = set_field(self.bits, 2, 0x1, code);
    }

    /// IBAT Amplifier Ratio
    pub fn ibat_gain(&self) -> (r: IbatAmplifierRatio)
        ensures
            r == IbatAmplifierRatio::spec_from_bits(field_get(self.spec_bits(), 3, 0x1) as u8),
    {
        IbatAmplifierRatio::from_bits(get_field(self.bits, 3, 0x1) as u8)
    }

    /// IBAT Amplifier Ratio
    pub fn set_ibat_gain(&mut self, value: IbatAmplifierRatio)
        ensures
            final(self).spec_bits() == field_set(
                old(self).spec_bits(),
                3,
                0x1,
                value.spec_into_bits() as u16,
            ),
            final(self).spec_bits() & !(0x1u16 << 3) == old(self).spec_bits() & !(0x1u16 << 3),
            IbatAmplifierRatio::spec_from_bits(field_get(final(self).spec_bits(), 3, 0x1) as u8)
                == value,
    {
        proof {
            lemma_set_preserves_rest(self.bits, 3, 0x1, value.spec_into_bits() as u16);
            lemma_set_then_get_w1(self.bits, 3, value.spec_into_bits() as u16);
            value.lemma_code_roundtrip();
        }
        let code: u16 = value.into_bits() as u16;
        self.bits = set_field(self.bits, 3, 0x1, code);
    }

    /// IADPT Amplifier Ratio
    pub fn iadpt_gain(&self) -> (r: IadptAmplifierRatio)
        ensures
            r == IadptAmplifierRatio::spec_from_bits(field_get(self.spec_bits(), 4, 0x1) as u8),
    {
        IadptAmplifierRatio::from_bits(get_field(self.bits, 4, 0x1) as u8)
    }

    /// IADPT Amplifier Ratio
    pub fn set_iadpt_gain(&mut self, value: IadptAmplifierRatio)
        ensures
            final(self).spec_bits() == field_set(
                old(self).spec_bits(),
                4,
                0x1,
                value.spec_into_bits() as u16,
            ),
            final(self).spec_bits() & !(0x1u16 << 4) == old(self).spec_bits() & !(0x1u16 << 4),
            IadptAmplifierRatio::spec_from_bits(field_get(final(self).spec_bits(), 4, 0x1) as u8)
                == value,
    {
        proof {
            lemma_set_preserves_rest(self.bits, 4, 0x1, value.spec_into_bits() as u16);
            lemma_set_then_get_w1(self.bits, 4, value.spec_into_bits() as u16);
            value.lemma_code_roundtrip();
        }
        let code: u16 = value.into_bits() as u16;
        self.bits = set_field(self.bits, 4, 0x1, code);
    }

    /// LEARN mode function enable
    pub fn en_learn(&self) -> (r: Learn)
        ensures
            r == Learn::spec_from_bits(field_get(self.spec_bits(), 5, 0x1) as u8),
    {
        Learn::from_bits(get_field(self.bits, 5, 0x1) as u8)
    }

    /// LEARN mode function enable
    pub fn set_en_learn(&mut self, value: Learn)
        ensures
            final(self).spec_bits() == field_set(
                old(self).spec_bits(),
                5,
                0x1,
                value.spec_into_bits() as u16,
            ),
            final(self).spec_bits() & !(0x1u16 << 5) == old(self).spec_bits() & !(0x1u16 << 5),
            Learn::spec_from_bits(field_get(final(self).spec_bits(), 5, 0x1) as u8)
                == value,
    {
        proof {
            lemma_set_preserves_rest(self.bits, 5, 0x1, value.spec_into_bits() as u16);
            lemma_set_then_get_w1(self.bits, 5, value.spec_into_bits() as u16);
            value.lemma_code_roundtrip();
        }
        let code: u16 = value.into_bits() as u16;
        self.bits = set_field(self.bits, 5, 0x1, code);
    }

    /// Enable system under voltage protection.
    pub fn vsys_uvp_enz(&self) -> (r: SystemUVP)
        ensures
            r == SystemUVP::spec_from_bits(field_get(self.spec_bits(), 6, 0x1) as u8),
    {
        SystemUVP::from_bits(get_field(self.bits, 6, 0x1) as u8)
    }

    /// Enable system under voltage protection.
    pub fn set_vsys_uvp_enz(&mut self, value: SystemUVP)
        ensures
            final(self).spec_bits() == field_set(
                old(self).spec_bits(),
                6,
                0x1,
                value.spec_into_bits() as u16,
            ),
            final(self).spec_bits() & !(0x1u16 << 6) == old(self).spec_bits() & !(0x1u16 << 6),
            SystemUVP::spec_from_bits(field_get(final(self).spec_bits(), 6, 0x1) as u8)
                == value,
    {
        proof {
            lemma_set_preserves_rest(self.bits, 6, 0x1, value.spec_into_bits() as u16);
            lemma_set_then_get_w1(self.bits, 6, value.spec_into_bits() as u16);
            value.lemma_code_roundtrip();
        }
        let code: u16 = value.into_bits() as u16;
        self.bits = set_field(self.bits, 6, 0x1, code);
    }

    /// Enable Latch of Independent Comparator. Comparator output with
    pub fn en_cmp_latch(&self) -> (r: CmpLatch)
        ensures
            r == CmpLatch::spec_from_bits(field_get(self.spec_bits(), 7, 0x1) as u8),
    {
        CmpLatch::from_bits(get_field(self.bits, 7, 0x1) as u8)
    }

    /// Enable Latch of Independent Comparator. Comparator output with
    pub fn set_en_cmp_latch(&mut self, value: CmpLatch)
        ensures
            final(self).spec_bits() == field_set(
                old(self).spec_bits(),
                7,
                0x1,
                value.spec_into_bits() as u16,
            ),
            final(self).spec_bits() & !(0x1u16 << 7) == old(self).spec_bits() & !(0x1u16 << 7),
            CmpLatch::spec_from_bits(field_get(final(self).spec_bits(), 7, 0x1) as u8)
                == value,
    {
        proof {
            lemma_set_preserves_rest(self.bits, 7, 0x1, value.spec_into_bits() as u16);
            lemma_set_then_get_w1(self.bits, 7, value.spec_into_bits() as u16);
            value.lemma_code_roundtrip();
        }
        let code: u16 = value.into_bits() as u16;
        self.bits = set_field(self.bits, 7, 0x1, code);
    }

    /// Enable battery over voltage protection
    pub fn en_batovp(&self) -> (r: BatteryOVP)
        ensures
            r == BatteryOVP::spec_from_bits(field_get(self.spec_bits(), 8, 0x1) as u8),
    {
        BatteryOVP::from_bits(get_field(self.bits, 8, 0x1) as u8)
    }

    /// Enable battery over voltage protection
    pub fn set_en_batovp(&mut self, value: BatteryOVP)
        ensures
            final(self).spec_bits() == field_set(
                old(self).spec_bits(),
                8,
                0x1,
                value.spec_into_bits() as u16,
            ),
            final(self).spec_bits() & !(0x1u16 << 8) == old(self).spec_bits() & !(0x1u16 << 8),
            BatteryOVP::spec_from_bits(field_get(final(self).spec_bits(), 8, 0x1) as u8)
                == value,
    {
        proof {
            lemma_set_preserves_rest(self.bits, 8, 0x1, value.spec_into_bits() as u16);
            lemma_set_then_get_w1(self.bits, 8, value.spec_into_bits() as u16);
            value.lemma_code_roundtrip();
        }
        let code: u16 = value.into_bits() as u16;
        self.bits = set_field(self.bits, 8, 0x1, code);
    }

    /// Switching Frequency Selection
    pub fn pwm_freq(&self) -> (r: PwmFrequency)
        ensures
            r == PwmFrequency::spec_from_bits(field_get(self.spec_bits(), 9, 0x1) as u8),
    {
        PwmFrequency::from_bits(get_field(self.bits, 9, 0x1) as u8)
    }

    /// Switching Frequency Selection
    pub fn set_pwm_freq(&mut self, value: PwmFrequency)
        ensures
            final(self).spec_bits() == field_set(
                old(self).spec_bits(),
                9,
                0x1,
                value.spec_into_bits() as u16,
            ),
            final(self).spec_bits() & !(0x1u16 << 9) == old(self).spec_bits() & !(0x1u16 << 9),
            PwmFrequency::spec_from_bits(field_get(final(self).spec_bits(), 9, 0x1) as u8)
                == value,
    {
        proof {
            lemma_set_preserves_rest(self.bits, 9, 0x1, value.spec_into_bits() as u16);
            lemma_set_then_get_w1(self.bits, 9, value.spec_into_bits() as u16);
            value.lemma_code_roundtrip();
        }
        let code: u16 = value.into_bits() as u16;
        self.bits = set_field(self.bits, 9, 0x1, code);
    }

    /// Out-of-Audio Enable
    pub fn en_ooa(&self) -> (r: OutOfAudio)
        ensures
            r == OutOfAudio::spec_from_bits(field_get(self.spec_bits(), 10, 0x1) as u8),
    {
        OutOfAudio::from_bits(get_field(self.bits, 10, 0x1) as u8)
    }

    /// Out-of-Audio Enable
    pub fn set_en_ooa(&mut self, value: OutOfAudio)
        ensures
            final(self).spec_bits() == field_set(
                old(self).spec_bits(),
                10,
                0x1,
                value.spec_into_bits() as u16,
            ),
            final(self).spec_bits() & !(0x1u16 << 10) == old(self).spec_bits() & !(0x1u16 << 10),
            OutOfAudio::spec_from_bits(field_get(final(self).spec_bits(), 10, 0x1) as u8)
                == value,
    {
        proof {
            lemma_set_preserves_rest(self.bits, 10, 0x1, value.spec_into_bits() as u16);
            lemma_set_then_get_w1(self.bits, 10, value.spec_into_bits() as u16);
            value.lemma_code_roundtrip();
        }
        let code: u16 = value.into_bits() as u16;
        self.bits = set_field(self.bits, 10, 0x1, code);
    }

    /// Add OTG to CHRG_OK
    pub fn otg_on_chrgok(&self) -> (r: OtgChrgOk)
        ensures
            r == OtgChrgOk::spec_from_bits(field_get(self.spec_bits(), 11, 0x1) as u8),
    {
        OtgChrgOk::from_bits(get_field(self.bits, 11, 0x1) as u8)
    }

    /// Add OTG to CHRG_OK
    pub fn set_otg_on_chrgok(&mut self, value: OtgChrgOk)
        ensures
            final(self).spec_bits() == field_set(
                old(self).spec_bits(),
                11,
                0x1,
                value.spec_into_bits() as u16,
            ),
            final(self).spec_bits() & !(0x1u16 << 11) == old(self).spec_bits() & !(0x1u16 << 11),
            OtgChrgOk::spec_from_bits(field_get(final(self).spec_bits(), 11, 0x1) as u8)
                == value,
    {
        proof {
            lemma_set_preserves_rest(self.bits, 11, 0x1, value.spec_into_bits() as u16);
            lemma_set_then_get_w1(self.bits, 11, value.spec_into_bits() as u16);
            value.lemma_code_roundtrip();
        }
        let code: u16 = value.into_bits() as u16;
        self.bits = set_field(self.bits, 11, 0x1, code);
    }

    /// IIN_DPM Auto Disable
    pub fn iin_dpm_auto_disable(&self) -> (r: IinDpmAutoDisable)
        ensures
            r == IinDpmAutoDisable::spec_from_bits(field_get(self.spec_bits(), 12, 0x1) as u8),
    {
        IinDpmAutoDisable::from_bits(get_field(self.bits, 12, 0x1) as u8)
    }

    /// IIN_DPM Auto Disable
    pub fn set_iin_dpm_auto_disable(&mut self, value: IinDpmAutoDisable)
        ensures
            final(self).spec_bits() == field_set(
                old(self).spec_bits(),
                12,
                0x1,
                value.spec_into_bits() as u16,
            ),
            final(self).spec_bits() & !(0x1u16 << 12) == old(self).spec_bits() & !(0x1u16 << 12),
            IinDpmAutoDisable::spec_from_bits(field_get(final(self).spec_bits(), 12, 0x1) as u8)
                == value,
    {
        proof {
            lemma_set_preserves_rest(self.bits, 12, 0x1, value.spec_into_bits() as u16);
            lemma_set_then_get_w1(self.bits, 12, value.spec_into_bits() as u16);
            value.lemma_code_roundtrip();
        }
        let code: u16 = value.into_bits() as u16;
        self.bits = set_field(self.bits, 12, 0x1, code);
    }

    /// WATCHDOG Timer Adjust
    pub fn wdtmr_adj(&self) -> (r: WdTmrAdj)
        ensures
            r == WdTmrAdj::spec_from_bits(field_get(self.spec_bits(), 13, 0x3) as u8),
    {
        WdTmrAdj::from_bits(get_field(self.bits, 13, 0x3) as u8)
    }

    /// WATCHDOG Timer Adjust
    pub fn set_wdtmr_adj(&mut self, value: WdTmrAdj)
        ensures
            final(self).spec_bits() == field_set(
                old(self).spec_bits(),
                13,
                0x3,
                value.spec_into_bits() as u16,
            ),
            final(self).spec_bits() & !(0x3u16 << 13) == old(self).spec_bits() & !(0x3u16 << 13),
            WdTmrAdj::spec_from_bits(field_get(final(self).spec_bits(), 13, 0x3) as u8)
                == value,
    {
        proof {
            lemma_set_preserves_rest(self.bits, 13, 0x3, value.spec_into_bits() as u16);
            lemma_set_then_get_w2(self.bits, 13, value.spec_into_bits() as u16);
            value.lemma_code_roundtrip();
        }
        let code: u16 = value.into_bits() as u16;
        self.bits = set_field(self.bits, 13, 0x3, code);
    }

    /// Low Power Mode enable
    pub fn en_lwpwr(&self) -> (r: LowPwrMode)
        ensures
            r == LowPwrMode::spec_from_bits(field_get(self.spec_bits(), 15, 0x1) as u8),
    {
        LowPwrMode::from_bits(get_field(self.bits, 15, 0x1) as u8)
    }

    /// Low Power Mode enable
    pub fn set_en_lwpwr(&mut self, value: LowPwrMode)
        ensures
            final(self).spec_bits() == field_set(
                old(self).spec_bits(),
                15,
                0x1,
                value.spec_into_bits() as u16,
            ),
            final(self).spec_bits() & !(0x1u16 << 15) == old(self).spec_bits() & !(0x1u16 << 15),
            LowPwrMode::spec_from_bits(field_get(final(self).spec_bits(), 15, 0x1) as u8)
                == value,
    {
        proof {
            lemma_set_preserves_rest(self.bits, 15, 0x1, value.spec_into_bits() as u16);
            lemma_set_then_get_w1(self.bits, 15, value.spec_into_bits() as u16);
            value.lemma_code_roundtrip();
        }
        let code: u16 = value.into_bits() as u16;
        self.bits = set_field(self.bits, 15, 0x1, code);
    }
}

/// Charge Inhibit.
#[derive(Clone, Copy, Debug, PartialEq, Eq)]
pub enum ChargeInhibit {
    Enable,
    Disable,
}

impl ChargeInhibit {
    /// The chip-defined code of each variant.
    pub open spec fn spec_into_bits(self) -> u8 {
        match self {
            ChargeInhibit::Enable => 0,
            ChargeInhibit::Disable => 1,
        }
    }

    /// The variant each code decodes to; total over all codes, undeclared
    /// codes falling back to the last declared variant in code order.
    pub open spec fn spec_from_bits(value: u8) -> Self {
        if value == 1 {
            ChargeInhibit::Disable
        } else {
            ChargeInhibit::Enable
        }
    }

    pub fn into_bits(self) -> (r: u8)
        ensures
            r == self.spec_into_bits(),
    {
        match self {
            ChargeInhibit::Enable => 0,
            ChargeInhibit::Disable => 1,
        }
    }

    pub fn from_bits(value: u8) -> (r: Self)
        ensures
            r == Self::spec_from_bits(value),
    {
        match value {
            1 => ChargeInhibit::Disable,
            _ => ChargeInhibit::Enable,
        }
    }

    /// Decoding the code of a variant yields that variant back.
    pub proof fn lemma_code_roundtrip(self)
        ensures
            Self::spec_from_bits(self.spec_into_bits()) == self,
    {
    }
}

/// IIN_DPM Enable.
#[derive(Clone, Copy, Debug, PartialEq, Eq)]
pub enum IinDpmEnable {
    Disable,
    Enable,
}

impl IinDpmEnable {
    /// The chip-defined code of each variant.
    pub open spec fn spec_into_bits(self) -> u8 {
        match self {
            IinDpmEnable::Disable => 0,
            IinDpmEnable::Enable => 1,
        }
    }

    /// The variant each code decodes to; total over all codes, undeclared
    /// codes falling back to the last declared variant in code order.
    pub open spec fn spec_from_bits(value: u8) -> Self {
        if value == 0 {
            IinDpmEnable::Disable
        } else {
            IinDpmEnable::Enable
        }
    }

    pub fn into_bits(self) -> (r: u8)
        ensures
            r == self.spec_into_bits(),
    {
        match self {
            IinDpmEnable::Disable => 0,
            IinDpmEnable::Enable => 1,
        }
    }

    pub fn from_bits(value: u8) -> (r: Self)
        ensures
            r == Self::spec_from_bits(value),
    {
        match value {
            0 => IinDpmEnable::Disable,
            _ => IinDpmEnable::Enable,
        }
    }

    /// Decoding the code of a variant yields that variant back.
    pub proof fn lemma_code_roundtrip(self)
        ensures
            Self::spec_from_bits(self.spec_into_bits()) == self,
    {
    }
}

/// LDO Mode Enable.
#[derive(Clone, Copy, Debug, PartialEq, Eq)]
pub enum LdoModeEnable {
    Disable,
    Enable,
}

impl LdoModeEnable {
    /// The chip-defined code of each variant.
    pub open spec fn spec_into_bits(self) -> u8 {
        match self {
            LdoModeEnable::Disable => 0,
            LdoModeEnable::Enable => 1,
        }
    }

    /// The variant each code decodes to; total over all codes, undeclared
    /// codes falling back to the last declared variant in code order.
    pub open spec fn spec_from_bits(value: u8) -> Self {
        if value == 0 {
            LdoModeEnable::Disable
        } else {
            LdoModeEnable::Enable
        }
    }

    pub fn into_bits(self) -> (r: u8)
        ensures
            r == self.spec_into_bits(),
    {
        match self {
            LdoModeEnable::Disable => 0,
            LdoModeEnable::Enable => 1,
        }
    }

    pub fn from_bits(value: u8) -> (r: Self)
        ensures
            r == Self::spec_from_bits(value),
    {
        match value {
            0 => LdoModeEnable::Disable,
            _ => LdoModeEnable::Enable,
        }
    }

    /// Decoding the code of a variant yields that variant back.
    pub proof fn lemma_code_roundtrip(self)
        ensures
            Self::spec_from_bits(self.spec_into_bits()) == self,
    {
    }
}

/// IBAT Amplifier Ratio.
#[derive(Clone, Copy, Debug, PartialEq, Eq)]
pub enum IbatAmplifierRatio {
    Times8,
    Times64,
}

impl IbatAmplifierRatio {
    /// The chip-defined code of each variant.
    pub open spec fn spec_into_bits(self) -> u8 {
        match self {
            IbatAmplifierRatio::Times8 => 0,
            IbatAmplifierRatio::Times64 => 1,
        }
    }

    /// The variant each code decodes to; total over all codes, undeclared
    /// codes falling back to the last declared variant in code order.
    pub open spec fn spec_from_bits(value: u8) -> Self {
        if value == 0 {
            IbatAmplifierRatio::Times8
        } else {
            IbatAmplifierRatio::Times64
        }
    }

    pub fn into_bits(self) -> (r: u8)
        ensures
            r == self.spec_into_bits(),
    {
        match self {
            IbatAmplifierRatio::Times8 => 0,
            IbatAmplifierRatio::Times64 => 1,
        }
    }

    pub fn from_bits(value: u8) -> (r: Self)
        ensures
            r == Self::spec_from_bits(value),
    {
        match value {
            0 => IbatAmplifierRatio::Times8,
            _ => IbatAmplifierRatio::Times64,
        }
    }

    /// Decoding the code of a variant yields that variant back.
    pub proof fn lemma_code_roundtrip(self)
        ensures
            Self::spec_from_bits(self.spec_into_bits()) == self,
    {
    }
}

/// IADPT Amplifier Ratio.
#[derive(Clone, Copy, Debug, PartialEq, Eq)]
pub enum IadptAmplifierRatio {
    Times20,
    Times40,
}

impl IadptAmplifierRatio {
    /// The chip-defined code of each variant.
    pub open spec fn spec_into_bits(self) -> u8 {
        match self {
            IadptAmplifierRatio::Times20 => 0,
            IadptAmplifierRatio::Times40 => 1,
        }
    }

    /// The variant each code decodes to; total over all codes, undeclared
    /// codes falling back to the last declared variant in code order.
    pub open spec fn spec_from_bits(value: u8) -> Self {
        if value == 0 {
            IadptAmplifierRatio::Times20
        } else {
            IadptAmplifierRatio::Times40
        }
    }

    pub fn into_bits(self) -> (r: u8)
        ensures
            r == self.spec_into_bits(),
    {
        match self {
            IadptAmplifierRatio::Times20 => 0,
            IadptAmplifierRatio::Times40 => 1,
        }
    }

    pub fn from_bits(value: u8) -> (r: Self)
        ensures
            r == Self::spec_from_bits(value),
    {
        match value {
            0 => IadptAmplifierRatio::Times20,
            _ => IadptAmplifierRatio::Times40,
        }
    }

    /// Decoding the code of a variant yields that variant back.
    pub proof fn lemma_code_roundtrip(self)
        ensures
            Self::spec_from_bits(self.spec_into_bits()) == self,
    {
    }
}

/// LEARN mode function enable.
#[derive(Clone, Copy, Debug, PartialEq, Eq)]
pub enum Learn {
    Disable,
    Enable,
}

impl Learn {
    /// The chip-defined code of each variant.
    pub open spec fn spec_into_bits(self) -> u8 {
        match self {
            Learn::Disable => 0,
            Learn::Enable => 1,
        }
    }

    /// The variant each code decodes to; total over all codes, undeclared
    /// codes falling back to the last declared variant in code order.
    pub open spec fn spec_from_bits(value: u8) -> Self {
        if value == 0 {
            Learn::Disable
        } else {
            Learn::Enable
        }
    }

    pub fn into_bits(self) -> (r: u8)
        ensures
            r == self.spec_into_bits(),
    {
        match self {
            Learn::Disable => 0,
            Learn::Enable => 1,
        }
    }

    pub fn from_bits(value: u8) -> (r: Self)
        ensures
            r == Self::spec_from_bits(value),
    {
        match value {
            0 => Learn::Disable,
            _ => Learn::Enable,
        }
    }

    /// Decoding the code of a variant yields that variant back.
    pub proof fn lemma_code_roundtrip(self)
        ensures
            Self::spec_from_bits(self.spec_into_bits()) == self,
    {
    }
}

/// Enable system under voltage protection.
#[derive(Clone, Copy, Debug, PartialEq, Eq)]
pub enum SystemUVP {
    Enable,
    Disable,
}

impl SystemUVP {
    /// The chip-defined code of each variant.
    pub open spec fn spec_into_bits(self) -> u8 {
        match self {
            SystemUVP::Enable => 0,
            SystemUVP::Disable => 1,
        }
    }

    /// The variant each code decodes to; total over all codes, undeclared
    /// codes falling back to the last declared variant in code order.
    pub open spec fn spec_from_bits(value: u8) -> Self {
        if value == 0 {
            SystemUVP::Enable
        } else {
            SystemUVP::Disable
        }
    }

    pub fn into_bits(self) -> (r: u8)
        ensures
            r == self.spec_into_bits(),
    {
        match self {
            SystemUVP::Enable => 0,
            SystemUVP::Disable => 1,
        }
    }

    pub fn from_bits(value: u8) -> (r: Self)
        ensures
            r == Self::spec_from_bits(value),
    {
        match value {
            0 => SystemUVP::Enable,
            _ => SystemUVP::Disable,
        }
    }

    /// Decoding the code of a variant yields that variant back.
    pub proof fn lemma_code_roundtrip(self)
        ensures
            Self::spec_from_bits(self.spec_into_bits()) == self,
    {
    }
}

/// Enable Latch of Independent Comparator. Comparator output with.
#[derive(Clone, Copy, Debug, PartialEq, Eq)]
pub enum CmpLatch {
    NoLatch,
    Latch,
}

impl CmpLatch {
    /// The chip-defined code of each variant.
    pub open spec fn spec_into_bits(self) -> u8 {
        match self {
            CmpLatch::NoLatch => 0,
            CmpLatch::Latch => 1,
        }
    }

    /// The variant each code decodes to; total over all codes, undeclared
    /// codes falling back to the last declared variant in code order.
    pub open spec fn spec_from_bits(value: u8) -> Self {
        if value == 0 {
            CmpLatch::NoLatch
        } else {
            CmpLatch::Latch
        }
    }

    pub fn into_bits(self) -> (r: u8)
        ensures
            r == self.spec_into_bits(),
    {
        match self {
            CmpLatch::NoLatch => 0,
            CmpLatch::Latch => 1,
        }
    }

    pub fn from_bits(value: u8) -> (r: Self)
        ensures
            r == Self::spec_from_bits(value),
    {
        match value {
            0 => CmpLatch::NoLatch,
            _ => CmpLatch::Latch,
        }
    }

    /// Decoding the code of a variant yields that variant back.
    pub proof fn lemma_code_roundtrip(self)
        ensures
            Self::spec_from_bits(self.spec_into_bits()) == self,
    {
    }
}

/// Enable battery over voltage protection.
#[derive(Clone, Copy, Debug, PartialEq, Eq)]
pub enum BatteryOVP {
    Disable,
    Enable,
}

impl BatteryOVP {
    /// The chip-defined code of each variant.
    pub open spec fn spec_into_bits(self) -> u8 {
        match self {
            BatteryOVP::Disable => 0,
            BatteryOVP::Enable => 1,
        }
    }

    /// The variant each code decodes to; total over all codes, undeclared
    /// codes falling back to the last declared variant in code order.
    pub open spec fn spec_from_bits(value: u8) -> Self {
        if value == 0 {
            BatteryOVP::Disable
        } else {
            BatteryOVP::Enable
        }
    }

    pub fn into_bits(self) -> (r: u8)
        ensures
            r == self.spec_into_bits(),
    {
        match self {
            BatteryOVP::Disable => 0,
            BatteryOVP::Enable => 1,
        }
    }

    pub fn from_bits(value: u8) -> (r: Self)
        ensures
            r == Self::spec_from_bits(value),
    {
        match value {
            0 => BatteryOVP::Disable,
            _ => BatteryOVP::Enable,
        }
    }

    /// Decoding the code of a variant yields that variant back.
    pub proof fn lemma_code_roundtrip(self)
        ensures
            Self::spec_from_bits(self.spec_into_bits()) == self,
    {
    }
}

/// Switching Frequency Selection.
#[derive(Clone, Copy, Debug, PartialEq, Eq)]
pub enum PwmFrequency {
    KHz800,
    KHz600,
}

impl PwmFrequency {
    /// The chip-defined code of each variant.
    pub open spec fn spec_into_bits(self) -> u8 {
        match self {
            PwmFrequency::KHz800 => 0,
            PwmFrequency::KHz600 => 1,
        }
    }

    /// The variant each code decodes to; total over all codes, undeclared
    /// codes falling back to the last declared variant in code order.
    pub open spec fn spec_from_bits(value: u8) -> Self {
        if value == 0 {
            PwmFrequency::KHz800
        } else {
            PwmFrequency::KHz600
        }
    }

    pub fn into_bits(self) -> (r: u8)
        ensures
            r == self.spec_into_bits(),
    {
        match self {
            PwmFrequency::KHz800 => 0,
            PwmFrequency::KHz600 => 1,
        }
    }

    pub fn from_bits(value: u8) -> (r: Self)
        ensures
            r == Self::spec_from_bits(value),
    {
        match value {
            0 => PwmFrequency::KHz800,
            _ => PwmFrequency::KHz600,
        }
    }

    /// Decoding the code of a variant yields that variant back.
    pub proof fn lemma_code_roundtrip(self)
        ensures
            Self::spec_from_bits(self.spec_into_bits()) == self,
    {
    }
}

/// Out-of-Audio Enable.
#[derive(Clone, Copy, Debug, PartialEq, Eq)]
pub enum OutOfAudio {
    NoLimit,
    Limit,
}

impl OutOfAudio {
    /// The chip-defined code of each variant.
    pub open spec fn spec_into_bits(self) -> u8 {
        match self {
            OutOfAudio::NoLimit => 0,
            OutOfAudio::Limit => 1,
        }
    }

    /// The variant each code decodes to; total over all codes, undeclared
    /// codes falling back to the last declared variant in code order.
    pub open spec fn spec_from_bits(value: u8) -> Self {
        if value == 0 {
            OutOfAudio::NoLimit
        } else {
            OutOfAudio::Limit
        }
    }

    pub fn into_bits(self) -> (r: u8)
        ensures
            r == self.spec_into_bits(),
    {
        match self {
            OutOfAudio::NoLimit => 0,
            OutOfAudio::Limit => 1,
        }
    }

    pub fn from_bits(value: u8) -> (r: Self)
        ensures
            r == Self::spec_from_bits(value),
    {
        match value {
            0 => OutOfAudio::NoLimit,
            _ => OutOfAudio::Limit,
        }
    }

    /// Decoding the code of a variant yields that variant back.
    pub proof fn lemma_code_roundtrip(self)
        ensures
            Self::spec_from_bits(self.spec_into_bits()) == self,
    {
    }
}

/// Add OTG to CHRG_OK.
#[derive(Clone, Copy, Debug, PartialEq, Eq)]
pub enum OtgChrgOk {
    Disable,
    Enable,
}

impl OtgChrgOk {
    /// The chip-defined code of each variant.
    pub open spec fn spec_into_bits(self) -> u8 {
        match self {
            OtgChrgOk::Disable => 0,
            OtgChrgOk::Enable => 1,
        }
    }

    /// The variant each code decodes to; total over all codes, undeclared
    /// codes falling back to the last declared variant in code order.
    pub open spec fn spec_from_bits(value: u8) -> Self {
        if value == 0 {
            OtgChrgOk::Disable
        } else {
            OtgChrgOk::Enable
        }
    }

    pub fn into_bits(self) -> (r: u8)
        ensures
            r == self.spec_into_bits(),
    {
        match self {
            OtgChrgOk::Disable => 0,
            OtgChrgOk::Enable => 1,
        }
    }

    pub fn from_bits(value: u8) -> (r: Self)
        ensures
            r == Self::spec_from_bits(value),
    {
        match value {
            0 => OtgChrgOk::Disable,
            _ => OtgChrgOk::Enable,
        }
    }

    /// Decoding the code of a variant yields that variant back.
    pub proof fn lemma_code_roundtrip(self)
        ensures
            Self::spec_from_bits(self.spec_into_bits()) == self,
    {
    }
}

/// IIN_DPM Auto Disable.
#[derive(Clone, Copy, Debug, PartialEq, Eq)]
pub enum IinDpmAutoDisable {
    Disable,
    Enable,
}

impl IinDpmAutoDisable {
    /// The chip-defined code of each variant.
    pub open spec fn spec_into_bits(self) -> u8 {
        match self {
            IinDpmAutoDisable::Disable => 0,
            IinDpmAutoDisable::Enable => 1,
        }
    }

    /// The variant each code decodes to; total over all codes, undeclared
    /// codes falling back to the last declared variant in code order.
    pub open spec fn spec_from_bits(value: u8) -> Self {
        if value == 0 {
            IinDpmAutoDisable::Disable
        } else {
            IinDpmAutoDisable::Enable
        }
    }

    pub fn into_bits(self) -> (r: u8)
        ensures
            r == self.spec_into_bits(),
    {
        match self {
            IinDpmAutoDisable::Disable => 0,
            IinDpmAutoDisable::Enable => 1,
        }
    }

    pub fn from_bits(value: u8) -> (r: Self)
        ensures
            r == Self::spec_from_bits(value),
    {
        match value {
            0 => IinDpmAutoDisable::Disable,
            _ => IinDpmAutoDisable::Enable,
        }
    }

    /// Decoding the code of a variant yields that variant back.
    pub proof fn lemma_code_roundtrip(self)
        ensures
            Self::spec_from_bits(self.spec_into_bits()) == self,
    {
    }
}

/// Low Power Mode enable.
#[derive(Clone, Copy, Debug, PartialEq, Eq)]
pub enum LowPwrMode {
    Disable,
    Enable,
}

impl LowPwrMode {
    /// The chip-defined code of each variant.
    pub open spec fn spec_into_bits(self) -> u8 {
        match self {
            LowPwrMode::Disable => 0,
            LowPwrMode::Enable => 1,
        }
    }

    /// The variant each code decodes to; total over all codes, undeclared
    /// codes falling back to the last declared variant in code order.
    pub open spec fn spec_from_bits(value: u8) -> Self {
        if value == 0 {
            LowPwrMode::Disable
        } else {
            LowPwrMode::Enable
        }
    }

    pub fn into_bits(self) -> (r: u8)
        ensures
            r == self.spec_into_bits(),
    {
        match self {
            LowPwrMode::Disable => 0,
            LowPwrMode::Enable => 1,
        }
    }

    pub fn from_bits(value: u8) -> (r: Self)
        ensures
            r == Self::spec_from_bits(value),
    {
        match value {
            0 => LowPwrMode::Disable,
            _ => LowPwrMode::Enable,
        }
    }

    /// Decoding the code of a variant yields that variant back.
    pub proof fn lemma_code_roundtrip(self)
        ensures
            Self::spec_from_bits(self.spec_into_bits()) == self,
    {
    }
}

} // verus!
