//! ADC Option Register.

use vstd::prelude::*;

use crate::bits::field_get;
use crate::bits::field_set;
use crate::bits::get_field;
use crate::bits::lemma_set_preserves_rest;
use crate::bits::lemma_set_then_get_w1;
use crate::bits::lemma_set_then_get_w2;
use crate::bits::set_field;
use crate::registers::Register;

verus! {

/// ADC Option Register: raw 16-bit value at bus address 0x35.
#[derive(Clone, Copy, Debug, PartialEq, Eq)]
pub struct AdcOption {
    bits: u16,
}

impl Register for AdcOption {
    closed spec fn spec_bits(self) -> u16 {
        self.bits
    }

    open spec fn spec_addr() -> u8 {
        0x35
    }

    closed spec fn spec_of_bits(bits: u16) -> Self {
        AdcOption { bits }
    }

    fn from_bits(bits: u16) -> (r: Self) {
        AdcOption { bits }
    }

    fn into_bits(self) -> (r: u16) {
        self.bits
    }

    fn addr() -> (r: u8) {
        0x35
    }

    proof fn lemma_encode_decode(bits: u16) {
    }

    proof fn lemma_decode_encode(self) {
    }
}

impl AdcOption {
    /// The raw value the register holds immediately after device power-up.
    pub fn new() -> (r: Self)
        ensures
            r.spec_bits() == 0x9000,
    {
        AdcOption { bits: 0x9000 }
    }

    /// Enable SRN pin Voltage ADC Channel.
    pub fn en_adc_vbat(&self) -> (r: EnAdcVbat)
        ensures
            r == EnAdcVbat::spec_from_bits(field_get(self.spec_bits(), 0, 0x1) as u8),
    {
        EnAdcVbat::from_bits(get_field(self.bits, 0, 0x1) as u8)
    }

    /// Enable SRN pin Voltage ADC Channel.
    pub fn set_en_adc_vbat(&mut self, value: EnAdcVbat)
        ensures
            final(self).spec_bits() == field_set(
                old(self).spec_bits(),
                0,
                0x1,
                value.spec_into_bits() as u16,
            ),
            final(self).spec_bits() & !(0x1u16 << 0) == old(self).spec_bits() & !(0x1u16 << 0),
            EnAdcVbat::spec_from_bits(field_get(final(self).spec_bits(), 0, 0x1) as u8)
                == value,
    {
        proof {
            lemma_set_preserves_rest(self.bits, 0, 0x1, value.spec_into_bits() as u16);
            lemma_set_then_get_w1(self.bits, 0, value.spec_into_bits() as u16);
            value.lemma_code_roundtrip();
        }
        let code: u16 = value.into_bits() as u16;
        self.bits = set_field(self.bits, 0, 0x1, code);
    }

    /// Enable VSYS pin Voltage ADC Channel.
    pub fn en_adc_vsys(&self) -> (r: EnAdcVsys)
        ensures
            r == EnAdcVsys::spec_from_bits(field_get(self.spec_bits(), 1, 0x1) as u8),
    {
        EnAdcVsys::from_bits(get_field(self.bits, 1, 0x1) as u8)
    }

    /// Enable VSYS pin Voltage ADC Channel.
    pub fn set_en_adc_vsys(&mut self, value: EnAdcVsys)
        ensures
            final(self).spec_bits() == field_set(
                old(self).spec_bits(),
                1,
                0x1,
                value.spec_into_bits() as u16,
            ),
            final(self).spec_bits() & !(0x1u16 << 1) == old(self).spec_bits() & !(0x1u16 << 1),
            EnAdcVsys::spec_from_bits(field_get(final(self).spec_bits(), 1, 0x1) as u8)
                == value,
    {
        proof {
            lemma_set_preserves_rest(self.bits, 1, 0x1, value.spec_into_bits() as u16);
            lemma_set_then_get_w1(self.bits, 1, value.spec_into_bits() as u16);
            value.lemma_code_roundtrip();
        }
        let code: u16 = value.into_bits() as u16;
        self.bits = set_field(self.bits, 1, 0x1, code);
    }

    /// Enable ICHG ADC Channel.
    pub fn en_adc_ibat(&self) -> (r: EnAdcIbat)
        ensures
            r == EnAdcIbat::spec_from_bits(field_get(self.spec_bits(), 2, 0x1) as u8),
    {
        EnAdcIbat::from_bits(get_field(self.bits, 2, 0x1) as u8)
    }

    /// Enable ICHG ADC Channel.
    pub fn set_en_adc_ibat(&mut self, value: EnAdcIbat)
        ensures
            final(self).spec_bits() == field_set(
                old(self).spec_bits(),
                2,
                0x1,
                value.spec_into_bits() as u16,
            ),
            final(self).spec_bits() & !(0x1u16 << 2) == old(self).spec_bits() & !(0x1u16 << 2),
            EnAdcIbat::spec_from_bits(field_get(final(self).spec_bits(), 2, 0x1) as u8)
                == value,
    {
        proof {
            lemma_set_preserves_rest(self.bits, 2, 0x1, value.spec_into_bits() as u16);
            lemma_set_then_get_w1(self.bits, 2, value.spec_into_bits() as u16);
            value.lemma_code_roundtrip();
        }
        let code: u16 = value.into_bits() as u16;
        self.bits = set_field(self.bits, 2, 0x1, code);
    }

    /// Enable IIN ADC Channel.
    pub fn en_adc_iin(&self) -> (r: EnAdcIin)
        ensures
            r == EnAdcIin::spec_from_bits(field_get(self.spec_bits(), 4, 0x1) as u8),
    {
        EnAdcIin::from_bits(get_field(self.bits, 4, 0x1) as u8)
    }

    /// Enable IIN ADC Channel.
    pub fn set_en_adc_iin(&mut self, value: EnAdcIin)
        ensures
            final(self).spec_bits() == field_set(
                old(self).spec_bits(),
                4,
                0x1,
                value.spec_into_bits() as u16,
            ),
            final(self).spec_bits() & !(0x1u16 << 4) == old(self).spec_bits() & !(0x1u16 << 4),
            EnAdcIin::spec_from_bits(field_get(final(self).spec_bits(), 4, 0x1) as u8)
                == value,
    {
        proof {
            lemma_set_preserves_rest(self.bits, 4, 0x1, value.spec_into_bits() as u16);
            lemma_set_then_get_w1(self.bits, 4, value.spec_into_bits() as u16);
            value.lemma_code_roundtrip();
        }
        let code: u16 = value.into_bits() as u16;
        self.bits = set_field(self.bits, 4, 0x1, code);
    }

    /// Enable PSYS pin Voltage ADC Channel.
    pub fn en_adc_psys(&self) -> (r: EnAdcPsys)
        ensures
            r == EnAdcPsys::spec_from_bits(field_get(self.spec_bits(), 5, 0x1) as u8),
    {
        EnAdcPsys::from_bits(get_field(self.bits, 5, 0x1) as u8)
    }

    /// Enable PSYS pin Voltage ADC Channel.
    pub fn set_en_adc_psys(&mut self, value: EnAdcPsys)
        ensures
            final(self).spec_bits() == field_set(
                old(self).spec_bits(),
                5,
                0x1,
                value.spec_into_bits() as u16,
            ),
            final(self).spec_bits() & !(0x1u16 << 5) == old(self).spec_bits() & !(0x1u16 << 5),
            EnAdcPsys::spec_from_bits(field_get(final(self).spec_bits(), 5, 0x1) as u8)
                == value,
    {
        proof {
            lemma_set_preserves_rest(self.bits, 5, 0x1, value.spec_into_bits() as u16);
            lemma_set_then_get_w1(self.bits, 5, value.spec_into_bits() as u16);
            value.lemma_code_roundtrip();
        }
        let code: u16 = value.into_bits() as u16;
        self.bits = set_field(self.bits, 5, 0x1, code);
    }

    /// Enable VBUS pin Voltage ADC Channel.
    pub fn en_adc_vbus(&self) -> (r: EnAdcVbus)
        ensures
            r == EnAdcVbus::spec_from_bits(field_get(self.spec_bits(), 6, 0x1) as u8),
    {
        EnAdcVbus::from_bits(get_field(self.bits, 6, 0x1) as u8)
    }

    /// Enable VBUS pin Voltage ADC Channel.
    pub fn set_en_adc_vbus(&mut self, value: EnAdcVbus)
        ensures
            final(self).spec_bits() == field_set(
                old(self).spec_bits(),
                6,
                0x1,
                value.spec_into_bits() as u16,
            ),
            final(self).spec_bits() & !(0x1u16 << 6) == old(self).spec_bits() & !(0x1u16 << 6),
            EnAdcVbus::spec_from_bits(field_get(final(self).spec_bits(), 6, 0x1) as u8)
                == value,
    {
        proof {
            lemma_set_preserves_rest(self.bits, 6, 0x1, value.spec_into_bits() as u16);
            lemma_set_then_get_w1(self.bits, 6, value.spec_into_bits() as u16);
            value.lemma_code_roundtrip();
        }
        let code: u16 = value.into_bits() as u16;
        self.bits = set_field(self.bits, 6, 0x1, code);
    }

    /// Enable CMPIN_TR pin Voltage ADC Channel.
    pub fn en_adc_cmpin(&self) -> (r: EnAdcCmpin)
        ensures
            r == EnAdcCmpin::spec_from_bits(field_get(self.spec_bits(), 7, 0x1) as u8),
    {
        EnAdcCmpin::from_bits(get_field(self.bits, 7, 0x1) as u8)
    }

    /// Enable CMPIN_TR pin Voltage ADC Channel.
    pub fn set_en_adc_cmpin(&mut self, value: EnAdcCmpin)
        ensures
            final(self).spec_bits() == field_set(
                old(self).spec_bits(),
                7,
                0x1,
                value.spec_into_bits() as u16,
            ),
            final(self).spec_bits() & !(0x1u16 << 7) == old(self).spec_bits() & !(0x1u16 << 7),
            EnAdcCmpin::spec_from_bits(field_get(final(self).spec_bits(), 7, 0x1) as u8)
                == value,
    {
        proof {
            lemma_set_preserves_rest(self.bits, 7, 0x1, value.spec_into_bits() as u16);
            lemma_set_then_get_w1(self.bits, 7, value.spec_into_bits() as u16);
            value.lemma_code_roundtrip();
        }
        let code: u16 = value.into_bits() as u16;
        self.bits = set_field(self.bits, 7, 0x1, code);
    }

    /// ADC average initial value control.
    pub fn adc_avg_init(&self) -> (r: AdcAvgInit)
        ensures
            r == AdcAvgInit::spec_from_bits(field_get(self.spec_bits(), 10, 0x1) as u8),
    {
        AdcAvgInit::from_bits(get_field(self.bits, 10, 0x1) as u8)
    }

    /// ADC average initial value control.
    pub fn set_adc_avg_init(&mut self, value: AdcAvgInit)
        ensures
            final(self).spec_bits() == field_set(
                old(self).spec_bits(),
                10,
                0x1,
                value.spec_into_bits() as u16,
            ),
            final(self).spec_bits() & !(0x1u16 << 10) == old(self).spec_bits() & !(0x1u16 << 10),
            AdcAvgInit::spec_from_bits(field_get(final(self).spec_bits(), 10, 0x1) as u8)
                == value,
    {
        proof {
            lemma_set_preserves_rest(self.bits, 10, 0x1, value.spec_into_bits() as u16);
            lemma_set_then_get_w1(self.bits, 10, value.spec_into_bits() as u16);
            value.lemma_code_roundtrip();
        }
        let code: u16 = value.into_bits() as u16;
        self.bits = set_field(self.bits, 10, 0x1, code);
    }

    /// ADC average control.
    pub fn adc_avg(&self) -> (r: AdcAvg)
        ensures
            r == AdcAvg::spec_from_bits(field_get(self.spec_bits(), 11, 0x1) as u8),
    {
        AdcAvg::from_bits(get_field(self.bits, 11, 0x1) as u8)
    }

    /// ADC average control.
    pub fn set_adc_avg(&mut self, value: AdcAvg)
        ensures
            final(self).spec_bits() == field_set(
                old(self).spec_bits(),
                11,
                0x1,
                value.spec_into_bits() as u16,
            ),
            final(self).spec_bits() & !(0x1u16 << 11) == old(self).spec_bits() & !(0x1u16 << 11),
            AdcAvg::spec_from_bits(field_get(final(self).spec_bits(), 11, 0x1) as u8)
                == value,
    {
        proof {
            lemma_set_preserves_rest(self.bits, 11, 0x1, value.spec_into_bits() as u16);
            lemma_set_then_get_w1(self.bits, 11, value.spec_into_bits() as u16);
            value.lemma_code_roundtrip();
        }
        let code: u16 = value.into_bits() as u16;
        self.bits = set_field(self.bits, 11, 0x1, code);
    }

    /// ADC sample resolution selection, each channel conversion time
    pub fn adc_sample(&self) -> (r: AdcSample)
        ensures
            r == AdcSample::spec_from_bits(field_get(self.spec_bits(), 12, 0x3) as u8),
    {
        AdcSample::from_bits(get_field(self.bits, 12, 0x3) as u8)
    }

    /// ADC sample resolution selection, each channel conversion time
    pub fn set_adc_sample(&mut self, value: AdcSample)
        ensures
            final(self).spec_bits() == field_set(
                old(self).spec_bits(),
                12,
                0x3,
                value.spec_into_bits() as u16,
            ),
            final(self).spec_bits() & !(0x3u16 << 12) == old(self).spec_bits() & !(0x3u16 << 12),
            AdcSample::spec_from_bits(field_get(final(self).spec_bits(), 12, 0x3) as u8)
                == value,
    {
        proof {
            lemma_set_preserves_rest(self.bits, 12, 0x3, value.spec_into_bits() as u16);
            lemma_set_then_get_w2(self.bits, 12, value.spec_into_bits() as u16);
            value.lemma_code_roundtrip();
        }
        let code: u16 = value.into_bits() as u16;
        self.bits = set_field(self.bits, 12, 0x3, code);
    }

    /// ADC conversion enable command.
    pub fn adc_en(&self) -> (r: AdcEn)
        ensures
            r == AdcEn::spec_from_bits(field_get(self.spec_bits(), 14, 0x1) as u8),
    {
        AdcEn::from_bits(get_field(self.bits, 14, 0x1) as u8)
    }

    /// ADC conversion enable command.
    pub fn set_adc_en(&mut self, value: AdcEn)
        ensures
            final(self).spec_bits() == field_set(
                old(self).spec_bits(),
                14,
                0x1,
                value.spec_into_bits() as u16,
            ),
            final(self).spec_bits() & !(0x1u16 << 14) == old(self).spec_bits() & !(0x1u16 << 14),
            AdcEn::spec_from_bits(field_get(final(self).spec_bits(), 14, 0x1) as u8)
                == value,
    {
        proof {
            lemma_set_preserves_rest(self.bits, 14, 0x1, value.spec_into_bits() as u16);
            lemma_set_then_get_w1(self.bits, 14, value.spec_into_bits() as u16);
            value.lemma_code_roundtrip();
        }
        let code: u16 = value.into_bits() as u16;
        self.bits = set_field(self.bits, 14, 0x1, code);
    }

    /// ADC conversion type selection.
    pub fn adc_rate(&self) -> (r: AdcRate)
        ensures
            r == AdcRate::spec_from_bits(field_get(self.spec_bits(), 15, 0x1) as u8),
    {
        AdcRate::from_bits(get_field(self.bits, 15, 0x1) as u8)
    }

    /// ADC conversion type selection.
    pub fn set_adc_rate(&mut self, value: AdcRate)
        ensures
            final(self).spec_bits() == field_set(
                old(self).spec_bits(),
                15,
                0x1,
                value.spec_into_bits() as u16,
            ),
            final(self).spec_bits() & !(0x1u16 << 15) == old(self).spec_bits() & !(0x1u16 << 15),
            AdcRate::spec_from_bits(field_get(final(self).spec_bits(), 15, 0x1) as u8)
                == value,
    {
        proof {
            lemma_set_preserves_rest(self.bits, 15, 0x1, value.spec_into_bits() as u16);
            lemma_set_then_get_w1(self.bits, 15, value.spec_into_bits() as u16);
            value.lemma_code_roundtrip();
        }
        let code: u16 = value.into_bits() as u16;
        self.bits = set_field(self.bits, 15, 0x1, code);
    }
}

/// Enable SRN pin Voltage ADC Channel.
#[derive(Clone, Copy, Debug, PartialEq, Eq)]
pub enum EnAdcVbat {
    Disable,
    Enable,
}

impl EnAdcVbat {
    /// The chip-defined code of each variant.
    pub open spec fn spec_into_bits(self) -> u8 {
        match self {
            EnAdcVbat::Disable => 0,
            EnAdcVbat::Enable => 1,
        }
    }

    /// The variant each code decodes to; total over all codes, undeclared
    /// codes falling back to the last declared variant in code order.
    pub open spec fn spec_from_bits(value: u8) -> Self {
        if value == 0 {
            EnAdcVbat::Disable
        } else {
            EnAdcVbat::Enable
        }
    }

    pub fn into_bits(self) -> (r: u8)
        ensures
            r == self.spec_into_bits(),
    {
        match self {
            EnAdcVbat::Disable => 0,
            EnAdcVbat::Enable => 1,
        }
    }

    pub fn from_bits(value: u8) -> (r: Self)
        ensures
            r == Self::spec_from_bits(value),
    {
        match value {
            0 => EnAdcVbat::Disable,
            _ => EnAdcVbat::Enable,
        }
    }

    /// Decoding the code of a variant yields that variant back.
    pub proof fn lemma_code_roundtrip(self)
        ensures
            Self::spec_from_bits(self.spec_into_bits()) == self,
    {
    }
}

/// Enable VSYS pin Voltage ADC Channel.
#[derive(Clone, Copy, Debug, PartialEq, Eq)]
pub enum EnAdcVsys {
    Disable,
    Enable,
}

impl EnAdcVsys {
    /// The chip-defined code of each variant.
    pub open spec fn spec_into_bits(self) -> u8 {
        match self {
            EnAdcVsys::Disable => 0,
            EnAdcVsys::Enable => 1,
        }
    }

    /// The variant each code decodes to; total over all codes, undeclared
    /// codes falling back to the last declared variant in code order.
    pub open spec fn spec_from_bits(value: u8) -> Self {
        if value == 0 {
            EnAdcVsys::Disable
        } else {
            EnAdcVsys::Enable
        }
    }

    pub fn into_bits(self) -> (r: u8)
        ensures
            r == self.spec_into_bits(),
    {
        match self {
            EnAdcVsys::Disable => 0,
            EnAdcVsys::Enable => 1,
        }
    }

    pub fn from_bits(value: u8) -> (r: Self)
        ensures
            r == Self::spec_from_bits(value),
    {
        match value {
            0 => EnAdcVsys::Disable,
            _ => EnAdcVsys::Enable,
        }
    }

    /// Decoding the code of a variant yields that variant back.
    pub proof fn lemma_code_roundtrip(self)
        ensures
            Self::spec_from_bits(self.spec_into_bits()) == self,
    {
    }
}

/// Enable ICHG ADC Channel.
#[derive(Clone, Copy, Debug, PartialEq, Eq)]
pub enum EnAdcIbat {
    Disable,
    Enable,
}

impl EnAdcIbat {
    /// The chip-defined code of each variant.
    pub open spec fn spec_into_bits(self) -> u8 {
        match self {
            EnAdcIbat::Disable => 0,
            EnAdcIbat::Enable => 1,
        }
    }

    /// The variant each code decodes to; total over all codes, undeclared
    /// codes falling back to the last declared variant in code order.
    pub open spec fn spec_from_bits(value: u8) -> Self {
        if value == 0 {
            EnAdcIbat::Disable
        } else {
            EnAdcIbat::Enable
        }
    }

    pub fn into_bits(self) -> (r: u8)
        ensures
            r == self.spec_into_bits(),
    {
        match self {
            EnAdcIbat::Disable => 0,
            EnAdcIbat::Enable => 1,
        }
    }

    pub fn from_bits(value: u8) -> (r: Self)
        ensures
            r == Self::spec_from_bits(value),
    {
        match value {
            0 => EnAdcIbat::Disable,
            _ => EnAdcIbat::Enable,
        }
    }

    /// Decoding the code of a variant yields that variant back.
    pub proof fn lemma_code_roundtrip(self)
        ensures
            Self::spec_from_bits(self.spec_into_bits()) == self,
    {
    }
}

/// Enable IIN ADC Channel.
#[derive(Clone, Copy, Debug, PartialEq, Eq)]
pub enum EnAdcIin {
    Disable,
    Enable,
}

impl EnAdcIin {
    /// The chip-defined code of each variant.
    pub open spec fn spec_into_bits(self) -> u8 {
        match self {
            EnAdcIin::Disable => 0,
            EnAdcIin::Enable => 1,
        }
    }

    /// The variant each code decodes to; total over all codes, undeclared
    /// codes falling back to the last declared variant in code order.
    pub open spec fn spec_from_bits(value: u8) -> Self {
        if value == 0 {
            EnAdcIin::Disable
        } else {
            EnAdcIin::Enable
        }
    }

    pub fn into_bits(self) -> (r: u8)
        ensures
            r == self.spec_into_bits(),
    {
        match self {
            EnAdcIin::Disable => 0,
            EnAdcIin::Enable => 1,
        }
    }

    pub fn from_bits(value: u8) -> (r: Self)
        ensures
            r == Self::spec_from_bits(value),
    {
        match value {
            0 => EnAdcIin::Disable,
            _ => EnAdcIin::Enable,
        }
    }

    /// Decoding the code of a variant yields that variant back.
    pub proof fn lemma_code_roundtrip(self)
        ensures
            Self::spec_from_bits(self.spec_into_bits()) == self,
    {
    }
}

/// Enable PSYS pin Voltage ADC Channel.
#[derive(Clone, Copy, Debug, PartialEq, Eq)]
pub enum EnAdcPsys {
    Disable,
    Enable,
}

impl EnAdcPsys {
    /// The chip-defined code of each variant.
    pub open spec fn spec_into_bits(self) -> u8 {
        match self {
            EnAdcPsys::Disable => 0,
            EnAdcPsys::Enable => 1,
        }
    }

    /// The variant each code decodes to; total over all codes, undeclared
    /// codes falling back to the last declared variant in code order.
    pub open spec fn spec_from_bits(value: u8) -> Self {
        if value == 0 {
            EnAdcPsys::Disable
        } else {
            EnAdcPsys::Enable
        }
    }

    pub fn into_bits(self) -> (r: u8)
        ensures
            r == self.spec_into_bits(),
    {
        match self {
            EnAdcPsys::Disable => 0,
            EnAdcPsys::Enable => 1,
        }
    }

    pub fn from_bits(value: u8) -> (r: Self)
        ensures
            r == Self::spec_from_bits(value),
    {
        match value {
            0 => EnAdcPsys::Disable,
            _ => EnAdcPsys::Enable,
        }
    }

    /// Decoding the code of a variant yields that variant back.
    pub proof fn lemma_code_roundtrip(self)
        ensures
            Self::spec_from_bits(self.spec_into_bits()) == self,
    {
    }
}

/// Enable VBUS pin Voltage ADC Channel.
#[derive(Clone, Copy, Debug, PartialEq, Eq)]
pub enum EnAdcVbus {
    Disable,
    Enable,
}

impl EnAdcVbus {
    /// The chip-defined code of each variant.
    pub open spec fn spec_into_bits(self) -> u8 {
        match self {
            EnAdcVbus::Disable => 0,
            EnAdcVbus::Enable => 1,
        }
    }

    /// The variant each code decodes to; total over all codes, undeclared
    /// codes falling back to the last declared variant in code order.
    pub open spec fn spec_from_bits(value: u8) -> Self {
        if value == 0 {
            EnAdcVbus::Disable
        } else {
            EnAdcVbus::Enable
        }
    }

    pub fn into_bits(self) -> (r: u8)
        ensures
            r == self.spec_into_bits(),
    {
        match self {
            EnAdcVbus::Disable => 0,
            EnAdcVbus::Enable => 1,
        }
    }

    pub fn from_bits(value: u8) -> (r: Self)
        ensures
            r == Self::spec_from_bits(value),
    {
        match value {
            0 => EnAdcVbus::Disable,
            _ => EnAdcVbus::Enable,
        }
    }

    /// Decoding the code of a variant yields that variant back.
    pub proof fn lemma_code_roundtrip(self)
        ensures
            Self::spec_from_bits(self.spec_into_bits()) == self,
    {
    }
}

/// Enable CMPIN_TR pin Voltage ADC Channel.
#[derive(Clone, Copy, Debug, PartialEq, Eq)]
pub enum EnAdcCmpin {
    Disable,
    Enable,
}

impl EnAdcCmpin {
    /// The chip-defined code of each variant.
    pub open spec fn spec_into_bits(self) -> u8 {
        match self {
            EnAdcCmpin::Disable => 0,
            EnAdcCmpin::Enable => 1,
        }
    }

    /// The variant each code decodes to; total over all codes, undeclared
    /// codes falling back to the last declared variant in code order.
    pub open spec fn spec_from_bits(value: u8) -> Self {
        if value == 0 {
            EnAdcCmpin::Disable
        } else {
            EnAdcCmpin::Enable
        }
    }

    pub fn into_bits(self) -> (r: u8)
        ensures
            r == self.spec_into_bits(),
    {
        match self {
            EnAdcCmpin::Disable => 0,
            EnAdcCmpin::Enable => 1,
        }
    }

    pub fn from_bits(value: u8) -> (r: Self)
        ensures
            r == Self::spec_from_bits(value),
    {
        match value {
            0 => EnAdcCmpin::Disable,
            _ => EnAdcCmpin::Enable,
        }
    }

    /// Decoding the code of a variant yields that variant back.
    pub proof fn lemma_code_roundtrip(self)
        ensures
            Self::spec_from_bits(self.spec_into_bits()) == self,
    {
    }
}

/// ADC average initial value control.
#[derive(Clone, Copy, Debug, PartialEq, Eq)]
pub enum AdcAvgInit {
    UseExisting,
    StartNewAverage,
}

impl AdcAvgInit {
    /// The chip-defined code of each variant.
    pub open spec fn spec_into_bits(self) -> u8 {
        match self {
            AdcAvgInit::UseExisting => 0,
            AdcAvgInit::StartNewAverage => 1,
        }
    }

    /// The variant each code decodes to; total over all codes, undeclared
    /// codes falling back to the last declared variant in code order.
    pub open spec fn spec_from_bits(value: u8) -> Self {
        if value == 0 {
            AdcAvgInit::UseExisting
        } else {
            AdcAvgInit::StartNewAverage
        }
    }

    pub fn into_bits(self) -> (r: u8)
        ensures
            r == self.spec_into_bits(),
    {
        match self {
            AdcAvgInit::UseExisting => 0,
            AdcAvgInit::StartNewAverage => 1,
        }
    }

    pub fn from_bits(value: u8) -> (r: Self)
        ensures
            r == Self::spec_from_bits(value),
    {
        match value {
            0 => AdcAvgInit::UseExisting,
            _ => AdcAvgInit::StartNewAverage,
        }
    }

    /// Decoding the code of a variant yields that variant back.
    pub proof fn lemma_code_roundtrip(self)
        ensures
            Self::spec_from_bits(self.spec_into_bits()) == self,
    {
    }
}

/// ADC average control.
#[derive(Clone, Copy, Debug, PartialEq, Eq)]
pub enum AdcAvg {
    SingleValue,
    RunningAvg,
}

impl AdcAvg {
    /// The chip-defined code of each variant.
    pub open spec fn spec_into_bits(self) -> u8 {
        match self {
            AdcAvg::SingleValue => 0,
            AdcAvg::RunningAvg => 1,
        }
    }

    /// The variant each code decodes to; total over all codes, undeclared
    /// codes falling back to the last declared variant in code order.
    pub open spec fn spec_from_bits(value: u8) -> Self {
        if value == 0 {
            AdcAvg::SingleValue
        } else {
            AdcAvg::RunningAvg
        }
    }

    pub fn into_bits(self) -> (r: u8)
        ensures
            r == self.spec_into_bits(),
    {
        match self {
            AdcAvg::SingleValue => 0,
            AdcAvg::RunningAvg => 1,
        }
    }

    pub fn from_bits(value: u8) -> (r: Self)
        ensures
            r == Self::spec_from_bits(value),
    {
        match value {
            0 => AdcAvg::SingleValue,
            _ => AdcAvg::RunningAvg,
        }
    }

    /// Decoding the code of a variant yields that variant back.
    pub proof fn lemma_code_roundtrip(self)
        ensures
            Self::spec_from_bits(self.spec_into_bits()) == self,
    {
    }
}

/// ADC sample resolution selection, each channel conversion time.
#[derive(Clone, Copy, Debug, PartialEq, Eq)]
pub enum AdcSample {
    Bits15,
    Bits14,
    Bits13,
}

impl AdcSample {
    /// The chip-defined code of each variant.
    pub open spec fn spec_into_bits(self) -> u8 {
        match self {
            AdcSample::Bits15 => 0,
            AdcSample::Bits14 => 1,
            AdcSample::Bits13 => 2,
        }
    }

    /// The variant each code decodes to; total over all codes, undeclared
    /// codes falling back to the last declared variant in code order.
    pub open spec fn spec_from_bits(value: u8) -> Self {
        if value == 0 {
            AdcSample::Bits15
        } else if value == 1 {
            AdcSample::Bits14
        } else {
            AdcSample::Bits13
        }
    }

    pub fn into_bits(self) -> (r: u8)
        ensures
            r == self.spec_into_bits(),
    {
        match self {
            AdcSample::Bits15 => 0,
            AdcSample::Bits14 => 1,
            AdcSample::Bits13 => 2,
        }
    }

    pub fn from_bits(value: u8) -> (r: Self)
        ensures
            r == Self::spec_from_bits(value),
    {
        match value {
            0 => AdcSample::Bits15,
            1 => AdcSample::Bits14,
            _ => AdcSample::Bits13,
        }
    }

    /// Decoding the code of a variant yields that variant back.
    pub proof fn lemma_code_roundtrip(self)
        ensures
            Self::spec_from_bits(self.spec_into_bits()) == self,
    {
    }
}

/// ADC conversion enable command.
#[derive(Clone, Copy, Debug, PartialEq, Eq)]
pub enum AdcEn {
    Disable,
    Enable,
}

impl AdcEn {
    /// The chip-defined code of each variant.
    pub open spec fn spec_into_bits(self) -> u8 {
        match self {
            AdcEn::Disable => 0,
            AdcEn::Enable => 1,
        }
    }

    /// The variant each code decodes to; total over all codes, undeclared
    /// codes falling back to the last declared variant in code order.
    pub open spec fn spec_from_bits(value: u8) -> Self {
        if value == 0 {
            AdcEn::Disable
        } else {
            AdcEn::Enable
        }
    }

    pub fn into_bits(self) -> (r: u8)
        ensures
            r == self.spec_into_bits(),
    {
        match self {
            AdcEn::Disable => 0,
            AdcEn::Enable => 1,
        }
    }

    pub fn from_bits(value: u8) -> (r: Self)
        ensures
            r == Self::spec_from_bits(value),
    {
        match value {
            0 => AdcEn::Disable,
            _ => AdcEn::Enable,
        }
    }

    /// Decoding the code of a variant yields that variant back.
    pub proof fn lemma_code_roundtrip(self)
        ensures
            Self::spec_from_bits(self.spec_into_bits()) == self,
    {
    }
}

/// ADC conversion type selection.
#[derive(Clone, Copy, Debug, PartialEq, Eq)]
pub enum AdcRate {
    Continuous,
    OneShot,
}

impl AdcRate {
    /// The chip-defined code of each variant.
    pub open spec fn spec_into_bits(self) -> u8 {
        match self {
            AdcRate::Continuous => 0,
            AdcRate::OneShot => 1,
        }
    }

    /// The variant each code decodes to; total over all codes, undeclared
    /// codes falling back to the last declared variant in code order.
    pub open spec fn spec_from_bits(value: u8) -> Self {
        if value == 0 {
            AdcRate::Continuous
        } else {
            AdcRate::OneShot
        }
    }

    pub fn into_bits(self) -> (r: u8)
        ensures
            r == self.spec_into_bits(),
    {
        match self {
            AdcRate::Continuous => 0,
            AdcRate::OneShot => 1,
        }
    }

    pub fn from_bits(value: u8) -> (r: Self)
        ensures
            r == Self::spec_from_bits(value),
    {
        match value {
            0 => AdcRate::Continuous,
            _ => AdcRate::OneShot,
        }
    }

    /// Decoding the code of a variant yields that variant back.
    pub proof fn lemma_code_roundtrip(self)
        ensures
            Self::spec_from_bits(self.spec_into_bits()) == self,
    {
    }
}

} // verus!
