//! Auto Charge Register.

use vstd::prelude::*;

use crate::bits::field_get;
use crate::bits::field_set;
use crate::bits::get_field;
use crate::bits::lemma_set_preserves_rest;
use crate::bits::lemma_set_then_get_w1;
use crate::bits::lemma_set_then_get_w2;
use crate::bits::lemma_set_then_get_w4;
use crate::bits::set_field;
use crate::registers::Register;
use crate::registers::AutoChg;

verus! {

/// Auto Charge Register: raw 16-bit value at bus address 0x1a.
#[derive(Clone, Copy, Debug, PartialEq, Eq)]
pub struct AutoCharge {
    bits: u16,
}

impl Register for AutoCharge {
    closed spec fn spec_bits(self) -> u16 {
        self.bits
    }

    open spec fn spec_addr() -> u8 {
        0x1a
    }

    closed spec fn spec_of_bits(bits: u16) -> Self {
        AutoCharge { bits }
    }

    fn from_bits(bits: u16) -> (r: Self) {
        AutoCharge { bits }
    }

    fn into_bits(self) -> (r: u16) {
        self.bits
    }

    fn addr() -> (r: u8) {
        0x1a
    }

    proof fn lemma_encode_decode(bits: u16) {
    }

    proof fn lemma_decode_encode(self) {
    }
}

impl AutoCharge {
    /// The raw value the register holds immediately after device power-up.
    pub fn new() -> (r: Self)
        ensures
            r.spec_bits() == 0x1c2,
    {
        AutoCharge { bits: 0x1c2 }
    }

    /// ACOV protection threshold adjustment.
    pub fn acov_adj(&self) -> (r: AcovProtection)
        ensures
            r == AcovProtection::spec_from_bits(field_get(self.spec_bits(), 0, 0x3) as u8),
    {
        AcovProtection::from_bits(get_field(self.bits, 0, 0x3) as u8)
    }

    /// ACOV protection threshold adjustment.
    pub fn set_acov_adj(&mut self, value: AcovProtection)
        ensures
            final(self).spec_bits() == field_set(
                old(self).spec_bits(),
                0,
                0x3,
                value.spec_into_bits() as u16,
            ),
            final(self).spec_bits() & !(0x3u16 << 0) == old(self).spec_bits() & !(0x3u16 << 0),
            AcovProtection::spec_from_bits(field_get(final(self).spec_bits(), 0, 0x3) as u8)
                == value,
    {
        proof {
            lemma_set_preserves_rest(self.bits, 0, 0x3, value.spec_into_bits() as u16);
            lemma_set_then_get_w2(self.bits, 0, value.spec_into_bits() as u16);
            value.lemma_code_roundtrip();
        }
        let code: u16 = value.into_bits() as u16;
        self.bits = set_field(self.bits, 0, 0x3, code);
    }

    /// Adjust TREG thermal deglitch time to trigger prochot profile
    pub fn thermal_deg(&self) -> (r: TRegDeg)
        ensures
            r == TRegDeg::spec_from_bits(field_get(self.spec_bits(), 2, 0x1) as u8),
    {
        TRegDeg::from_bits(get_field(self.bits, 2, 0x1) as u8)
    }

    /// Adjust TREG thermal deglitch time to trigger prochot profile
    pub fn set_thermal_deg(&mut self, value: TRegDeg)
        ensures
            final(self).spec_bits() == field_set(
                old(self).spec_bits(),
                2,
                0x1,
                value.spec_into_bits() as u16,
            ),
            final(self).spec_bits() & !(0x1u16 << 2) == old(self).spec_bits() & !(0x1u16 << 2),
            TRegDeg::spec_from_bits(field_get(final(self).spec_bits(), 2, 0x1) as u8)
                == value,
    {
        proof {
            lemma_set_preserves_rest(self.bits, 2, 0x1, value.spec_into_bits() as u16);
            lemma_set_then_get_w1(self.bits, 2, value.spec_into_bits() as u16);
            value.lemma_code_roundtrip();
        }
        let code: u16 = value.into_bits() as u16;
        self.bits = set_field(self.bits, 2, 0x1, code);
    }

    /// PROCHOT profile status bit for TREG thermal overheat
    pub fn stat_thermal(&self) -> (r: StatThermal)
        ensures
            r == StatThermal::spec_from_bits(field_get(self.spec_bits(), 3, 0x1) as u8),
    {
        StatThermal::from_bits(get_field(self.bits, 3, 0x1) as u8)
    }

    /// PROCHOT profile status bit for TREG thermal overheat
    pub fn set_stat_thermal(&mut self, value: StatThermal)
        ensures
            final(self).spec_bits() == field_set(
                old(self).spec_bits(),
                3,
                0x1,
                value.spec_into_bits() as u16,
            ),
            final(self).spec_bits() & !(0x1u16 << 3) == old(self).spec_bits() & !(0x1u16 << 3),
            StatThermal::spec_from_bits(field_get(final(self).spec_bits(), 3, 0x1) as u8)
                == value,
    {
        proof {
            lemma_set_preserves_rest(self.bits, 3, 0x1, value.spec_into_bits() as u16);
            lemma_set_then_get_w1(self.bits, 3, value.spec_into_bits() as u16);
            value.lemma_code_roundtrip();
        }
        let code: u16 = value.into_bits() as u16;
        self.bits = set_field(self.bits, 3, 0x1, code);
    }

    /// Enable temperature regulation(TREG) for PROCHOT profile.
    pub fn pp_thermal(&self) -> (r: PPThermal)
        ensures
            r == PPThermal::spec_from_bits(field_get(self.spec_bits(), 4, 0x1) as u8),
    {
        PPThermal::from_bits(get_field(self.bits, 4, 0x1) as u8)
    }

    /// Enable temperature regulation(TREG) for PROCHOT profile.
    pub fn set_pp_thermal(&mut self, value: PPThermal)
        ensures
            final(self).spec_bits() == field_set(
                old(self).spec_bits(),
                4,
                0x1,
                value.spec_into_bits() as u16,
            ),
            final(self).spec_bits() & !(0x1u16 << 4) == old(self).spec_bits() & !(0x1u16 << 4),
            PPThermal::spec_from_bits(field_get(final(self).spec_bits(), 4, 0x1) as u8)
                == value,
    {
        proof {
            lemma_set_preserves_rest(self.bits, 4, 0x1, value.spec_into_bits() as u16);
            lemma_set_then_get_w1(self.bits, 4, value.spec_into_bits() as u16);
            value.lemma_code_roundtrip();
        }
        let code: u16 = value.into_bits() as u16;
        self.bits = set_field(self.bits, 4, 0x1, code);
    }

    /// Enable temperature regulation function and pull down CMPOUT
    pub fn en_treg(&self) -> (r: EnTReg)
        ensures
            r == EnTReg::spec_from_bits(field_get(self.spec_bits(), 5, 0x1) as u8),
    {
        EnTReg::from_bits(get_field(self.bits, 5, 0x1) as u8)
    }

    /// Enable temperature regulation function and pull down CMPOUT
    pub fn set_en_treg(&mut self, value: EnTReg)
        ensures
            final(self).spec_bits() == field_set(
                old(self).spec_bits(),
                5,
                0x1,
                value.spec_into_bits() as u16,
            ),
            final(self).spec_bits() & !(0x1u16 << 5) == old(self).spec_bits() & !(0x1u16 << 5),
            EnTReg::spec_from_bits(field_get(final(self).spec_bits(), 5, 0x1) as u8)
                == value,
    {
        proof {
            lemma_set_preserves_rest(self.bits, 5, 0x1, value.spec_into_bits() as u16);
            lemma_set_then_get_w1(self.bits, 5, value.spec_into_bits() as u16);
            value.lemma_code_roundtrip();
        }
        let code: u16 = value.into_bits() as u16;
        self.bits = set_field(self.bits, 5, 0x1, code);
    }

    /// Enable charge safety timer.
    pub fn en_chg_tmr(&self) -> (r: EnChgTmr)
        ensures
            r == EnChgTmr::spec_from_bits(field_get(self.spec_bits(), 6, 0x1) as u8),
    {
        EnChgTmr::from_bits(get_field(self.bits, 6, 0x1) as u8)
    }

    /// Enable charge safety timer.
    pub fn set_en_chg_tmr(&mut self, value: EnChgTmr)
        ensures
            final(self).spec_bits() == field_set(
                old(self).spec_bits(),
                6,
                0x1,
                value.spec_into_bits() as u16,
            ),
            final(self).spec_bits() & !(0x1u16 << 6) == old(self).spec_bits() & !(0x1u16 << 6),
            EnChgTmr::spec_from_bits(field_get(final(self).spec_bits(), 6, 0x1) as u8)
                == value,
    {
        proof {
            lemma_set_preserves_rest(self.bits, 6, 0x1, value.spec_into_bits() as u16);
            lemma_set_then_get_w1(self.bits, 6, value.spec_into_bits() as u16);
            value.lemma_code_roundtrip();
        }
        let code: u16 = value.into_bits() as u16;
        self.bits = set_field(self.bits, 6, 0x1, code);
    }

    /// Charge Safety Timer speed control.
    pub fn en_tmr2x(&self) -> (r: EnTmr2x)
        ensures
            r == EnTmr2x::spec_from_bits(field_get(self.spec_bits(), 7, 0x1) as u8),
    {
        EnTmr2x::from_bits(get_field(self.bits, 7, 0x1) as u8)
    }

    /// Charge Safety Timer speed control.
    pub fn set_en_tmr2x(&mut self, value: EnTmr2x)
        ensures
            final(self).spec_bits() == field_set(
                old(self).spec_bits(),
                7,
                0x1,
                value.spec_into_bits() as u16,
            ),
            final(self).spec_bits() & !(0x1u16 << 7) == old(self).spec_bits() & !(0x1u16 << 7),
            EnTmr2x::spec_from_bits(field_get(final(self).spec_bits(), 7, 0x1) as u8)
                == value,
    {
        proof {
            lemma_set_preserves_rest(self.bits, 7, 0x1, value.spec_into_bits() as u16);
            lemma_set_then_get_w1(self.bits, 7, value.spec_into_bits() as u16);
            value.lemma_code_roundtrip();
        }
        let code: u16 = value.into_bits() as u16;
        self.bits = set_field(self.bits, 7, 0x1, code);
    }

    /// Automatic Charge Safety Timer control.
    pub fn chg_tmr(&self) -> (r: ChgTmr)
        ensures
            r == ChgTmr::spec_from_bits(field_get(self.spec_bits(), 8, 0x3) as u8),
    {
        ChgTmr::from_bits(get_field(self.bits, 8, 0x3) as u8)
    }

    /// Automatic Charge Safety Timer control.
    pub fn set_chg_tmr(&mut self, value: ChgTmr)
        ensures
            final(self).spec_bits() == field_set(
                old(self).spec_bits(),
                8,
                0x3,
                value.spec_into_bits() as u16,
            ),
            final(self).spec_bits() & !(0x3u16 << 8) == old(self).spec_bits() & !(0x3u16 << 8),
            ChgTmr::spec_from_bits(field_get(final(self).spec_bits(), 8, 0x3) as u8)
                == value,
    {
        proof {
            lemma_set_preserves_rest(self.bits, 8, 0x3, value.spec_into_bits() as u16);
            lemma_set_then_get_w2(self.bits, 8, value.spec_into_bits() as u16);
            value.lemma_code_roundtrip();
        }
        let code: u16 = value.into_bits() as u16;
        self.bits = set_field(self.bits, 8, 0x3, code);
    }

    /// Battery automatic recharge threshold below CHARGE_VOLTAGE():
    pub fn vrechg(&self) -> (r: u16)
        ensures
            r == field_get(self.spec_bits(), 10, 0xf),
            r <= 0xf,
    {
        get_field(self.bits, 10, 0xf)
    }

    /// Battery automatic recharge threshold below CHARGE_VOLTAGE():
    pub fn set_vrechg(&mut self, value: u16)
        requires
            value <= 0xf,
        ensures
            final(self).spec_bits() == field_set(old(self).spec_bits(), 10, 0xf, value),
            final(self).spec_bits() & !(0xfu16 << 10) == old(self).spec_bits() & !(0xfu16 << 10),
            field_get(final(self).spec_bits(), 10, 0xf) == value,
    {
        proof {
            lemma_set_preserves_rest(self.bits, 10, 0xf, value);
            lemma_set_then_get_w4(self.bits, 10, value);
        }
        self.bits = set_field(self.bits, 10, 0xf, value);
    }

    /// Enable CHRG_OK pin for interrupt function.
    pub fn chrg_ok_int(&self) -> (r: ChrgOkInt)
        ensures
            r == ChrgOkInt::spec_from_bits(field_get(self.spec_bits(), 14, 0x1) as u8),
    {
        ChrgOkInt::from_bits(get_field(self.bits, 14, 0x1) as u8)
    }

    /// Enable CHRG_OK pin for interrupt function.
    pub fn set_chrg_ok_int(&mut self, value: ChrgOkInt)
        ensures
            final(self).spec_bits() == field_set(
                old(self).spec_bits(),
                14,
                0x1,
                value.spec_into_bits() as u16,
            ),
            final(self).spec_bits() & !(0x1u16 << 14) == old(self).spec_bits() & !(0x1u16 << 14),
            ChrgOkInt::spec_from_bits(field_get(final(self).spec_bits(), 14, 0x1) as u8)
                == value,
    {
        proof {
            lemma_set_preserves_rest(self.bits, 14, 0x1, value.spec_into_bits() as u16);
            lemma_set_then_get_w1(self.bits, 14, value.spec_into_bits() as u16);
            value.lemma_code_roundtrip();
        }
        let code: u16 = value.into_bits() as u16;
        self.bits = set_field(self.bits, 14, 0x1, code);
    }

    /// Automatic charge control (recharge and terminate battery
    pub fn en_auto_chg(&self) -> (r: AutoChg)
        ensures
            r == AutoChg::spec_from_bits(field_get(self.spec_bits(), 15, 0x1) as u8),
    {
        AutoChg::from_bits(get_field(self.bits, 15, 0x1) as u8)
    }

    /// Automatic charge control (recharge and terminate battery
    pub fn set_en_auto_chg(&mut self, value: AutoChg)
        ensures
            final(self).spec_bits() == field_set(
                old(self).spec_bits(),
                15,
                0x1,
                value.spec_into_bits() as u16,
            ),
            final(self).spec_bits() & !(0x1u16 << 15) == old(self).spec_bits() & !(0x1u16 << 15),
            AutoChg::spec_from_bits(field_get(final(self).spec_bits(), 15, 0x1) as u8)
                == value,
    {
        proof {
            lemma_set_preserves_rest(self.bits, 15, 0x1, value.spec_into_bits() as u16);
            lemma_set_then_get_w1(self.bits, 15, value.spec_into_bits() as u16);
            value.lemma_code_roundtrip();
        }
        let code: u16 = value.into_bits() as u16;
        self.bits = set_field(self.bits, 15, 0x1, code);
    }
}

/// ACOV protection threshold adjustment.
#[derive(Clone, Copy, Debug, PartialEq, Eq)]
pub enum AcovProtection {
    Threshold20V,
    Threshold25V,
    Threshold33V,
    Threshold41V,
}

impl AcovProtection {
    /// The chip-defined code of each variant.
    pub open spec fn spec_into_bits(self) -> u8 {
        match self {
            AcovProtection::Threshold20V => 0,
            AcovProtection::Threshold25V => 1,
            AcovProtection::Threshold33V => 2,
            AcovProtection::Threshold41V => 3,
        }
    }

    /// The variant each code decodes to; total over all codes, undeclared
    /// codes falling back to the last declared variant in code order.
    pub open spec fn spec_from_bits(value: u8) -> Self {
        if value == 0 {
            AcovProtection::Threshold20V
        } else if value == 1 {
            AcovProtection::Threshold25V
        } else if value == 2 {
            AcovProtection::Threshold33V
        } else {
            AcovProtection::Threshold41V
        }
    }

    pub fn into_bits(self) -> (r: u8)
        ensures
            r == self.spec_into_bits(),
    {
        match self {
            AcovProtection::Threshold20V => 0,
            AcovProtection::Threshold25V => 1,
            AcovProtection::Threshold33V => 2,
            AcovProtection::Threshold41V => 3,
        }
    }

    pub fn from_bits(value: u8) -> (r: Self)
        ensures
            r == Self::spec_from_bits(value),
    {
        match value {
            0 => AcovProtection::Threshold20V,
            1 => AcovProtection::Threshold25V,
            2 => AcovProtection::Threshold33V,
            _ => AcovProtection::Threshold41V,
        }
    }

    /// Decoding the code of a variant yields that variant back.
    pub proof fn lemma_code_roundtrip(self)
        ensures
            Self::spec_from_bits(self.spec_into_bits()) == self,
    {
    }
}

/// Adjust TREG thermal deglitch time to trigger prochot profile.
#[derive(Clone, Copy, Debug, PartialEq, Eq)]
pub enum TRegDeg {
    Time965ms,
    Time121ms,
}

impl TRegDeg {
    /// The chip-defined code of each variant.
    pub open spec fn spec_into_bits(self) -> u8 {
        match self {
            TRegDeg::Time965ms => 0,
            TRegDeg::Time121ms => 1,
        }
    }

    /// The variant each code decodes to; total over all codes, undeclared
    /// codes falling back to the last declared variant in code order.
    pub open spec fn spec_from_bits(value: u8) -> Self {
        if value == 0 {
            TRegDeg::Time965ms
        } else {
            TRegDeg::Time121ms
        }
    }

    pub fn into_bits(self) -> (r: u8)
        ensures
            r == self.spec_into_bits(),
    {
        match self {
            TRegDeg::Time965ms => 0,
            TRegDeg::Time121ms => 1,
        }
    }

    pub fn from_bits(value: u8) -> (r: Self)
        ensures
            r == Self::spec_from_bits(value),
    {
        match value {
            0 => TRegDeg::Time965ms,
            _ => TRegDeg::Time121ms,
        }
    }

    /// Decoding the code of a variant yields that variant back.
    pub proof fn lemma_code_roundtrip(self)
        ensures
            Self::spec_from_bits(self.spec_into_bits()) == self,
    {
    }
}

/// PROCHOT profile status bit for TREG thermal overheat.
#[derive(Clone, Copy, Debug, PartialEq, Eq)]
pub enum StatThermal {
    NotTriggered,
    Triggered,
}

impl StatThermal {
    /// The chip-defined code of each variant.
    pub open spec fn spec_into_bits(self) -> u8 {
        match self {
            StatThermal::NotTriggered => 0,
            StatThermal::Triggered => 1,
        }
    }

    /// The variant each code decodes to; total over all codes, undeclared
    /// codes falling back to the last declared variant in code order.
    pub open spec fn spec_from_bits(value: u8) -> Self {
        if value == 0 {
            StatThermal::NotTriggered
        } else {
            StatThermal::Triggered
        }
    }

    pub fn into_bits(self) -> (r: u8)
        ensures
            r == self.spec_into_bits(),
    {
        match self {
            StatThermal::NotTriggered => 0,
            StatThermal::Triggered => 1,
        }
    }

    pub fn from_bits(value: u8) -> (r: Self)
        ensures
            r == Self::spec_from_bits(value),
    {
        match value {
            0 => StatThermal::NotTriggered,
            _ => StatThermal::Triggered,
        }
    }

    /// Decoding the code of a variant yields that variant back.
    pub proof fn lemma_code_roundtrip(self)
        ensures
            Self::spec_from_bits(self.spec_into_bits()) == self,
    {
    }
}

/// Enable temperature regulation(TREG) for PROCHOT profile.
#[derive(Clone, Copy, Debug, PartialEq, Eq)]
pub enum PPThermal {
    Disable,
    Enable,
}

impl PPThermal {
    /// The chip-defined code of each variant.
    pub open spec fn spec_into_bits(self) -> u8 {
        match self {
            PPThermal::Disable => 0,
            PPThermal::Enable => 1,
        }
    }

    /// The variant each code decodes to; total over all codes, undeclared
    /// codes falling back to the last declared variant in code order.
    pub open spec fn spec_from_bits(value: u8) -> Self {
        if value == 0 {
            PPThermal::Disable
        } else {
            PPThermal::Enable
        }
    }

    pub fn into_bits(self) -> (r: u8)
        ensures
            r == self.spec_into_bits(),
    {
        match self {
            PPThermal::Disable => 0,
            PPThermal::Enable => 1,
        }
    }

    pub fn from_bits(value: u8) -> (r: Self)
        ensures
            r == Self::spec_from_bits(value),
    {
        match value {
            0 => PPThermal::Disable,
            _ => PPThermal::Enable,
        }
    }

    /// Decoding the code of a variant yields that variant back.
    pub proof fn lemma_code_roundtrip(self)
        ensures
            Self::spec_from_bits(self.spec_into_bits()) == self,
    {
    }
}

/// Enable temperature regulation function and pull down CMPOUT.
#[derive(Clone, Copy, Debug, PartialEq, Eq)]
pub enum EnTReg {
    Disable,
    Enable,
}

impl EnTReg {
    /// The chip-defined code of each variant.
    pub open spec fn spec_into_bits(self) -> u8 {
        match self {
            EnTReg::Disable => 0,
            EnTReg::Enable => 1,
        }
    }

    /// The variant each code decodes to; total over all codes, undeclared
    /// codes falling back to the last declared variant in code order.
    pub open spec fn spec_from_bits(value: u8) -> Self {
        if value == 0 {
            EnTReg::Disable
        } else {
            EnTReg::Enable
        }
    }

    pub fn into_bits(self) -> (r: u8)
        ensures
            r == self.spec_into_bits(),
    {
        match self {
            EnTReg::Disable => 0,
            EnTReg::Enable => 1,
        }
    }

    pub fn from_bits(value: u8) -> (r: Self)
        ensures
            r == Self::spec_from_bits(value),
    {
        match value {
            0 => EnTReg::Disable,
            _ => EnTReg::Enable,
        }
    }

    /// Decoding the code of a variant yields that variant back.
    pub proof fn lemma_code_roundtrip(self)
        ensures
            Self::spec_from_bits(self.spec_into_bits()) == self,
    {
    }
}

/// Enable charge safety timer.
#[derive(Clone, Copy, Debug, PartialEq, Eq)]
pub enum EnChgTmr {
    Disable,
    Enable,
}

impl EnChgTmr {
    /// The chip-defined code of each variant.
    pub open spec fn spec_into_bits(self) -> u8 {
        match self {
            EnChgTmr::Disable => 0,
            EnChgTmr::Enable => 1,
        }
    }

    /// The variant each code decodes to; total over all codes, undeclared
    /// codes falling back to the last declared variant in code order.
    pub open spec fn spec_from_bits(value: u8) -> Self {
        if value == 0 {
            EnChgTmr::Disable
        } else {
            EnChgTmr::Enable
        }
    }

    pub fn into_bits(self) -> (r: u8)
        ensures
            r == self.spec_into_bits(),
    {
        match self {
            EnChgTmr::Disable => 0,
            EnChgTmr::Enable => 1,
        }
    }

    pub fn from_bits(value: u8) -> (r: Self)
        ensures
            r == Self::spec_from_bits(value),
    {
        match value {
            0 => EnChgTmr::Disable,
            _ => EnChgTmr::Enable,
        }
    }

    /// Decoding the code of a variant yields that variant back.
    pub proof fn lemma_code_roundtrip(self)
        ensures
            Self::spec_from_bits(self.spec_into_bits()) == self,
    {
    }
}

/// Charge Safety Timer speed control.
#[derive(Clone, Copy, Debug, PartialEq, Eq)]
pub enum EnTmr2x {
    Normal,
    Slow,
}

impl EnTmr2x {
    /// The chip-defined code of each variant.
    pub open spec fn spec_into_bits(self) -> u8 {
        match self {
            EnTmr2x::Normal => 0,
            EnTmr2x::Slow => 1,
        }
    }

    /// The variant each code decodes to; total over all codes, undeclared
    /// codes falling back to the last declared variant in code order.
    pub open spec fn spec_from_bits(value: u8) -> Self {
        if value == 0 {
            EnTmr2x::Normal
        } else {
            EnTmr2x::Slow
        }
    }

    pub fn into_bits(self) -> (r: u8)
        ensures
            r == self.spec_into_bits(),
    {
        match self {
            EnTmr2x::Normal => 0,
            EnTmr2x::Slow => 1,
        }
    }

    pub fn from_bits(value: u8) -> (r: Self)
        ensures
            r == Self::spec_from_bits(value),
    {
        match value {
            0 => EnTmr2x::Normal,
            _ => EnTmr2x::Slow,
        }
    }

    /// Decoding the code of a variant yields that variant back.
    pub proof fn lemma_code_roundtrip(self)
        ensures
            Self::spec_from_bits(self.spec_into_bits()) == self,
    {
    }
}

/// Automatic Charge Safety Timer control.
#[derive(Clone, Copy, Debug, PartialEq, Eq)]
pub enum ChgTmr {
    Timer5h,
    Timer8h,
    Timer12h,
    Timer24h,
}

impl ChgTmr {
    /// The chip-defined code of each variant.
    pub open spec fn spec_into_bits(self) -> u8 {
        match self {
            ChgTmr::Timer5h => 0,
            ChgTmr::Timer8h => 1,
            ChgTmr::Timer12h => 2,
            ChgTmr::Timer24h => 3,
        }
    }

    /// The variant each code decodes to; total over all codes, undeclared
    /// codes falling back to the last declared variant in code order.
    pub open spec fn spec_from_bits(value: u8) -> Self {
        if value == 0 {
            ChgTmr::Timer5h
        } else if value == 1 {
            ChgTmr::Timer8h
        } else if value == 2 {
            ChgTmr::Timer12h
        } else {
            ChgTmr::Timer24h
        }
    }

    pub fn into_bits(self) -> (r: u8)
        ensures
            r == self.spec_into_bits(),
    {
        match self {
            ChgTmr::Timer5h => 0,
            ChgTmr::Timer8h => 1,
            ChgTmr::Timer12h => 2,
            ChgTmr::Timer24h => 3,
        }
    }

    pub fn from_bits(value: u8) -> (r: Self)
        ensures
            r == Self::spec_from_bits(value),
    {
        match value {
            0 => ChgTmr::Timer5h,
            1 => ChgTmr::Timer8h,
            2 => ChgTmr::Timer12h,
            _ => ChgTmr::Timer24h,
        }
    }

    /// Decoding the code of a variant yields that variant back.
    pub proof fn lemma_code_roundtrip(self)
        ensures
            Self::spec_from_bits(self.spec_into_bits()) == self,
    {
    }
}

/// Enable CHRG_OK pin for interrupt function.
#[derive(Clone, Copy, Debug, PartialEq, Eq)]
pub enum ChrgOkInt {
    Disable,
    Enable,
}

impl ChrgOkInt {
    /// The chip-defined code of each variant.
    pub open spec fn spec_into_bits(self) -> u8 {
        match self {
            ChrgOkInt::Disable => 0,
            ChrgOkInt::Enable => 1,
        }
    }

    /// The variant each code decodes to; total over all codes, undeclared
    /// codes falling back to the last declared variant in code order.
    pub open spec fn spec_from_bits(value: u8) -> Self {
        if value == 0 {
            ChrgOkInt::Disable
        } else {
            ChrgOkInt::Enable
        }
    }

    pub fn into_bits(self) -> (r: u8)
        ensures
            r == self.spec_into_bits(),
    {
        match self {
            ChrgOkInt::Disable => 0,
            ChrgOkInt::Enable => 1,
        }
    }

    pub fn from_bits(value: u8) -> (r: Self)
        ensures
            r == Self::spec_from_bits(value),
    {
        match value {
            0 => ChrgOkInt::Disable,
            _ => ChrgOkInt::Enable,
        }
    }

    /// Decoding the code of a variant yields that variant back.
    pub proof fn lemma_code_roundtrip(self)
        ensures
            Self::spec_from_bits(self.spec_into_bits()) == self,
    {
    }
}

} // verus!
