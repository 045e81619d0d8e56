//! Charge Option 0 Register.

use vstd::prelude::*;

use crate::bits::field_get;
use crate::bits::field_set;
use crate::bits::get_field;
use crate::bits::lemma_set_preserves_rest;
use crate::bits::lemma_set_then_get_w1;
use crate::bits::lemma_set_then_get_w2;
use crate::bits::lemma_set_then_get_w3;
use crate::bits::set_field;
use crate::registers::Register;
use crate::registers::WdRst;

verus! {

/// Charge Option 0 Register: raw 16-bit value at bus address 0x19.
#[derive(Clone, Copy, Debug, PartialEq, Eq)]
pub struct ChargeOption5 {
    bits: u16,
}

impl Register for ChargeOption5 {
    closed spec fn spec_bits(self) -> u16 {
        self.bits
    }

    open spec fn spec_addr() -> u8 {
        0x19
    }

    closed spec fn spec_of_bits(bits: u16) -> Self {
        ChargeOption5 { bits }
    }

    fn from_bits(bits: u16) -> (r: Self) {
        ChargeOption5 { bits }
    }

    fn into_bits(self) -> (r: u16) {
        self.bits
    }

    fn addr() -> (r: u8) {
        0x19
    }

    proof fn lemma_encode_decode(bits: u16) {
    }

    proof fn lemma_decode_encode(self) {
    }
}

impl ChargeOption5 {
    /// The raw value the register holds immediately after device power-up.
    pub fn new() -> (r: Self)
        ensures
            r.spec_bits() == 0x685,
    {
        ChargeOption5 { bits: 0x685 }
    }

    /// Adjust dual phase to single phase (phase dropping transition)
    pub fn ph_drop_deg(&self) -> (r: PhDropDeg)
        ensures
            r == PhDropDeg::spec_from_bits(field_get(self.spec_bits(), 0, 0x3) as u8),
    {
        PhDropDeg::from_bits(get_field(self.bits, 0, 0x3) as u8)
    }

    /// Adjust dual phase to single phase (phase dropping transition)
    pub fn set_ph_drop_deg(&mut self, value: PhDropDeg)
        ensures
            final(self).spec_bits() == field_set(
                old(self).spec_bits(),
                0,
                0x3,
                value.spec_into_bits() as u16,
            ),
            final(self).spec_bits() & !(0x3u16 << 0) == old(self).spec_bits() & !(0x3u16 << 0),
            PhDropDeg::spec_from_bits(field_get(final(self).spec_bits(), 0, 0x3) as u8)
                == value,
    {
        proof {
            lemma_set_preserves_rest(self.bits, 0, 0x3, value.spec_into_bits() as u16);
            lemma_set_then_get_w2(self.bits, 0, value.spec_into_bits() as u16);
            value.lemma_code_roundtrip();
        }
        let code: u16 = value.into_bits() as u16;
        self.bits = set_field(self.bits, 0, 0x3, code);
    }

    /// Adjust single phase to dual phase (phase adding transition)
    pub fn ph_add_deg(&self) -> (r: PhAddDeg)
        ensures
            r == PhAddDeg::spec_from_bits(field_get(self.spec_bits(), 2, 0x3) as u8),
    {
        PhAddDeg::from_bits(get_field(self.bits, 2, 0x3) as u8)
    }

    /// Adjust single phase to dual phase (phase adding transition)
    pub fn set_ph_add_deg(&mut self, value: PhAddDeg)
        ensures
            final(self).spec_bits() == field_set(
                old(self).spec_bits(),
                2,
                0x3,
                value.spec_into_bits() as u16,
            ),
            final(self).spec_bits() & !(0x3u16 << 2) == old(self).spec_bits() & !(0x3u16 << 2),
            PhAddDeg::spec_from_bits(field_get(final(self).spec_bits(), 2, 0x3) as u8)
                == value,
    {
        proof {
            lemma_set_preserves_rest(self.bits, 2, 0x3, value.spec_into_bits() as u16);
            lemma_set_then_get_w2(self.bits, 2, value.spec_into_bits() as u16);
            value.lemma_code_roundtrip();
        }
        let code: u16 = value.into_bits() as u16;
        self.bits = set_field(self.bits, 2, 0x3, code);
    }

    /// Force single phase operation under buck mode when quasi dual
    pub fn force_single(&self) -> (r: ForceSingle)
        ensures
            r == ForceSingle::spec_from_bits(field_get(self.spec_bits(), 4, 0x1) as u8),
    {
        ForceSingle::from_bits(get_field(self.bits, 4, 0x1) as u8)
    }

    /// Force single phase operation under buck mode when quasi dual
    pub fn set_force_single(&mut self, value: ForceSingle)
        ensures
            final(self).spec_bits() == field_set(
                old(self).spec_bits(),
                4,
                0x1,
                value.spec_into_bits() as u16,
            ),
            final(self).spec_bits() & !(0x1u16 << 4) == old(self).spec_bits() & !(0x1u16 << 4),
            ForceSingle::spec_from_bits(field_get(final(self).spec_bits(), 4, 0x1) as u8)
                == value,
    {
        proof {
            lemma_set_preserves_rest(self.bits, 4, 0x1, value.spec_into_bits() as u16);
            lemma_set_then_get_w1(self.bits, 4, value.spec_into_bits() as u16);
            value.lemma_code_roundtrip();
        }
        let code: u16 = value.into_bits() as u16;
        self.bits = set_field(self.bits, 4, 0x1, code);
    }

    /// Buck mode single to dual phase transition threshold adjustment
    pub fn single_dual_trans_th(&self) -> (r: BuckTransitionThreshold)
        ensures
            r == BuckTransitionThreshold::spec_from_bits(field_get(self.spec_bits(), 5, 0x7) as u8),
    {
        BuckTransitionThreshold::from_bits(get_field(self.bits, 5, 0x7) as u8)
    }

    /// Buck mode single to dual phase transition threshold adjustment
    pub fn set_single_dual_trans_th(&mut self, value: BuckTransitionThreshold)
        ensures
            final(self).spec_bits() == field_set(
                old(self).spec_bits(),
                5,
                0x7,
                value.spec_into_bits() as u16,
            ),
            final(self).spec_bits() & !(0x7u16 << 5) == old(self).spec_bits() & !(0x7u16 << 5),
            BuckTransitionThreshold::spec_from_bits(field_get(final(self).spec_bits(), 5, 0x7) as u8)
                == value,
    {
        proof {
            lemma_set_preserves_rest(self.bits, 5, 0x7, value.spec_into_bits() as u16);
            lemma_set_then_get_w3(self.bits, 5, value.spec_into_bits() as u16);
            value.lemma_code_roundtrip();
        }
        let code: u16 = value.into_bits() as u16;
        self.bits = set_field(self.bits, 5, 0x7, code);
    }

    /// Enable high duty cycle buck mode to maximum buck mode
    pub fn high_duty_buck(&self) -> (r: HighDutyBuck)
        ensures
            r == HighDutyBuck::spec_from_bits(field_get(self.spec_bits(), 8, 0x1) as u8),
    {
        HighDutyBuck::from_bits(get_field(self.bits, 8, 0x1) as u8)
    }

    /// Enable high duty cycle buck mode to maximum buck mode
    pub fn set_high_duty_buck(&mut self, value: HighDutyBuck)
        ensures
            final(self).spec_bits() == field_set(
                old(self).spec_bits(),
                8,
                0x1,
                value.spec_into_bits() as u16,
            ),
            final(self).spec_bits() & !(0x1u16 << 8) == old(self).spec_bits() & !(0x1u16 << 8),
            HighDutyBuck::spec_from_bits(field_get(final(self).spec_bits(), 8, 0x1) as u8)
                == value,
    {
        proof {
            lemma_set_preserves_rest(self.bits, 8, 0x1, value.spec_into_bits() as u16);
            lemma_set_then_get_w1(self.bits, 8, value.spec_into_bits() as u16);
            value.lemma_code_roundtrip();
        }
        let code: u16 = value.into_bits() as u16;
        self.bits = set_field(self.bits, 8, 0x1, code);
    }

    /// Disable BATCOC and configure BATCOC thresholds across SRP-SRN.
    pub fn batcoc_config(&self) -> (r: BatCocConfig)
        ensures
            r == BatCocConfig::spec_from_bits(field_get(self.spec_bits(), 9, 0x3) as u8),
    {
        BatCocConfig::from_bits(get_field(self.bits, 9, 0x3) as u8)
    }

    /// Disable BATCOC and configure BATCOC thresholds across SRP-SRN.
    pub fn set_batcoc_config(&mut self, value: BatCocConfig)
        ensures
            final(self).spec_bits() == field_set(
                old(self).spec_bits(),
                9,
                0x3,
                value.spec_into_bits() as u16,
            ),
            final(self).spec_bits() & !(0x3u16 << 9) == old(self).spec_bits() & !(0x3u16 << 9),
            BatCocConfig::spec_from_bits(field_get(final(self).spec_bits(), 9, 0x3) as u8)
                == value,
    {
        proof {
            lemma_set_preserves_rest(self.bits, 9, 0x3, value.spec_into_bits() as u16);
            lemma_set_then_get_w2(self.bits, 9, value.spec_into_bits() as u16);
            value.lemma_code_roundtrip();
        }
        let code: u16 = value.into_bits() as u16;
        self.bits = set_field(self.bits, 9, 0x3, code);
    }

    /// Enable REGN with scale down current 5mA capability under
    pub fn en_reg_lwpwr(&self) -> (r: RegnLwPwr)
        ensures
            r == RegnLwPwr::spec_from_bits(field_get(self.spec_bits(), 11, 0x1) as u8),
    {
        RegnLwPwr::from_bits(get_field(self.bits, 11, 0x1) as u8)
    }

    /// Enable REGN with scale down current 5mA capability under
    pub fn set_en_reg_lwpwr(&mut self, value: RegnLwPwr)
        ensures
            final(self).spec_bits() == field_set(
                old(self).spec_bits(),
                11,
                0x1,
                value.spec_into_bits() as u16,
            ),
            final(self).spec_bits() & !(0x1u16 << 11) == old(self).spec_bits() & !(0x1u16 << 11),
            RegnLwPwr::spec_from_bits(field_get(final(self).spec_bits(), 11, 0x1) as u8)
                == value,
    {
        proof {
            lemma_set_preserves_rest(self.bits, 11, 0x1, value.spec_into_bits() as u16);
            lemma_set_then_get_w1(self.bits, 11, value.spec_into_bits() as u16);
            value.lemma_code_roundtrip();
        }
        let code: u16 = value.into_bits() as u16;
        self.bits = set_field(self.bits, 11, 0x1, code);
    }

    /// Enable external 5V overdrive for REGN.
    pub fn regn_ext(&self) -> (r: RegnExt)
        ensures
            r == RegnExt::spec_from_bits(field_get(self.spec_bits(), 12, 0x1) as u8),
    {
        RegnExt::from_bits(get_field(self.bits, 12, 0x1) as u8)
    }

    /// Enable external 5V overdrive for REGN.
    pub fn set_regn_ext(&mut self, value: RegnExt)
        ensures
            final(self).spec_bits() == field_set(
                old(self).spec_bits(),
                12,
                0x1,
                value.spec_into_bits() as u16,
            ),
            final(self).spec_bits() & !(0x1u16 << 12) == old(self).spec_bits() & !(0x1u16 << 12),
            RegnExt::spec_from_bits(field_get(final(self).spec_bits(), 12, 0x1) as u8)
                == value,
    {
        proof {
            lemma_set_preserves_rest(self.bits, 12, 0x1, value.spec_into_bits() as u16);
            lemma_set_then_get_w1(self.bits, 12, value.spec_into_bits() as u16);
            value.lemma_code_roundtrip();
        }
        let code: u16 = value.into_bits() as u16;
        self.bits = set_field(self.bits, 12, 0x1, code);
    }

    /// CPMIN_TS pin function selection.
    pub fn cmpin_tr_select(&self) -> (r: Function)
        ensures
            r == Function::spec_from_bits(field_get(self.spec_bits(), 13, 0x1) as u8),
    {
        Function::from_bits(get_field(self.bits, 13, 0x1) as u8)
    }

    /// CPMIN_TS pin function selection.
    pub fn set_cmpin_tr_select(&mut self, value: Function)
        ensures
            final(self).spec_bits() == field_set(
                old(self).spec_bits(),
                13,
                0x1,
                value.spec_into_bits() as u16,
            ),
            final(self).spec_bits() & !(0x1u16 << 13) == old(self).spec_bits() & !(0x1u16 << 13),
            Function::spec_from_bits(field_get(final(self).spec_bits(), 13, 0x1) as u8)
                == value,
    {
        proof {
            lemma_set_preserves_rest(self.bits, 13, 0x1, value.spec_into_bits() as u16);
            lemma_set_then_get_w1(self.bits, 13, value.spec_into_bits() as u16);
            value.lemma_code_roundtrip();
        }
        let code: u16 = value.into_bits() as u16;
        self.bits = set_field(self.bits, 13, 0x1, code);
    }

    /// Reset watch dog timer control.
    pub fn wd_rst(&self) -> (r: WdRst)
        ensures
            r == WdRst::spec_from_bits(field_get(self.spec_bits(), 14, 0x1) as u8),
    {
        WdRst::from_bits(get_field(self.bits, 14, 0x1) as u8)
    }

    /// Reset watch dog timer control.
    pub fn set_wd_rst(&mut self, value: WdRst)
        ensures
            final(self).spec_bits() == field_set(
                old(self).spec_bits(),
                14,
                0x1,
                value.spec_into_bits() as u16,
            ),
            final(self).spec_bits() & !(0x1u16 << 14) == old(self).spec_bits() & !(0x1u16 << 14),
            WdRst::spec_from_bits(field_get(final(self).spec_bits(), 14, 0x1) as u8)
                == value,
    {
        proof {
            lemma_set_preserves_rest(self.bits, 14, 0x1, value.spec_into_bits() as u16);
            lemma_set_then_get_w1(self.bits, 14, value.spec_into_bits() as u16);
            value.lemma_code_roundtrip();
        }
        let code: u16 = value.into_bits() as u16;
        self.bits = set_field(self.bits, 14, 0x1, code);
    }

    /// Enable PTM auto exit under light load.
    pub fn ptm_exit_light_load(&self) -> (r: PtmAutoExit)
        ensures
            r == PtmAutoExit::spec_from_bits(field_get(self.spec_bits(), 15, 0x1) as u8),
    {
        PtmAutoExit::from_bits(get_field(self.bits, 15, 0x1) as u8)
    }

    /// Enable PTM auto exit under light load.
    pub fn set_ptm_exit_light_load(&mut self, value: PtmAutoExit)
        ensures
            final(self).spec_bits() == field_set(
                old(self).spec_bits(),
                15,
                0x1,
                value.spec_into_bits() as u16,
            ),
            final(self).spec_bits() & !(0x1u16 << 15) == old(self).spec_bits() & !(0x1u16 << 15),
            PtmAutoExit::spec_from_bits(field_get(final(self).spec_bits(), 15, 0x1) as u8)
                == value,
    {
        proof {
            lemma_set_preserves_rest(self.bits, 15, 0x1, value.spec_into_bits() as u16);
            lemma_set_then_get_w1(self.bits, 15, value.spec_into_bits() as u16);
            value.lemma_code_roundtrip();
        }
        let code: u16 = value.into_bits() as u16;
        self.bits = set_field(self.bits, 15, 0x1, code);
    }
}

/// Adjust dual phase to single phase (phase dropping transition).
#[derive(Clone, Copy, Debug, PartialEq, Eq)]
pub enum PhDropDeg {
    Time93us,
    Time1500us,
    Time11000us,
    Time94000us,
}

impl PhDropDeg {
    /// The chip-defined code of each variant.
    pub open spec fn spec_into_bits(self) -> u8 {
        match self {
            PhDropDeg::Time93us => 0,
            PhDropDeg::Time1500us => 1,
            PhDropDeg::Time11000us => 2,
            PhDropDeg::Time94000us => 3,
        }
    }

    /// The variant each code decodes to; total over all codes, undeclared
    /// codes falling back to the last declared variant in code order.
    pub open spec fn spec_from_bits(value: u8) -> Self {
        if value == 0 {
            PhDropDeg::Time93us
        } else if value == 1 {
            PhDropDeg::Time1500us
        } else if value == 2 {
            PhDropDeg::Time11000us
        } else {
            PhDropDeg::Time94000us
        }
    }

    pub fn into_bits(self) -> (r: u8)
        ensures
            r == self.spec_into_bits(),
    {
        match self {
            PhDropDeg::Time93us => 0,
            PhDropDeg::Time1500us => 1,
            PhDropDeg::Time11000us => 2,
            PhDropDeg::Time94000us => 3,
        }
    }

    pub fn from_bits(value: u8) -> (r: Self)
        ensures
            r == Self::spec_from_bits(value),
    {
        match value {
            0 => PhDropDeg::Time93us,
            1 => PhDropDeg::Time1500us,
            2 => PhDropDeg::Time11000us,
            _ => PhDropDeg::Time94000us,
        }
    }

    /// Decoding the code of a variant yields that variant back.
    pub proof fn lemma_code_roundtrip(self)
        ensures
            Self::spec_from_bits(self.spec_into_bits()) == self,
    {
    }
}

/// Adjust single phase to dual phase (phase adding transition).
#[derive(Clone, Copy, Debug, PartialEq, Eq)]
pub enum PhAddDeg {
    Time1700ns,
    Time5500ns,
    Time20000ns,
    Time86000ns,
}

impl PhAddDeg {
    /// The chip-defined code of each variant.
    pub open spec fn spec_into_bits(self) -> u8 {
        match self {
            PhAddDeg::Time1700ns => 0,
            PhAddDeg::Time5500ns => 1,
            PhAddDeg::Time20000ns => 2,
            PhAddDeg::Time86000ns => 3,
        }
    }

    /// The variant each code decodes to; total over all codes, undeclared
    /// codes falling back to the last declared variant in code order.
    pub open spec fn spec_from_bits(value: u8) -> Self {
        if value == 0 {
            PhAddDeg::Time1700ns
        } else if value == 1 {
            PhAddDeg::Time5500ns
        } else if value == 2 {
            PhAddDeg::Time20000ns
        } else {
            PhAddDeg::Time86000ns
        }
    }

    pub fn into_bits(self) -> (r: u8)
        ensures
            r == self.spec_into_bits(),
    {
        match self {
            PhAddDeg::Time1700ns => 0,
            PhAddDeg::Time5500ns => 1,
            PhAddDeg::Time20000ns => 2,
            PhAddDeg::Time86000ns => 3,
        }
    }

    pub fn from_bits(value: u8) -> (r: Self)
        ensures
            r == Self::spec_from_bits(value),
    {
        match value {
            0 => PhAddDeg::Time1700ns,
            1 => PhAddDeg::Time5500ns,
            2 => PhAddDeg::Time20000ns,
            _ => PhAddDeg::Time86000ns,
        }
    }

    /// Decoding the code of a variant yields that variant back.
    pub proof fn lemma_code_roundtrip(self)
        ensures
            Self::spec_from_bits(self.spec_into_bits()) == self,
    {
    }
}

/// Force single phase operation under buck mode when quasi dual.
#[derive(Clone, Copy, Debug, PartialEq, Eq)]
pub enum ForceSingle {
    Disable,
    Enable,
}

impl ForceSingle {
    /// The chip-defined code of each variant.
    pub open spec fn spec_into_bits(self) -> u8 {
        match self {
            ForceSingle::Disable => 0,
            ForceSingle::Enable => 1,
        }
    }

    /// The variant each code decodes to; total over all codes, undeclared
    /// codes falling back to the last declared variant in code order.
    pub open spec fn spec_from_bits(value: u8) -> Self {
        if value == 0 {
            ForceSingle::Disable
        } else {
            ForceSingle::Enable
        }
    }

    pub fn into_bits(self) -> (r: u8)
        ensures
            r == self.spec_into_bits(),
    {
        match self {
            ForceSingle::Disable => 0,
            ForceSingle::Enable => 1,
        }
    }

    pub fn from_bits(value: u8) -> (r: Self)
        ensures
            r == Self::spec_from_bits(value),
    {
        match value {
            0 => ForceSingle::Disable,
            _ => ForceSingle::Enable,
        }
    }

    /// Decoding the code of a variant yields that variant back.
    pub proof fn lemma_code_roundtrip(self)
        ensures
            Self::spec_from_bits(self.spec_into_bits()) == self,
    {
    }
}

/// Buck mode single to dual phase transition threshold adjustment.
#[derive(Clone, Copy, Debug, PartialEq, Eq)]
pub enum BuckTransitionThreshold {
    ForceDual,
    Current3A,
    Current4A,
    Current5A,
    Current6A,
    Current7A,
    Current8A,
    Current9A,
}

impl BuckTransitionThreshold {
    /// The chip-defined code of each variant.
    pub open spec fn spec_into_bits(self) -> u8 {
        match self {
            BuckTransitionThreshold::ForceDual => 0,
            BuckTransitionThreshold::Current3A => 1,
            BuckTransitionThreshold::Current4A => 2,
            BuckTransitionThreshold::Current5A => 3,
            BuckTransitionThreshold::Current6A => 4,
            BuckTransitionThreshold::Current7A => 5,
            BuckTransitionThreshold::Current8A => 6,
            BuckTransitionThreshold::Current9A => 7,
        }
    }

    /// The variant each code decodes to; total over all codes, undeclared
    /// codes falling back to the last declared variant in code order.
    pub open spec fn spec_from_bits(value: u8) -> Self {
        if value == 0 {
            BuckTransitionThreshold::ForceDual
        } else if value == 1 {
            BuckTransitionThreshold::Current3A
        } else if value == 2 {
            BuckTransitionThreshold::Current4A
        } else if value == 3 {
            BuckTransitionThreshold::Current5A
        } else if value == 4 {
            BuckTransitionThreshold::Current6A
        } else if value == 5 {
            BuckTransitionThreshold::Current7A
        } else if value == 6 {
            BuckTransitionThreshold::Current8A
        } else {
            BuckTransitionThreshold::Current9A
        }
    }

    pub fn into_bits(self) -> (r: u8)
        ensures
            r == self.spec_into_bits(),
    {
        match self {
            BuckTransitionThreshold::ForceDual => 0,
            BuckTransitionThreshold::Current3A => 1,
            BuckTransitionThreshold::Current4A => 2,
            BuckTransitionThreshold::Current5A => 3,
            BuckTransitionThreshold::Current6A => 4,
            BuckTransitionThreshold::Current7A => 5,
            BuckTransitionThreshold::Current8A => 6,
            BuckTransitionThreshold::Current9A => 7,
        }
    }

    pub fn from_bits(value: u8) -> (r: Self)
        ensures
            r == Self::spec_from_bits(value),
    {
        match value {
            0 => BuckTransitionThreshold::ForceDual,
            1 => BuckTransitionThreshold::Current3A,
            2 => BuckTransitionThreshold::Current4A,
            3 => BuckTransitionThreshold::Current5A,
            4 => BuckTransitionThreshold::Current6A,
            5 => BuckTransitionThreshold::Current7A,
            6 => BuckTransitionThreshold::Current8A,
            _ => BuckTransitionThreshold::Current9A,
        }
    }

    /// Decoding the code of a variant yields that variant back.
    pub proof fn lemma_code_roundtrip(self)
        ensures
            Self::spec_from_bits(self.spec_into_bits()) == self,
    {
    }
}

/// Enable high duty cycle buck mode to maximum buck mode.
#[derive(Clone, Copy, Debug, PartialEq, Eq)]
pub enum HighDutyBuck {
    Disable,
    Enable,
}

impl HighDutyBuck {
    /// The chip-defined code of each variant.
    pub open spec fn spec_into_bits(self) -> u8 {
        match self {
            HighDutyBuck::Disable => 0,
            HighDutyBuck::Enable => 1,
        }
    }

    /// The variant each code decodes to; total over all codes, undeclared
    /// codes falling back to the last declared variant in code order.
    pub open spec fn spec_from_bits(value: u8) -> Self {
        if value == 0 {
            HighDutyBuck::Disable
        } else {
            HighDutyBuck::Enable
        }
    }

    pub fn into_bits(self) -> (r: u8)
        ensures
            r == self.spec_into_bits(),
    {
        match self {
            HighDutyBuck::Disable => 0,
            HighDutyBuck::Enable => 1,
        }
    }

    pub fn from_bits(value: u8) -> (r: Self)
        ensures
            r == Self::spec_from_bits(value),
    {
        match value {
            0 => HighDutyBuck::Disable,
            _ => HighDutyBuck::Enable,
        }
    }

    /// Decoding the code of a variant yields that variant back.
    pub proof fn lemma_code_roundtrip(self)
        ensures
            Self::spec_from_bits(self.spec_into_bits()) == self,
    {
    }
}

/// Disable BATCOC and configure BATCOC thresholds across SRP-SRN.
#[derive(Clone, Copy, Debug, PartialEq, Eq)]
pub enum BatCocConfig {
    Disable,
    MiliVolts50,
    MiliVolts75,
    MiliVolts100,
}

impl BatCocConfig {
    /// The chip-defined code of each variant.
    pub open spec fn spec_into_bits(self) -> u8 {
        match self {
            BatCocConfig::Disable => 0,
            BatCocConfig::MiliVolts50 => 1,
            BatCocConfig::MiliVolts75 => 2,
            BatCocConfig::MiliVolts100 => 3,
        }
    }

    /// The variant each code decodes to; total over all codes, undeclared
    /// codes falling back to the last declared variant in code order.
    pub open spec fn spec_from_bits(value: u8) -> Self {
        if value == 0 {
            BatCocConfig::Disable
        } else if value == 1 {
            BatCocConfig::MiliVolts50
        } else if value == 2 {
            BatCocConfig::MiliVolts75
        } else {
            BatCocConfig::MiliVolts100
        }
    }

    pub fn into_bits(self) -> (r: u8)
        ensures
            r == self.spec_into_bits(),
    {
        match self {
            BatCocConfig::Disable => 0,
            BatCocConfig::MiliVolts50 => 1,
            BatCocConfig::MiliVolts75 => 2,
            BatCocConfig::MiliVolts100 => 3,
        }
    }

    pub fn from_bits(value: u8) -> (r: Self)
        ensures
            r == Self::spec_from_bits(value),
    {
        match value {
            0 => BatCocConfig::Disable,
            1 => BatCocConfig::MiliVolts50,
            2 => BatCocConfig::MiliVolts75,
            _ => BatCocConfig::MiliVolts100,
        }
    }

    /// Decoding the code of a variant yields that variant back.
    pub proof fn lemma_code_roundtrip(self)
        ensures
            Self::spec_from_bits(self.spec_into_bits()) == self,
    {
    }
}

/// Enable REGN with scale down current 5mA capability under.
#[derive(Clone, Copy, Debug, PartialEq, Eq)]
pub enum RegnLwPwr {
    Disable,
    Enable,
}

impl RegnLwPwr {
    /// The chip-defined code of each variant.
    pub open spec fn spec_into_bits(self) -> u8 {
        match self {
            RegnLwPwr::Disable => 0,
            RegnLwPwr::Enable => 1,
        }
    }

    /// The variant each code decodes to; total over all codes, undeclared
    /// codes falling back to the last declared variant in code order.
    pub open spec fn spec_from_bits(value: u8) -> Self {
        if value == 0 {
            RegnLwPwr::Disable
        } else {
            RegnLwPwr::Enable
        }
    }

    pub fn into_bits(self) -> (r: u8)
        ensures
            r == self.spec_into_bits(),
    {
        match self {
            RegnLwPwr::Disable => 0,
            RegnLwPwr::Enable => 1,
        }
    }

    pub fn from_bits(value: u8) -> (r: Self)
        ensures
            r == Self::spec_from_bits(value),
    {
        match value {
            0 => RegnLwPwr::Disable,
            _ => RegnLwPwr::Enable,
        }
    }

    /// Decoding the code of a variant yields that variant back.
    pub proof fn lemma_code_roundtrip(self)
        ensures
            Self::spec_from_bits(self.spec_into_bits()) == self,
    {
    }
}

/// Enable external 5V overdrive for REGN.
#[derive(Clone, Copy, Debug, PartialEq, Eq)]
pub enum RegnExt {
    Disable,
    Enable,
}

impl RegnExt {
    /// The chip-defined code of each variant.
    pub open spec fn spec_into_bits(self) -> u8 {
        match self {
            RegnExt::Disable => 0,
            RegnExt::Enable => 1,
        }
    }

    /// The variant each code decodes to; total over all codes, undeclared
    /// codes falling back to the last declared variant in code order.
    pub open spec fn spec_from_bits(value: u8) -> Self {
        if value == 0 {
            RegnExt::Disable
        } else {
            RegnExt::Enable
        }
    }

    pub fn into_bits(self) -> (r: u8)
        ensures
            r == self.spec_into_bits(),
    {
        match self {
            RegnExt::Disable => 0,
            RegnExt::Enable => 1,
        }
    }

    pub fn from_bits(value: u8) -> (r: Self)
        ensures
            r == Self::spec_from_bits(value),
    {
        match value {
            0 => RegnExt::Disable,
            _ => RegnExt::Enable,
        }
    }

    /// Decoding the code of a variant yields that variant back.
    pub proof fn lemma_code_roundtrip(self)
        ensures
            Self::spec_from_bits(self.spec_into_bits()) == self,
    {
    }
}

/// CPMIN_TS pin function selection.
#[derive(Clone, Copy, Debug, PartialEq, Eq)]
pub enum Function {
    Cmpin,
    Treg,
}

impl Function {
    /// The chip-defined code of each variant.
    pub open spec fn spec_into_bits(self) -> u8 {
        match self {
            Function::Cmpin => 0,
            Function::Treg => 1,
        }
    }

    /// The variant each code decodes to; total over all codes, undeclared
    /// codes falling back to the last declared variant in code order.
    pub open spec fn spec_from_bits(value: u8) -> Self {
        if value == 0 {
            Function::Cmpin
        } else {
            Function::Treg
        }
    }

    pub fn into_bits(self) -> (r: u8)
        ensures
            r == self.spec_into_bits(),
    {
        match self {
            Function::Cmpin => 0,
            Function::Treg => 1,
        }
    }

    pub fn from_bits(value: u8) -> (r: Self)
        ensures
            r == Self::spec_from_bits(value),
    {
        match value {
            0 => Function::Cmpin,
            _ => Function::Treg,
        }
    }

    /// Decoding the code of a variant yields that variant back.
    pub proof fn lemma_code_roundtrip(self)
        ensures
            Self::spec_from_bits(self.spec_into_bits()) == self,
    {
    }
}

/// Enable PTM auto exit under light load.
#[derive(Clone, Copy, Debug, PartialEq, Eq)]
pub enum PtmAutoExit {
    Disable,
    Enable,
}

impl PtmAutoExit {
    /// The chip-defined code of each variant.
    pub open spec fn spec_into_bits(self) -> u8 {
        match self {
            PtmAutoExit::Disable => 0,
            PtmAutoExit::Enable => 1,
        }
    }

    /// The variant each code decodes to; total over all codes, undeclared
    /// codes falling back to the last declared variant in code order.
    pub open spec fn spec_from_bits(value: u8) -> Self {
        if value == 0 {
            PtmAutoExit::Disable
        } else {
            PtmAutoExit::Enable
        }
    }

    pub fn into_bits(self) -> (r: u8)
        ensures
            r == self.spec_into_bits(),
    {
        match self {
            PtmAutoExit::Disable => 0,
            PtmAutoExit::Enable => 1,
        }
    }

    pub fn from_bits(value: u8) -> (r: Self)
        ensures
            r == Self::spec_from_bits(value),
    {
        match value {
            0 => PtmAutoExit::Disable,
            _ => PtmAutoExit::Enable,
        }
    }

    /// Decoding the code of a variant yields that variant back.
    pub proof fn lemma_code_roundtrip(self)
        ensures
            Self::spec_from_bits(self.spec_into_bits()) == self,
    {
    }
}

} // verus!
