//! Charge Option 0 Register.

use vstd::prelude::*;

use crate::bits::field_get;
use crate::bits::field_set;
use crate::bits::get_field;
use crate::bits::lemma_set_preserves_rest;
use crate::bits::lemma_set_then_get_w1;
use crate::bits::lemma_set_then_get_w2;
use crate::bits::lemma_set_then_get_w3;
use crate::bits::set_field;
use crate::registers::Register;

verus! {

/// Charge Option 0 Register: raw 16-bit value at bus address 0x36.
#[derive(Clone, Copy, Debug, PartialEq, Eq)]
pub struct ChargeOption4 {
    bits: u16,
}

impl Register for ChargeOption4 {
    closed spec fn spec_bits(self) -> u16 {
        self.bits
    }

    open spec fn spec_addr() -> u8 {
        0x36
    }

    closed spec fn spec_of_bits(bits: u16) -> Self {
        ChargeOption4 { bits }
    }

    fn from_bits(bits: u16) -> (r: Self) {
        ChargeOption4 { bits }
    }

    fn into_bits(self) -> (r: u16) {
        self.bits
    }

    fn addr() -> (r: u8) {
        0x36
    }

    proof fn lemma_encode_decode(bits: u16) {
    }

    proof fn lemma_decode_encode(self) {
    }
}

impl ChargeOption4 {
    /// The raw value the register holds immediately after device power-up.
    pub fn new() -> (r: Self)
        ensures
            r.spec_bits() == 0x48,
    {
        ChargeOption4 { bits: 0x48 }
    }

    /// PTM operation status bit monitor.
    pub fn stat_ptm(&self) -> (r: StatPtm)
        ensures
            r == StatPtm::spec_from_bits(field_get(self.spec_bits(), 0, 0x1) as u8),
    {
        StatPtm::from_bits(get_field(self.bits, 0, 0x1) as u8)
    }

    /// PTM operation status bit monitor.
    pub fn set_stat_ptm(&mut self, value: StatPtm)
        ensures
            final(self).spec_bits() == field_set(
                old(self).spec_bits(),
                0,
                0x1,
                value.spec_into_bits() as u16,
            ),
            final(self).spec_bits() & !(0x1u16 << 0) == old(self).spec_bits() & !(0x1u16 << 0),
            StatPtm::spec_from_bits(field_get(final(self).spec_bits(), 0, 0x1) as u8)
                == value,
    {
        proof {
            lemma_set_preserves_rest(self.bits, 0, 0x1, value.spec_into_bits() as u16);
            lemma_set_then_get_w1(self.bits, 0, value.spec_into_bits() as u16);
            value.lemma_code_roundtrip();
        }
        let code: u16 = value.into_bits() as u16;
        self.bits = set_field(self.bits, 0, 0x1, code);
    }

    /// The status is latched until a read from host.
    pub fn stat_idchg2(&self) -> (r: StatIdchg2)
        ensures
            r == StatIdchg2::spec_from_bits(field_get(self.spec_bits(), 1, 0x1) as u8),
    {
        StatIdchg2::from_bits(get_field(self.bits, 1, 0x1) as u8)
    }

    /// The status is latched until a read from host.
    pub fn set_stat_idchg2(&mut self, value: StatIdchg2)
        ensures
            final(self).spec_bits() == field_set(
                old(self).spec_bits(),
                1,
                0x1,
                value.spec_into_bits() as u16,
            ),
            final(self).spec_bits() & !(0x1u16 << 1) == old(self).spec_bits() & !(0x1u16 << 1),
            StatIdchg2::spec_from_bits(field_get(final(self).spec_bits(), 1, 0x1) as u8)
                == value,
    {
        proof {
            lemma_set_preserves_rest(self.bits, 1, 0x1, value.spec_into_bits() as u16);
            lemma_set_then_get_w1(self.bits, 1, value.spec_into_bits() as u16);
            value.lemma_code_roundtrip();
        }
        let code: u16 = value.into_bits() as u16;
        self.bits = set_field(self.bits, 1, 0x1, code);
    }

    /// Enable IDCHG_TH2 PROCHOT Profile.
    pub fn pp_idchg2(&self) -> (r: PPIdchg2)
        ensures
            r == PPIdchg2::spec_from_bits(field_get(self.spec_bits(), 2, 0x1) as u8),
    {
        PPIdchg2::from_bits(get_field(self.bits, 2, 0x1) as u8)
    }

    /// Enable IDCHG_TH2 PROCHOT Profile.
    pub fn set_pp_idchg2(&mut self, value: PPIdchg2)
        ensures
            final(self).spec_bits() == field_set(
                old(self).spec_bits(),
                2,
                0x1,
                value.spec_into_bits() as u16,
            ),
            final(self).spec_bits() & !(0x1u16 << 2) == old(self).spec_bits() & !(0x1u16 << 2),
            PPIdchg2::spec_from_bits(field_get(final(self).spec_bits(), 2, 0x1) as u8)
                == value,
    {
        proof {
            lemma_set_preserves_rest(self.bits, 2, 0x1, value.spec_into_bits() as u16);
            lemma_set_then_get_w1(self.bits, 2, value.spec_into_bits() as u16);
            value.lemma_code_roundtrip();
        }
        let code: u16 = value.into_bits() as u16;
        self.bits = set_field(self.bits, 2, 0x1, code);
    }

    /// Battery discharge current limit2 based on percentage of
    pub fn idchg_th2(&self) -> (r: Idchg2Threshold)
        ensures
            r == Idchg2Threshold::spec_from_bits(field_get(self.spec_bits(), 3, 0x7) as u8),
    {
        Idchg2Threshold::from_bits(get_field(self.bits, 3, 0x7) as u8)
    }

    /// Battery discharge current limit2 based on percentage of
    pub fn set_idchg_th2(&mut self, value: Idchg2Threshold)
        ensures
            final(self).spec_bits() == field_set(
                old(self).spec_bits(),
                3,
                0x7,
                value.spec_into_bits() as u16,
            ),
            final(self).spec_bits() & !(0x7u16 << 3) == old(self).spec_bits() & !(0x7u16 << 3),
            Idchg2Threshold::spec_from_bits(field_get(final(self).spec_bits(), 3, 0x7) as u8)
                == value,
    {
        proof {
            lemma_set_preserves_rest(self.bits, 3, 0x7, value.spec_into_bits() as u16);
            lemma_set_then_get_w3(self.bits, 3, value.spec_into_bits() as u16);
            value.lemma_code_roundtrip();
        }
        let code: u16 = value.into_bits() as u16;
        self.bits = set_field(self.bits, 3, 0x7, code);
    }

    /// Battery discharge current limit 2 deglitch time.
    pub fn idchg_deg2(&self) -> (r: IdchgDeg2)
        ensures
            r == IdchgDeg2::spec_from_bits(field_get(self.spec_bits(), 6, 0x3) as u8),
    {
        IdchgDeg2::from_bits(get_field(self.bits, 6, 0x3) as u8)
    }

    /// Battery discharge current limit 2 deglitch time.
    pub fn set_idchg_deg2(&mut self, value: IdchgDeg2)
        ensures
            final(self).spec_bits() == field_set(
                old(self).spec_bits(),
                6,
                0x3,
                value.spec_into_bits() as u16,
            ),
            final(self).spec_bits() & !(0x3u16 << 6) == old(self).spec_bits() & !(0x3u16 << 6),
            IdchgDeg2::spec_from_bits(field_get(final(self).spec_bits(), 6, 0x3) as u8)
                == value,
    {
        proof {
            lemma_set_preserves_rest(self.bits, 6, 0x3, value.spec_into_bits() as u16);
            lemma_set_then_get_w2(self.bits, 6, value.spec_into_bits() as u16);
            value.lemma_code_roundtrip();
        }
        let code: u16 = value.into_bits() as u16;
        self.bits = set_field(self.bits, 6, 0x3, code);
    }

    /// STAT_VBUS_VAP.
    pub fn stat_vbus_vap(&self) -> (r: StatVbusVap)
        ensures
            r == StatVbusVap::spec_from_bits(field_get(self.spec_bits(), 8, 0x1) as u8),
    {
        StatVbusVap::from_bits(get_field(self.bits, 8, 0x1) as u8)
    }

    /// STAT_VBUS_VAP.
    pub fn set_stat_vbus_vap(&mut self, value: StatVbusVap)
        ensures
            final(self).spec_bits() == field_set(
                old(self).spec_bits(),
                8,
                0x1,
                value.spec_into_bits() as u16,
            ),
            final(self).spec_bits() & !(0x1u16 << 8) == old(self).spec_bits() & !(0x1u16 << 8),
            StatVbusVap::spec_from_bits(field_get(final(self).spec_bits(), 8, 0x1) as u8)
                == value,
    {
        proof {
            lemma_set_preserves_rest(self.bits, 8, 0x1, value.spec_into_bits() as u16);
            lemma_set_then_get_w1(self.bits, 8, value.spec_into_bits() as u16);
            value.lemma_code_roundtrip();
        }
        let code: u16 = value.into_bits() as u16;
        self.bits = set_field(self.bits, 8, 0x1, code);
    }

    /// Enable VBUS_VAP PROCHOT Profile.
    pub fn pp_vbus_vap(&self) -> (r: PPVbusVap)
        ensures
            r == PPVbusVap::spec_from_bits(field_get(self.spec_bits(), 9, 0x1) as u8),
    {
        PPVbusVap::from_bits(get_field(self.bits, 9, 0x1) as u8)
    }

    /// Enable VBUS_VAP PROCHOT Profile.
    pub fn set_pp_vbus_vap(&mut self, value: PPVbusVap)
        ensures
            final(self).spec_bits() == field_set(
                old(self).spec_bits(),
                9,
                0x1,
                value.spec_into_bits() as u16,
            ),
            final(self).spec_bits() & !(0x1u16 << 9) == old(self).spec_bits() & !(0x1u16 << 9),
            PPVbusVap::spec_from_bits(field_get(final(self).spec_bits(), 9, 0x1) as u8)
                == value,
    {
        proof {
            lemma_set_preserves_rest(self.bits, 9, 0x1, value.spec_into_bits() as u16);
            lemma_set_then_get_w1(self.bits, 9, value.spec_into_bits() as u16);
            value.lemma_code_roundtrip();
        }
        let code: u16 = value.into_bits() as u16;
        self.bits = set_field(self.bits, 9, 0x1, code);
    }

    /// Disable VSYS_UVP Hiccup mode operation.
    pub fn vsys_uvp_no_hiccup(&self) -> (r: Hiccup)
        ensures
            r == Hiccup::spec_from_bits(field_get(self.spec_bits(), 10, 0x1) as u8),
    {
        Hiccup::from_bits(get_field(self.bits, 10, 0x1) as u8)
    }

    /// Disable VSYS_UVP Hiccup mode operation.
    pub fn set_vsys_uvp_no_hiccup(&mut self, value: Hiccup)
        ensures
            final(self).spec_bits() == field_set(
                old(self).spec_bits(),
                10,
                0x1,
                value.spec_into_bits() as u16,
            ),
            final(self).spec_bits() & !(0x1u16 << 10) == old(self).spec_bits() & !(0x1u16 << 10),
            Hiccup::spec_from_bits(field_get(final(self).spec_bits(), 10, 0x1) as u8)
                == value,
    {
        proof {
            lemma_set_preserves_rest(self.bits, 10, 0x1, value.spec_into_bits() as u16);
            lemma_set_then_get_w1(self.bits, 10, value.spec_into_bits() as u16);
            value.lemma_code_roundtrip();
        }
        let code: u16 = value.into_bits() as u16;
        self.bits = set_field(self.bits, 10, 0x1, code);
    }

    /// Frequency Dither configuration.
    pub fn en_dither(&self) -> (r: Dither)
        ensures
            r == Dither::spec_from_bits(field_get(self.spec_bits(), 11, 0x3) as u8),
    {
        Dither::from_bits(get_field(self.bits, 11, 0x3) as u8)
    }

    /// Frequency Dither configuration.
    pub fn set_en_dither(&mut self, value: Dither)
        ensures
            final(self).spec_bits() == field_set(
                old(self).spec_bits(),
                11,
                0x3,
                value.spec_into_bits() as u16,
            ),
            final(self).spec_bits() & !(0x3u16 << 11) == old(self).spec_bits() & !(0x3u16 << 11),
            Dither::spec_from_bits(field_get(final(self).spec_bits(), 11, 0x3) as u8)
                == value,
    {
        proof {
            lemma_set_preserves_rest(self.bits, 11, 0x3, value.spec_into_bits() as u16);
            lemma_set_then_get_w2(self.bits, 11, value.spec_into_bits() as u16);
            value.lemma_code_roundtrip();
        }
        let code: u16 = value.into_bits() as u16;
        self.bits = set_field(self.bits, 11, 0x3, code);
    }

    /// VSYS Under Voltage Lock Out After UVP is triggered the charger
    pub fn vsys_uvp(&self) -> (r: VsysUvp)
        ensures
            r == VsysUvp::spec_from_bits(field_get(self.spec_bits(), 13, 0x7) as u8),
    {
        VsysUvp::from_bits(get_field(self.bits, 13, 0x7) as u8)
    }

    /// VSYS Under Voltage Lock Out After UVP is triggered the charger
    pub fn set_vsys_uvp(&mut self, value: VsysUvp)
        ensures
            final(self).spec_bits() == field_set(
                old(self).spec_bits(),
                13,
                0x7,
                value.spec_into_bits() as u16,
            ),
            final(self).spec_bits() & !(0x7u16 << 13) == old(self).spec_bits() & !(0x7u16 << 13),
            VsysUvp::spec_from_bits(field_get(final(self).spec_bits(), 13, 0x7) as u8)
                == value,
    {
        proof {
            lemma_set_preserves_rest(self.bits, 13, 0x7, value.spec_into_bits() as u16);
            lemma_set_then_get_w3(self.bits, 13, value.spec_into_bits() as u16);
            value.lemma_code_roundtrip();
        }
        let code: u16 = value.into_bits() as u16;
        self.bits = set_field(self.bits, 13, 0x7, code);
    }
}

/// PTM operation status bit monitor.
#[derive(Clone, Copy, Debug, PartialEq, Eq)]
pub enum StatPtm {
    Inactive,
    Active,
}

impl StatPtm {
    /// The chip-defined code of each variant.
    pub open spec fn spec_into_bits(self) -> u8 {
        match self {
            StatPtm::Inactive => 0,
            StatPtm::Active => 1,
        }
    }

    /// The variant each code decodes to; total over all codes, undeclared
    /// codes falling back to the last declared variant in code order.
    pub open spec fn spec_from_bits(value: u8) -> Self {
        if value == 0 {
            StatPtm::Inactive
        } else {
            StatPtm::Active
        }
    }

    pub fn into_bits(self) -> (r: u8)
        ensures
            r == self.spec_into_bits(),
    {
        match self {
            StatPtm::Inactive => 0,
            StatPtm::Active => 1,
        }
    }

    pub fn from_bits(value: u8) -> (r: Self)
        ensures
            r == Self::spec_from_bits(value),
    {
        match value {
            0 => StatPtm::Inactive,
            _ => StatPtm::Active,
        }
    }

    /// Decoding the code of a variant yields that variant back.
    pub proof fn lemma_code_roundtrip(self)
        ensures
            Self::spec_from_bits(self.spec_into_bits()) == self,
    {
    }
}

/// The status is latched until a read from host.
#[derive(Clone, Copy, Debug, PartialEq, Eq)]
pub enum StatIdchg2 {
    NotTriggered,
    Triggered,
}

impl StatIdchg2 {
    /// The chip-defined code of each variant.
    pub open spec fn spec_into_bits(self) -> u8 {
        match self {
            StatIdchg2::NotTriggered => 0,
            StatIdchg2::Triggered => 1,
        }
    }

    /// The variant each code decodes to; total over all codes, undeclared
    /// codes falling back to the last declared variant in code order.
    pub open spec fn spec_from_bits(value: u8) -> Self {
        if value == 0 {
            StatIdchg2::NotTriggered
        } else {
            StatIdchg2::Triggered
        }
    }

    pub fn into_bits(self) -> (r: u8)
        ensures
            r == self.spec_into_bits(),
    {
        match self {
            StatIdchg2::NotTriggered => 0,
            StatIdchg2::Triggered => 1,
        }
    }

    pub fn from_bits(value: u8) -> (r: Self)
        ensures
            r == Self::spec_from_bits(value),
    {
        match value {
            0 => StatIdchg2::NotTriggered,
            _ => StatIdchg2::Triggered,
        }
    }

    /// Decoding the code of a variant yields that variant back.
    pub proof fn lemma_code_roundtrip(self)
        ensures
            Self::spec_from_bits(self.spec_into_bits()) == self,
    {
    }
}

/// Enable IDCHG_TH2 PROCHOT Profile.
#[derive(Clone, Copy, Debug, PartialEq, Eq)]
pub enum PPIdchg2 {
    Disable,
    Enable,
}

impl PPIdchg2 {
    /// The chip-defined code of each variant.
    pub open spec fn spec_into_bits(self) -> u8 {
        match self {
            PPIdchg2::Disable => 0,
            PPIdchg2::Enable => 1,
        }
    }

    /// The variant each code decodes to; total over all codes, undeclared
    /// codes falling back to the last declared variant in code order.
    pub open spec fn spec_from_bits(value: u8) -> Self {
        if value == 0 {
            PPIdchg2::Disable
        } else {
            PPIdchg2::Enable
        }
    }

    pub fn into_bits(self) -> (r: u8)
        ensures
            r == self.spec_into_bits(),
    {
        match self {
            PPIdchg2::Disable => 0,
            PPIdchg2::Enable => 1,
        }
    }

    pub fn from_bits(value: u8) -> (r: Self)
        ensures
            r == Self::spec_from_bits(value),
    {
        match value {
            0 => PPIdchg2::Disable,
            _ => PPIdchg2::Enable,
        }
    }

    /// Decoding the code of a variant yields that variant back.
    pub proof fn lemma_code_roundtrip(self)
        ensures
            Self::spec_from_bits(self.spec_into_bits()) == self,
    {
    }
}

/// Battery discharge current limit2 based on percentage of.
#[derive(Clone, Copy, Debug, PartialEq, Eq)]
pub enum Idchg2Threshold {
    Threshold125,
    Threshold150,
    Threshold175,
    Threshold200,
    Threshold250,
    Threshold300,
    Threshold350,
    Threshold400,
}

impl Idchg2Threshold {
    /// The chip-defined code of each variant.
    pub open spec fn spec_into_bits(self) -> u8 {
        match self {
            Idchg2Threshold::Threshold125 => 0,
            Idchg2Threshold::Threshold150 => 1,
            Idchg2Threshold::Threshold175 => 2,
            Idchg2Threshold::Threshold200 => 3,
            Idchg2Threshold::Threshold250 => 4,
            Idchg2Threshold::Threshold300 => 5,
            Idchg2Threshold::Threshold350 => 6,
            Idchg2Threshold::Threshold400 => 7,
        }
    }

    /// The variant each code decodes to; total over all codes, undeclared
    /// codes falling back to the last declared variant in code order.
    pub open spec fn spec_from_bits(value: u8) -> Self {
        if value == 0 {
            Idchg2Threshold::Threshold125
        } else if value == 1 {
            Idchg2Threshold::Threshold150
        } else if value == 2 {
            Idchg2Threshold::Threshold175
        } else if value == 3 {
            Idchg2Threshold::Threshold200
        } else if value == 4 {
            Idchg2Threshold::Threshold250
        } else if value == 5 {
            Idchg2Threshold::Threshold300
        } else if value == 6 {
            Idchg2Threshold::Threshold350
        } else {
            Idchg2Threshold::Threshold400
        }
    }

    pub fn into_bits(self) -> (r: u8)
        ensures
            r == self.spec_into_bits(),
    {
        match self {
            Idchg2Threshold::Threshold125 => 0,
            Idchg2Threshold::Threshold150 => 1,
            Idchg2Threshold::Threshold175 => 2,
            Idchg2Threshold::Threshold200 => 3,
            Idchg2Threshold::Threshold250 => 4,
            Idchg2Threshold::Threshold300 => 5,
            Idchg2Threshold::Threshold350 => 6,
            Idchg2Threshold::Threshold400 => 7,
        }
    }

    pub fn from_bits(value: u8) -> (r: Self)
        ensures
            r == Self::spec_from_bits(value),
    {
        match value {
            0 => Idchg2Threshold::Threshold125,
            1 => Idchg2Threshold::Threshold150,
            2 => Idchg2Threshold::Threshold175,
            3 => Idchg2Threshold::Threshold200,
            4 => Idchg2Threshold::Threshold250,
            5 => Idchg2Threshold::Threshold300,
            6 => Idchg2Threshold::Threshold350,
            _ => Idchg2Threshold::Threshold400,
        }
    }

    /// Decoding the code of a variant yields that variant back.
    pub proof fn lemma_code_roundtrip(self)
        ensures
            Self::spec_from_bits(self.spec_into_bits()) == self,
    {
    }
}

/// Battery discharge current limit 2 deglitch time.
#[derive(Clone, Copy, Debug, PartialEq, Eq)]
pub enum IdchgDeg2 {
    Time98us,
    Time1550us,
    Time6250us,
    Time12500us,
}

impl IdchgDeg2 {
    /// The chip-defined code of each variant.
    pub open spec fn spec_into_bits(self) -> u8 {
        match self {
            IdchgDeg2::Time98us => 0,
            IdchgDeg2::Time1550us => 1,
            IdchgDeg2::Time6250us => 2,
            IdchgDeg2::Time12500us => 3,
        }
    }

    /// The variant each code decodes to; total over all codes, undeclared
    /// codes falling back to the last declared variant in code order.
    pub open spec fn spec_from_bits(value: u8) -> Self {
        if value == 0 {
            IdchgDeg2::Time98us
        } else if value == 1 {
            IdchgDeg2::Time1550us
        } else if value == 2 {
            IdchgDeg2::Time6250us
        } else {
            IdchgDeg2::Time12500us
        }
    }

    pub fn into_bits(self) -> (r: u8)
        ensures
            r == self.spec_into_bits(),
    {
        match self {
            IdchgDeg2::Time98us => 0,
            IdchgDeg2::Time1550us => 1,
            IdchgDeg2::Time6250us => 2,
            IdchgDeg2::Time12500us => 3,
        }
    }

    pub fn from_bits(value: u8) -> (r: Self)
        ensures
            r == Self::spec_from_bits(value),
    {
        match value {
            0 => IdchgDeg2::Time98us,
            1 => IdchgDeg2::Time1550us,
            2 => IdchgDeg2::Time6250us,
            _ => IdchgDeg2::Time12500us,
        }
    }

    /// Decoding the code of a variant yields that variant back.
    pub proof fn lemma_code_roundtrip(self)
        ensures
            Self::spec_from_bits(self.spec_into_bits()) == self,
    {
    }
}

/// STAT_VBUS_VAP.
#[derive(Clone, Copy, Debug, PartialEq, Eq)]
pub enum StatVbusVap {
    NotTriggered,
    Triggered,
}

impl StatVbusVap {
    /// The chip-defined code of each variant.
    pub open spec fn spec_into_bits(self) -> u8 {
        match self {
            StatVbusVap::NotTriggered => 0,
            StatVbusVap::Triggered => 1,
        }
    }

    /// The variant each code decodes to; total over all codes, undeclared
    /// codes falling back to the last declared variant in code order.
    pub open spec fn spec_from_bits(value: u8) -> Self {
        if value == 0 {
            StatVbusVap::NotTriggered
        } else {
            StatVbusVap::Triggered
        }
    }

    pub fn into_bits(self) -> (r: u8)
        ensures
            r == self.spec_into_bits(),
    {
        match self {
            StatVbusVap::NotTriggered => 0,
            StatVbusVap::Triggered => 1,
        }
    }

    pub fn from_bits(value: u8) -> (r: Self)
        ensures
            r == Self::spec_from_bits(value),
    {
        match value {
            0 => StatVbusVap::NotTriggered,
            _ => StatVbusVap::Triggered,
        }
    }

    /// Decoding the code of a variant yields that variant back.
    pub proof fn lemma_code_roundtrip(self)
        ensures
            Self::spec_from_bits(self.spec_into_bits()) == self,
    {
    }
}

/// Enable VBUS_VAP PROCHOT Profile.
#[derive(Clone, Copy, Debug, PartialEq, Eq)]
pub enum PPVbusVap {
    Disable,
    Enable,
}

impl PPVbusVap {
    /// The chip-defined code of each variant.
    pub open spec fn spec_into_bits(self) -> u8 {
        match self {
            PPVbusVap::Disable => 0,
            PPVbusVap::Enable => 1,
        }
    }

    /// The variant each code decodes to; total over all codes, undeclared
    /// codes falling back to the last declared variant in code order.
    pub open spec fn spec_from_bits(value: u8) -> Self {
        if value == 0 {
            PPVbusVap::Disable
        } else {
            PPVbusVap::Enable
        }
    }

    pub fn into_bits(self) -> (r: u8)
        ensures
            r == self.spec_into_bits(),
    {
        match self {
            PPVbusVap::Disable => 0,
            PPVbusVap::Enable => 1,
        }
    }

    pub fn from_bits(value: u8) -> (r: Self)
        ensures
            r == Self::spec_from_bits(value),
    {
        match value {
            0 => PPVbusVap::Disable,
            _ => PPVbusVap::Enable,
        }
    }

    /// Decoding the code of a variant yields that variant back.
    pub proof fn lemma_code_roundtrip(self)
        ensures
            Self::spec_from_bits(self.spec_into_bits()) == self,
    {
    }
}

/// Disable VSYS_UVP Hiccup mode operation.
#[derive(Clone, Copy, Debug, PartialEq, Eq)]
pub enum Hiccup {
    Disable,
    Enable,
}

impl Hiccup {
    /// The chip-defined code of each variant.
    pub open spec fn spec_into_bits(self) -> u8 {
        match self {
            Hiccup::Disable => 0,
            Hiccup::Enable => 1,
        }
    }

    /// The variant each code decodes to; total over all codes, undeclared
    /// codes falling back to the last declared variant in code order.
    pub open spec fn spec_from_bits(value: u8) -> Self {
        if value == 0 {
            Hiccup::Disable
        } else {
            Hiccup::Enable
        }
    }

    pub fn into_bits(self) -> (r: u8)
        ensures
            r == self.spec_into_bits(),
    {
        match self {
            Hiccup::Disable => 0,
            Hiccup::Enable => 1,
        }
    }

    pub fn from_bits(value: u8) -> (r: Self)
        ensures
            r == Self::spec_from_bits(value),
    {
        match value {
            0 => Hiccup::Disable,
            _ => Hiccup::Enable,
        }
    }

    /// Decoding the code of a variant yields that variant back.
    pub proof fn lemma_code_roundtrip(self)
        ensures
            Self::spec_from_bits(self.spec_into_bits()) == self,
    {
    }
}

/// Frequency Dither configuration.
#[derive(Clone, Copy, Debug, PartialEq, Eq)]
pub enum Dither {
    Disable,
    Dither1x,
    Dither2x,
    Dither3x,
}

impl Dither {
    /// The chip-defined code of each variant.
    pub open spec fn spec_into_bits(self) -> u8 {
        match self {
            Dither::Disable => 0,
            Dither::Dither1x => 1,
            Dither::Dither2x => 2,
            Dither::Dither3x => 3,
        }
    }

    /// The variant each code decodes to; total over all codes, undeclared
    /// codes falling back to the last declared variant in code order.
    pub open spec fn spec_from_bits(value: u8) -> Self {
        if value == 0 {
            Dither::Disable
        } else if value == 1 {
            Dither::Dither1x
        } else if value == 2 {
            Dither::Dither2x
        } else {
            Dither::Dither3x
        }
    }

    pub fn into_bits(self) -> (r: u8)
        ensures
            r == self.spec_into_bits(),
    {
        match self {
            Dither::Disable => 0,
            Dither::Dither1x => 1,
            Dither::Dither2x => 2,
            Dither::Dither3x => 3,
        }
    }

    pub fn from_bits(value: u8) -> (r: Self)
        ensures
            r == Self::spec_from_bits(value),
    {
        match value {
            0 => Dither::Disable,
            1 => Dither::Dither1x,
            2 => Dither::Dither2x,
            _ => Dither::Dither3x,
        }
    }

    /// Decoding the code of a variant yields that variant back.
    pub proof fn lemma_code_roundtrip(self)
        ensures
            Self::spec_from_bits(self.spec_into_bits()) == self,
    {
    }
}

/// VSYS Under Voltage Lock Out After UVP is triggered the charger.
#[derive(Clone, Copy, Debug, PartialEq, Eq)]
pub enum VsysUvp {
    MilliVolt2400,
    MilliVolt3200,
    MilliVolt4000,
    MilliVolt4800,
    MilliVolt5600,
    MilliVolt6400,
    MilliVolt7200,
    MilliVolt8000,
}

impl VsysUvp {
    /// The chip-defined code of each variant.
    pub open spec fn spec_into_bits(self) -> u8 {
        match self {
            VsysUvp::MilliVolt2400 => 0,
            VsysUvp::MilliVolt3200 => 1,
            VsysUvp::MilliVolt4000 => 2,
            VsysUvp::MilliVolt4800 => 3,
            VsysUvp::MilliVolt5600 => 4,
            VsysUvp::MilliVolt6400 => 5,
            VsysUvp::MilliVolt7200 => 6,
            VsysUvp::MilliVolt8000 => 7,
        }
    }

    /// The variant each code decodes to; total over all codes, undeclared
    /// codes falling back to the last declared variant in code order.
    pub open spec fn spec_from_bits(value: u8) -> Self {
        if value == 0 {
            VsysUvp::MilliVolt2400
        } else if value == 1 {
            VsysUvp::MilliVolt3200
        } else if value == 2 {
            VsysUvp::MilliVolt4000
        } else if value == 3 {
            VsysUvp::MilliVolt4800
        } else if value == 4 {
            VsysUvp::MilliVolt5600
        } else if value == 5 {
            VsysUvp::MilliVolt6400
        } else if value == 6 {
            VsysUvp::MilliVolt7200
        } else {
            VsysUvp::MilliVolt8000
        }
    }

    pub fn into_bits(self) -> (r: u8)
        ensures
            r == self.spec_into_bits(),
    {
        match self {
            VsysUvp::MilliVolt2400 => 0,
            VsysUvp::MilliVolt3200 => 1,
            VsysUvp::MilliVolt4000 => 2,
            VsysUvp::MilliVolt4800 => 3,
            VsysUvp::MilliVolt5600 => 4,
            VsysUvp::MilliVolt6400 => 5,
            VsysUvp::MilliVolt7200 => 6,
            VsysUvp::MilliVolt8000 => 7,
        }
    }

    pub fn from_bits(value: u8) -> (r: Self)
        ensures
            r == Self::spec_from_bits(value),
    {
        match value {
            0 => VsysUvp::MilliVolt2400,
            1 => VsysUvp::MilliVolt3200,
            2 => VsysUvp::MilliVolt4000,
            3 => VsysUvp::MilliVolt4800,
            4 => VsysUvp::MilliVolt5600,
            5 => VsysUvp::MilliVolt6400,
            6 => VsysUvp::MilliVolt7200,
            _ => VsysUvp::MilliVolt8000,
        }
    }

    /// Decoding the code of a variant yields that variant back.
    pub proof fn lemma_code_roundtrip(self)
        ensures
            Self::spec_from_bits(self.spec_into_bits()) == self,
    {
    }
}

} // verus!
