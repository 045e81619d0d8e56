//! Prochot Option 0.

use vstd::prelude::*;

use crate::bits::field_get;
use crate::bits::field_set;
use crate::bits::get_field;
use crate::bits::lemma_set_preserves_rest;
use crate::bits::lemma_set_then_get_w1;
use crate::bits::lemma_set_then_get_w2;
use crate::bits::lemma_set_then_get_w5;
use crate::bits::lemma_set_then_get_w6;
use crate::bits::set_field;
use crate::registers::Register;

verus! {

/// Prochot Option 0: raw 16-bit value at bus address 0x33.
#[derive(Clone, Copy, Debug, PartialEq, Eq)]
pub struct ProchotOption0 {
    bits: u16,
}

impl Register for ProchotOption0 {
    closed spec fn spec_bits(self) -> u16 {
        self.bits
    }

    open spec fn spec_addr() -> u8 {
        0x33
    }

    closed spec fn spec_of_bits(bits: u16) -> Self {
        ProchotOption0 { bits }
    }

    fn from_bits(bits: u16) -> (r: Self) {
        ProchotOption0 { bits }
    }

    fn into_bits(self) -> (r: u16) {
        self.bits
    }

    fn addr() -> (r: u8) {
        0x33
    }

    proof fn lemma_encode_decode(bits: u16) {
    }

    proof fn lemma_decode_encode(self) {
    }
}

impl ProchotOption0 {
    /// The raw value the register holds immediately after device power-up.
    pub fn new() -> (r: Self)
        ensures
            r.spec_bits() == 0x4a39,
    {
        ProchotOption0 { bits: 0x4a39 }
    }

    /// Enable lower threshold of PROCHOT_VINDPM comparator.
    pub fn lower_prohot_vindpm(&self) -> (r: LowerProchotVinDpm)
        ensures
            r == LowerProchotVinDpm::spec_from_bits(field_get(self.spec_bits(), 0, 0x1) as u8),
    {
        LowerProchotVinDpm::from_bits(get_field(self.bits, 0, 0x1) as u8)
    }

    /// Enable lower threshold of PROCHOT_VINDPM comparator.
    pub fn set_lower_prohot_vindpm(&mut self, value: LowerProchotVinDpm)
        ensures
            final(self).spec_bits() == field_set(
                old(self).spec_bits(),
                0,
                0x1,
                value.spec_into_bits() as u16,
            ),
            final(self).spec_bits() & !(0x1u16 << 0) == old(self).spec_bits() & !(0x1u16 << 0),
            LowerProchotVinDpm::spec_from_bits(field_get(final(self).spec_bits(), 0, 0x1) as u8)
                == value,
    {
        proof {
            lemma_set_preserves_rest(self.bits, 0, 0x1, value.spec_into_bits() as u16);
            lemma_set_then_get_w1(self.bits, 0, value.spec_into_bits() as u16);
            value.lemma_code_roundtrip();
        }
        let code: u16 = value.into_bits() as u16;
        self.bits = set_field(self.bits, 0, 0x1, code);
    }

    /// INOM deglitch time.
    pub fn inom_deg(&self) -> (r: InomDeg)
        ensures
            r == InomDeg::spec_from_bits(field_get(self.spec_bits(), 1, 0x1) as u8),
    {
        InomDeg::from_bits(get_field(self.bits, 1, 0x1) as u8)
    }

    /// INOM deglitch time.
    pub fn set_inom_deg(&mut self, value: InomDeg)
        ensures
            final(self).spec_bits() == field_set(
                old(self).spec_bits(),
                1,
                0x1,
                value.spec_into_bits() as u16,
            ),
            final(self).spec_bits() & !(0x1u16 << 1) == old(self).spec_bits() & !(0x1u16 << 1),
            InomDeg::spec_from_bits(field_get(final(self).spec_bits(), 1, 0x1) as u8)
                == value,
    {
        proof {
            lemma_set_preserves_rest(self.bits, 1, 0x1, value.spec_into_bits() as u16);
            lemma_set_then_get_w1(self.bits, 1, value.spec_into_bits() as u16);
            value.lemma_code_roundtrip();
        }
        let code: u16 = value.into_bits() as u16;
        self.bits = set_field(self.bits, 1, 0x1, code);
    }

    /// VSYS threshold to trigger discharging VBUS in VAP mode.
    pub fn vsys_th1(&self) -> (r: u16)
        ensures
            r == field_get(self.spec_bits(), 2, 0x3f),
            r <= 0x3f,
    {
        get_field(self.bits, 2, 0x3f)
    }

    /// VSYS threshold to trigger discharging VBUS in VAP mode.
    pub fn set_vsys_th1(&mut self, value: u16)
        requires
            value <= 0x3f,
        ensures
            final(self).spec_bits() == field_set(old(self).spec_bits(), 2, 0x3f, value),
            final(self).spec_bits() & !(0x3fu16 << 2) == old(self).spec_bits() & !(0x3fu16 << 2),
            field_get(final(self).spec_bits(), 2, 0x3f) == value,
    {
        proof {
            lemma_set_preserves_rest(self.bits, 2, 0x3f, value);
            lemma_set_then_get_w6(self.bits, 2, value);
        }
        self.bits = set_field(self.bits, 2, 0x3f, value);
    }

    /// Lower threshold of the PROCHOT_VINDPM comparator.
    pub fn prochot_vindpm_80_90(&self) -> (r: ProchotVinDpm)
        ensures
            r == ProchotVinDpm::spec_from_bits(field_get(self.spec_bits(), 8, 0x1) as u8),
    {
        ProchotVinDpm::from_bits(get_field(self.bits, 8, 0x1) as u8)
    }

    /// Lower threshold of the PROCHOT_VINDPM comparator.
    pub fn set_prochot_vindpm_80_90(&mut self, value: ProchotVinDpm)
        ensures
            final(self).spec_bits() == field_set(
                old(self).spec_bits(),
                8,
                0x1,
                value.spec_into_bits() as u16,
            ),
            final(self).spec_bits() & !(0x1u16 << 8) == old(self).spec_bits() & !(0x1u16 << 8),
            ProchotVinDpm::spec_from_bits(field_get(final(self).spec_bits(), 8, 0x1) as u8)
                == value,
    {
        proof {
            lemma_set_preserves_rest(self.bits, 8, 0x1, value.spec_into_bits() as u16);
            lemma_set_then_get_w1(self.bits, 8, value.spec_into_bits() as u16);
            value.lemma_code_roundtrip();
        }
        let code: u16 = value.into_bits() as u16;
        self.bits = set_field(self.bits, 8, 0x1, code);
    }

    /// ICRIT deglitch time to trigger PROCHOT.
    pub fn icrit_deg(&self) -> (r: IcritDeg)
        ensures
            r == IcritDeg::spec_from_bits(field_get(self.spec_bits(), 9, 0x3) as u8),
    {
        IcritDeg::from_bits(get_field(self.bits, 9, 0x3) as u8)
    }

    /// ICRIT deglitch time to trigger PROCHOT.
    pub fn set_icrit_deg(&mut self, value: IcritDeg)
        ensures
            final(self).spec_bits() == field_set(
                old(self).spec_bits(),
                9,
                0x3,
                value.spec_into_bits() as u16,
            ),
            final(self).spec_bits() & !(0x3u16 << 9) == old(self).spec_bits() & !(0x3u16 << 9),
            IcritDeg::spec_from_bits(field_get(final(self).spec_bits(), 9, 0x3) as u8)
                == value,
    {
        proof {
            lemma_set_preserves_rest(self.bits, 9, 0x3, value.spec_into_bits() as u16);
            lemma_set_then_get_w2(self.bits, 9, value.spec_into_bits() as u16);
            value.lemma_code_roundtrip();
        }
        let code: u16 = value.into_bits() as u16;
        self.bits = set_field(self.bits, 9, 0x3, code);
    }

    /// ILIM2 Threshold.
    pub fn ilim2_vth(&self) -> (r: Ilim2Vth)
        ensures
            r == Ilim2Vth::spec_from_bits(field_get(self.spec_bits(), 11, 0x1f) as u8),
    {
        Ilim2Vth::from_bits(get_field(self.bits, 11, 0x1f) as u8)
    }

    /// ILIM2 Threshold.
    pub fn set_ilim2_vth(&mut self, value: Ilim2Vth)
        ensures
            final(self).spec_bits() == field_set(
                old(self).spec_bits(),
                11,
                0x1f,
                value.spec_into_bits() as u16,
            ),
            final(self).spec_bits() & !(0x1fu16 << 11) == old(self).spec_bits() & !(0x1fu16 << 11),
            Ilim2Vth::spec_from_bits(field_get(final(self).spec_bits(), 11, 0x1f) as u8)
                == value,
    {
        proof {
            lemma_set_preserves_rest(self.bits, 11, 0x1f, value.spec_into_bits() as u16);
            lemma_set_then_get_w5(self.bits, 11, value.spec_into_bits() as u16);
            value.lemma_code_roundtrip();
        }
        let code: u16 = value.into_bits() as u16;
        self.bits = set_field(self.bits, 11, 0x1f, code);
    }
}

/// Enable lower threshold of PROCHOT_VINDPM comparator.
#[derive(Clone, Copy, Debug, PartialEq, Eq)]
pub enum LowerProchotVinDpm {
    Disable,
    Enable,
}

impl LowerProchotVinDpm {
    /// The chip-defined code of each variant.
    pub open spec fn spec_into_bits(self) -> u8 {
        match self {
            LowerProchotVinDpm::Disable => 0,
            LowerProchotVinDpm::Enable => 1,
        }
    }

    /// The variant each code decodes to; total over all codes, undeclared
    /// codes falling back to the last declared variant in code order.
    pub open spec fn spec_from_bits(value: u8) -> Self {
        if value == 0 {
            LowerProchotVinDpm::Disable
        } else {
            LowerProchotVinDpm::Enable
        }
    }

    pub fn into_bits(self) -> (r: u8)
        ensures
            r == self.spec_into_bits(),
    {
        match self {
            LowerProchotVinDpm::Disable => 0,
            LowerProchotVinDpm::Enable => 1,
        }
    }

    pub fn from_bits(value: u8) -> (r: Self)
        ensures
            r == Self::spec_from_bits(value),
    {
        match value {
            0 => LowerProchotVinDpm::Disable,
            _ => LowerProchotVinDpm::Enable,
        }
    }

    /// Decoding the code of a variant yields that variant back.
    pub proof fn lemma_code_roundtrip(self)
        ensures
            Self::spec_from_bits(self.spec_into_bits()) == self,
    {
    }
}

/// INOM deglitch time.
#[derive(Clone, Copy, Debug, PartialEq, Eq)]
pub enum InomDeg {
    Time9880us,
    Time64000us,
}

impl InomDeg {
    /// The chip-defined code of each variant.
    pub open spec fn spec_into_bits(self) -> u8 {
        match self {
            InomDeg::Time9880us => 0,
            InomDeg::Time64000us => 1,
        }
    }

    /// The variant each code decodes to; total over all codes, undeclared
    /// codes falling back to the last declared variant in code order.
    pub open spec fn spec_from_bits(value: u8) -> Self {
        if value == 0 {
            InomDeg::Time9880us
        } else {
            InomDeg::Time64000us
        }
    }

    pub fn into_bits(self) -> (r: u8)
        ensures
            r == self.spec_into_bits(),
    {
        match self {
            InomDeg::Time9880us => 0,
            InomDeg::Time64000us => 1,
        }
    }

    pub fn from_bits(value: u8) -> (r: Self)
        ensures
            r == Self::spec_from_bits(value),
    {
        match value {
            0 => InomDeg::Time9880us,
            _ => InomDeg::Time64000us,
        }
    }

    /// Decoding the code of a variant yields that variant back.
    pub proof fn lemma_code_roundtrip(self)
        ensures
            Self::spec_from_bits(self.spec_into_bits()) == self,
    {
    }
}

/// Lower threshold of the PROCHOT_VINDPM comparator.
#[derive(Clone, Copy, Debug, PartialEq, Eq)]
pub enum ProchotVinDpm {
    VinDpm83,
    VinDpm91,
}

impl ProchotVinDpm {
    /// The chip-defined code of each variant.
    pub open spec fn spec_into_bits(self) -> u8 {
        match self {
            ProchotVinDpm::VinDpm83 => 0,
            ProchotVinDpm::VinDpm91 => 1,
        }
    }

    /// The variant each code decodes to; total over all codes, undeclared
    /// codes falling back to the last declared variant in code order.
    pub open spec fn spec_from_bits(value: u8) -> Self {
        if value == 0 {
            ProchotVinDpm::VinDpm83
        } else {
            ProchotVinDpm::VinDpm91
        }
    }

    pub fn into_bits(self) -> (r: u8)
        ensures
            r == self.spec_into_bits(),
    {
        match self {
            ProchotVinDpm::VinDpm83 => 0,
            ProchotVinDpm::VinDpm91 => 1,
        }
    }

    pub fn from_bits(value: u8) -> (r: Self)
        ensures
            r == Self::spec_from_bits(value),
    {
        match value {
            0 => ProchotVinDpm::VinDpm83,
            _ => ProchotVinDpm::VinDpm91,
        }
    }

    /// Decoding the code of a variant yields that variant back.
    pub proof fn lemma_code_roundtrip(self)
        ensures
            Self::spec_from_bits(self.spec_into_bits()) == self,
    {
    }
}

/// ICRIT deglitch time to trigger PROCHOT.
#[derive(Clone, Copy, Debug, PartialEq, Eq)]
pub enum IcritDeg {
    Time14_5us,
    Time111us,
    Time443us,
    Time873us,
}

impl IcritDeg {
    /// The chip-defined code of each variant.
    pub open spec fn spec_into_bits(self) -> u8 {
        match self {
            IcritDeg::Time14_5us => 0,
            IcritDeg::Time111us => 1,
            IcritDeg::Time443us => 2,
            IcritDeg::Time873us => 3,
        }
    }

    /// The variant each code decodes to; total over all codes, undeclared
    /// codes falling back to the last declared variant in code order.
    pub open spec fn spec_from_bits(value: u8) -> Self {
        if value == 0 {
            IcritDeg::Time14_5us
        } else if value == 1 {
            IcritDeg::Time111us
        } else if value == 2 {
            IcritDeg::Time443us
        } else {
            IcritDeg::Time873us
        }
    }

    pub fn into_bits(self) -> (r: u8)
        ensures
            r == self.spec_into_bits(),
    {
        match self {
            IcritDeg::Time14_5us => 0,
            IcritDeg::Time111us => 1,
            IcritDeg::Time443us => 2,
            IcritDeg::Time873us => 3,
        }
    }

    pub fn from_bits(value: u8) -> (r: Self)
        ensures
            r == Self::spec_from_bits(value),
    {
        match value {
            0 => IcritDeg::Time14_5us,
            1 => IcritDeg::Time111us,
            2 => IcritDeg::Time443us,
            _ => IcritDeg::Time873us,
        }
    }

    /// Decoding the code of a variant yields that variant back.
    pub proof fn lemma_code_roundtrip(self)
        ensures
            Self::spec_from_bits(self.spec_into_bits()) == self,
    {
    }
}

/// ILIM2 Threshold.
#[derive(Clone, Copy, Debug, PartialEq, Eq)]
pub enum Ilim2Vth {
    Percent110,
    Percent115,
    Percent120,
    Percent125,
    Percent130,
    Percent135,
    Percent140,
    Percent145,
    Percent150,
    Percent155,
    Percent160,
    Percent165,
    Percent170,
    Percent175,
    Percent180,
    Percent185,
    Percent190,
    Percent195,
    Percent200,
    Percent205,
    Percent210,
    Percent215,
    Percent220,
    Percent225,
    Percent230,
    Percent250,
    Percent300,
    Percent350,
    Percent400,
    Percent450,
}

impl Ilim2Vth {
    /// The chip-defined code of each variant.
    pub open spec fn spec_into_bits(self) -> u8 {
        match self {
            Ilim2Vth::Percent110 => 1,
            Ilim2Vth::Percent115 => 2,
            Ilim2Vth::Percent120 => 3,
            Ilim2Vth::Percent125 => 4,
            Ilim2Vth::Percent130 => 5,
            Ilim2Vth::Percent135 => 6,
            Ilim2Vth::Percent140 => 7,
            Ilim2Vth::Percent145 => 8,
            Ilim2Vth::Percent150 => 9,
            Ilim2Vth::Percent155 => 10,
            Ilim2Vth::Percent160 => 11,
            Ilim2Vth::Percent165 => 12,
            Ilim2Vth::Percent170 => 13,
            Ilim2Vth::Percent175 => 14,
            Ilim2Vth::Percent180 => 15,
            Ilim2Vth::Percent185 => 16,
            Ilim2Vth::Percent190 => 17,
            Ilim2Vth::Percent195 => 18,
            Ilim2Vth::Percent200 => 19,
            Ilim2Vth::Percent205 => 20,
            Ilim2Vth::Percent210 => 21,
            Ilim2Vth::Percent215 => 22,
            Ilim2Vth::Percent220 => 23,
            Ilim2Vth::Percent225 => 24,
            Ilim2Vth::Percent230 => 25,
            Ilim2Vth::Percent250 => 26,
            Ilim2Vth::Percent300 => 27,
            Ilim2Vth::Percent350 => 28,
            Ilim2Vth::Percent400 => 29,
            Ilim2Vth::Percent450 => 30,
        }
    }

    /// The variant each code decodes to; total over all codes, undeclared
    /// codes falling back to the last declared variant in code order.
    pub open spec fn spec_from_bits(value: u8) -> Self {
        if value == 1 {
            Ilim2Vth::Percent110
        } else if value == 2 {
            Ilim2Vth::Percent115
        } else if value == 3 {
            Ilim2Vth::Percent120
        } else if value == 4 {
            Ilim2Vth::Percent125
        } else if value == 5 {
            Ilim2Vth::Percent130
        } else if value == 6 {
            Ilim2Vth::Percent135
        } else if value == 7 {
            Ilim2Vth::Percent140
        } else if value == 8 {
            Ilim2Vth::Percent145
        } else if value == 9 {
            Ilim2Vth::Percent150
        } else if value == 10 {
            Ilim2Vth::Percent155
        } else if value == 11 {
            Ilim2Vth::Percent160
        } else if value == 12 {
            Ilim2Vth::Percent165
        } else if value == 13 {
            Ilim2Vth::Percent170
        } else if value == 14 {
            Ilim2Vth::Percent175
        } else if value == 15 {
            Ilim2Vth::Percent180
        } else if value == 16 {
            Ilim2Vth::Percent185
        } else if value == 17 {
            Ilim2Vth::Percent190
        } else if value == 18 {
            Ilim2Vth::Percent195
        } else if value == 19 {
            Ilim2Vth::Percent200
        } else if value == 20 {
            Ilim2Vth::Percent205
        } else if value == 21 {
            Ilim2Vth::Percent210
        } else if value == 22 {
            Ilim2Vth::Percent215
        } else if value == 23 {
            Ilim2Vth::Percent220
        } else if value == 24 {
            Ilim2Vth::Percent225
        } else if value == 25 {
            Ilim2Vth::Percent230
        } else if value == 26 {
            Ilim2Vth::Percent250
        } else if value == 27 {
            Ilim2Vth::Percent300
        } else if value == 28 {
            Ilim2Vth::Percent350
        } else if value == 29 {
            Ilim2Vth::Percent400
        } else {
            Ilim2Vth::Percent450
        }
    }

    pub fn into_bits(self) -> (r: u8)
        ensures
            r == self.spec_into_bits(),
    {
        match self {
            Ilim2Vth::Percent110 => 1,
            Ilim2Vth::Percent115 => 2,
            Ilim2Vth::Percent120 => 3,
            Ilim2Vth::Percent125 => 4,
            Ilim2Vth::Percent130 => 5,
            Ilim2Vth::Percent135 => 6,
            Ilim2Vth::Percent140 => 7,
            Ilim2Vth::Percent145 => 8,
            Ilim2Vth::Percent150 => 9,
            Ilim2Vth::Percent155 => 10,
            Ilim2Vth::Percent160 => 11,
            Ilim2Vth::Percent165 => 12,
            Ilim2Vth::Percent170 => 13,
            Ilim2Vth::Percent175 => 14,
            Ilim2Vth::Percent180 => 15,
            Ilim2Vth::Percent185 => 16,
            Ilim2Vth::Percent190 => 17,
            Ilim2Vth::Percent195 => 18,
            Ilim2Vth::Percent200 => 19,
            Ilim2Vth::Percent205 => 20,
            Ilim2Vth::Percent210 => 21,
            Ilim2Vth::Percent215 => 22,
            Ilim2Vth::Percent220 => 23,
            Ilim2Vth::Percent225 => 24,
            Ilim2Vth::Percent230 => 25,
            Ilim2Vth::Percent250 => 26,
            Ilim2Vth::Percent300 => 27,
            Ilim2Vth::Percent350 => 28,
            Ilim2Vth::Percent400 => 29,
            Ilim2Vth::Percent450 => 30,
        }
    }

    pub fn from_bits(value: u8) -> (r: Self)
        ensures
            r == Self::spec_from_bits(value),
    {
        match value {
            1 => Ilim2Vth::Percent110,
            2 => Ilim2Vth::Percent115,
            3 => Ilim2Vth::Percent120,
            4 => Ilim2Vth::Percent125,
            5 => Ilim2Vth::Percent130,
            6 => Ilim2Vth::Percent135,
            7 => Ilim2Vth::Percent140,
            8 => Ilim2Vth::Percent145,
            9 => Ilim2Vth::Percent150,
            10 => Ilim2Vth::Percent155,
            11 => Ilim2Vth::Percent160,
            12 => Ilim2Vth::Percent165,
            13 => Ilim2Vth::Percent170,
            14 => Ilim2Vth::Percent175,
            15 => Ilim2Vth::Percent180,
            16 => Ilim2Vth::Percent185,
            17 => Ilim2Vth::Percent190,
            18 => Ilim2Vth::Percent195,
            19 => Ilim2Vth::Percent200,
            20 => Ilim2Vth::Percent205,
            21 => Ilim2Vth::Percent210,
            22 => Ilim2Vth::Percent215,
            23 => Ilim2Vth::Percent220,
            24 => Ilim2Vth::Percent225,
            25 => Ilim2Vth::Percent230,
            26 => Ilim2Vth::Percent250,
            27 => Ilim2Vth::Percent300,
            28 => Ilim2Vth::Percent350,
            29 => Ilim2Vth::Percent400,
            _ => Ilim2Vth::Percent450,
        }
    }

    /// Decoding the code of a variant yields that variant back.
    pub proof fn lemma_code_roundtrip(self)
        ensures
            Self::spec_from_bits(self.spec_into_bits()) == self,
    {
    }
}

} // verus!
