//! Charger Status 0 Register.

use vstd::prelude::*;

use crate::bits::field_get;
use crate::bits::field_set;
use crate::bits::get_field;
use crate::bits::lemma_set_preserves_rest;
use crate::bits::lemma_set_then_get_w1;
use crate::bits::lemma_set_then_get_w3;
use crate::bits::set_field;
use crate::registers::Register;

verus! {

/// Charger Status 0 Register: raw 16-bit value at bus address 0x1b.
#[derive(Clone, Copy, Debug, PartialEq, Eq)]
pub struct ChargerStatus0 {
    bits: u16,
}

impl Register for ChargerStatus0 {
    closed spec fn spec_bits(self) -> u16 {
        self.bits
    }

    open spec fn spec_addr() -> u8 {
        0x1b
    }

    closed spec fn spec_of_bits(bits: u16) -> Self {
        ChargerStatus0 { bits }
    }

    fn from_bits(bits: u16) -> (r: Self) {
        ChargerStatus0 { bits }
    }

    fn into_bits(self) -> (r: u16) {
        self.bits
    }

    fn addr() -> (r: u8) {
        0x1b
    }

    proof fn lemma_encode_decode(bits: u16) {
    }

    proof fn lemma_decode_encode(self) {
    }
}

impl ChargerStatus0 {
    /// The raw value the register holds immediately after device power-up.
    pub fn new() -> (r: Self)
        ensures
            r.spec_bits() == 0x0,
    {
        ChargerStatus0 { bits: 0x0 }
    }

    /// The status are latched until a read from host, if the fault
    pub fn fault_regn(&self) -> (r: Fault)
        ensures
            r == Fault::spec_from_bits(field_get(self.spec_bits(), 3, 0x1) as u8),
    {
        Fault::from_bits(get_field(self.bits, 3, 0x1) as u8)
    }

    /// The status are latched until a read from host, if the fault
    pub fn set_fault_regn(&mut self, value: Fault)
        ensures
            final(self).spec_bits() == field_set(
                old(self).spec_bits(),
                3,
                0x1,
                value.spec_into_bits() as u16,
            ),
            final(self).spec_bits() & !(0x1u16 << 3) == old(self).spec_bits() & !(0x1u16 << 3),
            Fault::spec_from_bits(field_get(final(self).spec_bits(), 3, 0x1) as u8)
                == value,
    {
        proof {
            lemma_set_preserves_rest(self.bits, 3, 0x1, value.spec_into_bits() as u16);
            lemma_set_then_get_w1(self.bits, 3, value.spec_into_bits() as u16);
            value.lemma_code_roundtrip();
        }
        let code: u16 = value.into_bits() as u16;
        self.bits = set_field(self.bits, 3, 0x1, code);
    }

    /// The status are latched until a read from host, if the fault
    pub fn fault_ocp(&self) -> (r: Fault)
        ensures
            r == Fault::spec_from_bits(field_get(self.spec_bits(), 5, 0x1) as u8),
    {
        Fault::from_bits(get_field(self.bits, 5, 0x1) as u8)
    }

    /// The status are latched until a read from host, if the fault
    pub fn set_fault_ocp(&mut self, value: Fault)
        ensures
            final(self).spec_bits() == field_set(
                old(self).spec_bits(),
                5,
                0x1,
                value.spec_into_bits() as u16,
            ),
            final(self).spec_bits() & !(0x1u16 << 5) == old(self).spec_bits() & !(0x1u16 << 5),
            Fault::spec_from_bits(field_get(final(self).spec_bits(), 5, 0x1) as u8)
                == value,
    {
        proof {
            lemma_set_preserves_rest(self.bits, 5, 0x1, value.spec_into_bits() as u16);
            lemma_set_then_get_w1(self.bits, 5, value.spec_into_bits() as u16);
            value.lemma_code_roundtrip();
        }
        let code: u16 = value.into_bits() as u16;
        self.bits = set_field(self.bits, 5, 0x1, code);
    }

    /// The status are latched until a read from host, if the fault
    pub fn fault_batovp(&self) -> (r: Fault)
        ensures
            r == Fault::spec_from_bits(field_get(self.spec_bits(), 7, 0x1) as u8),
    {
        Fault::from_bits(get_field(self.bits, 7, 0x1) as u8)
    }

    /// The status are latched until a read from host, if the fault
    pub fn set_fault_batovp(&mut self, value: Fault)
        ensures
            final(self).spec_bits() == field_set(
                old(self).spec_bits(),
                7,
                0x1,
                value.spec_into_bits() as u16,
            ),
            final(self).spec_bits() & !(0x1u16 << 7) == old(self).spec_bits() & !(0x1u16 << 7),
            Fault::spec_from_bits(field_get(final(self).spec_bits(), 7, 0x1) as u8)
                == value,
    {
        proof {
            lemma_set_preserves_rest(self.bits, 7, 0x1, value.spec_into_bits() as u16);
            lemma_set_then_get_w1(self.bits, 7, value.spec_into_bits() as u16);
            value.lemma_code_roundtrip();
        }
        let code: u16 = value.into_bits() as u16;
        self.bits = set_field(self.bits, 7, 0x1, code);
    }

    /// MODE pin program status.
    pub fn mode_stat(&self) -> (r: ModeStat)
        ensures
            r == ModeStat::spec_from_bits(field_get(self.spec_bits(), 8, 0x7) as u8),
    {
        ModeStat::from_bits(get_field(self.bits, 8, 0x7) as u8)
    }

    /// MODE pin program status.
    pub fn set_mode_stat(&mut self, value: ModeStat)
        ensures
            final(self).spec_bits() == field_set(
                old(self).spec_bits(),
                8,
                0x7,
                value.spec_into_bits() as u16,
            ),
            final(self).spec_bits() & !(0x7u16 << 8) == old(self).spec_bits() & !(0x7u16 << 8),
            ModeStat::spec_from_bits(field_get(final(self).spec_bits(), 8, 0x7) as u8)
                == value,
    {
        proof {
            lemma_set_preserves_rest(self.bits, 8, 0x7, value.spec_into_bits() as u16);
            lemma_set_then_get_w3(self.bits, 8, value.spec_into_bits() as u16);
            value.lemma_code_roundtrip();
        }
        let code: u16 = value.into_bits() as u16;
        self.bits = set_field(self.bits, 8, 0x7, code);
    }

    /// Temperature regulation status.
    pub fn treg_stat(&self) -> (r: TRegStat)
        ensures
            r == TRegStat::spec_from_bits(field_get(self.spec_bits(), 11, 0x1) as u8),
    {
        TRegStat::from_bits(get_field(self.bits, 11, 0x1) as u8)
    }

    /// Temperature regulation status.
    pub fn set_treg_stat(&mut self, value: TRegStat)
        ensures
            final(self).spec_bits() == field_set(
                old(self).spec_bits(),
                11,
                0x1,
                value.spec_into_bits() as u16,
            ),
            final(self).spec_bits() & !(0x1u16 << 11) == old(self).spec_bits() & !(0x1u16 << 11),
            TRegStat::spec_from_bits(field_get(final(self).spec_bits(), 11, 0x1) as u8)
                == value,
    {
        proof {
            lemma_set_preserves_rest(self.bits, 11, 0x1, value.spec_into_bits() as u16);
            lemma_set_then_get_w1(self.bits, 11, value.spec_into_bits() as u16);
            value.lemma_code_roundtrip();
        }
        let code: u16 = value.into_bits() as u16;
        self.bits = set_field(self.bits, 11, 0x1, code);
    }

    /// Charge safety timer status.
    pub fn chg_tmr_stat(&self) -> (r: ChgTmrStat)
        ensures
            r == ChgTmrStat::spec_from_bits(field_get(self.spec_bits(), 12, 0x1) as u8),
    {
        ChgTmrStat::from_bits(get_field(self.bits, 12, 0x1) as u8)
    }

    /// Charge safety timer status.
    pub fn set_chg_tmr_stat(&mut self, value: ChgTmrStat)
        ensures
            final(self).spec_bits() == field_set(
                old(self).spec_bits(),
                12,
                0x1,
                value.spec_into_bits() as u16,
            ),
            final(self).spec_bits() & !(0x1u16 << 12) == old(self).spec_bits() & !(0x1u16 << 12),
            ChgTmrStat::spec_from_bits(field_get(final(self).spec_bits(), 12, 0x1) as u8)
                == value,
    {
        proof {
            lemma_set_preserves_rest(self.bits, 12, 0x1, value.spec_into_bits() as u16);
            lemma_set_then_get_w1(self.bits, 12, value.spec_into_bits() as u16);
            value.lemma_code_roundtrip();
        }
        let code: u16 = value.into_bits() as u16;
        self.bits = set_field(self.bits, 12, 0x1, code);
    }

    /// Charge Cycle Status.
    pub fn chrg_stat(&self) -> (r: ChrgStat)
        ensures
            r == ChrgStat::spec_from_bits(field_get(self.spec_bits(), 13, 0x7) as u8),
    {
        ChrgStat::from_bits(get_field(self.bits, 13, 0x7) as u8)
    }

    /// Charge Cycle Status.
    pub fn set_chrg_stat(&mut self, value: ChrgStat)
        ensures
            final(self).spec_bits() == field_set(
                old(self).spec_bits(),
                13,
                0x7,
                value.spec_into_bits() as u16,
            ),
            final(self).spec_bits() & !(0x7u16 << 13) == old(self).spec_bits() & !(0x7u16 << 13),
            ChrgStat::spec_from_bits(field_get(final(self).spec_bits(), 13, 0x7) as u8)
                == value,
    {
        proof {
            lemma_set_preserves_rest(self.bits, 13, 0x7, value.spec_into_bits() as u16);
            lemma_set_then_get_w3(self.bits, 13, value.spec_into_bits() as u16);
            value.lemma_code_roundtrip();
        }
        let code: u16 = value.into_bits() as u16;
        self.bits = set_field(self.bits, 13, 0x7, code);
    }
}

/// The status are latched until a read from host, if the fault.
#[derive(Clone, Copy, Debug, PartialEq, Eq)]
pub enum Fault {
    NoFault,
    Fault,
}

impl Fault {
    /// The chip-defined code of each variant.
    pub open spec fn spec_into_bits(self) -> u8 {
        match self {
            Fault::NoFault => 0,
            Fault::Fault => 1,
        }
    }

    /// The variant each code decodes to; total over all codes, undeclared
    /// codes falling back to the last declared variant in code order.
    pub open spec fn spec_from_bits(value: u8) -> Self {
        if value == 0 {
            Fault::NoFault
        } else {
            Fault::Fault
        }
    }

    pub fn into_bits(self) -> (r: u8)
        ensures
            r == self.spec_into_bits(),
    {
        match self {
            Fault::NoFault => 0,
            Fault::Fault => 1,
        }
    }

    pub fn from_bits(value: u8) -> (r: Self)
        ensures
            r == Self::spec_from_bits(value),
    {
        match value {
            0 => Fault::NoFault,
            _ => Fault::Fault,
        }
    }

    /// Decoding the code of a variant yields that variant back.
    pub proof fn lemma_code_roundtrip(self)
        ensures
            Self::spec_from_bits(self.spec_into_bits()) == self,
    {
    }
}

/// MODE pin program status.
#[derive(Clone, Copy, Debug, PartialEq, Eq)]
pub enum ModeStat {
    QuasiDualNormalCompFsw600kHz,
    QuasiDualNormalCompFsw800kHz,
    QuasiDualSlowCompFsw600kHz,
    QuasiDualSlowCompFsw800kHz,
    NormalCompFsw600kHz,
    NormalCompFsw800kHz,
    SlowCompFsw600kHz,
    SlowCompFsw800kHz,
}

impl ModeStat {
    /// The chip-defined code of each variant.
    pub open spec fn spec_into_bits(self) -> u8 {
        match self {
            ModeStat::QuasiDualNormalCompFsw600kHz => 0,
            ModeStat::QuasiDualNormalCompFsw800kHz => 1,
            ModeStat::QuasiDualSlowCompFsw600kHz => 2,
            ModeStat::QuasiDualSlowCompFsw800kHz => 3,
            ModeStat::NormalCompFsw600kHz => 4,
            ModeStat::NormalCompFsw800kHz => 5,
            ModeStat::SlowCompFsw600kHz => 6,
            ModeStat::SlowCompFsw800kHz => 7,
        }
    }

    /// The variant each code decodes to; total over all codes, undeclared
    /// codes falling back to the last declared variant in code order.
    pub open spec fn spec_from_bits(value: u8) -> Self {
        if value == 0 {
            ModeStat::QuasiDualNormalCompFsw600kHz
        } else if value == 1 {
            ModeStat::QuasiDualNormalCompFsw800kHz
        } else if value == 2 {
            ModeStat::QuasiDualSlowCompFsw600kHz
        } else if value == 3 {
            ModeStat::QuasiDualSlowCompFsw800kHz
        } else if value == 4 {
            ModeStat::NormalCompFsw600kHz
        } else if value == 5 {
            ModeStat::NormalCompFsw800kHz
        } else if value == 6 {
            ModeStat::SlowCompFsw600kHz
        } else {
            ModeStat::SlowCompFsw800kHz
        }
    }

    pub fn into_bits(self) -> (r: u8)
        ensures
            r == self.spec_into_bits(),
    {
        match self {
            ModeStat::QuasiDualNormalCompFsw600kHz => 0,
            ModeStat::QuasiDualNormalCompFsw800kHz => 1,
            ModeStat::QuasiDualSlowCompFsw600kHz => 2,
            ModeStat::QuasiDualSlowCompFsw800kHz => 3,
            ModeStat::NormalCompFsw600kHz => 4,
            ModeStat::NormalCompFsw800kHz => 5,
            ModeStat::SlowCompFsw600kHz => 6,
            ModeStat::SlowCompFsw800kHz => 7,
        }
    }

    pub fn from_bits(value: u8) -> (r: Self)
        ensures
            r == Self::spec_from_bits(value),
    {
        match value {
            0 => ModeStat::QuasiDualNormalCompFsw600kHz,
            1 => ModeStat::QuasiDualNormalCompFsw800kHz,
            2 => ModeStat::QuasiDualSlowCompFsw600kHz,
            3 => ModeStat::QuasiDualSlowCompFsw800kHz,
            4 => ModeStat::NormalCompFsw600kHz,
            5 => ModeStat::NormalCompFsw800kHz,
            6 => ModeStat::SlowCompFsw600kHz,
            _ => ModeStat::SlowCompFsw800kHz,
        }
    }

    /// Decoding the code of a variant yields that variant back.
    pub proof fn lemma_code_roundtrip(self)
        ensures
            Self::spec_from_bits(self.spec_into_bits()) == self,
    {
    }
}

/// Temperature regulation status.
#[derive(Clone, Copy, Debug, PartialEq, Eq)]
pub enum TRegStat {
    NotRegulating,
    Regulating,
}

impl TRegStat {
    /// The chip-defined code of each variant.
    pub open spec fn spec_into_bits(self) -> u8 {
        match self {
            TRegStat::NotRegulating => 0,
            TRegStat::Regulating => 1,
        }
    }

    /// The variant each code decodes to; total over all codes, undeclared
    /// codes falling back to the last declared variant in code order.
    pub open spec fn spec_from_bits(value: u8) -> Self {
        if value == 0 {
            TRegStat::NotRegulating
        } else {
            TRegStat::Regulating
        }
    }

    pub fn into_bits(self) -> (r: u8)
        ensures
            r == self.spec_into_bits(),
    {
        match self {
            TRegStat::NotRegulating => 0,
            TRegStat::Regulating => 1,
        }
    }

    pub fn from_bits(value: u8) -> (r: Self)
        ensures
            r == Self::spec_from_bits(value),
    {
        match value {
            0 => TRegStat::NotRegulating,
            _ => TRegStat::Regulating,
        }
    }

    /// Decoding the code of a variant yields that variant back.
    pub proof fn lemma_code_roundtrip(self)
        ensures
            Self::spec_from_bits(self.spec_into_bits()) == self,
    {
    }
}

/// Charge safety timer status.
#[derive(Clone, Copy, Debug, PartialEq, Eq)]
pub enum ChgTmrStat {
    Normal,
    Expired,
}

impl ChgTmrStat {
    /// The chip-defined code of each variant.
    pub open spec fn spec_into_bits(self) -> u8 {
        match self {
            ChgTmrStat::Normal => 0,
            ChgTmrStat::Expired => 1,
        }
    }

    /// The variant each code decodes to; total over all codes, undeclared
    /// codes falling back to the last declared variant in code order.
    pub open spec fn spec_from_bits(value: u8) -> Self {
        if value == 0 {
            ChgTmrStat::Normal
        } else {
            ChgTmrStat::Expired
        }
    }

    pub fn into_bits(self) -> (r: u8)
        ensures
            r == self.spec_into_bits(),
    {
        match self {
            ChgTmrStat::Normal => 0,
            ChgTmrStat::Expired => 1,
        }
    }

    pub fn from_bits(value: u8) -> (r: Self)
        ensures
            r == Self::spec_from_bits(value),
    {
        match value {
            0 => ChgTmrStat::Normal,
            _ => ChgTmrStat::Expired,
        }
    }

    /// Decoding the code of a variant yields that variant back.
    pub proof fn lemma_code_roundtrip(self)
        ensures
            Self::spec_from_bits(self.spec_into_bits()) == self,
    {
    }
}

/// Charge Cycle Status.
#[derive(Clone, Copy, Debug, PartialEq, Eq)]
pub enum ChrgStat {
    NotCharging,
    TrickleCharge,
    PreCharge,
    FastChargeCC,
    FastChargeCV,
    ChargeTerminationDone,
}

impl ChrgStat {
    /// The chip-defined code of each variant.
    pub open spec fn spec_into_bits(self) -> u8 {
        match self {
            ChrgStat::NotCharging => 0,
            ChrgStat::TrickleCharge => 1,
            ChrgStat::PreCharge => 2,
            ChrgStat::FastChargeCC => 3,
            ChrgStat::FastChargeCV => 4,
            ChrgStat::ChargeTerminationDone => 7,
        }
    }

    /// The variant each code decodes to; total over all codes, undeclared
    /// codes falling back to the last declared variant in code order.
    pub open spec fn spec_from_bits(value: u8) -> Self {
        if value == 0 {
            ChrgStat::NotCharging
        } else if value == 1 {
            ChrgStat::TrickleCharge
        } else if value == 2 {
            ChrgStat::PreCharge
        } else if value == 3 {
            ChrgStat::FastChargeCC
        } else if value == 4 {
            ChrgStat::FastChargeCV
        } else {
            ChrgStat::ChargeTerminationDone
        }
    }

    pub fn into_bits(self) -> (r: u8)
        ensures
            r == self.spec_into_bits(),
    {
        match self {
            ChrgStat::NotCharging => 0,
            ChrgStat::TrickleCharge => 1,
            ChrgStat::PreCharge => 2,
            ChrgStat::FastChargeCC => 3,
            ChrgStat::FastChargeCV => 4,
            ChrgStat::ChargeTerminationDone => 7,
        }
    }

    pub fn from_bits(value: u8) -> (r: Self)
        ensures
            r == Self::spec_from_bits(value),
    {
        match value {
            0 => ChrgStat::NotCharging,
            1 => ChrgStat::TrickleCharge,
            2 => ChrgStat::PreCharge,
            3 => ChrgStat::FastChargeCC,
            4 => ChrgStat::FastChargeCV,
            _ => ChrgStat::ChargeTerminationDone,
        }
    }

    /// Decoding the code of a variant yields that variant back.
    pub proof fn lemma_code_roundtrip(self)
        ensures
            Self::spec_from_bits(self.spec_into_bits()) == self,
    {
    }
}

} // verus!
