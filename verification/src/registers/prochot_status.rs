//! Prochot Status Register.

use vstd::prelude::*;

use crate::bits::field_get;
use crate::bits::field_set;
use crate::bits::get_field;
use crate::bits::lemma_set_preserves_rest;
use crate::bits::lemma_set_then_get_w1;
use crate::bits::lemma_set_then_get_w2;
use crate::bits::set_field;
use crate::registers::Register;

verus! {

/// Prochot Status Register: raw 16-bit value at bus address 0x21.
#[derive(Clone, Copy, Debug, PartialEq, Eq)]
pub struct ProchotStatus {
    bits: u16,
}

impl Register for ProchotStatus {
    closed spec fn spec_bits(self) -> u16 {
        self.bits
    }

    open spec fn spec_addr() -> u8 {
        0x21
    }

    closed spec fn spec_of_bits(bits: u16) -> Self {
        ProchotStatus { bits }
    }

    fn from_bits(bits: u16) -> (r: Self) {
        ProchotStatus { bits }
    }

    fn into_bits(self) -> (r: u16) {
        self.bits
    }

    fn addr() -> (r: u8) {
        0x21
    }

    proof fn lemma_encode_decode(bits: u16) {
    }

    proof fn lemma_decode_encode(self) {
    }
}

impl ProchotStatus {
    /// The raw value the register holds immediately after device power-up.
    pub fn new() -> (r: Self)
        ensures
            r.spec_bits() == 0x3800,
    {
        ProchotStatus { bits: 0x3800 }
    }

    /// The status is latched until a read from host.
    pub fn stat_adapter_removal(&self) -> (r: StatAdapterRemoval)
        ensures
            r == StatAdapterRemoval::spec_from_bits(field_get(self.spec_bits(), 0, 0x1) as u8),
    {
        StatAdapterRemoval::from_bits(get_field(self.bits, 0, 0x1) as u8)
    }

    /// The status is latched until a read from host.
    pub fn set_stat_adapter_removal(&mut self, value: StatAdapterRemoval)
        ensures
            final(self).spec_bits() == field_set(
                old(self).spec_bits(),
                0,
                0x1,
                value.spec_into_bits() as u16,
            ),
            final(self).spec_bits() & !(0x1u16 << 0) == old(self).spec_bits() & !(0x1u16 << 0),
            StatAdapterRemoval::spec_from_bits(field_get(final(self).spec_bits(), 0, 0x1) as u8)
                == value,
    {
        proof {
            lemma_set_preserves_rest(self.bits, 0, 0x1, value.spec_into_bits() as u16);
            lemma_set_then_get_w1(self.bits, 0, value.spec_into_bits() as u16);
            value.lemma_code_roundtrip();
        }
        let code: u16 = value.into_bits() as u16;
        self.bits = set_field(self.bits, 0, 0x1, code);
    }

    /// The status is latched until a read from host.
    pub fn stat_battery_removal(&self) -> (r: StatBatteryRemoval)
        ensures
            r == StatBatteryRemoval::spec_from_bits(field_get(self.spec_bits(), 1, 0x1) as u8),
    {
        StatBatteryRemoval::from_bits(get_field(self.bits, 1, 0x1) as u8)
    }

    /// The status is latched until a read from host.
    pub fn set_stat_battery_removal(&mut self, value: StatBatteryRemoval)
        ensures
            final(self).spec_bits() == field_set(
                old(self).spec_bits(),
                1,
                0x1,
                value.spec_into_bits() as u16,
            ),
            final(self).spec_bits() & !(0x1u16 << 1) == old(self).spec_bits() & !(0x1u16 << 1),
            StatBatteryRemoval::spec_from_bits(field_get(final(self).spec_bits(), 1, 0x1) as u8)
                == value,
    {
        proof {
            lemma_set_preserves_rest(self.bits, 1, 0x1, value.spec_into_bits() as u16);
            lemma_set_then_get_w1(self.bits, 1, value.spec_into_bits() as u16);
            value.lemma_code_roundtrip();
        }
        let code: u16 = value.into_bits() as u16;
        self.bits = set_field(self.bits, 1, 0x1, code);
    }

    /// The status is latched until a read from host.
    pub fn stat_vsys_(&self) -> (r: StatVsys)
        ensures
            r == StatVsys::spec_from_bits(field_get(self.spec_bits(), 2, 0x1) as u8),
    {
        StatVsys::from_bits(get_field(self.bits, 2, 0x1) as u8)
    }

    /// The status is latched until a read from host.
    pub fn set_stat_vsys_(&mut self, value: StatVsys)
        ensures
            final(self).spec_bits() == field_set(
                old(self).spec_bits(),
                2,
                0x1,
                value.spec_into_bits() as u16,
            ),
            final(self).spec_bits() & !(0x1u16 << 2) == old(self).spec_bits() & !(0x1u16 << 2),
            StatVsys::spec_from_bits(field_get(final(self).spec_bits(), 2, 0x1) as u8)
                == value,
    {
        proof {
            lemma_set_preserves_rest(self.bits, 2, 0x1, value.spec_into_bits() as u16);
            lemma_set_then_get_w1(self.bits, 2, value.spec_into_bits() as u16);
            value.lemma_code_roundtrip();
        }
        let code: u16 = value.into_bits() as u16;
        self.bits = set_field(self.bits, 2, 0x1, code);
    }

    /// The status is latched until a read from host.
    pub fn stat_idchg1_(&self) -> (r: StatIdchg1)
        ensures
            r == StatIdchg1::spec_from_bits(field_get(self.spec_bits(), 3, 0x1) as u8),
    {
        StatIdchg1::from_bits(get_field(self.bits, 3, 0x1) as u8)
    }

    /// The status is latched until a read from host.
    pub fn set_stat_idchg1_(&mut self, value: StatIdchg1)
        ensures
            final(self).spec_bits() == field_set(
                old(self).spec_bits(),
                3,
                0x1,
                value.spec_into_bits() as u16,
            ),
            final(self).spec_bits() & !(0x1u16 << 3) == old(self).spec_bits() & !(0x1u16 << 3),
            StatIdchg1::spec_from_bits(field_get(final(self).spec_bits(), 3, 0x1) as u8)
                == value,
    {
        proof {
            lemma_set_preserves_rest(self.bits, 3, 0x1, value.spec_into_bits() as u16);
            lemma_set_then_get_w1(self.bits, 3, value.spec_into_bits() as u16);
            value.lemma_code_roundtrip();
        }
        let code: u16 = value.into_bits() as u16;
        self.bits = set_field(self.bits, 3, 0x1, code);
    }

    /// The status is latched until a read from host.
    pub fn stat_inom_(&self) -> (r: StatInom)
        ensures
            r == StatInom::spec_from_bits(field_get(self.spec_bits(), 4, 0x1) as u8),
    {
        StatInom::from_bits(get_field(self.bits, 4, 0x1) as u8)
    }

    /// The status is latched until a read from host.
    pub fn set_stat_inom_(&mut self, value: StatInom)
        ensures
            final(self).spec_bits() == field_set(
                old(self).spec_bits(),
                4,
                0x1,
                value.spec_into_bits() as u16,
            ),
            final(self).spec_bits() & !(0x1u16 << 4) == old(self).spec_bits() & !(0x1u16 << 4),
            StatInom::spec_from_bits(field_get(final(self).spec_bits(), 4, 0x1) as u8)
                == value,
    {
        proof {
            lemma_set_preserves_rest(self.bits, 4, 0x1, value.spec_into_bits() as u16);
            lemma_set_then_get_w1(self.bits, 4, value.spec_into_bits() as u16);
            value.lemma_code_roundtrip();
        }
        let code: u16 = value.into_bits() as u16;
        self.bits = set_field(self.bits, 4, 0x1, code);
    }

    /// The status is latched until a read from host.
    pub fn stat_icrit_(&self) -> (r: StatIcrit)
        ensures
            r == StatIcrit::spec_from_bits(field_get(self.spec_bits(), 5, 0x1) as u8),
    {
        StatIcrit::from_bits(get_field(self.bits, 5, 0x1) as u8)
    }

    /// The status is latched until a read from host.
    pub fn set_stat_icrit_(&mut self, value: StatIcrit)
        ensures
            final(self).spec_bits() == field_set(
                old(self).spec_bits(),
                5,
                0x1,
                value.spec_into_bits() as u16,
            ),
            final(self).spec_bits() & !(0x1u16 << 5) == old(self).spec_bits() & !(0x1u16 << 5),
            StatIcrit::spec_from_bits(field_get(final(self).spec_bits(), 5, 0x1) as u8)
                == value,
    {
        proof {
            lemma_set_preserves_rest(self.bits, 5, 0x1, value.spec_into_bits() as u16);
            lemma_set_then_get_w1(self.bits, 5, value.spec_into_bits() as u16);
            value.lemma_code_roundtrip();
        }
        let code: u16 = value.into_bits() as u16;
        self.bits = set_field(self.bits, 5, 0x1, code);
    }

    /// The status is latched until a read from host.
    pub fn stat_comp_(&self) -> (r: StatComp)
        ensures
            r == StatComp::spec_from_bits(field_get(self.spec_bits(), 6, 0x1) as u8),
    {
        StatComp::from_bits(get_field(self.bits, 6, 0x1) as u8)
    }

    /// The status is latched until a read from host.
    pub fn set_stat_comp_(&mut self, value: StatComp)
        ensures
            final(self).spec_bits() == field_set(
                old(self).spec_bits(),
                6,
                0x1,
                value.spec_into_bits() as u16,
            ),
            final(self).spec_bits() & !(0x1u16 << 6) == old(self).spec_bits() & !(0x1u16 << 6),
            StatComp::spec_from_bits(field_get(final(self).spec_bits(), 6, 0x1) as u8)
                == value,
    {
        proof {
            lemma_set_preserves_rest(self.bits, 6, 0x1, value.spec_into_bits() as u16);
            lemma_set_then_get_w1(self.bits, 6, value.spec_into_bits() as u16);
            value.lemma_code_roundtrip();
        }
        let code: u16 = value.into_bits() as u16;
        self.bits = set_field(self.bits, 6, 0x1, code);
    }

    /// The status is latched until a read from host.
    pub fn stat_vindpm_(&self) -> (r: StatVinDpm)
        ensures
            r == StatVinDpm::spec_from_bits(field_get(self.spec_bits(), 7, 0x1) as u8),
    {
        StatVinDpm::from_bits(get_field(self.bits, 7, 0x1) as u8)
    }

    /// The status is latched until a read from host.
    pub fn set_stat_vindpm_(&mut self, value: StatVinDpm)
        ensures
            final(self).spec_bits() == field_set(
                old(self).spec_bits(),
                7,
                0x1,
                value.spec_into_bits() as u16,
            ),
            final(self).spec_bits() & !(0x1u16 << 7) == old(self).spec_bits() & !(0x1u16 << 7),
            StatVinDpm::spec_from_bits(field_get(final(self).spec_bits(), 7, 0x1) as u8)
                == value,
    {
        proof {
            lemma_set_preserves_rest(self.bits, 7, 0x1, value.spec_into_bits() as u16);
            lemma_set_then_get_w1(self.bits, 7, value.spec_into_bits() as u16);
            value.lemma_code_roundtrip();
        }
        let code: u16 = value.into_bits() as u16;
        self.bits = set_field(self.bits, 7, 0x1, code);
    }

    /// When the charger is operated in VAP mode, it can exit VAP by
    pub fn stat_exit_vap(&self) -> (r: StatExitVap)
        ensures
            r == StatExitVap::spec_from_bits(field_get(self.spec_bits(), 8, 0x1) as u8),
    {
        StatExitVap::from_bits(get_field(self.bits, 8, 0x1) as u8)
    }

    /// When the charger is operated in VAP mode, it can exit VAP by
    pub fn set_stat_exit_vap(&mut self, value: StatExitVap)
        ensures
            final(self).spec_bits() == field_set(
                old(self).spec_bits(),
                8,
                0x1,
                value.spec_into_bits() as u16,
            ),
            final(self).spec_bits() & !(0x1u16 << 8) == old(self).spec_bits() & !(0x1u16 << 8),
            StatExitVap::spec_from_bits(field_get(final(self).spec_bits(), 8, 0x1) as u8)
                == value,
    {
        proof {
            lemma_set_preserves_rest(self.bits, 8, 0x1, value.spec_into_bits() as u16);
            lemma_set_then_get_w1(self.bits, 8, value.spec_into_bits() as u16);
            value.lemma_code_roundtrip();
        }
        let code: u16 = value.into_bits() as u16;
        self.bits = set_field(self.bits, 8, 0x1, code);
    }

    /// This status bit reports a failure to load VBUS 7 consecutive
    pub fn stat_vap_fail(&self) -> (r: StatVapFail)
        ensures
            r == StatVapFail::spec_from_bits(field_get(self.spec_bits(), 9, 0x1) as u8),
    {
        StatVapFail::from_bits(get_field(self.bits, 9, 0x1) as u8)
    }

    /// This status bit reports a failure to load VBUS 7 consecutive
    pub fn set_stat_vap_fail(&mut self, value: StatVapFail)
        ensures
            final(self).spec_bits() == field_set(
                old(self).spec_bits(),
                9,
                0x1,
                value.spec_into_bits() as u16,
            ),
            final(self).spec_bits() & !(0x1u16 << 9) == old(self).spec_bits() & !(0x1u16 << 9),
            StatVapFail::spec_from_bits(field_get(final(self).spec_bits(), 9, 0x1) as u8)
                == value,
    {
        proof {
            lemma_set_preserves_rest(self.bits, 9, 0x1, value.spec_into_bits() as u16);
            lemma_set_then_get_w1(self.bits, 9, value.spec_into_bits() as u16);
            value.lemma_code_roundtrip();
        }
        let code: u16 = value.into_bits() as u16;
        self.bits = set_field(self.bits, 9, 0x1, code);
    }

    /// TSHUT trigger.
    pub fn tshut(&self) -> (r: Tshut)
        ensures
            r == Tshut::spec_from_bits(field_get(self.spec_bits(), 10, 0x1) as u8),
    {
        Tshut::from_bits(get_field(self.bits, 10, 0x1) as u8)
    }

    /// TSHUT trigger.
    pub fn set_tshut(&mut self, value: Tshut)
        ensures
            final(self).spec_bits() == field_set(
                old(self).spec_bits(),
                10,
                0x1,
                value.spec_into_bits() as u16,
            ),
            final(self).spec_bits() & !(0x1u16 << 10) == old(self).spec_bits() & !(0x1u16 << 10),
            Tshut::spec_from_bits(field_get(final(self).spec_bits(), 10, 0x1) as u8)
                == value,
    {
        proof {
            lemma_set_preserves_rest(self.bits, 10, 0x1, value.spec_into_bits() as u16);
            lemma_set_then_get_w1(self.bits, 10, value.spec_into_bits() as u16);
            value.lemma_code_roundtrip();
        }
        let code: u16 = value.into_bits() as u16;
        self.bits = set_field(self.bits, 10, 0x1, code);
    }

    /// PROCHOT Pulse Clear.
    pub fn prochot_clear(&self) -> (r: ProchotClear)
        ensures
            r == ProchotClear::spec_from_bits(field_get(self.spec_bits(), 11, 0x1) as u8),
    {
        ProchotClear::from_bits(get_field(self.bits, 11, 0x1) as u8)
    }

    /// PROCHOT Pulse Clear.
    pub fn set_prochot_clear(&mut self, value: ProchotClear)
        ensures
            final(self).spec_bits() == field_set(
                old(self).spec_bits(),
                11,
                0x1,
                value.spec_into_bits() as u16,
            ),
            final(self).spec_bits() & !(0x1u16 << 11) == old(self).spec_bits() & !(0x1u16 << 11),
            ProchotClear::spec_from_bits(field_get(final(self).spec_bits(), 11, 0x1) as u8)
                == value,
    {
        proof {
            lemma_set_preserves_rest(self.bits, 11, 0x1, value.spec_into_bits() as u16);
            lemma_set_then_get_w1(self.bits, 11, value.spec_into_bits() as u16);
            value.lemma_code_roundtrip();
        }
        let code: u16 = value.into_bits() as u16;
        self.bits = set_field(self.bits, 11, 0x1, code);
    }

    /// PROCHOT Pulse Width when EN_PROCHOT_EXT = 0b.
    pub fn prochot_width(&self) -> (r: ProchotWidth)
        ensures
            r == ProchotWidth::spec_from_bits(field_get(self.spec_bits(), 12, 0x3) as u8),
    {
        ProchotWidth::from_bits(get_field(self.bits, 12, 0x3) as u8)
    }

    /// PROCHOT Pulse Width when EN_PROCHOT_EXT = 0b.
    pub fn set_prochot_width(&mut self, value: ProchotWidth)
        ensures
            final(self).spec_bits() == field_set(
                old(self).spec_bits(),
                12,
                0x3,
                value.spec_into_bits() as u16,
            ),
            final(self).spec_bits() & !(0x3u16 << 12) == old(self).spec_bits() & !(0x3u16 << 12),
            ProchotWidth::spec_from_bits(field_get(final(self).spec_bits(), 12, 0x3) as u8)
                == value,
    {
        proof {
            lemma_set_preserves_rest(self.bits, 12, 0x3, value.spec_into_bits() as u16);
            lemma_set_then_get_w2(self.bits, 12, value.spec_into_bits() as u16);
            value.lemma_code_roundtrip();
        }
        let code: u16 = value.into_bits() as u16;
        self.bits = set_field(self.bits, 12, 0x3, code);
    }

    /// PROCHOT Pulse Extension Enable. When pulse extension is
    pub fn en_prochot_ext(&self) -> (r: EnProchotExt)
        ensures
            r == EnProchotExt::spec_from_bits(field_get(self.spec_bits(), 14, 0x1) as u8),
    {
        EnProchotExt::from_bits(get_field(self.bits, 14, 0x1) as u8)
    }

    /// PROCHOT Pulse Extension Enable. When pulse extension is
    pub fn set_en_prochot_ext(&mut self, value: EnProchotExt)
        ensures
            final(self).spec_bits() == field_set(
                old(self).spec_bits(),
                14,
                0x1,
                value.spec_into_bits() as u16,
            ),
            final(self).spec_bits() & !(0x1u16 << 14) == old(self).spec_bits() & !(0x1u16 << 14),
            EnProchotExt::spec_from_bits(field_get(final(self).spec_bits(), 14, 0x1) as u8)
                == value,
    {
        proof {
            lemma_set_preserves_rest(self.bits, 14, 0x1, value.spec_into_bits() as u16);
            lemma_set_then_get_w1(self.bits, 14, value.spec_into_bits() as u16);
            value.lemma_code_roundtrip();
        }
        let code: u16 = value.into_bits() as u16;
        self.bits = set_field(self.bits, 14, 0x1, code);
    }
}

/// The status is latched until a read from host.
#[derive(Clone, Copy, Debug, PartialEq, Eq)]
pub enum StatAdapterRemoval {
    NotTriggered,
    Triggered,
}

impl StatAdapterRemoval {
    /// The chip-defined code of each variant.
    pub open spec fn spec_into_bits(self) -> u8 {
        match self {
            StatAdapterRemoval::NotTriggered => 0,
            StatAdapterRemoval::Triggered => 1,
        }
    }

    /// The variant each code decodes to; total over all codes, undeclared
    /// codes falling back to the last declared variant in code order.
    pub open spec fn spec_from_bits(value: u8) -> Self {
        if value == 0 {
            StatAdapterRemoval::NotTriggered
        } else {
            StatAdapterRemoval::Triggered
        }
    }

    pub fn into_bits(self) -> (r: u8)
        ensures
            r == self.spec_into_bits(),
    {
        match self {
            StatAdapterRemoval::NotTriggered => 0,
            StatAdapterRemoval::Triggered => 1,
        }
    }

    pub fn from_bits(value: u8) -> (r: Self)
        ensures
            r == Self::spec_from_bits(value),
    {
        match value {
            0 => StatAdapterRemoval::NotTriggered,
            _ => StatAdapterRemoval::Triggered,
        }
    }

    /// Decoding the code of a variant yields that variant back.
    pub proof fn lemma_code_roundtrip(self)
        ensures
            Self::spec_from_bits(self.spec_into_bits()) == self,
    {
    }
}

/// The status is latched until a read from host.
#[derive(Clone, Copy, Debug, PartialEq, Eq)]
pub enum StatBatteryRemoval {
    NotTriggered,
    Triggered,
}

impl StatBatteryRemoval {
    /// The chip-defined code of each variant.
    pub open spec fn spec_into_bits(self) -> u8 {
        match self {
            StatBatteryRemoval::NotTriggered => 0,
            StatBatteryRemoval::Triggered => 1,
        }
    }

    /// The variant each code decodes to; total over all codes, undeclared
    /// codes falling back to the last declared variant in code order.
    pub open spec fn spec_from_bits(value: u8) -> Self {
        if value == 0 {
            StatBatteryRemoval::NotTriggered
        } else {
            StatBatteryRemoval::Triggered
        }
    }

    pub fn into_bits(self) -> (r: u8)
        ensures
            r == self.spec_into_bits(),
    {
        match self {
            StatBatteryRemoval::NotTriggered => 0,
            StatBatteryRemoval::Triggered => 1,
        }
    }

    pub fn from_bits(value: u8) -> (r: Self)
        ensures
            r == Self::spec_from_bits(value),
    {
        match value {
            0 => StatBatteryRemoval::NotTriggered,
            _ => StatBatteryRemoval::Triggered,
        }
    }

    /// Decoding the code of a variant yields that variant back.
    pub proof fn lemma_code_roundtrip(self)
        ensures
            Self::spec_from_bits(self.spec_into_bits()) == self,
    {
    }
}

/// The status is latched until a read from host.
#[derive(Clone, Copy, Debug, PartialEq, Eq)]
pub enum StatVsys {
    NotTriggered,
    Triggered,
}

impl StatVsys {
    /// The chip-defined code of each variant.
    pub open spec fn spec_into_bits(self) -> u8 {
        match self {
            StatVsys::NotTriggered => 0,
            StatVsys::Triggered => 1,
        }
    }

    /// The variant each code decodes to; total over all codes, undeclared
    /// codes falling back to the last declared variant in code order.
    pub open spec fn spec_from_bits(value: u8) -> Self {
        if value == 0 {
            StatVsys::NotTriggered
        } else {
            StatVsys::Triggered
        }
    }

    pub fn into_bits(self) -> (r: u8)
        ensures
            r == self.spec_into_bits(),
    {
        match self {
            StatVsys::NotTriggered => 0,
            StatVsys::Triggered => 1,
        }
    }

    pub fn from_bits(value: u8) -> (r: Self)
        ensures
            r == Self::spec_from_bits(value),
    {
        match value {
            0 => StatVsys::NotTriggered,
            _ => StatVsys::Triggered,
        }
    }

    /// Decoding the code of a variant yields that variant back.
    pub proof fn lemma_code_roundtrip(self)
        ensures
            Self::spec_from_bits(self.spec_into_bits()) == self,
    {
    }
}

/// The status is latched until a read from host.
#[derive(Clone, Copy, Debug, PartialEq, Eq)]
pub enum StatIdchg1 {
    NotTriggered,
    Triggered,
}

impl StatIdchg1 {
    /// The chip-defined code of each variant.
    pub open spec fn spec_into_bits(self) -> u8 {
        match self {
            StatIdchg1::NotTriggered => 0,
            StatIdchg1::Triggered => 1,
        }
    }

    /// The variant each code decodes to; total over all codes, undeclared
    /// codes falling back to the last declared variant in code order.
    pub open spec fn spec_from_bits(value: u8) -> Self {
        if value == 0 {
            StatIdchg1::NotTriggered
        } else {
            StatIdchg1::Triggered
        }
    }

    pub fn into_bits(self) -> (r: u8)
        ensures
            r == self.spec_into_bits(),
    {
        match self {
            StatIdchg1::NotTriggered => 0,
            StatIdchg1::Triggered => 1,
        }
    }

    pub fn from_bits(value: u8) -> (r: Self)
        ensures
            r == Self::spec_from_bits(value),
    {
        match value {
            0 => StatIdchg1::NotTriggered,
            _ => StatIdchg1::Triggered,
        }
    }

    /// Decoding the code of a variant yields that variant back.
    pub proof fn lemma_code_roundtrip(self)
        ensures
            Self::spec_from_bits(self.spec_into_bits()) == self,
    {
    }
}

/// The status is latched until a read from host.
#[derive(Clone, Copy, Debug, PartialEq, Eq)]
pub enum StatInom {
    NotTriggered,
    Triggered,
}

impl StatInom {
    /// The chip-defined code of each variant.
    pub open spec fn spec_into_bits(self) -> u8 {
        match self {
            StatInom::NotTriggered => 0,
            StatInom::Triggered => 1,
        }
    }

    /// The variant each code decodes to; total over all codes, undeclared
    /// codes falling back to the last declared variant in code order.
    pub open spec fn spec_from_bits(value: u8) -> Self {
        if value == 0 {
            StatInom::NotTriggered
        } else {
            StatInom::Triggered
        }
    }

    pub fn into_bits(self) -> (r: u8)
        ensures
            r == self.spec_into_bits(),
    {
        match self {
            StatInom::NotTriggered => 0,
            StatInom::Triggered => 1,
        }
    }

    pub fn from_bits(value: u8) -> (r: Self)
        ensures
            r == Self::spec_from_bits(value),
    {
        match value {
            0 => StatInom::NotTriggered,
            _ => StatInom::Triggered,
        }
    }

    /// Decoding the code of a variant yields that variant back.
    pub proof fn lemma_code_roundtrip(self)
        ensures
            Self::spec_from_bits(self.spec_into_bits()) == self,
    {
    }
}

/// The status is latched until a read from host.
#[derive(Clone, Copy, Debug, PartialEq, Eq)]
pub enum StatIcrit {
    NotTriggered,
    Triggered,
}

impl StatIcrit {
    /// The chip-defined code of each variant.
    pub open spec fn spec_into_bits(self) -> u8 {
        match self {
            StatIcrit::NotTriggered => 0,
            StatIcrit::Triggered => 1,
        }
    }

    /// The variant each code decodes to; total over all codes, undeclared
    /// codes falling back to the last declared variant in code order.
    pub open spec fn spec_from_bits(value: u8) -> Self {
        if value == 0 {
            StatIcrit::NotTriggered
        } else {
            StatIcrit::Triggered
        }
    }

    pub fn into_bits(self) -> (r: u8)
        ensures
            r == self.spec_into_bits(),
    {
        match self {
            StatIcrit::NotTriggered => 0,
            StatIcrit::Triggered => 1,
        }
    }

    pub fn from_bits(value: u8) -> (r: Self)
        ensures
            r == Self::spec_from_bits(value),
    {
        match value {
            0 => StatIcrit::NotTriggered,
            _ => StatIcrit::Triggered,
        }
    }

    /// Decoding the code of a variant yields that variant back.
    pub proof fn lemma_code_roundtrip(self)
        ensures
            Self::spec_from_bits(self.spec_into_bits()) == self,
    {
    }
}

/// The status is latched until a read from host.
#[derive(Clone, Copy, Debug, PartialEq, Eq)]
pub enum StatComp {
    NotTriggered,
    Triggered,
}

impl StatComp {
    /// The chip-defined code of each variant.
    pub open spec fn spec_into_bits(self) -> u8 {
        match self {
            StatComp::NotTriggered => 0,
            StatComp::Triggered => 1,
        }
    }

    /// The variant each code decodes to; total over all codes, undeclared
    /// codes falling back to the last declared variant in code order.
    pub open spec fn spec_from_bits(value: u8) -> Self {
        if value == 0 {
            StatComp::NotTriggered
        } else {
            StatComp::Triggered
        }
    }

    pub fn into_bits(self) -> (r: u8)
        ensures
            r == self.spec_into_bits(),
    {
        match self {
            StatComp::NotTriggered => 0,
            StatComp::Triggered => 1,
        }
    }

    pub fn from_bits(value: u8) -> (r: Self)
        ensures
            r == Self::spec_from_bits(value),
    {
        match value {
            0 => StatComp::NotTriggered,
            _ => StatComp::Triggered,
        }
    }

    /// Decoding the code of a variant yields that variant back.
    pub proof fn lemma_code_roundtrip(self)
        ensures
            Self::spec_from_bits(self.spec_into_bits()) == self,
    {
    }
}

/// The status is latched until a read from host.
#[derive(Clone, Copy, Debug, PartialEq, Eq)]
pub enum StatVinDpm {
    NotTriggered,
    Triggered,
}

impl StatVinDpm {
    /// The chip-defined code of each variant.
    pub open spec fn spec_into_bits(self) -> u8 {
        match self {
            StatVinDpm::NotTriggered => 0,
            StatVinDpm::Triggered => 1,
        }
    }

    /// The variant each code decodes to; total over all codes, undeclared
    /// codes falling back to the last declared variant in code order.
    pub open spec fn spec_from_bits(value: u8) -> Self {
        if value == 0 {
            StatVinDpm::NotTriggered
        } else {
            StatVinDpm::Triggered
        }
    }

    pub fn into_bits(self) -> (r: u8)
        ensures
            r == self.spec_into_bits(),
    {
        match self {
            StatVinDpm::NotTriggered => 0,
            StatVinDpm::Triggered => 1,
        }
    }

    pub fn from_bits(value: u8) -> (r: Self)
        ensures
            r == Self::spec_from_bits(value),
    {
        match value {
            0 => StatVinDpm::NotTriggered,
            _ => StatVinDpm::Triggered,
        }
    }

    /// Decoding the code of a variant yields that variant back.
    pub proof fn lemma_code_roundtrip(self)
        ensures
            Self::spec_from_bits(self.spec_into_bits()) == self,
    {
    }
}

/// When the charger is operated in VAP mode, it can exit VAP by.
#[derive(Clone, Copy, Debug, PartialEq, Eq)]
pub enum StatExitVap {
    NotActive,
    Active,
}

impl StatExitVap {
    /// The chip-defined code of each variant.
    pub open spec fn spec_into_bits(self) -> u8 {
        match self {
            StatExitVap::NotActive => 0,
            StatExitVap::Active => 1,
        }
    }

    /// The variant each code decodes to; total over all codes, undeclared
    /// codes falling back to the last declared variant in code order.
    pub open spec fn spec_from_bits(value: u8) -> Self {
        if value == 0 {
            StatExitVap::NotActive
        } else {
            StatExitVap::Active
        }
    }

    pub fn into_bits(self) -> (r: u8)
        ensures
            r == self.spec_into_bits(),
    {
        match self {
            StatExitVap::NotActive => 0,
            StatExitVap::Active => 1,
        }
    }

    pub fn from_bits(value: u8) -> (r: Self)
        ensures
            r == Self::spec_from_bits(value),
    {
        match value {
            0 => StatExitVap::NotActive,
            _ => StatExitVap::Active,
        }
    }

    /// Decoding the code of a variant yields that variant back.
    pub proof fn lemma_code_roundtrip(self)
        ensures
            Self::spec_from_bits(self.spec_into_bits()) == self,
    {
    }
}

/// This status bit reports a failure to load VBUS 7 consecutive.
#[derive(Clone, Copy, Debug, PartialEq, Eq)]
pub enum StatVapFail {
    NoFailure,
    Fail,
}

impl StatVapFail {
    /// The chip-defined code of each variant.
    pub open spec fn spec_into_bits(self) -> u8 {
        match self {
            StatVapFail::NoFailure => 0,
            StatVapFail::Fail => 1,
        }
    }

    /// The variant each code decodes to; total over all codes, undeclared
    /// codes falling back to the last declared variant in code order.
    pub open spec fn spec_from_bits(value: u8) -> Self {
        if value == 0 {
            StatVapFail::NoFailure
        } else {
            StatVapFail::Fail
        }
    }

    pub fn into_bits(self) -> (r: u8)
        ensures
            r == self.spec_into_bits(),
    {
        match self {
            StatVapFail::NoFailure => 0,
            StatVapFail::Fail => 1,
        }
    }

    pub fn from_bits(value: u8) -> (r: Self)
        ensures
            r == Self::spec_from_bits(value),
    {
        match value {
            0 => StatVapFail::NoFailure,
            _ => StatVapFail::Fail,
        }
    }

    /// Decoding the code of a variant yields that variant back.
    pub proof fn lemma_code_roundtrip(self)
        ensures
            Self::spec_from_bits(self.spec_into_bits()) == self,
    {
    }
}

/// TSHUT trigger.
#[derive(Clone, Copy, Debug, PartialEq, Eq)]
pub enum Tshut {
    NotTriggered,
    Triggered,
}

impl Tshut {
    /// The chip-defined code of each variant.
    pub open spec fn spec_into_bits(self) -> u8 {
        match self {
            Tshut::NotTriggered => 0,
            Tshut::Triggered => 1,
        }
    }

    /// The variant each code decodes to; total over all codes, undeclared
    /// codes falling back to the last declared variant in code order.
    pub open spec fn spec_from_bits(value: u8) -> Self {
        if value == 0 {
            Tshut::NotTriggered
        } else {
            Tshut::Triggered
        }
    }

    pub fn into_bits(self) -> (r: u8)
        ensures
            r == self.spec_into_bits(),
    {
        match self {
            Tshut::NotTriggered => 0,
            Tshut::Triggered => 1,
        }
    }

    pub fn from_bits(value: u8) -> (r: Self)
        ensures
            r == Self::spec_from_bits(value),
    {
        match value {
            0 => Tshut::NotTriggered,
            _ => Tshut::Triggered,
        }
    }

    /// Decoding the code of a variant yields that variant back.
    pub proof fn lemma_code_roundtrip(self)
        ensures
            Self::spec_from_bits(self.spec_into_bits()) == self,
    {
    }
}

/// PROCHOT Pulse Clear.
#[derive(Clone, Copy, Debug, PartialEq, Eq)]
pub enum ProchotClear {
    Clear,
    Idle,
}

impl ProchotClear {
    /// The chip-defined code of each variant.
    pub open spec fn spec_into_bits(self) -> u8 {
        match self {
            ProchotClear::Clear => 0,
            ProchotClear::Idle => 1,
        }
    }

    /// The variant each code decodes to; total over all codes, undeclared
    /// codes falling back to the last declared variant in code order.
    pub open spec fn spec_from_bits(value: u8) -> Self {
        if value == 0 {
            ProchotClear::Clear
        } else {
            ProchotClear::Idle
        }
    }

    pub fn into_bits(self) -> (r: u8)
        ensures
            r == self.spec_into_bits(),
    {
        match self {
            ProchotClear::Clear => 0,
            ProchotClear::Idle => 1,
        }
    }

    pub fn from_bits(value: u8) -> (r: Self)
        ensures
            r == Self::spec_from_bits(value),
    {
        match value {
            0 => ProchotClear::Clear,
            _ => ProchotClear::Idle,
        }
    }

    /// Decoding the code of a variant yields that variant back.
    pub proof fn lemma_code_roundtrip(self)
        ensures
            Self::spec_from_bits(self.spec_into_bits()) == self,
    {
    }
}

/// PROCHOT Pulse Width when EN_PROCHOT_EXT = 0b.
#[derive(Clone, Copy, Debug, PartialEq, Eq)]
pub enum ProchotWidth {
    Width100ms,
    Width58ms,
    Width6_15ms,
    Width12_5ms,
}

impl ProchotWidth {
    /// The chip-defined code of each variant.
    pub open spec fn spec_into_bits(self) -> u8 {
        match self {
            ProchotWidth::Width100ms => 0,
            ProchotWidth::Width58ms => 1,
            ProchotWidth::Width6_15ms => 2,
            ProchotWidth::Width12_5ms => 3,
        }
    }

    /// The variant each code decodes to; total over all codes, undeclared
    /// codes falling back to the last declared variant in code order.
    pub open spec fn spec_from_bits(value: u8) -> Self {
        if value == 0 {
            ProchotWidth::Width100ms
        } else if value == 1 {
            ProchotWidth::Width58ms
        } else if value == 2 {
            ProchotWidth::Width6_15ms
        } else {
            ProchotWidth::Width12_5ms
        }
    }

    pub fn into_bits(self) -> (r: u8)
        ensures
            r == self.spec_into_bits(),
    {
        match self {
            ProchotWidth::Width100ms => 0,
            ProchotWidth::Width58ms => 1,
            ProchotWidth::Width6_15ms => 2,
            ProchotWidth::Width12_5ms => 3,
        }
    }

    pub fn from_bits(value: u8) -> (r: Self)
        ensures
            r == Self::spec_from_bits(value),
    {
        match value {
            0 => ProchotWidth::Width100ms,
            1 => ProchotWidth::Width58ms,
            2 => ProchotWidth::Width6_15ms,
            _ => ProchotWidth::Width12_5ms,
        }
    }

    /// Decoding the code of a variant yields that variant back.
    pub proof fn lemma_code_roundtrip(self)
        ensures
            Self::spec_from_bits(self.spec_into_bits()) == self,
    {
    }
}

/// PROCHOT Pulse Extension Enable. When pulse extension is.
#[derive(Clone, Copy, Debug, PartialEq, Eq)]
pub enum EnProchotExt {
    Disable,
    Enable,
}

impl EnProchotExt {
    /// The chip-defined code of each variant.
    pub open spec fn spec_into_bits(self) -> u8 {
        match self {
            EnProchotExt::Disable => 0,
            EnProchotExt::Enable => 1,
        }
    }

    /// The variant each code decodes to; total over all codes, undeclared
    /// codes falling back to the last declared variant in code order.
    pub open spec fn spec_from_bits(value: u8) -> Self {
        if value == 0 {
            EnProchotExt::Disable
        } else {
            EnProchotExt::Enable
        }
    }

    pub fn into_bits(self) -> (r: u8)
        ensures
            r == self.spec_into_bits(),
    {
        match self {
            EnProchotExt::Disable => 0,
            EnProchotExt::Enable => 1,
        }
    }

    pub fn from_bits(value: u8) -> (r: Self)
        ensures
            r == Self::spec_from_bits(value),
    {
        match value {
            0 => EnProchotExt::Disable,
            _ => EnProchotExt::Enable,
        }
    }

    /// Decoding the code of a variant yields that variant back.
    pub proof fn lemma_code_roundtrip(self)
        ensures
            Self::spec_from_bits(self.spec_into_bits()) == self,
    {
    }
}

} // verus!
