//! Prochot Option 1 Register.

use vstd::prelude::*;

use crate::bits::field_get;
use crate::bits::field_set;
use crate::bits::get_field;
use crate::bits::lemma_set_preserves_rest;
use crate::bits::lemma_set_then_get_w1;
use crate::bits::lemma_set_then_get_w2;
use crate::bits::lemma_set_then_get_w6;
use crate::bits::set_field;
use crate::registers::Register;

verus! {

/// Prochot Option 1 Register: raw 16-bit value at bus address 0x34.
#[derive(Clone, Copy, Debug, PartialEq, Eq)]
pub struct ProchotOption1 {
    bits: u16,
}

impl Register for ProchotOption1 {
    closed spec fn spec_bits(self) -> u16 {
        self.bits
    }

    open spec fn spec_addr() -> u8 {
        0x34
    }

    closed spec fn spec_of_bits(bits: u16) -> Self {
        ProchotOption1 { bits }
    }

    fn from_bits(bits: u16) -> (r: Self) {
        ProchotOption1 { bits }
    }

    fn into_bits(self) -> (r: u16) {
        self.bits
    }

    fn addr() -> (r: u8) {
        0x34
    }

    proof fn lemma_encode_decode(bits: u16) {
    }

    proof fn lemma_decode_encode(self) {
    }
}

impl ProchotOption1 {
    /// The raw value the register holds immediately after device power-up.
    pub fn new() -> (r: Self)
        ensures
            r.spec_bits() == 0x41a0,
    {
        ProchotOption1 { bits: 0x41a0 }
    }

    /// Adapter removal PROCHOT profile enable.
    pub fn pp_acock(&self) -> (r: PPAcok)
        ensures
            r == PPAcok::spec_from_bits(field_get(self.spec_bits(), 0, 0x1) as u8),
    {
        PPAcok::from_bits(get_field(self.bits, 0, 0x1) as u8)
    }

    /// Adapter removal PROCHOT profile enable.
    pub fn set_pp_acock(&mut self, value: PPAcok)
        ensures
            final(self).spec_bits() == field_set(
                old(self).spec_bits(),
                0,
                0x1,
                value.spec_into_bits() as u16,
            ),
            final(self).spec_bits() & !(0x1u16 << 0) == old(self).spec_bits() & !(0x1u16 << 0),
            PPAcok::spec_from_bits(field_get(final(self).spec_bits(), 0, 0x1) as u8)
                == value,
    {
        proof {
            lemma_set_preserves_rest(self.bits, 0, 0x1, value.spec_into_bits() as u16);
            lemma_set_then_get_w1(self.bits, 0, value.spec_into_bits() as u16);
            value.lemma_code_roundtrip();
        }
        let code: u16 = value.into_bits() as u16;
        self.bits = set_field(self.bits, 0, 0x1, code);
    }

    /// Battery removal PROCHOT profile enable.
    pub fn pp_batpres(&self) -> (r: PPBatPres)
        ensures
            r == PPBatPres::spec_from_bits(field_get(self.spec_bits(), 1, 0x1) as u8),
    {
        PPBatPres::from_bits(get_field(self.bits, 1, 0x1) as u8)
    }

    /// Battery removal PROCHOT profile enable.
    pub fn set_pp_batpres(&mut self, value: PPBatPres)
        ensures
            final(self).spec_bits() == field_set(
                old(self).spec_bits(),
                1,
                0x1,
                value.spec_into_bits() as u16,
            ),
            final(self).spec_bits() & !(0x1u16 << 1) == old(self).spec_bits() & !(0x1u16 << 1),
            PPBatPres::spec_from_bits(field_get(final(self).spec_bits(), 1, 0x1) as u8)
                == value,
    {
        proof {
            lemma_set_preserves_rest(self.bits, 1, 0x1, value.spec_into_bits() as u16);
            lemma_set_then_get_w1(self.bits, 1, value.spec_into_bits() as u16);
            value.lemma_code_roundtrip();
        }
        let code: u16 = value.into_bits() as u16;
        self.bits = set_field(self.bits, 1, 0x1, code);
    }

    /// VSYS PROCHOT profile enable.
    pub fn pp_vsys(&self) -> (r: PPVsys)
        ensures
            r == PPVsys::spec_from_bits(field_get(self.spec_bits(), 2, 0x1) as u8),
    {
        PPVsys::from_bits(get_field(self.bits, 2, 0x1) as u8)
    }

    /// VSYS PROCHOT profile enable.
    pub fn set_pp_vsys(&mut self, value: PPVsys)
        ensures
            final(self).spec_bits() == field_set(
                old(self).spec_bits(),
                2,
                0x1,
                value.spec_into_bits() as u16,
            ),
            final(self).spec_bits() & !(0x1u16 << 2) == old(self).spec_bits() & !(0x1u16 << 2),
            PPVsys::spec_from_bits(field_get(final(self).spec_bits(), 2, 0x1) as u8)
                == value,
    {
        proof {
            lemma_set_preserves_rest(self.bits, 2, 0x1, value.spec_into_bits() as u16);
            lemma_set_then_get_w1(self.bits, 2, value.spec_into_bits() as u16);
            value.lemma_code_roundtrip();
        }
        let code: u16 = value.into_bits() as u16;
        self.bits = set_field(self.bits, 2, 0x1, code);
    }

    /// IDCHG1 PROCHOT profile enable.
    pub fn pp_idchg1(&self) -> (r: PPIdchg1)
        ensures
            r == PPIdchg1::spec_from_bits(field_get(self.spec_bits(), 3, 0x1) as u8),
    {
        PPIdchg1::from_bits(get_field(self.bits, 3, 0x1) as u8)
    }

    /// IDCHG1 PROCHOT profile enable.
    pub fn set_pp_idchg1(&mut self, value: PPIdchg1)
        ensures
            final(self).spec_bits() == field_set(
                old(self).spec_bits(),
                3,
                0x1,
                value.spec_into_bits() as u16,
            ),
            final(self).spec_bits() & !(0x1u16 << 3) == old(self).spec_bits() & !(0x1u16 << 3),
            PPIdchg1::spec_from_bits(field_get(final(self).spec_bits(), 3, 0x1) as u8)
                == value,
    {
        proof {
            lemma_set_preserves_rest(self.bits, 3, 0x1, value.spec_into_bits() as u16);
            lemma_set_then_get_w1(self.bits, 3, value.spec_into_bits() as u16);
            value.lemma_code_roundtrip();
        }
        let code: u16 = value.into_bits() as u16;
        self.bits = set_field(self.bits, 3, 0x1, code);
    }

    /// INOM PROCHOT profile enable.
    pub fn pp_inom(&self) -> (r: PPInom)
        ensures
            r == PPInom::spec_from_bits(field_get(self.spec_bits(), 4, 0x1) as u8),
    {
        PPInom::from_bits(get_field(self.bits, 4, 0x1) as u8)
    }

    /// INOM PROCHOT profile enable.
    pub fn set_pp_inom(&mut self, value: PPInom)
        ensures
            final(self).spec_bits() == field_set(
                old(self).spec_bits(),
                4,
                0x1,
                value.spec_into_bits() as u16,
            ),
            final(self).spec_bits() & !(0x1u16 << 4) == old(self).spec_bits() & !(0x1u16 << 4),
            PPInom::spec_from_bits(field_get(final(self).spec_bits(), 4, 0x1) as u8)
                == value,
    {
        proof {
            lemma_set_preserves_rest(self.bits, 4, 0x1, value.spec_into_bits() as u16);
            lemma_set_then_get_w1(self.bits, 4, value.spec_into_bits() as u16);
            value.lemma_code_roundtrip();
        }
        let code: u16 = value.into_bits() as u16;
        self.bits = set_field(self.bits, 4, 0x1, code);
    }

    /// ICRIT PROCHOT profile enable.
    pub fn pp_icrit(&self) -> (r: PPIcrit)
        ensures
            r == PPIcrit::spec_from_bits(field_get(self.spec_bits(), 5, 0x1) as u8),
    {
        PPIcrit::from_bits(get_field(self.bits, 5, 0x1) as u8)
    }

    /// ICRIT PROCHOT profile enable.
    pub fn set_pp_icrit(&mut self, value: PPIcrit)
        ensures
            final(self).spec_bits() == field_set(
                old(self).spec_bits(),
                5,
                0x1,
                value.spec_into_bits() as u16,
            ),
            final(self).spec_bits() & !(0x1u16 << 5) == old(self).spec_bits() & !(0x1u16 << 5),
            PPIcrit::spec_from_bits(field_get(final(self).spec_bits(), 5, 0x1) as u8)
                == value,
    {
        proof {
            lemma_set_preserves_rest(self.bits, 5, 0x1, value.spec_into_bits() as u16);
            lemma_set_then_get_w1(self.bits, 5, value.spec_into_bits() as u16);
            value.lemma_code_roundtrip();
        }
        let code: u16 = value.into_bits() as u16;
        self.bits = set_field(self.bits, 5, 0x1, code);
    }

    /// COMP PROCHOT profile enable.
    pub fn pp_cmp(&self) -> (r: PPCmp)
        ensures
            r == PPCmp::spec_from_bits(field_get(self.spec_bits(), 6, 0x1) as u8),
    {
        PPCmp::from_bits(get_field(self.bits, 6, 0x1) as u8)
    }

    /// COMP PROCHOT profile enable.
    pub fn set_pp_cmp(&mut self, value: PPCmp)
        ensures
            final(self).spec_bits() == field_set(
                old(self).spec_bits(),
                6,
                0x1,
                value.spec_into_bits() as u16,
            ),
            final(self).spec_bits() & !(0x1u16 << 6) == old(self).spec_bits() & !(0x1u16 << 6),
            PPCmp::spec_from_bits(field_get(final(self).spec_bits(), 6, 0x1) as u8)
                == value,
    {
        proof {
            lemma_set_preserves_rest(self.bits, 6, 0x1, value.spec_into_bits() as u16);
            lemma_set_then_get_w1(self.bits, 6, value.spec_into_bits() as u16);
            value.lemma_code_roundtrip();
        }
        let code: u16 = value.into_bits() as u16;
        self.bits = set_field(self.bits, 6, 0x1, code);
    }

    /// VINDPM PROCHOT profile enable.
    pub fn pp_vindpm(&self) -> (r: PPVinDpm)
        ensures
            r == PPVinDpm::spec_from_bits(field_get(self.spec_bits(), 7, 0x1) as u8),
    {
        PPVinDpm::from_bits(get_field(self.bits, 7, 0x1) as u8)
    }

    /// VINDPM PROCHOT profile enable.
    pub fn set_pp_vindpm(&mut self, value: PPVinDpm)
        ensures
            final(self).spec_bits() == field_set(
                old(self).spec_bits(),
                7,
                0x1,
                value.spec_into_bits() as u16,
            ),
            final(self).spec_bits() & !(0x1u16 << 7) == old(self).spec_bits() & !(0x1u16 << 7),
            PPVinDpm::spec_from_bits(field_get(final(self).spec_bits(), 7, 0x1) as u8)
                == value,
    {
        proof {
            lemma_set_preserves_rest(self.bits, 7, 0x1, value.spec_into_bits() as u16);
            lemma_set_then_get_w1(self.bits, 7, value.spec_into_bits() as u16);
            value.lemma_code_roundtrip();
        }
        let code: u16 = value.into_bits() as u16;
        self.bits = set_field(self.bits, 7, 0x1, code);
    }

    /// IDCHG Deglitch Time.
    pub fn idchg_deg1(&self) -> (r: IdchgDeg1)
        ensures
            r == IdchgDeg1::spec_from_bits(field_get(self.spec_bits(), 8, 0x3) as u8),
    {
        IdchgDeg1::from_bits(get_field(self.bits, 8, 0x3) as u8)
    }

    /// IDCHG Deglitch Time.
    pub fn set_idchg_deg1(&mut self, value: IdchgDeg1)
        ensures
            final(self).spec_bits() == field_set(
                old(self).spec_bits(),
                8,
                0x3,
                value.spec_into_bits() as u16,
            ),
            final(self).spec_bits() & !(0x3u16 << 8) == old(self).spec_bits() & !(0x3u16 << 8),
            IdchgDeg1::spec_from_bits(field_get(final(self).spec_bits(), 8, 0x3) as u8)
                == value,
    {
        proof {
            lemma_set_preserves_rest(self.bits, 8, 0x3, value.spec_into_bits() as u16);
            lemma_set_then_get_w2(self.bits, 8, value.spec_into_bits() as u16);
            value.lemma_code_roundtrip();
        }
        let code: u16 = value.into_bits() as u16;
        self.bits = set_field(self.bits, 8, 0x3, code);
    }

    /// IDCHG level 1 Threshold
    pub fn idchg_th1(&self) -> (r: u16)
        ensures
            r == field_get(self.spec_bits(), 10, 0x3f),
            r <= 0x3f,
    {
        get_field(self.bits, 10, 0x3f)
    }

    /// IDCHG level 1 Threshold
    pub fn set_idchg_th1(&mut self, value: u16)
        requires
            value <= 0x3f,
        ensures
            final(self).spec_bits() == field_set(old(self).spec_bits(), 10, 0x3f, value),
            final(self).spec_bits() & !(0x3fu16 << 10) == old(self).spec_bits() & !(0x3fu16 << 10),
            field_get(final(self).spec_bits(), 10, 0x3f) == value,
    {
        proof {
            lemma_set_preserves_rest(self.bits, 10, 0x3f, value);
            lemma_set_then_get_w6(self.bits, 10, value);
        }
        self.bits = set_field(self.bits, 10, 0x3f, value);
    }
}

/// Adapter removal PROCHOT profile enable.
#[derive(Clone, Copy, Debug, PartialEq, Eq)]
pub enum PPAcok {
    Disable,
    Enable,
}

impl PPAcok {
    /// The chip-defined code of each variant.
    pub open spec fn spec_into_bits(self) -> u8 {
        match self {
            PPAcok::Disable => 0,
            PPAcok::Enable => 1,
        }
    }

    /// The variant each code decodes to; total over all codes, undeclared
    /// codes falling back to the last declared variant in code order.
    pub open spec fn spec_from_bits(value: u8) -> Self {
        if value == 0 {
            PPAcok::Disable
        } else {
            PPAcok::Enable
        }
    }

    pub fn into_bits(self) -> (r: u8)
        ensures
            r == self.spec_into_bits(),
    {
        match self {
            PPAcok::Disable => 0,
            PPAcok::Enable => 1,
        }
    }

    pub fn from_bits(value: u8) -> (r: Self)
        ensures
            r == Self::spec_from_bits(value),
    {
        match value {
            0 => PPAcok::Disable,
            _ => PPAcok::Enable,
        }
    }

    /// Decoding the code of a variant yields that variant back.
    pub proof fn lemma_code_roundtrip(self)
        ensures
            Self::spec_from_bits(self.spec_into_bits()) == self,
    {
    }
}

/// Battery removal PROCHOT profile enable.
#[derive(Clone, Copy, Debug, PartialEq, Eq)]
pub enum PPBatPres {
    Disable,
    Enable,
}

impl PPBatPres {
    /// The chip-defined code of each variant.
    pub open spec fn spec_into_bits(self) -> u8 {
        match self {
            PPBatPres::Disable => 0,
            PPBatPres::Enable => 1,
        }
    }

    /// The variant each code decodes to; total over all codes, undeclared
    /// codes falling back to the last declared variant in code order.
    pub open spec fn spec_from_bits(value: u8) -> Self {
        if value == 0 {
            PPBatPres::Disable
        } else {
            PPBatPres::Enable
        }
    }

    pub fn into_bits(self) -> (r: u8)
        ensures
            r == self.spec_into_bits(),
    {
        match self {
            PPBatPres::Disable => 0,
            PPBatPres::Enable => 1,
        }
    }

    pub fn from_bits(value: u8) -> (r: Self)
        ensures
            r == Self::spec_from_bits(value),
    {
        match value {
            0 => PPBatPres::Disable,
            _ => PPBatPres::Enable,
        }
    }

    /// Decoding the code of a variant yields that variant back.
    pub proof fn lemma_code_roundtrip(self)
        ensures
            Self::spec_from_bits(self.spec_into_bits()) == self,
    {
    }
}

/// VSYS PROCHOT profile enable.
#[derive(Clone, Copy, Debug, PartialEq, Eq)]
pub enum PPVsys {
    Disable,
    Enable,
}

impl PPVsys {
    /// The chip-defined code of each variant.
    pub open spec fn spec_into_bits(self) -> u8 {
        match self {
            PPVsys::Disable => 0,
            PPVsys::Enable => 1,
        }
    }

    /// The variant each code decodes to; total over all codes, undeclared
    /// codes falling back to the last declared variant in code order.
    pub open spec fn spec_from_bits(value: u8) -> Self {
        if value == 0 {
            PPVsys::Disable
        } else {
            PPVsys::Enable
        }
    }

    pub fn into_bits(self) -> (r: u8)
        ensures
            r == self.spec_into_bits(),
    {
        match self {
            PPVsys::Disable => 0,
            PPVsys::Enable => 1,
        }
    }

    pub fn from_bits(value: u8) -> (r: Self)
        ensures
            r == Self::spec_from_bits(value),
    {
        match value {
            0 => PPVsys::Disable,
            _ => PPVsys::Enable,
        }
    }

    /// Decoding the code of a variant yields that variant back.
    pub proof fn lemma_code_roundtrip(self)
        ensures
            Self::spec_from_bits(self.spec_into_bits()) == self,
    {
    }
}

/// IDCHG1 PROCHOT profile enable.
#[derive(Clone, Copy, Debug, PartialEq, Eq)]
pub enum PPIdchg1 {
    Disable,
    Enable,
}

impl PPIdchg1 {
    /// The chip-defined code of each variant.
    pub open spec fn spec_into_bits(self) -> u8 {
        match self {
            PPIdchg1::Disable => 0,
            PPIdchg1::Enable => 1,
        }
    }

    /// The variant each code decodes to; total over all codes, undeclared
    /// codes falling back to the last declared variant in code order.
    pub open spec fn spec_from_bits(value: u8) -> Self {
        if value == 0 {
            PPIdchg1::Disable
        } else {
            PPIdchg1::Enable
        }
    }

    pub fn into_bits(self) -> (r: u8)
        ensures
            r == self.spec_into_bits(),
    {
        match self {
            PPIdchg1::Disable => 0,
            PPIdchg1::Enable => 1,
        }
    }

    pub fn from_bits(value: u8) -> (r: Self)
        ensures
            r == Self::spec_from_bits(value),
    {
        match value {
            0 => PPIdchg1::Disable,
            _ => PPIdchg1::Enable,
        }
    }

    /// Decoding the code of a variant yields that variant back.
    pub proof fn lemma_code_roundtrip(self)
        ensures
            Self::spec_from_bits(self.spec_into_bits()) == self,
    {
    }
}

/// INOM PROCHOT profile enable.
#[derive(Clone, Copy, Debug, PartialEq, Eq)]
pub enum PPInom {
    Disable,
    Enable,
}

impl PPInom {
    /// The chip-defined code of each variant.
    pub open spec fn spec_into_bits(self) -> u8 {
        match self {
            PPInom::Disable => 0,
            PPInom::Enable => 1,
        }
    }

    /// The variant each code decodes to; total over all codes, undeclared
    /// codes falling back to the last declared variant in code order.
    pub open spec fn spec_from_bits(value: u8) -> Self {
        if value == 0 {
            PPInom::Disable
        } else {
            PPInom::Enable
        }
    }

    pub fn into_bits(self) -> (r: u8)
        ensures
            r == self.spec_into_bits(),
    {
        match self {
            PPInom::Disable => 0,
            PPInom::Enable => 1,
        }
    }

    pub fn from_bits(value: u8) -> (r: Self)
        ensures
            r == Self::spec_from_bits(value),
    {
        match value {
            0 => PPInom::Disable,
            _ => PPInom::Enable,
        }
    }

    /// Decoding the code of a variant yields that variant back.
    pub proof fn lemma_code_roundtrip(self)
        ensures
            Self::spec_from_bits(self.spec_into_bits()) == self,
    {
    }
}

/// ICRIT PROCHOT profile enable.
#[derive(Clone, Copy, Debug, PartialEq, Eq)]
pub enum PPIcrit {
    Disable,
    Enable,
}

impl PPIcrit {
    /// The chip-defined code of each variant.
    pub open spec fn spec_into_bits(self) -> u8 {
        match self {
            PPIcrit::Disable => 0,
            PPIcrit::Enable => 1,
        }
    }

    /// The variant each code decodes to; total over all codes, undeclared
    /// codes falling back to the last declared variant in code order.
    pub open spec fn spec_from_bits(value: u8) -> Self {
        if value == 0 {
            PPIcrit::Disable
        } else {
            PPIcrit::Enable
        }
    }

    pub fn into_bits(self) -> (r: u8)
        ensures
            r == self.spec_into_bits(),
    {
        match self {
            PPIcrit::Disable => 0,
            PPIcrit::Enable => 1,
        }
    }

    pub fn from_bits(value: u8) -> (r: Self)
        ensures
            r == Self::spec_from_bits(value),
    {
        match value {
            0 => PPIcrit::Disable,
            _ => PPIcrit::Enable,
        }
    }

    /// Decoding the code of a variant yields that variant back.
    pub proof fn lemma_code_roundtrip(self)
        ensures
            Self::spec_from_bits(self.spec_into_bits()) == self,
    {
    }
}

/// COMP PROCHOT profile enable.
#[derive(Clone, Copy, Debug, PartialEq, Eq)]
pub enum PPCmp {
    Disable,
    Enable,
}

impl PPCmp {
    /// The chip-defined code of each variant.
    pub open spec fn spec_into_bits(self) -> u8 {
        match self {
            PPCmp::Disable => 0,
            PPCmp::Enable => 1,
        }
    }

    /// The variant each code decodes to; total over all codes, undeclared
    /// codes falling back to the last declared variant in code order.
    pub open spec fn spec_from_bits(value: u8) -> Self {
        if value == 0 {
            PPCmp::Disable
        } else {
            PPCmp::Enable
        }
    }

    pub fn into_bits(self) -> (r: u8)
        ensures
            r == self.spec_into_bits(),
    {
        match self {
            PPCmp::Disable => 0,
            PPCmp::Enable => 1,
        }
    }

    pub fn from_bits(value: u8) -> (r: Self)
        ensures
            r == Self::spec_from_bits(value),
    {
        match value {
            0 => PPCmp::Disable,
            _ => PPCmp::Enable,
        }
    }

    /// Decoding the code of a variant yields that variant back.
    pub proof fn lemma_code_roundtrip(self)
        ensures
            Self::spec_from_bits(self.spec_into_bits()) == self,
    {
    }
}

/// VINDPM PROCHOT profile enable.
#[derive(Clone, Copy, Debug, PartialEq, Eq)]
pub enum PPVinDpm {
    Disable,
    Enable,
}

impl PPVinDpm {
    /// The chip-defined code of each variant.
    pub open spec fn spec_into_bits(self) -> u8 {
        match self {
            PPVinDpm::Disable => 0,
            PPVinDpm::Enable => 1,
        }
    }

    /// The variant each code decodes to; total over all codes, undeclared
    /// codes falling back to the last declared variant in code order.
    pub open spec fn spec_from_bits(value: u8) -> Self {
        if value == 0 {
            PPVinDpm::Disable
        } else {
            PPVinDpm::Enable
        }
    }

    pub fn into_bits(self) -> (r: u8)
        ensures
            r == self.spec_into_bits(),
    {
        match self {
            PPVinDpm::Disable => 0,
            PPVinDpm::Enable => 1,
        }
    }

    pub fn from_bits(value: u8) -> (r: Self)
        ensures
            r == Self::spec_from_bits(value),
    {
        match value {
            0 => PPVinDpm::Disable,
            _ => PPVinDpm::Enable,
        }
    }

    /// Decoding the code of a variant yields that variant back.
    pub proof fn lemma_code_roundtrip(self)
        ensures
            Self::spec_from_bits(self.spec_into_bits()) == self,
    {
    }
}

/// IDCHG Deglitch Time.
#[derive(Clone, Copy, Debug, PartialEq, Eq)]
pub enum IdchgDeg1 {
    Time78ms,
    Time1250ms,
    Time5000ms,
    Time20000ms,
}

impl IdchgDeg1 {
    /// The chip-defined code of each variant.
    pub open spec fn spec_into_bits(self) -> u8 {
        match self {
            IdchgDeg1::Time78ms => 0,
            IdchgDeg1::Time1250ms => 1,
            IdchgDeg1::Time5000ms => 2,
            IdchgDeg1::Time20000ms => 3,
        }
    }

    /// The variant each code decodes to; total over all codes, undeclared
    /// codes falling back to the last declared variant in code order.
    pub open spec fn spec_from_bits(value: u8) -> Self {
        if value == 0 {
            IdchgDeg1::Time78ms
        } else if value == 1 {
            IdchgDeg1::Time1250ms
        } else if value == 2 {
            IdchgDeg1::Time5000ms
        } else {
            IdchgDeg1::Time20000ms
        }
    }

    pub fn into_bits(self) -> (r: u8)
        ensures
            r == self.spec_into_bits(),
    {
        match self {
            IdchgDeg1::Time78ms => 0,
            IdchgDeg1::Time1250ms => 1,
            IdchgDeg1::Time5000ms => 2,
            IdchgDeg1::Time20000ms => 3,
        }
    }

    pub fn from_bits(value: u8) -> (r: Self)
        ensures
            r == Self::spec_from_bits(value),
    {
        match value {
            0 => IdchgDeg1::Time78ms,
            1 => IdchgDeg1::Time1250ms,
            2 => IdchgDeg1::Time5000ms,
            _ => IdchgDeg1::Time20000ms,
        }
    }

    /// Decoding the code of a variant yields that variant back.
    pub proof fn lemma_code_roundtrip(self)
        ensures
            Self::spec_from_bits(self.spec_into_bits()) == self,
    {
    }
}

} // verus!
