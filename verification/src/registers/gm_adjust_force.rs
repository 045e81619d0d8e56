//! GM Adjust Force Register.

use vstd::prelude::*;

use crate::bits::field_get;
use crate::bits::field_set;
use crate::bits::get_field;
use crate::bits::lemma_set_preserves_rest;
use crate::bits::lemma_set_then_get_w1;
use crate::bits::lemma_set_then_get_w6;
use crate::bits::set_field;
use crate::registers::Register;

verus! {

/// GM Adjust Force Register: raw 16-bit value at bus address 0x62.
#[derive(Clone, Copy, Debug, PartialEq, Eq)]
pub struct GmAdjustForce {
    bits: u16,
}

impl Register for GmAdjustForce {
    closed spec fn spec_bits(self) -> u16 {
        self.bits
    }

    open spec fn spec_addr() -> u8 {
        0x62
    }

    closed spec fn spec_of_bits(bits: u16) -> Self {
        GmAdjustForce { bits }
    }

    fn from_bits(bits: u16) -> (r: Self) {
        GmAdjustForce { bits }
    }

    fn into_bits(self) -> (r: u16) {
        self.bits
    }

    fn addr() -> (r: u8) {
        0x62
    }

    proof fn lemma_encode_decode(bits: u16) {
    }

    proof fn lemma_decode_encode(self) {
    }
}

impl GmAdjustForce {
    /// The raw value the register holds immediately after device power-up.
    pub fn new() -> (r: Self)
        ensures
            r.spec_bits() == 0xc7,
    {
        GmAdjustForce { bits: 0xc7 }
    }

    /// Enable FORCE_AUTOTUNE_A, FORCE_AUTOTUNE_B effective for
    pub fn force_autotune_en(&self) -> (r: ForceAutotune)
        ensures
            r == ForceAutotune::spec_from_bits(field_get(self.spec_bits(), 0, 0x1) as u8),
    {
        ForceAutotune::from_bits(get_field(self.bits, 0, 0x1) as u8)
    }

    /// Enable FORCE_AUTOTUNE_A, FORCE_AUTOTUNE_B effective for
    pub fn set_force_autotune_en(&mut self, value: ForceAutotune)
        ensures
            final(self).spec_bits() == field_set(
                old(self).spec_bits(),
                0,
                0x1,
                value.spec_into_bits() as u16,
            ),
            final(self).spec_bits() & !(0x1u16 << 0) == old(self).spec_bits() & !(0x1u16 << 0),
            ForceAutotune::spec_from_bits(field_get(final(self).spec_bits(), 0, 0x1) as u8)
                == value,
    {
        proof {
            lemma_set_preserves_rest(self.bits, 0, 0x1, value.spec_into_bits() as u16);
            lemma_set_then_get_w1(self.bits, 0, value.spec_into_bits() as u16);
            value.lemma_code_roundtrip();
        }
        let code: u16 = value.into_bits() as u16;
        self.bits = set_field(self.bits, 0, 0x1, code);
    }

    /// Enable FORCE_GM_ADJUST effective for inductor DCR current
    pub fn force_gm_adjust_en(&self) -> (r: ForceGmAdjust)
        ensures
            r == ForceGmAdjust::spec_from_bits(field_get(self.spec_bits(), 1, 0x1) as u8),
    {
        ForceGmAdjust::from_bits(get_field(self.bits, 1, 0x1) as u8)
    }

    /// Enable FORCE_GM_ADJUST effective for inductor DCR current
    pub fn set_force_gm_adjust_en(&mut self, value: ForceGmAdjust)
        ensures
            final(self).spec_bits() == field_set(
                old(self).spec_bits(),
                1,
                0x1,
                value.spec_into_bits() as u16,
            ),
            final(self).spec_bits() & !(0x1u16 << 1) == old(self).spec_bits() & !(0x1u16 << 1),
            ForceGmAdjust::spec_from_bits(field_get(final(self).spec_bits(), 1, 0x1) as u8)
                == value,
    {
        proof {
            lemma_set_preserves_rest(self.bits, 1, 0x1, value.spec_into_bits() as u16);
            lemma_set_then_get_w1(self.bits, 1, value.spec_into_bits() as u16);
            value.lemma_code_roundtrip();
        }
        let code: u16 = value.into_bits() as u16;
        self.bits = set_field(self.bits, 1, 0x1, code);
    }

    /// Force GM adjustment value for inductor DCR.
    pub fn force_gm_adjust(&self) -> (r: u16)
        ensures
            r == field_get(self.spec_bits(), 2, 0x3f),
            r <= 0x3f,
    {
        get_field(self.bits, 2, 0x3f)
    }

    /// Force GM adjustment value for inductor DCR.
    pub fn set_force_gm_adjust(&mut self, value: u16)
        requires
            value <= 0x3f,
        ensures
            final(self).spec_bits() == field_set(old(self).spec_bits(), 2, 0x3f, value),
            final(self).spec_bits() & !(0x3fu16 << 2) == old(self).spec_bits() & !(0x3fu16 << 2),
            field_get(final(self).spec_bits(), 2, 0x3f) == value,
    {
        proof {
            lemma_set_preserves_rest(self.bits, 2, 0x3f, value);
            lemma_set_then_get_w6(self.bits, 2, value);
        }
        self.bits = set_field(self.bits, 2, 0x3f, value);
    }

    /// Update FORCE_AUTOTUNE_A, FORCE_AUTOTUNE_B, FORCE_GM_ADJUST
    pub fn force_update(&self) -> (r: ForceUpdate)
        ensures
            r == ForceUpdate::spec_from_bits(field_get(self.spec_bits(), 9, 0x1) as u8),
    {
        ForceUpdate::from_bits(get_field(self.bits, 9, 0x1) as u8)
    }

    /// Update FORCE_AUTOTUNE_A, FORCE_AUTOTUNE_B, FORCE_GM_ADJUST
    pub fn set_force_update(&mut self, value: ForceUpdate)
        ensures
            final(self).spec_bits() == field_set(
                old(self).spec_bits(),
                9,
                0x1,
                value.spec_into_bits() as u16,
            ),
            final(self).spec_bits() & !(0x1u16 << 9) == old(self).spec_bits() & !(0x1u16 << 9),
            ForceUpdate::spec_from_bits(field_get(final(self).spec_bits(), 9, 0x1) as u8)
                == value,
    {
        proof {
            lemma_set_preserves_rest(self.bits, 9, 0x1, value.spec_into_bits() as u16);
            lemma_set_then_get_w1(self.bits, 9, value.spec_into_bits() as u16);
            value.lemma_code_roundtrip();
        }
        let code: u16 = value.into_bits() as u16;
        self.bits = set_field(self.bits, 9, 0x1, code);
    }

    /// Auto adaptive adjustment value for inductor DCR. This value is
    pub fn gm_adjust(&self) -> (r: u16)
        ensures
            r == field_get(self.spec_bits(), 10, 0x3f),
            r <= 0x3f,
    {
        get_field(self.bits, 10, 0x3f)
    }

    /// Auto adaptive adjustment value for inductor DCR. This value is
    pub fn set_gm_adjust(&mut self, value: u16)
        requires
            value <= 0x3f,
        ensures
            final(self).spec_bits() == field_set(old(self).spec_bits(), 10, 0x3f, value),
            final(self).spec_bits() & !(0x3fu16 << 10) == old(self).spec_bits() & !(0x3fu16 << 10),
            field_get(final(self).spec_bits(), 10, 0x3f) == value,
    {
        proof {
            lemma_set_preserves_rest(self.bits, 10, 0x3f, value);
            lemma_set_then_get_w6(self.bits, 10, value);
        }
        self.bits = set_field(self.bits, 10, 0x3f, value);
    }
}

/// Enable FORCE_AUTOTUNE_A, FORCE_AUTOTUNE_B effective for.
#[derive(Clone, Copy, Debug, PartialEq, Eq)]
pub enum ForceAutotune {
    Disable,
    Enable,
}

impl ForceAutotune {
    /// The chip-defined code of each variant.
    pub open spec fn spec_into_bits(self) -> u8 {
        match self {
            ForceAutotune::Disable => 0,
            ForceAutotune::Enable => 1,
        }
    }

    /// The variant each code decodes to; total over all codes, undeclared
    /// codes falling back to the last declared variant in code order.
    pub open spec fn spec_from_bits(value: u8) -> Self {
        if value == 0 {
            ForceAutotune::Disable
        } else {
            ForceAutotune::Enable
        }
    }

    pub fn into_bits(self) -> (r: u8)
        ensures
            r == self.spec_into_bits(),
    {
        match self {
            ForceAutotune::Disable => 0,
            ForceAutotune::Enable => 1,
        }
    }

    pub fn from_bits(value: u8) -> (r: Self)
        ensures
            r == Self::spec_from_bits(value),
    {
        match value {
            0 => ForceAutotune::Disable,
            _ => ForceAutotune::Enable,
        }
    }

    /// Decoding the code of a variant yields that variant back.
    pub proof fn lemma_code_roundtrip(self)
        ensures
            Self::spec_from_bits(self.spec_into_bits()) == self,
    {
    }
}

/// Enable FORCE_GM_ADJUST effective for inductor DCR current.
#[derive(Clone, Copy, Debug, PartialEq, Eq)]
pub enum ForceGmAdjust {
    Disable,
    Enable,
}

impl ForceGmAdjust {
    /// The chip-defined code of each variant.
    pub open spec fn spec_into_bits(self) -> u8 {
        match self {
            ForceGmAdjust::Disable => 0,
            ForceGmAdjust::Enable => 1,
        }
    }

    /// The variant each code decodes to; total over all codes, undeclared
    /// codes falling back to the last declared variant in code order.
    pub open spec fn spec_from_bits(value: u8) -> Self {
        if value == 0 {
            ForceGmAdjust::Disable
        } else {
            ForceGmAdjust::Enable
        }
    }

    pub fn into_bits(self) -> (r: u8)
        ensures
            r == self.spec_into_bits(),
    {
        match self {
            ForceGmAdjust::Disable => 0,
            ForceGmAdjust::Enable => 1,
        }
    }

    pub fn from_bits(value: u8) -> (r: Self)
        ensures
            r == Self::spec_from_bits(value),
    {
        match value {
            0 => ForceGmAdjust::Disable,
            _ => ForceGmAdjust::Enable,
        }
    }

    /// Decoding the code of a variant yields that variant back.
    pub proof fn lemma_code_roundtrip(self)
        ensures
            Self::spec_from_bits(self.spec_into_bits()) == self,
    {
    }
}

/// Update FORCE_AUTOTUNE_A, FORCE_AUTOTUNE_B, FORCE_GM_ADJUST.
#[derive(Clone, Copy, Debug, PartialEq, Eq)]
pub enum ForceUpdate {
    Idle,
    Update,
}

impl ForceUpdate {
    /// The chip-defined code of each variant.
    pub open spec fn spec_into_bits(self) -> u8 {
        match self {
            ForceUpdate::Idle => 0,
            ForceUpdate::Update => 1,
        }
    }

    /// The variant each code decodes to; total over all codes, undeclared
    /// codes falling back to the last declared variant in code order.
    pub open spec fn spec_from_bits(value: u8) -> Self {
        if value == 0 {
            ForceUpdate::Idle
        } else {
            ForceUpdate::Update
        }
    }

    pub fn into_bits(self) -> (r: u8)
        ensures
            r == self.spec_into_bits(),
    {
        match self {
            ForceUpdate::Idle => 0,
            ForceUpdate::Update => 1,
        }
    }

    pub fn from_bits(value: u8) -> (r: Self)
        ensures
            r == Self::spec_from_bits(value),
    {
        match value {
            0 => ForceUpdate::Idle,
            _ => ForceUpdate::Update,
        }
    }

    /// Decoding the code of a variant yields that variant back.
    pub proof fn lemma_code_roundtrip(self)
        ensures
            Self::spec_from_bits(self.spec_into_bits()) == self,
    {
    }
}

} // verus!
