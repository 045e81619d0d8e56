//! Bit-slice arithmetic shared by every register codec.
//!
//! A register field is identified by the position `off` of its least
//! significant bit inside the 16-bit raw value and by the low-aligned mask
//! `mask` covering its width.  Reading and writing a field are the two spec
//! functions below; the lemmas state that a field update is isolated: it
//! stores exactly the requested quantity and leaves every other bit alone.

use vstd::prelude::*;

verus! {

/// The raw content of the field at (`off`, `mask`) inside `bits`.
pub open spec fn field_get(bits: u16, off: u16, mask: u16) -> u16 {
    (bits >> off) & mask
}

/// `bits` with the field at (`off`, `mask`) replaced by `value`.
pub open spec fn field_set(bits: u16, off: u16, mask: u16, value: u16) -> u16 {
    (bits & !(mask << off)) | ((value & mask) << off)
}

/// Reads one field out of a raw register value.
pub fn get_field(bits: u16, off: u16, mask: u16) -> (r: u16)
    requires
        off < 16,
    ensures
        r == field_get(bits, off, mask),
        r <= mask,
{
    proof {
        assert((bits >> off) & mask <= mask) by (bit_vector);
    }
    (bits >> off) & mask
}

/// Writes one field of a raw register value, leaving the rest untouched.
pub fn set_field(bits: u16, off: u16, mask: u16, value: u16) -> (r: u16)
    requires
        off < 16,
    ensures
        r == field_set(bits, off, mask, value),
{
    (bits & !(mask << off)) | ((value & mask) << off)
}

/// A field update stores exactly the requested quantity: reading the field
/// back from the updated raw value returns the value that was written
/// (masked to the field's width, which is the identity on every in-range
/// value).
pub proof fn lemma_set_then_get(bits: u16, off: u16, mask: u16, value: u16)
    requires
        off < 16,
        value & mask == value,
        ((mask << off) >> off) == mask,
    ensures
        field_get(field_set(bits, off, mask, value), off, mask) == value,
{
    assert((((bits & !(mask << off)) | ((value & mask) << off)) >> off) & mask == value)
        by (bit_vector)
        requires
            off < 16u16,
            value & mask == value,
            ((mask << off) >> off) == mask,
    ;
}

/// Writing an in-range value into a field and reading the field back
/// returns exactly that value.  One instance per field width the chip's
/// register map uses, with the width's low-aligned mask as a literal so
/// that register code can invoke it without any bit reasoning of its own.
pub proof fn lemma_set_then_get_w1(bits: u16, off: u16, value: u16)
    requires
        off < 16,
        value <= 0x1,
    ensures
        field_get(field_set(bits, off, 0x1, value), off, 0x1) == value,
{
    assert((((bits & !(0x1u16 << off)) | ((value & 0x1) << off)) >> off) & 0x1
        == value) by (bit_vector)
        requires
            off < 16u16,
            value <= 0x1u16,
    ;
}

/// Set-then-get instance for 2-bit fields.
pub proof fn lemma_set_then_get_w2(bits: u16, off: u16, value: u16)
    requires
        off <= 14,
        value <= 0x3,
    ensures
        field_get(field_set(bits, off, 0x3, value), off, 0x3) == value,
{
    assert((((bits & !(0x3u16 << off)) | ((value & 0x3) << off)) >> off) & 0x3
        == value) by (bit_vector)
        requires
            off <= 14u16,
            value <= 0x3u16,
    ;
}

/// Set-then-get instance for 3-bit fields.
pub proof fn lemma_set_then_get_w3(bits: u16, off: u16, value: u16)
    requires
        off <= 13,
        value <= 0x7,
    ensures
        field_get(field_set(bits, off, 0x7, value), off, 0x7) == value,
{
    assert((((bits & !(0x7u16 << off)) | ((value & 0x7) << off)) >> off) & 0x7
        == value) by (bit_vector)
        requires
            off <= 13u16,
            value <= 0x7u16,
    ;
}

/// Set-then-get instance for 4-bit fields.
pub proof fn lemma_set_then_get_w4(bits: u16, off: u16, value: u16)
    requires
        off <= 12,
        value <= 0xf,
    ensures
        field_get(field_set(bits, off, 0xf, value), off, 0xf) == value,
{
    assert((((bits & !(0xfu16 << off)) | ((value & 0xf) << off)) >> off) & 0xf
        == value) by (bit_vector)
        requires
            off <= 12u16,
            value <= 0xfu16,
    ;
}

/// Set-then-get instance for 5-bit fields.
pub proof fn lemma_set_then_get_w5(bits: u16, off: u16, value: u16)
    requires
        off <= 11,
        value <= 0x1f,
    ensures
        field_get(field_set(bits, off, 0x1f, value), off, 0x1f) == value,
{
    assert((((bits & !(0x1fu16 << off)) | ((value & 0x1f) << off)) >> off) & 0x1f
        == value) by (bit_vector)
        requires
            off <= 11u16,
            value <= 0x1fu16,
    ;
}

/// Set-then-get instance for 6-bit fields.
pub proof fn lemma_set_then_get_w6(bits: u16, off: u16, value: u16)
    requires
        off <= 10,
        value <= 0x3f,
    ensures
        field_get(field_set(bits, off, 0x3f, value), off, 0x3f) == value,
{
    assert((((bits & !(0x3fu16 << off)) | ((value & 0x3f) << off)) >> off) & 0x3f
        == value) by (bit_vector)
        requires
            off <= 10u16,
            value <= 0x3fu16,
    ;
}

/// Set-then-get instance for 7-bit fields.
pub proof fn lemma_set_then_get_w7(bits: u16, off: u16, value: u16)
    requires
        off <= 9,
        value <= 0x7f,
    ensures
        field_get(field_set(bits, off, 0x7f, value), off, 0x7f) == value,
{
    assert((((bits & !(0x7fu16 << off)) | ((value & 0x7f) << off)) >> off) & 0x7f
        == value) by (bit_vector)
        requires
            off <= 9u16,
            value <= 0x7fu16,
    ;
}

/// Set-then-get instance for 8-bit fields.
pub proof fn lemma_set_then_get_w8(bits: u16, off: u16, value: u16)
    requires
        off <= 8,
        value <= 0xff,
    ensures
        field_get(field_set(bits, off, 0xff, value), off, 0xff) == value,
{
    assert((((bits & !(0xffu16 << off)) | ((value & 0xff) << off)) >> off) & 0xff
        == value) by (bit_vector)
        requires
            off <= 8u16,
            value <= 0xffu16,
    ;
}

/// Set-then-get instance for 9-bit fields.
pub proof fn lemma_set_then_get_w9(bits: u16, off: u16, value: u16)
    requires
        off <= 7,
        value <= 0x1ff,
    ensures
        field_get(field_set(bits, off, 0x1ff, value), off, 0x1ff) == value,
{
    assert((((bits & !(0x1ffu16 << off)) | ((value & 0x1ff) << off)) >> off) & 0x1ff
        == value) by (bit_vector)
        requires
            off <= 7u16,
            value <= 0x1ffu16,
    ;
}

/// Set-then-get instance for 11-bit fields.
pub proof fn lemma_set_then_get_w11(bits: u16, off: u16, value: u16)
    requires
        off <= 5,
        value <= 0x7ff,
    ensures
        field_get(field_set(bits, off, 0x7ff, value), off, 0x7ff) == value,
{
    assert((((bits & !(0x7ffu16 << off)) | ((value & 0x7ff) << off)) >> off) & 0x7ff
        == value) by (bit_vector)
        requires
            off <= 5u16,
            value <= 0x7ffu16,
    ;
}

/// Set-then-get instance for 13-bit fields.
pub proof fn lemma_set_then_get_w13(bits: u16, off: u16, value: u16)
    requires
        off <= 3,
        value <= 0x1fff,
    ensures
        field_get(field_set(bits, off, 0x1fff, value), off, 0x1fff) == value,
{
    assert((((bits & !(0x1fffu16 << off)) | ((value & 0x1fff) << off)) >> off) & 0x1fff
        == value) by (bit_vector)
        requires
            off <= 3u16,
            value <= 0x1fffu16,
    ;
}

/// Set-then-get instance for 16-bit fields.
pub proof fn lemma_set_then_get_w16(bits: u16, off: u16, value: u16)
    requires
        off <= 0,
        value <= 0xffff,
    ensures
        field_get(field_set(bits, off, 0xffff, value), off, 0xffff) == value,
{
    assert((((bits & !(0xffffu16 << off)) | ((value & 0xffff) << off)) >> off) & 0xffff
        == value) by (bit_vector)
        requires
            off <= 0u16,
            value <= 0xffffu16,
    ;
}

/// A field update is isolated: every bit outside the field's shifted mask
/// keeps the state it had before the update.
pub proof fn lemma_set_preserves_rest(bits: u16, off: u16, mask: u16, value: u16)
    ensures
        field_set(bits, off, mask, value) & !(mask << off) == bits & !(mask << off),
{
    assert(((bits & !(mask << off)) | ((value & mask) << off)) & !(mask << off) == bits & !(mask
        << off)) by (bit_vector);
}

/// Updating one field does not change what any disjoint field decodes to.
pub proof fn lemma_set_other_field(
    bits: u16,
    off: u16,
    mask: u16,
    value: u16,
    off2: u16,
    mask2: u16,
)
    requires
        (mask << off) & (mask2 << off2) == 0,
    ensures
        field_get(field_set(bits, off, mask, value), off2, mask2) == field_get(bits, off2, mask2),
{
    assert((((bits & !(mask << off)) | ((value & mask) << off)) >> off2) & mask2 == (bits >> off2)
        & mask2) by (bit_vector)
        requires
            (mask << off) & (mask2 << off2) == 0u16,
    ;
}

/// Interprets a 16-bit raw pattern as a two's-complement signed quantity.
pub open spec fn spec_signed16(raw: u16) -> int {
    if raw >= 0x8000 {
        raw - 0x10000
    } else {
        raw as int
    }
}

/// Sign-extends a full-width 16-bit field to the host's signed type.
pub fn signed16_of_raw(raw: u16) -> (r: i16)
    ensures
        r as int == spec_signed16(raw),
{
    proof {
        assert(raw as i16 as int == if raw >= 0x8000 {
            raw - 0x10000
        } else {
            raw as int
        }) by (bit_vector);
    }
    raw as i16
}

/// Truncates a signed quantity back to its two's-complement 16-bit pattern.
pub fn raw_of_signed16(value: i16) -> (r: u16)
    ensures
        spec_signed16(r) == value as int,
{
    proof {
        assert(value as u16 as int == if value >= 0 {
            value as int
        } else {
            value + 0x10000
        }) by (bit_vector);
    }
    value as u16
}

} // verus!
