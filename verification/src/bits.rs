//! Bit-level treatment of IEEE 754 values: NaN detection and quieting.

use vstd::prelude::*;

verus! {

/// The signed number with the same 32-bit two's-complement pattern as `bits`.
pub open spec fn signed_32(bits: u32) -> i32 {
    if bits < 0x8000_0000 {
        bits as i32
    } else {
        (bits - 0x1_0000_0000) as i32
    }
}

/// The signed number with the same 64-bit two's-complement pattern as `bits`.
pub open spec fn signed_64(bits: u64) -> i64 {
    if bits < 0x8000_0000_0000_0000 {
        bits as i64
    } else {
        (bits - 0x1_0000_0000_0000_0000) as i64
    }
}

/// The unsigned number with the same 32-bit pattern as `v`.
pub open spec fn unsigned_32(v: i32) -> u32 {
    if v >= 0 {
        v as u32
    } else {
        (v + 0x1_0000_0000) as u32
    }
}

/// The unsigned number with the same 64-bit pattern as `v`.
pub open spec fn unsigned_64(v: i64) -> u64 {
    if v >= 0 {
        v as u64
    } else {
        (v + 0x1_0000_0000_0000_0000) as u64
    }
}

/// Reinterprets an unsigned 32-bit pattern as a signed number.
pub fn to_signed_32(bits: u32) -> (r: i32)
    ensures
        r == signed_32(bits),
        unsigned_32(r) == bits,
{
    if bits < 0x8000_0000 {
        bits as i32
    } else {
        ((bits - 0x8000_0000) as i32) + i32::MIN
    }
}

/// Reinterprets an unsigned 64-bit pattern as a signed number.
pub fn to_signed_64(bits: u64) -> (r: i64)
    ensures
        r == signed_64(bits),
        unsigned_64(r) == bits,
{
    if bits < 0x8000_0000_0000_0000 {
        bits as i64
    } else {
        ((bits - 0x8000_0000_0000_0000) as i64) + i64::MIN
    }
}

/// Reinterprets a signed 32-bit number as its unsigned pattern.
pub fn to_unsigned_32(v: i32) -> (r: u32)
    ensures
        r == unsigned_32(v),
        signed_32(r) == v,
{
    if v >= 0 {
        v as u32
    } else {
        ((v - i32::MIN) as u32) + 0x8000_0000
    }
}

/// Reinterprets a signed 64-bit number as its unsigned pattern.
pub fn to_unsigned_64(v: i64) -> (r: u64)
    ensures
        r == unsigned_64(v),
        signed_64(r) == v,
{
    if v >= 0 {
        v as u64
    } else {
        ((v - i64::MIN) as u64) + 0x8000_0000_0000_0000
    }
}

/// Exponent field of a 32-bit float.
pub const F32_EXP_MASK: u32 = 0x7F80_0000;

/// Most significant fraction bit of a 32-bit float; set in every quiet NaN.
pub const F32_QNAN_MASK: u32 = 0x0040_0000;

/// Fraction field of a 32-bit float.
pub const F32_FRACT_MASK: u32 = 0x007F_FFFF;

/// Whether `v` encodes a NaN: all exponent bits set and a nonzero fraction.
pub open spec fn is_nan_f32(v: u32) -> bool {
    v & F32_EXP_MASK == F32_EXP_MASK && v & F32_FRACT_MASK != 0
}

/// The bit pattern that stands for `v` once signaling NaNs are quieted.
pub open spec fn quiet_f32(v: u32) -> u32 {
    if is_nan_f32(v) {
        v | F32_QNAN_MASK
    } else {
        v
    }
}

/// Quiets a signaling NaN by setting the top fraction bit; any other
/// pattern passes through unchanged.
pub fn canonicalize_f32_bits(v: u32) -> (r: u32)
    ensures
        r == quiet_f32(v),
{
    if v & F32_EXP_MASK == F32_EXP_MASK && v & F32_FRACT_MASK != 0 {
        v | F32_QNAN_MASK
    } else {
        v
    }
}

/// Exponent field of a 64-bit float.
pub const F64_EXP_MASK: u64 = 0x7FF0_0000_0000_0000;

/// Most significant fraction bit of a 64-bit float; set in every quiet NaN.
pub const F64_QNAN_MASK: u64 = 0x0008_0000_0000_0000;

/// Fraction field of a 64-bit float.
pub const F64_FRACT_MASK: u64 = 0x000F_FFFF_FFFF_FFFF;

/// Whether `v` encodes a NaN: all exponent bits set and a nonzero fraction.
pub open spec fn is_nan_f64(v: u64) -> bool {
    v & F64_EXP_MASK == F64_EXP_MASK && v & F64_FRACT_MASK != 0
}

/// The bit pattern that stands for `v` once signaling NaNs are quieted.
pub open spec fn quiet_f64(v: u64) -> u64 {
    if is_nan_f64(v) {
        v | F64_QNAN_MASK
    } else {
        v
    }
}

/// Quiets a signaling NaN by setting the top fraction bit; any other
/// pattern passes through unchanged.
pub fn canonicalize_f64_bits(v: u64) -> (r: u64)
    ensures
        r == quiet_f64(v),
{
    if v & F64_EXP_MASK == F64_EXP_MASK && v & F64_FRACT_MASK != 0 {
        v | F64_QNAN_MASK
    } else {
        v
    }
}

/// Quieting a 32-bit pattern twice gives the same pattern as quieting it
/// once, and the quieted pattern is a NaN exactly when the input was.
pub proof fn lemma_quiet_f32_idempotent(v: u32)
    ensures
        quiet_f32(quiet_f32(v)) == quiet_f32(v),
        is_nan_f32(quiet_f32(v)) == is_nan_f32(v),
        is_nan_f32(v) ==> quiet_f32(v) & F32_QNAN_MASK == F32_QNAN_MASK,
        !is_nan_f32(v) ==> quiet_f32(v) == v,
{
    assert((v | 0x0040_0000u32) | 0x0040_0000u32 == v | 0x0040_0000u32) by (bit_vector);
    assert((v | 0x0040_0000u32) & 0x7F80_0000u32 == v & 0x7F80_0000u32) by (bit_vector);
    assert((v | 0x0040_0000u32) & 0x007F_FFFFu32 != 0) by (bit_vector);
    assert((v | 0x0040_0000u32) & 0x0040_0000u32 == 0x0040_0000u32) by (bit_vector);
}

/// Quieting a 64-bit pattern twice gives the same pattern as quieting it
/// once, and the quieted pattern is a NaN exactly when the input was.
pub proof fn lemma_quiet_f64_idempotent(v: u64)
    ensures
        quiet_f64(quiet_f64(v)) == quiet_f64(v),
        is_nan_f64(quiet_f64(v)) == is_nan_f64(v),
        is_nan_f64(v) ==> quiet_f64(v) & F64_QNAN_MASK == F64_QNAN_MASK,
        !is_nan_f64(v) ==> quiet_f64(v) == v,
{
    assert((v | 0x0008_0000_0000_0000u64) | 0x0008_0000_0000_0000u64 == v
        | 0x0008_0000_0000_0000u64) by (bit_vector);
    assert((v | 0x0008_0000_0000_0000u64) & 0x7FF0_0000_0000_0000u64 == v
        & 0x7FF0_0000_0000_0000u64) by (bit_vector);
    assert((v | 0x0008_0000_0000_0000u64) & 0x000F_FFFF_FFFF_FFFFu64 != 0) by (bit_vector);
    assert((v | 0x0008_0000_0000_0000u64) & 0x0008_0000_0000_0000u64 == 0x0008_0000_0000_0000u64)
        by (bit_vector);
}

} // verus!
