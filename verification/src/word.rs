//! Sixteen-bit machine words: the two readings of a word, as a signed and as
//! an unsigned number, and sign extension of a narrower field.

use vstd::prelude::*;

verus! {

/// The two's-complement reading of a word.
pub open spec fn signed(u: u16) -> i16 {
    if u < 0x8000 {
        u as i16
    } else {
        (u - 0x10000) as i16
    }
}

/// The word whose two's-complement reading is `i`.
pub open spec fn unsigned(i: i16) -> u16 {
    if i >= 0 {
        i as u16
    } else {
        (i + 0x10000) as u16
    }
}

/// The number in `-32768..=32767` that differs from `n` by a multiple of 65536.
pub open spec fn wrap16(n: int) -> i16 {
    signed((n % 0x10000) as u16)
}

/// The number in `0..=65535` that differs from `n` by a multiple of 65536.
pub open spec fn wrap_word(n: int) -> u16 {
    (n % 0x10000) as u16
}

/// Reads the low `width` bits of `field` as a two's-complement number.
/// Meant for `1 <= width <= 16`.
pub open spec fn sign_extend(field: u16, width: u16) -> i16 {
    let low = field & low_mask(width);
    if low & sign_bit(width) != 0 {
        signed(low | !low_mask(width))
    } else {
        signed(low)
    }
}

/// The mask that keeps the low `width` bits.
pub open spec fn low_mask(width: u16) -> u16 {
    if width >= 16 {
        0xFFFF
    } else {
        ((1u16 << width) - 1) as u16
    }
}

/// The top bit of a field of `width` bits.
pub open spec fn sign_bit(width: u16) -> u16 {
    1u16 << ((width - 1) as u16)
}

/// Computes `signed`.
pub fn to_signed(u: u16) -> (i: i16)
    ensures
        i == signed(u),
{
    assert(u as i16 == signed(u)) by (bit_vector);
    u as i16
}

/// Computes `unsigned`.
pub fn to_unsigned(i: i16) -> (u: u16)
    ensures
        u == unsigned(i),
{
    assert(i as u16 == unsigned(i)) by (bit_vector);
    i as u16
}

/// Computes `low_mask`.
pub fn mask_of(width: u16) -> (m: u16)
    requires
        1 <= width <= 16,
    ensures
        m == low_mask(width),
{
    if width >= 16 {
        0xFFFF
    } else {
        assert((1u16 << width) >= 1) by (bit_vector)
            requires
                width < 16,
        ;
        (1u16 << width) - 1
    }
}

/// Computes `sign_extend`.
pub fn extend(field: u16, width: u16) -> (i: i16)
    requires
        1 <= width <= 16,
    ensures
        i == sign_extend(field, width),
{
    let mask: u16 = mask_of(width);
    let low: u16 = field & mask;
    if low & (1u16 << (width - 1)) != 0 {
        to_signed(low | !mask)
    } else {
        to_signed(low)
    }
}

/// Computes `wrap16`.
pub fn wrap(n: i32) -> (i: i16)
    ensures
        i == wrap16(n as int),
{
    assert(n as i16 == signed((n as int % 0x10000) as u16)) by (bit_vector);
    n as i16
}

/// Computes `wrap_word`.
pub fn wrap_unsigned(n: i32) -> (u: u16)
    ensures
        u == wrap_word(n as int),
{
    assert(n as u16 == (n as int % 0x10000) as u16) by (bit_vector);
    n as u16
}

/// What `sign_extend` gives, in numbers: the low bits as they stand where
/// the top one of them is clear, and less two to the width where it is set.
pub proof fn sign_extend_in_numbers(field: u16)
    by (bit_vector)
    ensures
        sign_extend(field, 5) == (if field % 32 >= 16 {
            field % 32 - 32
        } else {
            (field % 32) as int
        }),
        sign_extend(field, 6) == (if field % 64 >= 32 {
            field % 64 - 64
        } else {
            (field % 64) as int
        }),
        sign_extend(field, 7) == (if field % 128 >= 64 {
            field % 128 - 128
        } else {
            (field % 128) as int
        }),
        sign_extend(field, 9) == (if field % 512 >= 256 {
            field % 512 - 512
        } else {
            (field % 512) as int
        }),
        sign_extend(field, 11) == (if field % 2048 >= 1024 {
            field % 2048 - 2048
        } else {
            (field % 2048) as int
        }),
{
}

/// The two readings are inverse to each other.
pub proof fn readings_are_inverse(u: u16, i: i16)
    ensures
        unsigned(signed(u)) == u,
        signed(unsigned(i)) == i,
{
}

} // verus!
