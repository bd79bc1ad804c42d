//! Bit-level arithmetic shared by the matcher and the decoders: field
//! extraction from a 32-bit word, sign extension, little-endian reads and
//! modular (wrap-around) address arithmetic.

use vstd::prelude::*;
use vstd::arithmetic::power2::*;
use vstd::arithmetic::div_mod::*;
use vstd::bits::*;

verus! {

/// The value of the `size`-bit field of `op` whose least-significant bit is
/// `pos` bits above the least-significant end of `op`.
pub open spec fn extract(op: u32, pos: nat, size: nat) -> nat {
    (op as nat / pow2(pos)) % pow2(size)
}

/// The single bit of `op` at position `pos`, as a boolean.
pub open spec fn bit_at(op: u32, pos: nat) -> bool {
    extract(op, pos, 1) == 1
}

/// Splits `cur` into its low `size` bits and the remaining high bits.
pub fn split_low_bits(cur: u32, size: usize) -> (r: (u32, u32))
    ensures
        r.0 as nat == cur as nat % pow2(size as nat),
        r.1 as nat == cur as nat / pow2(size as nat),
{
    if size >= 32 {
        proof {
            lemma2_to64();
            lemma_pow2_strictly_increases(31, size as nat);
            if size as nat > 32 {
                lemma_pow2_strictly_increases(32, size as nat);
            }
            lemma_small_mod(cur as nat, pow2(size as nat));
            lemma_basic_div(cur as int, pow2(size as nat) as int);
        }
        (cur, 0)
    } else {
        let shift: u32 = size as u32;
        proof {
            lemma_u32_pow2_no_overflow(size as nat);
            lemma_u32_shl_is_mul(1u32, shift);
            lemma_pow2_pos(size as nat);
        }
        let mask: u32 = (1u32 << shift) - 1;
        proof {
            assert(mask as nat == low_bits_mask(size as nat));
            lemma_u32_low_bits_mask_is_mod(cur, size as nat);
            lemma_u32_shr_is_div(cur, shift);
        }
        ((cur & mask), (cur >> shift))
    }
}

/// Division by consecutive powers of two composes: dropping `a` low bits and
/// then `b` more is dropping `a + b` bits.
pub proof fn lemma_drop_bits_adds(x: nat, a: nat, b: nat)
    ensures
        x / pow2(a) / pow2(b) == x / pow2(a + b),
{
    lemma_pow2_pos(a);
    lemma_pow2_pos(b);
    lemma_div_denominator(x as int, pow2(a) as int, pow2(b) as int);
    lemma_pow2_adds(a, b);
}

/// The `size`-bit field at `pos`, interpreted as a two's-complement signed
/// value.  `raw` must be the raw (unsigned) field value.
pub open spec fn sign_extend(raw: nat, size: nat) -> int
    recommends
        1 <= size,
        raw < pow2(size),
{
    if raw < pow2((size - 1) as nat) {
        raw as int
    } else {
        raw as int - pow2(size)
    }
}

/// Sign-extends the low `size` bits of `raw` to a signed 32-bit value.
pub fn sign_extend_i32(raw: u32, size: usize) -> (r: i32)
    requires
        1 <= size <= 32,
        (raw as nat) < pow2(size as nat),
    ensures
        r as int == sign_extend(raw as nat, size as nat),
{
    proof {
        lemma2_to64();
        lemma_u32_pow2_no_overflow((size - 1) as nat);
        lemma_u32_shl_is_mul(1u32, (size - 1) as u32);
        lemma_u64_pow2_no_overflow(size as nat);
        lemma_u64_shl_is_mul(1u64, size as u64);
        lemma_pow2_adds((size - 1) as nat, 1);
        assert(pow2(1) == 2);
        if size < 32 {
            lemma_pow2_strictly_increases(size as nat, 32);
        }
    }
    let half: u32 = 1u32 << ((size - 1) as u32);
    if raw < half {
        raw as i32
    } else {
        let full: u64 = 1u64 << (size as u64);
        ((raw as i64) - (full as i64)) as i32
    }
}

/// The 16-bit little-endian value of two consecutive bytes.
pub open spec fn le_half_word(b0: u8, b1: u8) -> u32 {
    (b0 + b1 * 0x100) as u32
}

/// The 32-bit little-endian value of four consecutive bytes.
pub open spec fn le_word(b0: u8, b1: u8, b2: u8, b3: u8) -> u32 {
    (b0 + b1 * 0x100 + b2 * 0x10000 + b3 * 0x1000000) as u32
}

/// Assembles two bytes, little-endian first, into a half word.
pub fn read_le_half_word(b0: u8, b1: u8) -> (r: u32)
    ensures
        r == le_half_word(b0, b1),
{
    b0 as u32 + (b1 as u32) * 0x100
}

/// Assembles four bytes, little-endian first, into a word.
pub fn read_le_word(b0: u8, b1: u8, b2: u8, b3: u8) -> (r: u32)
    ensures
        r == le_word(b0, b1, b2, b3),
{
    b0 as u32 + (b1 as u32) * 0x100 + (b2 as u32) * 0x10000 + (b3 as u32) * 0x1000000
}

/// `x` reduced into the signed 32-bit range, two's-complement style.
pub open spec fn crop_i32(x: int) -> int {
    let m = x % 0x1_0000_0000;
    if m >= 0x8000_0000 {
        m - 0x1_0000_0000
    } else {
        m
    }
}

/// Multiplies a signed value by a small factor, wrapping around the i32
/// range (this is how a displacement is scaled to bytes).
pub fn mul_wrap_i32(v: i32, factor: u32) -> (r: i32)
    requires
        factor <= 4,
    ensures
        r as int == crop_i32(v as int * factor as int),
{
    proof {
        assert((-0x8000_0000 * 4) <= (v as int) * (factor as int) <= 0x8000_0000 * 4)
            by (nonlinear_arith)
            requires
                -0x8000_0000 <= (v as int) && (v as int) < 0x8000_0000,
                0 <= (factor as int) && (factor as int) <= 4;

    }
    let wide: i64 = (v as i64) * (factor as i64);
    let shifted: i64 = wide + 0x4_0000_0000;
    let unsigned: u64 = shifted as u64;
    let rem: u64 = unsigned % 0x1_0000_0000;
    proof {
        lemma_mod_multiples_vanish(4, wide as int, 0x1_0000_0000);
    }
    if rem >= 0x8000_0000 {
        ((rem as i64) - 0x1_0000_0000) as i32
    } else {
        rem as i32
    }
}

/// The absolute value of a signed 32-bit value, as an unsigned one.
pub fn abs_u32(v: i32) -> (r: u32)
    ensures
        r as int == (if v >= 0 {
            v as int
        } else {
            -(v as int)
        }),
{
    if v >= 0 {
        v as u32
    } else {
        (-(v as i64)) as u32
    }
}

/// `base + offset` in unsigned modular (wrap-around) 32-bit arithmetic.
pub open spec fn wrap_add(base: u32, offset: int) -> nat {
    ((base + offset) % 0x1_0000_0000) as nat
}

/// Adds an unsigned offset to a 32-bit base, wrapping around on overflow.
pub fn wrapping_add_u32(base: u32, offset: u32) -> (r: u32)
    ensures
        r as nat == wrap_add(base, offset as int),
{
    let wide: u64 = base as u64 + offset as u64;
    let r: u64 = wide % 0x1_0000_0000;
    r as u32
}

/// Subtracts an unsigned offset from a 32-bit base, wrapping on underflow.
pub fn wrapping_sub_u32(base: u32, offset: u32) -> (r: u32)
    ensures
        r as nat == wrap_add(base, -(offset as int)),
{
    let wide: u64 = base as u64 + 0x1_0000_0000 - offset as u64;
    let r: u64 = wide % 0x1_0000_0000;
    proof {
        lemma_mod_sub_multiples_vanish(base as int - offset as int, 0x1_0000_0000);
    }
    r as u32
}

} // verus!
