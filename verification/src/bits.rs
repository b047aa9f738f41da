//! Bitwise operations on 128-bit words, tied to arithmetic: masking with the
//! low `n` bits is reduction modulo `2^n`, a left shift is a multiplication
//! and a right shift a division by a power of two, and the bitwise operators
//! keep `n`-bit values within `n` bits.
use crate::math::{
    fits_signed,
    fits_unsigned,
    lemma_div_complement,
    lemma_pow2_double,
    lemma_pow2_split,
    lemma_pow2_widths,
    lemma_wrap_signed_fits,
    lemma_wrap_signed_id,
    lemma_wrap_unsigned_fits,
    lemma_wrap_unsigned_narrow,
    wrap_signed,
    wrap_unsigned,
};
use vstd::arithmetic::div_mod::{lemma_mod_breakdown, lemma_mul_mod_noop_right};
use vstd::arithmetic::power2::{lemma_pow2_pos, lemma_pow2_unfold, pow2};
use vstd::bits::lemma_u128_shr_is_div;
use vstd::prelude::*;

verus! {

/// The 128-bit word whose low `n` bits are set and whose other bits are clear.
pub open spec fn low_mask(n: nat) -> u128
    recommends
        n <= 128,
{
    (pow2(n) - 1) as u128
}

proof fn lemma_u128_and_halves(x: u128, m: u128)
    by (bit_vector)
    ensures
        x & 0 == 0,
        x & m == 2 * ((x / 2) & (m / 2)) + (x % 2) * (m % 2),
{
}

/// `2^n - 1` fits a 128-bit word for `n <= 128`.
pub proof fn lemma_low_mask_value(n: nat)
    requires
        n <= 128,
    ensures
        low_mask(n) == pow2(n) - 1,
{
    lemma_pow2_split(n, 128);
    lemma_pow2_widths();
}

/// Masking a word with its low `n` bits reduces it modulo `2^n`.
pub proof fn lemma_low_mask_is_mod(x: u128, n: nat)
    requires
        n <= 128,
    ensures
        (x & low_mask(n)) == wrap_unsigned(x as int, n),
    decreases n,
{
    lemma_low_mask_value(n);
    if n == 0 {
        lemma_u128_and_halves(x, 0);
        assert(pow2(0) == 1) by {
            vstd::arithmetic::power2::lemma2_to64();
        }
    } else {
        let k = (n - 1) as nat;
        let m = low_mask(n);
        lemma_low_mask_value(k);
        lemma_pow2_double(n);
        lemma_u128_and_halves(x, m);
        assert(m / 2 == low_mask(k));
        assert(m % 2 == 1);
        lemma_low_mask_is_mod(x / 2, k);
        lemma_mod_breakdown(x as int, 2, pow2(k) as int);
    }
}

proof fn lemma_u128_shl_steps(x: u128, k: u128)
    by (bit_vector)
    requires
        k < 127,
    ensures
        x << 0 == x,
        x << ((k + 1) as u128) == (x << k) << 1,
        (x << 1) == (2 * x) % 0x1_0000_0000_0000_0000_0000_0000_0000_0000int,
{
}

/// Shifting a word left by `k` multiplies it by `2^k` modulo `2^128`.
pub proof fn lemma_shl_is_mul(x: u128, k: nat)
    requires
        k < 128,
    ensures
        (x << (k as u128)) == wrap_unsigned(x * pow2(k), 128),
    decreases k,
{
    lemma_pow2_widths();
    let m = pow2(128) as int;
    if k == 0 {
        lemma_u128_shl_steps(x, 0);
        assert(pow2(0) == 1) by {
            vstd::arithmetic::power2::lemma2_to64();
        }
        assert(x * 1 == x);
        lemma_wrap_unsigned_fits(x as int, 128);
    } else {
        let j = (k - 1) as nat;
        lemma_u128_shl_steps(x, j as u128);
        lemma_shl_is_mul(x, j);
        let y = x << (j as u128);
        lemma_u128_shl_steps(y, j as u128);
        lemma_pow2_unfold(k);
        lemma_mul_mod_noop_right(2, x * pow2(j), m);
        assert(2 * (x * pow2(j)) == x * pow2(k)) by (nonlinear_arith)
            requires
                pow2(k) == 2 * pow2(j),
        ;
    }
}

/// Shifting a word right by `k` divides it by `2^k`.
pub proof fn lemma_shr_is_div(x: u128, k: nat)
    requires
        k < 128,
    ensures
        (x >> (k as u128)) == x as int / (pow2(k) as int),
{
    lemma_u128_shr_is_div(x, k as u128);
}

proof fn lemma_u128_masked_ops(a: u128, b: u128, m: u128)
    by (bit_vector)
    requires
        a & m == a,
        b & m == b,
    ensures
        (a & b) & m == a & b,
        (a | b) & m == a | b,
        (a ^ b) & m == a ^ b,
{
}

/// The bitwise operators keep `n`-bit unsigned values within `n` bits.
pub proof fn lemma_unsigned_ops_fit(a: u128, b: u128, n: nat)
    requires
        n <= 128,
        fits_unsigned(a as int, n),
        fits_unsigned(b as int, n),
    ensures
        fits_unsigned((a & b) as int, n),
        fits_unsigned((a | b) as int, n),
        fits_unsigned((a ^ b) as int, n),
{
    let m = low_mask(n);
    lemma_low_mask_is_mod(a, n);
    lemma_low_mask_is_mod(b, n);
    lemma_wrap_unsigned_fits(a as int, n);
    lemma_wrap_unsigned_fits(b as int, n);
    lemma_u128_masked_ops(a, b, m);
    lemma_low_mask_is_mod(a & b, n);
    lemma_low_mask_is_mod(a | b, n);
    lemma_low_mask_is_mod(a ^ b, n);
    lemma_wrap_unsigned_fits((a & b) as int, n);
    lemma_wrap_unsigned_fits((a | b) as int, n);
    lemma_wrap_unsigned_fits((a ^ b) as int, n);
}

/// A signed word with everything above its low `n` bits replaced by copies of
/// bit `n - 1`: the bits above are cleared where that bit is clear, and set
/// where it is set.
pub open spec fn sign_extend(x: i128, n: nat) -> i128
    recommends
        1 <= n <= 127,
{
    if x & (pow2((n - 1) as nat) as i128) == 0 {
        x & (low_mask(n) as i128)
    } else {
        x | !(low_mask(n) as i128)
    }
}

spec fn extend_at(x: i128, p: u128, m: u128) -> i128 {
    if x & (p as i128) == 0 {
        x & (m as i128)
    } else {
        x | !(m as i128)
    }
}

proof fn lemma_i128_reinterpret(x: i128)
    by (bit_vector)
    ensures
        x >= 0 ==> x as u128 == x,
        x < 0 ==> x as u128 == x + 0x1_0000_0000_0000_0000_0000_0000_0000_0000int,
        !x == -x - 1,
        x & -1i128 == x,
        x | 0i128 == x,
{
}

/// A mask of ones keeps every bit, and its complement adds none.
pub proof fn lemma_full_mask(x: i128)
    ensures
        x & -1i128 == x,
        x | 0i128 == x,
{
    lemma_i128_reinterpret(x);
}

proof fn lemma_u128_disjoint_or(p: u128, q: u128)
    by (bit_vector)
    requires
        p & q == 0,
    ensures
        p | q == p + q,
{
}

proof fn lemma_i128_extend_parts(x: i128, p: u128, m: u128)
    by (bit_vector)
    requires
        0 < p <= 0x4000_0000_0000_0000_0000_0000_0000_0000,
        p & ((p - 1) as u128) == 0,
        m == p | ((p - 1) as u128),
    ensures
        0 <= x & (m as i128),
        (x & (m as i128)) as u128 == (x as u128) & m,
        x & (p as i128) == 0 <==> (x as u128) & m < p,
        x | !(m as i128) == (x & (m as i128)) + !(m as i128),
        !(m as i128) == -m - 1,
{
}

proof fn lemma_i128_extended_ops(a: i128, b: i128, p: u128, m: u128)
    by (bit_vector)
    requires
        0 < p <= 0x4000_0000_0000_0000_0000_0000_0000_0000,
        p & ((p - 1) as u128) == 0,
        m == p | ((p - 1) as u128),
        extend_at(a, p, m) == a,
        extend_at(b, p, m) == b,
    ensures
        extend_at(a & b, p, m) == a & b,
        extend_at(a | b, p, m) == a | b,
        extend_at(a ^ b, p, m) == a ^ b,
{
}

/// Reading a signed word as an unsigned one reduces it modulo `2^128`.
pub proof fn lemma_reinterpret_is_mod(x: i128)
    ensures
        x as u128 == wrap_unsigned(x as int, 128),
{
    lemma_i128_reinterpret(x);
    lemma_pow2_widths();
    let m = pow2(128) as int;
    if x >= 0 {
        lemma_wrap_unsigned_fits(x as int, 128);
    } else {
        vstd::arithmetic::div_mod::lemma_fundamental_div_mod_converse(x as int, m, -1, x + m);
    }
}

proof fn lemma_sign_bit_and_mask(n: nat)
    requires
        1 <= n <= 127,
    ensures
        0 < pow2((n - 1) as nat) <= 0x4000_0000_0000_0000_0000_0000_0000_0000,
        (pow2((n - 1) as nat) as u128) & (((pow2((n - 1) as nat) as u128) - 1) as u128) == 0,
        low_mask(n) == (pow2((n - 1) as nat) as u128) | (((pow2((n - 1) as nat) as u128)
            - 1) as u128),
        low_mask(n) == pow2(n) - 1,
        pow2(n) == 2 * pow2((n - 1) as nat),
{
    let k = (n - 1) as nat;
    let p = pow2(k) as u128;
    lemma_pow2_widths();
    lemma_pow2_double(n);
    lemma_pow2_split(n, 127);
    lemma_low_mask_value(n);
    lemma_low_mask_value(k);
    lemma_low_mask_is_mod(p, k);
    vstd::arithmetic::div_mod::lemma_mod_self_0(pow2(k) as int);
    lemma_u128_disjoint_or(p, (p - 1) as u128);
}

/// Sign extension from bit `n - 1` is the signed reduction to `n` bits.
pub proof fn lemma_sign_extend_is_wrap(x: i128, n: nat)
    requires
        1 <= n <= 127,
    ensures
        sign_extend(x, n) == wrap_signed(x as int, n),
        low_mask(n) as i128 == pow2(n) - 1,
        !(low_mask(n) as i128) == -(pow2(n) as int),
{
    let p = pow2((n - 1) as nat) as u128;
    let m = low_mask(n);
    lemma_sign_bit_and_mask(n);
    lemma_i128_extend_parts(x, p, m);
    lemma_reinterpret_is_mod(x);
    lemma_low_mask_is_mod(x as u128, n);
    lemma_wrap_unsigned_narrow(x as int, n, 128);
}

/// The bitwise operators keep `n`-bit signed values within `n` bits.
pub proof fn lemma_signed_ops_fit(a: i128, b: i128, n: nat)
    requires
        1 <= n <= 128,
        fits_signed(a as int, n),
        fits_signed(b as int, n),
    ensures
        fits_signed((a & b) as int, n),
        fits_signed((a | b) as int, n),
        fits_signed((a ^ b) as int, n),
        fits_signed((!a) as int, n),
        !a == -1 - a,
{
    lemma_i128_reinterpret(a);
    lemma_pow2_widths();
    if n < 128 {
        let p = pow2((n - 1) as nat) as u128;
        let m = low_mask(n);
        lemma_sign_bit_and_mask(n);
        lemma_sign_extend_is_wrap(a, n);
        lemma_sign_extend_is_wrap(b, n);
        lemma_wrap_signed_id(a as int, n);
        lemma_wrap_signed_id(b as int, n);
        lemma_i128_extended_ops(a, b, p, m);
        lemma_sign_extend_is_wrap(a & b, n);
        lemma_sign_extend_is_wrap(a | b, n);
        lemma_sign_extend_is_wrap(a ^ b, n);
        lemma_wrap_signed_fits((a & b) as int, n);
        lemma_wrap_signed_fits((a | b) as int, n);
        lemma_wrap_signed_fits((a ^ b) as int, n);
    }
}

proof fn lemma_i128_shr_parts(x: i128, k: u128)
    by (bit_vector)
    requires
        k < 128,
    ensures
        x >= 0 ==> (x >> k) >= 0 && ((x >> k) as u128) == (x as u128) >> k,
        x < 0 ==> x >> k == !((!x) >> k),
        !x >= 0 <==> x < 0,
{
}

/// Shifting a signed word right by `k` divides it by `2^k`, rounding down.
pub proof fn lemma_sar_is_div(x: i128, k: nat)
    requires
        k < 128,
    ensures
        (x >> (k as u128)) == x as int / (pow2(k) as int),
{
    let d = pow2(k) as int;
    lemma_pow2_pos(k);
    lemma_i128_shr_parts(x, k as u128);
    if x >= 0 {
        lemma_i128_reinterpret(x);
        lemma_i128_reinterpret(x >> (k as u128));
        lemma_shr_is_div(x as u128, k);
    } else {
        let y = !x;
        lemma_i128_reinterpret(x);
        lemma_i128_shr_parts(y, k as u128);
        lemma_i128_reinterpret(y);
        lemma_i128_reinterpret(y >> (k as u128));
        lemma_shr_is_div(y as u128, k);
        lemma_i128_reinterpret(!(y >> (k as u128)));
        lemma_div_complement(x as int, d);
    }
}

/// A left shift of a signed word of `w` bits, as seen on the unsigned
/// readings `xu` and `ru` of the word `x` and of the result `r`: the result is
/// `x` times `2^k`, reduced to `w` bits.
pub proof fn lemma_signed_shl(x: int, r: int, xu: u128, ru: u128, k: nat, w: nat)
    requires
        1 <= w <= 128,
        k < 128,
        fits_signed(r, w),
        xu == wrap_unsigned(x, w),
        ru == wrap_unsigned(r, w),
        ru == (xu << (k as u128)) & low_mask(w),
    ensures
        r == wrap_signed(x * pow2(k), w),
{
    lemma_shl_is_mul(xu, k);
    lemma_low_mask_is_mod(xu << (k as u128), w);
    lemma_wrap_unsigned_narrow(xu * pow2(k), w, 128);
    crate::math::lemma_wrap_unsigned_mul(x, pow2(k) as int, w);
    crate::math::lemma_wrap_signed_unique(x * pow2(k), r, w);
}

} // verus!
