//! Two's-complement arithmetic on mathematical integers: the ranges of `n`-bit
//! quantities, reduction into those ranges, and the facts about powers of two
//! that the rest of the crate builds on.
use vstd::arithmetic::div_mod::{
    lemma_add_mod_noop,
    lemma_fundamental_div_mod,
    lemma_fundamental_div_mod_converse,
    lemma_mod_bound,
    lemma_mod_mod,
    lemma_mul_mod_noop_left,
    lemma_small_mod,
    lemma_sub_mod_noop,
};
use vstd::arithmetic::mul::lemma_mul_is_commutative;
use vstd::arithmetic::power2::{
    lemma2_to64,
    lemma2_to64_rest,
    lemma_pow2_adds,
    lemma_pow2_pos,
    lemma_pow2_unfold,
    pow2,
};
use vstd::prelude::*;

verus! {

/// The largest value of an unsigned integer of `n` bits: `2^n - 1`.
pub open spec fn max_unsigned(n: nat) -> int {
    pow2(n) - 1
}

/// The smallest value of a signed integer of `n` bits: `-2^(n-1)`.
pub open spec fn min_signed(n: nat) -> int
    recommends
        n >= 1,
{
    -(pow2((n - 1) as nat) as int)
}

/// The largest value of a signed integer of `n` bits: `2^(n-1) - 1`.
pub open spec fn max_signed(n: nat) -> int
    recommends
        n >= 1,
{
    pow2((n - 1) as nat) - 1
}

/// Whether `v` is a value of an unsigned integer of `n` bits.
pub open spec fn fits_unsigned(v: int, n: nat) -> bool {
    0 <= v <= max_unsigned(n)
}

/// Whether `v` is a value of a signed integer of `n` bits.
pub open spec fn fits_signed(v: int, n: nat) -> bool
    recommends
        n >= 1,
{
    min_signed(n) <= v <= max_signed(n)
}

/// `v` truncated to `n` bits and read as an unsigned integer: `v mod 2^n`.
pub open spec fn wrap_unsigned(v: int, n: nat) -> int {
    v % (pow2(n) as int)
}

/// `v` truncated to `n` bits and read as a two's-complement integer: the one
/// value in `[-2^(n-1), 2^(n-1))` that is congruent to `v` modulo `2^n`.
pub open spec fn wrap_signed(v: int, n: nat) -> int
    recommends
        n >= 1,
{
    let low = v % (pow2(n) as int);
    if low < pow2((n - 1) as nat) {
        low
    } else {
        low - pow2(n)
    }
}

/// The powers of two at the widths of the native integers.
pub proof fn lemma_pow2_widths()
    ensures
        pow2(7) == 0x80,
        pow2(8) == 0x100,
        pow2(15) == 0x8000,
        pow2(16) == 0x1_0000,
        pow2(31) == 0x8000_0000,
        pow2(32) == 0x1_0000_0000,
        pow2(63) == 0x8000_0000_0000_0000,
        pow2(64) == 0x1_0000_0000_0000_0000,
        pow2(127) == 0x8000_0000_0000_0000_0000_0000_0000_0000,
        pow2(128) == 0x1_0000_0000_0000_0000_0000_0000_0000_0000int,
{
    lemma2_to64();
    lemma2_to64_rest();
    lemma_pow2_adds(63, 64);
    lemma_pow2_adds(64, 64);
}

/// `2^b` is `2^a` times `2^(b-a)`, and powers of two are positive and monotone.
pub proof fn lemma_pow2_split(a: nat, b: nat)
    requires
        a <= b,
    ensures
        pow2(b) == pow2(a) * pow2((b - a) as nat),
        0 < pow2(a) <= pow2(b),
        0 < pow2((b - a) as nat),
{
    lemma_pow2_pos(a);
    lemma_pow2_pos(b);
    lemma_pow2_pos((b - a) as nat);
    lemma_pow2_adds(a, (b - a) as nat);
    assert(pow2(a) <= pow2(a) * pow2((b - a) as nat)) by (nonlinear_arith)
        requires
            0 < pow2(a),
            0 < pow2((b - a) as nat),
    ;
}

/// `2^n` is twice `2^(n-1)`.
pub proof fn lemma_pow2_double(n: nat)
    requires
        n >= 1,
    ensures
        pow2(n) == 2 * pow2((n - 1) as nat),
        0 < pow2((n - 1) as nat) < pow2(n),
{
    lemma_pow2_unfold(n);
    lemma_pow2_pos((n - 1) as nat);
}

/// Reducing modulo `2^b` and then modulo `2^a`, with `a <= b`, is reducing
/// modulo `2^a`.
pub proof fn lemma_wrap_unsigned_narrow(v: int, a: nat, b: nat)
    requires
        a <= b,
    ensures
        wrap_unsigned(wrap_unsigned(v, b), a) == wrap_unsigned(v, a),
{
    lemma_pow2_split(a, b);
    lemma_mod_mod(v, pow2(a) as int, pow2((b - a) as nat) as int);
}

/// The unsigned reduction lies in range, and leaves values in range alone.
pub proof fn lemma_wrap_unsigned_fits(v: int, n: nat)
    ensures
        fits_unsigned(wrap_unsigned(v, n), n),
        fits_unsigned(v, n) ==> wrap_unsigned(v, n) == v,
{
    lemma_pow2_pos(n);
    lemma_mod_bound(v, pow2(n) as int);
    if fits_unsigned(v, n) {
        lemma_small_mod(v as nat, pow2(n));
    }
}

/// A number that lies `q` times `2^n` above a number in range reduces to
/// that number.
pub proof fn lemma_wrap_unsigned_offset(v: int, q: int, n: nat)
    requires
        fits_unsigned(v - q * pow2(n), n),
    ensures
        wrap_unsigned(v, n) == v - q * pow2(n),
{
    let m = pow2(n) as int;
    lemma_pow2_pos(n);
    assert(v == q * m + (v - q * m));
    lemma_mul_is_commutative(q, m);
    lemma_fundamental_div_mod_converse(v, m, q, v - q * m);
}

/// Sums and differences may be reduced before or after adding.
pub proof fn lemma_wrap_unsigned_add_sub(x: int, y: int, n: nat)
    ensures
        wrap_unsigned(wrap_unsigned(x, n) + wrap_unsigned(y, n), n) == wrap_unsigned(x + y, n),
        wrap_unsigned(wrap_unsigned(x, n) - wrap_unsigned(y, n), n) == wrap_unsigned(x - y, n),
{
    lemma_pow2_pos(n);
    lemma_add_mod_noop(x, y, pow2(n) as int);
    lemma_sub_mod_noop(x, y, pow2(n) as int);
}

/// A product may be reduced in its left factor before or after multiplying.
pub proof fn lemma_wrap_unsigned_mul(x: int, y: int, n: nat)
    ensures
        wrap_unsigned(wrap_unsigned(x, n) * y, n) == wrap_unsigned(x * y, n),
{
    lemma_pow2_pos(n);
    lemma_mul_mod_noop_left(x, y, pow2(n) as int);
}

/// The signed reduction lies in range and is congruent to its argument.
pub proof fn lemma_wrap_signed_fits(v: int, n: nat)
    requires
        n >= 1,
    ensures
        fits_signed(wrap_signed(v, n), n),
        wrap_unsigned(wrap_signed(v, n), n) == wrap_unsigned(v, n),
{
    let m = pow2(n) as int;
    lemma_pow2_double(n);
    lemma_mod_bound(v, m);
    let low = v % m;
    lemma_small_mod(low as nat, m as nat);
    if low >= pow2((n - 1) as nat) {
        lemma_fundamental_div_mod_converse(low - m, m, -1, low);
    }
}

/// The signed reduction of `v` is the only value in range congruent to `v`.
pub proof fn lemma_wrap_signed_unique(v: int, r: int, n: nat)
    requires
        n >= 1,
        fits_signed(r, n),
        wrap_unsigned(r, n) == wrap_unsigned(v, n),
    ensures
        r == wrap_signed(v, n),
{
    let m = pow2(n) as int;
    lemma_pow2_double(n);
    if r >= 0 {
        lemma_small_mod(r as nat, m as nat);
    } else {
        lemma_fundamental_div_mod_converse(r, m, -1, r + m);
    }
}

/// A number that lies `q` times `2^n` above a number in range reduces to
/// that number.
pub proof fn lemma_wrap_signed_offset(v: int, q: int, n: nat)
    requires
        n >= 1,
        fits_signed(v - q * pow2(n), n),
    ensures
        wrap_signed(v, n) == v - q * pow2(n),
{
    let m = pow2(n) as int;
    let r = v - q * m;
    lemma_pow2_pos(n);
    lemma_mod_bound(r, m);
    lemma_fundamental_div_mod(r, m);
    lemma_mul_is_commutative(q, m);
    assert(v == m * (q + r / m) + r % m) by (nonlinear_arith)
        requires
            v == r + m * q,
            r == m * (r / m) + r % m,
    ;
    lemma_fundamental_div_mod_converse(v, m, q + r / m, r % m);
    lemma_wrap_signed_unique(v, r, n);
}

/// The unsigned reading of the `n` bits of a signed value: the value itself
/// where it is not negative, and `2^n` more where it is.
pub proof fn lemma_wrap_unsigned_of_signed(v: int, n: nat)
    requires
        n >= 1,
        fits_signed(v, n),
    ensures
        wrap_unsigned(v, n) == if v >= 0 {
            v
        } else {
            v + pow2(n)
        },
{
    lemma_pow2_double(n);
    lemma_wrap_unsigned_offset(v, if v >= 0 { 0 } else { -1 }, n);
}

/// The signed reduction leaves values in range alone.
pub proof fn lemma_wrap_signed_id(v: int, n: nat)
    requires
        n >= 1,
        fits_signed(v, n),
    ensures
        wrap_signed(v, n) == v,
{
    lemma_wrap_signed_unique(v, v, n);
}

/// Reducing to `b` bits and then to `a` bits, with `a <= b`, is reducing to
/// `a` bits.
pub proof fn lemma_wrap_signed_narrow(v: int, a: nat, b: nat)
    requires
        1 <= a <= b,
    ensures
        wrap_signed(wrap_signed(v, b), a) == wrap_signed(v, a),
{
    lemma_wrap_signed_fits(v, b);
    lemma_wrap_unsigned_narrow(v, a, b);
    lemma_wrap_unsigned_narrow(wrap_signed(v, b), a, b);
}

/// Sums and differences may be reduced before or after adding.
pub proof fn lemma_wrap_signed_add_sub(x: int, y: int, n: nat)
    requires
        n >= 1,
    ensures
        wrap_signed(wrap_signed(x, n) + wrap_signed(y, n), n) == wrap_signed(x + y, n),
        wrap_signed(wrap_signed(x, n) - wrap_signed(y, n), n) == wrap_signed(x - y, n),
{
    lemma_wrap_signed_fits(x, n);
    lemma_wrap_signed_fits(y, n);
    let a = wrap_signed(x, n);
    let b = wrap_signed(y, n);
    lemma_wrap_unsigned_add_sub(a, b, n);
    lemma_wrap_unsigned_add_sub(x, y, n);
}

/// Complementing all `w` bits of `s` and keeping the low `n` complements the
/// low `n` bits of `s`.
pub proof fn lemma_complement_narrow(s: int, n: nat, w: nat)
    requires
        n <= w,
    ensures
        wrap_unsigned(max_unsigned(w) - s, n) == max_unsigned(n) - wrap_unsigned(s, n),
{
    let m = pow2(n) as int;
    let h = pow2((w - n) as nat) as int;
    lemma_pow2_split(n, w);
    lemma_mod_bound(s, m);
    lemma_fundamental_div_mod(s, m);
    let q = s / m;
    let r = s % m;
    assert(pow2(w) - 1 - s == m * (h - 1 - q) + (m - 1 - r)) by (nonlinear_arith)
        requires
            pow2(w) == m * h,
            s == m * q + r,
    ;
    lemma_fundamental_div_mod_converse(pow2(w) - 1 - s, m, h - 1 - q, m - 1 - r);
}

/// Dividing the complement `-1 - y` rounds the other way: floor division
/// commutes with complement.
pub proof fn lemma_div_complement(y: int, d: int)
    requires
        d > 0,
    ensures
        (-1 - y) / d == -1 - y / d,
{
    lemma_fundamental_div_mod(y, d);
    lemma_mod_bound(y, d);
    let q = y / d;
    let r = y % d;
    assert(-1 - y == d * (-1 - q) + (d - 1 - r)) by (nonlinear_arith)
        requires
            y == d * q + r,
    ;
    lemma_fundamental_div_mod_converse(-1 - y, d, -1 - q, d - 1 - r);
}

/// Dividing by `2^k` keeps a signed value of `n` bits in range.
pub proof fn lemma_div_pow2_fits_signed(v: int, k: nat, n: nat)
    requires
        n >= 1,
        fits_signed(v, n),
    ensures
        fits_signed(v / (pow2(k) as int), n),
{
    let d = pow2(k) as int;
    lemma_pow2_pos(k);
    lemma_pow2_pos((n - 1) as nat);
    if v >= 0 {
        vstd::arithmetic::div_mod::lemma_div_pos_is_pos(v, d);
        vstd::arithmetic::div_mod::lemma_div_nonincreasing(v, d);
    } else {
        lemma_div_complement(v, d);
        vstd::arithmetic::div_mod::lemma_div_pos_is_pos(-1 - v, d);
        vstd::arithmetic::div_mod::lemma_div_nonincreasing(-1 - v, d);
    }
}

} // verus!
