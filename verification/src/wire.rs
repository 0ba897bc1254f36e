//! The 32-bit wire word of a parameter read as a single-precision number.
//!
//! The autopilot carries every parameter value in a 32-bit word. Under the
//! numeric-cast encoding the word is the IEEE 754 single-precision number
//! nearest to the value; this module converts between integers and such
//! words in integer arithmetic only, so that the conversion can be stated and
//! proved. A word is held as its bit pattern: sign in bit 31, biased exponent
//! in bits 30 to 23, fraction in bits 22 to 0.

use vstd::prelude::*;
use vstd::arithmetic::power2::{
    lemma2_to64, lemma2_to64_rest, lemma_pow2_adds, lemma_pow2_pos, lemma_pow2_strictly_increases,
    lemma_pow2_unfold, pow2,
};
use vstd::arithmetic::div_mod::{
    lemma_basic_div, lemma_div_multiples_vanish, lemma_fundamental_div_mod_converse,
};

verus! {

/// 2^23: the weight of the hidden mantissa bit.
pub const HIDDEN_BIT: u32 = 0x80_0000;

/// 2^31: the sign bit.
pub const SIGN_BIT: u32 = 0x8000_0000;

/// The bit pattern of 1.0.
pub const SINGLE_ONE: u32 = 0x3F80_0000;

/// The position of the highest set bit of `v`: the `e` with
/// `2^e <= v < 2^(e+1)`. Zero for `v <= 1`.
pub open spec fn log2_floor(v: nat) -> nat
    decreases v,
{
    if v <= 1 {
        0
    } else {
        1 + log2_floor(v / 2)
    }
}

/// The bit pattern of the single-precision number nearest to the natural
/// number `v`, the even mantissa winning a tie. Exact whenever `v` has at
/// most 24 significant bits.
pub open spec fn single_of_nat(v: nat) -> int {
    if v == 0 {
        0
    } else {
        let e = log2_floor(v);
        if e <= 23 {
            (e + 127) * pow2(23) + v * pow2((23 - e) as nat) - pow2(23)
        } else {
            let s = (e - 23) as nat;
            let q = v / pow2(s);
            let r = v % pow2(s);
            let up: int = if 2 * r > pow2(s) || (2 * r == pow2(s) && q % 2 == 1) {
                1
            } else {
                0
            };
            (e + 127) * pow2(23) + q - pow2(23) + up
        }
    }
}

/// The bit pattern of the single-precision number nearest to the integer `v`.
pub open spec fn single_of_int(v: int) -> int {
    if v < 0 {
        pow2(31) + single_of_nat((-v) as nat)
    } else {
        single_of_nat(v as nat)
    }
}

/// Whether the sign bit of the word is set.
pub open spec fn single_negative(bits: u32) -> bool {
    bits >= SIGN_BIT
}

/// The biased exponent field of the word.
pub open spec fn single_exponent(bits: u32) -> int {
    (bits as int / 0x80_0000) % 256
}

/// The fraction field of the word.
pub open spec fn single_fraction(bits: u32) -> int {
    bits as int % 0x80_0000
}

/// Whether the word is not a number.
pub open spec fn single_is_nan(bits: u32) -> bool {
    single_exponent(bits) == 255 && single_fraction(bits) != 0
}

/// The integer part of the magnitude of a finite word.
pub open spec fn single_magnitude(bits: u32) -> int {
    let ef = single_exponent(bits);
    let m = 0x80_0000 + single_fraction(bits);
    if ef == 0 {
        0
    } else if ef < 150 {
        m / (pow2((150 - ef) as nat) as int)
    } else {
        m * pow2((ef - 150) as nat)
    }
}

/// The integer that a numeric cast of the word to an integer type with the
/// range `lo..=hi` gives: the value rounded toward zero, the nearest bound
/// where it lies outside the range, and zero for not-a-number.
pub open spec fn int_of_single(bits: u32, lo: int, hi: int) -> int {
    if single_exponent(bits) == 255 {
        if single_fraction(bits) != 0 {
            0
        } else if single_negative(bits) {
            lo
        } else {
            hi
        }
    } else {
        let mag = single_magnitude(bits);
        let v = if single_negative(bits) {
            -mag
        } else {
            mag
        };
        if v < lo {
            lo
        } else if v > hi {
            hi
        } else {
            v
        }
    }
}

/// `log2_floor(v)` is the one exponent whose power of two brackets `v`.
pub proof fn lemma_log2_floor_bounds(v: nat)
    requires
        v >= 1,
    ensures
        pow2(log2_floor(v)) <= v < pow2(log2_floor(v) + 1),
    decreases v,
{
    lemma2_to64();
    if v > 1 {
        lemma_log2_floor_bounds(v / 2);
        let e = log2_floor(v / 2);
        lemma_pow2_unfold(e + 1);
        lemma_pow2_unfold(e + 2);
    }
}

/// An exponent whose power of two brackets `v` is `log2_floor(v)`.
pub proof fn lemma_log2_floor_unique(v: nat, e: nat)
    requires
        pow2(e) <= v < pow2(e + 1),
    ensures
        log2_floor(v) == e,
    decreases e,
{
    lemma2_to64();
    if e == 0 {
        assert(v == 1);
    } else {
        lemma_pow2_unfold(e);
        lemma_pow2_unfold(e + 1);
        lemma_pow2_pos((e - 1) as nat);
        assert(v >= 2);
        lemma_log2_floor_unique(v / 2, (e - 1) as nat);
    }
}

/// The three fields of a word assembled from sign, exponent and fraction.
pub proof fn lemma_single_fields(negative: bool, ef: int, frac: int)
    requires
        0 <= ef < 256,
        0 <= frac < 0x80_0000,
    ensures
        ({
            let word = (if negative { 0x8000_0000int } else { 0int }) + ef * 0x80_0000 + frac;
            &&& 0 <= word <= u32::MAX
            &&& single_exponent(word as u32) == ef
            &&& single_fraction(word as u32) == frac
            &&& single_negative(word as u32) == negative
        }),
{
    let s: int = if negative { 256 } else { 0 };
    let word = (if negative { 0x8000_0000int } else { 0int }) + ef * 0x80_0000 + frac;
    assert(word == (s + ef) * 0x80_0000 + frac) by (nonlinear_arith)
        requires
            word == (if negative { 0x8000_0000int } else { 0int }) + ef * 0x80_0000 + frac,
            s == (if negative { 256int } else { 0int }),
    ;
    assert(0 <= word <= u32::MAX) by (nonlinear_arith)
        requires
            word == (s + ef) * 0x80_0000 + frac,
            0 <= s + ef < 512,
            0 <= frac < 0x80_0000,
    ;
    lemma_fundamental_div_mod_converse(word, 0x80_0000, s + ef, frac);
    assert(word / 0x80_0000 == s + ef);
    assert(word % 0x80_0000 == frac);
    if negative {
        assert(word >= 0x8000_0000) by (nonlinear_arith)
            requires
                word == (256 + ef) * 0x80_0000 + frac,
                0 <= ef,
                0 <= frac,
        ;
    } else {
        assert(word < 0x8000_0000) by (nonlinear_arith)
            requires
                word == ef * 0x80_0000 + frac,
                ef < 256,
                frac < 0x80_0000,
        ;
    }
}

/// 2 to the power `n`, for exponents up to 40.
pub fn power_of_two(n: u32) -> (p: u64)
    requires
        n <= 40,
    ensures
        p == pow2(n as nat),
        1 <= p <= 0x100_0000_0000,
{
    let mut p: u64 = 1;
    let mut i: u32 = 0;
    proof {
        lemma2_to64();
        lemma2_to64_rest();
    }
    while i < n
        invariant
            i <= n <= 40,
            p == pow2(i as nat),
            1 <= p,
            p <= pow2(40),
            pow2(40) == 0x100_0000_0000,
        decreases n - i,
    {
        proof {
            lemma_pow2_unfold((i + 1) as nat);
            if i + 1 < 40 {
                lemma_pow2_strictly_increases((i + 1) as nat, 40);
            }
        }
        p = p * 2;
        i = i + 1;
    }
    p
}

/// The position of the highest set bit of a nonzero 32-bit number.
pub fn highest_bit(v: u32) -> (e: u32)
    requires
        v >= 1,
    ensures
        e == log2_floor(v as nat),
        e <= 31,
        pow2(e as nat) <= v < pow2(e as nat + 1),
{
    let mut e: u32 = 0;
    let mut p: u64 = 1;
    proof {
        lemma2_to64();
    }
    while p * 2 <= v as u64
        invariant
            p == pow2(e as nat),
            1 <= p <= v,
            e <= 31,
            v < 0x1_0000_0000,
        decreases v - p,
    {
        proof {
            lemma_pow2_unfold((e + 1) as nat);
            if e >= 31 {
                lemma2_to64();
                lemma_pow2_unfold(32);
                assert(pow2(32) == 0x1_0000_0000);
                assert(false);
            }
        }
        p = p * 2;
        e = e + 1;
    }
    proof {
        lemma_pow2_unfold((e + 1) as nat);
        lemma_log2_floor_unique(v as nat, e as nat);
    }
    e
}

/// The word of an unsigned number under the numeric-cast encoding.
pub fn single_from_u32(v: u32) -> (bits: u32)
    ensures
        bits == single_of_nat(v as nat),
        bits < 0x8000_0000,
{
    if v == 0 {
        return 0;
    }
    let e = highest_bit(v);
    proof {
        lemma2_to64();
    }
    if e <= 23 {
        let scale = power_of_two(23 - e);
        proof {
            lemma_pow2_adds(e as nat, (23 - e) as nat);
            lemma_pow2_adds((e + 1) as nat, (23 - e) as nat);
            assert(pow2(23) <= v * scale < pow2(24)) by (nonlinear_arith)
                requires
                    pow2(e as nat) <= v < pow2(e as nat + 1),
                    scale == pow2((23 - e) as nat),
                    scale >= 1,
                    pow2(e as nat) * pow2((23 - e) as nat) == pow2(23),
                    pow2((e + 1) as nat) * pow2((23 - e) as nat) == pow2(24),
            ;
        }
        let m: u64 = v as u64 * scale;
        let word: u64 = (e as u64 + 127) * 0x80_0000 + m - 0x80_0000;
        word as u32
    } else {
        let s = e - 23;
        let d = power_of_two(s);
        let q: u64 = v as u64 / d;
        let r: u64 = v as u64 % d;
        let up: u64 = if 2 * r > d || (2 * r == d && q % 2 == 1) {
            1
        } else {
            0
        };
        proof {
            lemma_pow2_adds(23, s as nat);
            lemma_pow2_adds(24, s as nat);
            assert(pow2(e as nat) == pow2(23) * d);
            assert(pow2(e as nat + 1) == pow2(24) * d);
            assert(pow2(23) <= q < pow2(24)) by (nonlinear_arith)
                requires
                    pow2(23) * d <= v < pow2(24) * d,
                    d >= 1,
                    q == v as int / d as int,
            ;
        }
        let word: u64 = (e as u64 + 127) * 0x80_0000 + q - 0x80_0000 + up;
        word as u32
    }
}

/// The word of a signed number under the numeric-cast encoding.
pub fn single_from_i32(v: i32) -> (bits: u32)
    ensures
        bits == single_of_int(v as int),
{
    proof {
        lemma2_to64();
    }
    if v < 0 {
        let magnitude: u32 = (-(v as i64)) as u32;
        let low = single_from_u32(magnitude);
        low + 0x8000_0000
    } else {
        single_from_u32(v as u32)
    }
}

/// The integer that a numeric cast of the word gives in the range `lo..=hi`.
pub fn single_to_int(bits: u32, lo: i64, hi: i64) -> (r: i64)
    requires
        -0x8000_0000 <= lo <= 0 <= hi <= 0xFFFF_FFFF,
    ensures
        r == int_of_single(bits, lo as int, hi as int),
        lo <= r <= hi,
{
    let negative = bits >= 0x8000_0000;
    let ef: u32 = (bits / 0x80_0000) % 256;
    let frac: u32 = bits % 0x80_0000;
    if ef == 255 {
        return if frac != 0 {
            0
        } else if negative {
            lo
        } else {
            hi
        };
    }
    let m: u64 = 0x80_0000 + frac as u64;
    proof {
        lemma2_to64();
    }
    if ef < 127 {
        proof {
            if ef != 0 {
                let k = (150 - ef) as nat;
                lemma_pow2_strictly_increases(23, k);
                if k > 24 {
                    lemma_pow2_strictly_increases(24, k);
                }
                assert(m < pow2(k));
                lemma_basic_div(m as int, pow2(k) as int);
            }
        }
        return 0;
    }
    if ef >= 159 {
        // The magnitude is at least 2^32: outside every supported range.
        proof {
            let k = (ef - 150) as nat;
            if k > 9 {
                lemma_pow2_strictly_increases(9, k);
            }
            assert(m * pow2(k) >= 0x1_0000_0000) by (nonlinear_arith)
                requires
                    m >= 0x80_0000,
                    pow2(k) >= 512,
            ;
        }
        return if negative {
            lo
        } else {
            hi
        };
    }
    let mag: u64 = if ef < 150 {
        let d = power_of_two(150 - ef);
        m / d
    } else {
        let f = power_of_two(ef - 150);
        proof {
            let k = (ef - 150) as nat;
            if k < 8 {
                lemma_pow2_strictly_increases(k, 8);
            }
            assert(m * f <= 0x100_0000 * 256) by (nonlinear_arith)
                requires
                    m < 0x100_0000,
                    f <= 256,
            ;
        }
        m * f
    };
    assert(mag == single_magnitude(bits));
    assert(mag <= 0x1_0000_0000);
    let v: i64 = if negative {
        -(mag as i64)
    } else {
        mag as i64
    };
    if v < lo {
        lo
    } else if v > hi {
        hi
    } else {
        v
    }
}

/// Whether the word is not a number.
pub fn single_nan(bits: u32) -> (r: bool)
    ensures
        r == single_is_nan(bits),
{
    (bits / 0x80_0000) % 256 == 255 && bits % 0x80_0000 != 0
}

/// A number of at most 24 significant bits survives the way to a word and
/// back: the numeric cast of its word gives the number again, in every range
/// that holds it.
pub proof fn lemma_single_round_trip(v: int, lo: int, hi: int)
    requires
        -0x100_0000 <= v <= 0x100_0000,
        lo <= v <= hi,
    ensures
        0 <= single_of_int(v) <= u32::MAX,
        int_of_single(single_of_int(v) as u32, lo, hi) == v,
{
    lemma2_to64();
    let a: nat = if v < 0 { (-v) as nat } else { v as nat };
    let negative = v < 0;
    if a == 0 {
        lemma_single_fields(false, 0, 0);
    } else {
        let e = log2_floor(a);
        lemma_log2_floor_bounds(a);
        if e > 24 {
            lemma_pow2_strictly_increases(24, e);
        }
        assert(e <= 24);
        if e == 24 {
            assert(a == 0x100_0000);
            // One rounding bit, which is zero: the quotient is exact.
            assert(pow2(1) == 2);
            let q = a / pow2(1);
            let r = a % pow2(1);
            assert(q == 0x80_0000 && r == 0);
            assert(single_of_nat(a) == 151 * 0x80_0000);
            lemma_single_fields(negative, 151, 0);
            assert(pow2(0) == 1);
            assert(pow2(31) == 0x8000_0000);
            let word = single_of_int(v) as u32;
            assert(single_exponent(word) == 151);
            assert(single_fraction(word) == 0);
            assert(single_magnitude(word) == 0x80_0000 * pow2(1));
        } else {
            let k = (23 - e) as nat;
            let scale = pow2(k);
            lemma_pow2_pos(k);
            lemma_pow2_adds(e, k);
            lemma_pow2_adds(e + 1, k);
            let m = a * scale;
            assert(pow2(23) <= m < pow2(24)) by (nonlinear_arith)
                requires
                    pow2(e) <= a < pow2(e + 1),
                    scale >= 1,
                    pow2(e) * scale == pow2(23),
                    pow2(e + 1) * scale == pow2(24),
                    m == a * scale,
            ;
            let frac = m - 0x80_0000;
            let ef = (e + 127) as int;
            assert(single_of_nat(a) == ef * 0x80_0000 + frac);
            lemma_single_fields(negative, ef, frac);
            assert(pow2(31) == 0x8000_0000);
            let word = single_of_int(v) as u32;
            assert(single_exponent(word) == ef);
            assert(single_fraction(word) == frac);
            if ef < 150 {
                assert((150 - ef) as nat == k);
                lemma_div_multiples_vanish(a as int, scale as int);
                assert(m as int == (scale as int) * (a as int)) by (nonlinear_arith)
                    requires
                        m == a * scale,
                ;
                assert((m as int) / (scale as int) == a);
                assert(single_magnitude(word) == a);
            } else {
                assert(k == 0);
                assert(pow2(0) == 1);
                assert(m == a) by (nonlinear_arith)
                    requires
                        m == a * scale,
                        scale == 1,
                ;
                assert(single_magnitude(word) == a);
            }
        }
    }
}


/// The word of a number that is a 24-bit mantissa scaled by a power of two
/// is exact: its fraction is the mantissa below the hidden bit, and its
/// exponent counts the scale.
pub proof fn lemma_single_of_scaled(m: nat, k: nat)
    requires
        0x80_0000 <= m < 0x100_0000,
        k <= 8,
    ensures
        single_of_nat(m * pow2(k)) == (150 + k) * 0x80_0000 + m - 0x80_0000,
{
    lemma2_to64();
    let v = m * pow2(k);
    lemma_pow2_pos(k);
    lemma_pow2_adds(23, k);
    lemma_pow2_adds(24, k);
    assert(pow2(23 + k) <= v < pow2(24 + k)) by (nonlinear_arith)
        requires
            pow2(23) <= m < pow2(24),
            pow2(k) >= 1,
            v == m * pow2(k),
            pow2(23) * pow2(k) == pow2(23 + k),
            pow2(24) * pow2(k) == pow2(24 + k),
    ;
    lemma_log2_floor_unique(v, 23 + k);
    if k == 0 {
        assert(pow2(0) == 1);
        assert(v == m) by (nonlinear_arith)
            requires
                v == m * pow2(k),
                pow2(k) == 1,
        ;
        assert(v * pow2(0) == v) by (nonlinear_arith)
            requires
                pow2(0) == 1,
        ;
    } else {
        let d = pow2(k);
        assert(v == d * m) by (nonlinear_arith)
            requires
                v == m * d,
        ;
        lemma_div_multiples_vanish(m as int, d as int);
        assert(v as int / d as int == m);
        lemma_fundamental_div_mod_converse(v as int, d as int, m as int, 0);
        assert(v as int % d as int == 0);
        assert((23 + k - 23) as nat == k);
    }
}

/// The integer part of the magnitude of a word whose exponent field is
/// 150 + `k`: the mantissa scaled by 2^`k`.
pub proof fn lemma_magnitude_scaled(word: u32, k: nat)
    requires
        single_exponent(word) == 150 + k,
    ensures
        single_magnitude(word) == (0x80_0000 + single_fraction(word)) * pow2(k),
{
    assert((150 + k - 150) as nat == k);
}

/// The ranges of the integer types of 8, 16 and 32 bits.
pub open spec fn integer_range(lo: int, hi: int) -> bool {
    ||| (lo == 0 && hi == 0xFF)
    ||| (lo == -0x80 && hi == 0x7F)
    ||| (lo == 0 && hi == 0xFFFF)
    ||| (lo == -0x8000 && hi == 0x7FFF)
    ||| (lo == 0 && hi == 0xFFFF_FFFF)
    ||| (lo == -0x8000_0000 && hi == 0x7FFF_FFFF)
}

/// Round-trip fidelity: an integer that a numeric cast of some word gives
/// survives the way to its own word and back, whatever the word was. This
/// holds of the rounded and of the saturated results too.
pub proof fn lemma_single_stable(word: u32, lo: int, hi: int)
    requires
        integer_range(lo, hi),
    ensures
        0 <= single_of_int(int_of_single(word, lo, hi)) <= u32::MAX,
        int_of_single(single_of_int(int_of_single(word, lo, hi)) as u32, lo, hi) == int_of_single(
            word,
            lo,
            hi,
        ),
{
    lemma2_to64();
    let t = int_of_single(word, lo, hi);
    assert(lo <= t <= hi);
    let ef = single_exponent(word);
    let frac = single_fraction(word);
    let mag = single_magnitude(word);
    let v = if single_negative(word) {
        -mag
    } else {
        mag
    };
    assert(0 <= frac < 0x80_0000);
    assert(mag >= 0) by {
        if ef != 0 && ef < 150 {
            lemma_pow2_pos((150 - ef) as nat);
            assert((0x80_0000 + frac) / (pow2((150 - ef) as nat) as int) >= 0)
                by (nonlinear_arith)
                requires
                    pow2((150 - ef) as nat) >= 1,
                    0x80_0000 + frac >= 0,
            ;
        } else if ef >= 150 {
            lemma_pow2_pos((ef - 150) as nat);
            assert((0x80_0000 + frac) * pow2((ef - 150) as nat) >= 0) by (nonlinear_arith)
                requires
                    pow2((ef - 150) as nat) >= 1,
                    0x80_0000 + frac >= 0,
            ;
        }
    }
    let high = (ef == 255 && frac == 0 && !single_negative(word)) || (ef != 255 && v > hi);
    let low = (ef == 255 && frac == 0 && single_negative(word)) || (ef != 255 && v < lo);
    if -0x100_0000 <= t <= 0x100_0000 {
        lemma_single_round_trip(t, lo, hi);
    } else if high {
        // Saturated upward: the largest number of the range rounds up to a
        // power of two, which the cast holds down to the range again.
        assert(t == hi);
        if hi == 0xFFFF_FFFF {
            lemma_single_of_top(0xFFFF_FFFF, 31);
            lemma_single_fields(false, 159, 0);
            let back = single_of_int(t) as u32;
            lemma_magnitude_scaled(back, 9);
            assert(pow2(9) == 512);
            assert(int_of_single(back, lo, hi) == t);
        } else {
            assert(hi == 0x7FFF_FFFF);
            lemma_single_of_top(0x7FFF_FFFF, 30);
            lemma_single_fields(false, 158, 0);
            let back = single_of_int(t) as u32;
            lemma_magnitude_scaled(back, 8);
            assert(pow2(8) == 256);
            assert(int_of_single(back, lo, hi) == t);
        }
    } else {
        // The lowest 32-bit integer, or the magnitude of the word itself:
        // either way a mantissa scaled by a power of two up to 256.
        let negative = t < 0;
        let a: nat = if negative { (-t) as nat } else { t as nat };
        let m: nat;
        let k: nat;
        if low {
            assert(t == lo);
            assert(lo == -0x8000_0000);
            m = 0x80_0000;
            k = 8;
            assert(pow2(8) == 256);
            assert(a == m * pow2(k));
        } else {
            assert(ef != 255);
            assert(t == v);
            assert(a == mag);
            if ef < 150 {
                if ef != 0 {
                    let d = pow2((150 - ef) as nat);
                    lemma_pow2_pos((150 - ef) as nat);
                    assert((0x80_0000 + frac) / (d as int) <= 0x80_0000 + frac)
                        by (nonlinear_arith)
                        requires
                            d >= 1,
                            0x80_0000 + frac >= 0,
                    ;
                }
                assert(false);
            }
            k = (ef - 150) as nat;
            m = (0x80_0000 + frac) as nat;
            lemma_magnitude_scaled(word, k);
            if k > 8 {
                if k > 9 {
                    lemma_pow2_strictly_increases(9, k);
                }
                assert(pow2(k) >= 512);
                assert(m * pow2(k) >= 0x80_0000 * 512) by (nonlinear_arith)
                    requires
                        m >= 0x80_0000,
                        pow2(k) >= 512,
                ;
                assert(false);
            }
        }
        lemma_single_of_scaled(m, k);
        let frac2 = (m - 0x80_0000) as int;
        lemma_single_fields(negative, (150 + k) as int, frac2);
        assert(pow2(31) == 0x8000_0000);
        let back = single_of_int(t) as u32;
        assert(single_exponent(back) == 150 + k);
        assert(single_fraction(back) == frac2);
        assert(single_negative(back) == negative);
        lemma_magnitude_scaled(back, k);
        assert(single_magnitude(back) == a);
        assert(int_of_single(back, lo, hi) == t);
    }
}

/// The word of the largest number of 32 or of 31 bits: it rounds up to the
/// next power of two.
pub proof fn lemma_single_of_top(v: nat, e: nat)
    requires
        (v == 0xFFFF_FFFF && e == 31) || (v == 0x7FFF_FFFF && e == 30),
    ensures
        single_of_nat(v) == (e + 128) * 0x80_0000,
{
    lemma2_to64();
    lemma_log2_floor_unique(v, e);
    let s = (e - 23) as nat;
    assert(pow2(7) == 128 && pow2(8) == 256);
    if e == 31 {
        assert(v / 256 == 0xFF_FFFF && v % 256 == 255);
    } else {
        assert(v / 128 == 0xFF_FFFF && v % 128 == 127);
    }
}

} // verus!
