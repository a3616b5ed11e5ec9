//! Human-readable byte sizes, as the dialogs print them with `{:.2}`.
//!
//! The dialogs turn a byte count into an `f64`, divide it by 1024 while it is
//! at least 1024 (up to gigabytes) and print it with two decimals. Every step
//! of that is exact on the binary value except the first conversion, so the
//! text is stated here over integers: the count rounded to 53 significant
//! bits, a power of two that divides it, and rounding to hundredths with ties
//! to even.
use vstd::arithmetic::div_mod::*;
use vstd::arithmetic::power2::*;
use vstd::prelude::*;
use crate::text::{decimal, decimal_vec, digit_char, string_of};

verus! {

pub const F64_EXACT: u64 = 9007199254740992;

/// How many times `n` is halved before it is below 2^53.
pub open spec fn f64_shift(n: nat) -> nat
    decreases n,
{
    if n < 9007199254740992 {
        0
    } else {
        1 + f64_shift(n / 2)
    }
}

/// `n` rounded to the nearest number with 53 significant bits, ties to even:
/// the value that `n as f64` holds.
pub open spec fn f64_value(n: nat) -> nat {
    let e = f64_shift(n);
    if e == 0 {
        n
    } else {
        let q = n / pow2(e);
        let r = n % pow2(e);
        let half = pow2((e - 1) as nat);
        if r > half || (r == half && q % 2 == 1) {
            (q + 1) * pow2(e)
        } else {
            q * pow2(e)
        }
    }
}

/// `v / 2^shift` in hundredths, rounded to the nearest with ties to even:
/// the digits that `{:.2}` prints for that exact binary value.
pub open spec fn hundredths(v: nat, shift: nat) -> nat {
    let d = pow2(shift);
    let q = (v * 100) / d;
    let r = (v * 100) % d;
    if 2 * r > d || (2 * r == d && q % 2 == 1) {
        q + 1
    } else {
        q
    }
}

/// A count of hundredths written with two decimals.
pub open spec fn fixed2(h: nat) -> Seq<char> {
    decimal(h / 100) + seq!['.', digit_char((h % 100) / 10), digit_char(h % 10)]
}

/// The unit that a size shows: the number of times that it was divided by 1024.
pub open spec fn unit_index(v: nat) -> nat {
    if v >= 0x4000_0000 {
        3
    } else if v >= 0x10_0000 {
        2
    } else if v >= 0x400 {
        1
    } else {
        0
    }
}

pub open spec fn unit_name(k: nat) -> Seq<char> {
    if k == 0 {
        seq!['B']
    } else if k == 1 {
        seq!['K', 'B']
    } else if k == 2 {
        seq!['M', 'B']
    } else {
        seq!['G', 'B']
    }
}

/// The text of a size of `bytes` bytes.
pub open spec fn size_text(bytes: nat) -> Seq<char> {
    let v = f64_value(bytes);
    let k = unit_index(v);
    fixed2(hundredths(v, 10 * k)) + seq![' '] + unit_name(k)
}

/// The text that `{:.2}` prints for `(n as f64) / 2^shift`.
pub open spec fn scaled_text(n: nat, shift: nat) -> Seq<char> {
    fixed2(hundredths(f64_value(n), shift))
}

/// The value that `n as f64` holds.
pub fn f64_value_of(n: u64) -> (r: u128)
    ensures
        r == f64_value(n as nat),
        r <= 2 * (n as nat) + 1,
{
    let mut t: u64 = n;
    let mut e: u64 = 0;
    let mut p: u128 = 1;
    proof {
        lemma2_to64();
    }
    while t >= F64_EXACT
        invariant
            p == pow2(e as nat),
            p > 0,
            t as int == n as int / p as int,
            f64_shift(n as nat) == e + f64_shift(t as nat),
            e <= p,
            p <= (if e == 0 {
                1
            } else {
                n as nat
            }),
        decreases t,
    {
        proof {
            lemma_div_denominator(n as int, p as int, 2);
            lemma_pow2_unfold((e + 1) as nat);
            lemma_fundamental_div_mod(n as int, p as int);
            lemma_fundamental_div_mod(t as int, 2);
            assert(t as int * p as int <= n as int) by (nonlinear_arith)
                requires
                    n as int == p * (n as int / p as int) + (n as int % p as int),
                    t as int == n as int / p as int,
                    n as int % p as int >= 0,
            ;
            assert((t as int / 2) * (2 * p as int) <= t as int * p as int) by (nonlinear_arith)
                requires
                    t as int == 2 * (t as int / 2) + t as int % 2,
                    t as int % 2 >= 0,
                    p > 0,
            ;
            assert(2 * p as int <= n as int) by (nonlinear_arith)
                requires
                    t as int * p as int <= n as int,
                    t >= F64_EXACT,
                    t as int / 2 >= 1,
                    (t as int / 2) * (2 * p as int) <= t as int * p as int,
            ;
        }
        t = t / 2;
        e = e + 1;
        p = p * 2;
    }
    if e == 0 {
        return n as u128;
    }
    let q: u128 = t as u128;
    proof {
        lemma_fundamental_div_mod(n as int, p as int);
        lemma_pow2_unfold(e as nat);
        lemma_remainder_lower(n as int, p as int);
        lemma_remainder_upper(n as int, p as int);
        assert(q as int * p as int <= n as int) by (nonlinear_arith)
            requires
                n as int == p * (n as int / p as int) + (n as int % p as int),
                q as int == n as int / p as int,
                n as int % p as int >= 0,
        ;
    }
    let r: u128 = n as u128 - q * p;
    let half: u128 = p / 2;
    assert(r == n as nat % pow2(e as nat));
    if r > half || (r == half && q % 2 == 1) {
        assert((q + 1) * p == q * p + p) by (nonlinear_arith);
        (q + 1) * p
    } else {
        q * p
    }
}

/// The hundredths that `{:.2}` prints for `v / 2^shift`, for `shift` below 64.
pub fn hundredths_of(v: u128, shift: u32) -> (r: u128)
    requires
        v <= 0x4_0000_0000_0000_0000,
        shift <= 63,
    ensures
        r == hundredths(v as nat, shift as nat),
        r <= v * 100 + 1,
{
    let mut d: u128 = 1;
    let mut i: u32 = 0;
    proof {
        lemma2_to64();
    }
    while i < shift
        invariant
            i <= shift <= 63,
            d == pow2(i as nat),
            d <= 0x8000_0000_0000_0000,
            d > 0,
        decreases shift - i,
    {
        proof {
            lemma_pow2_unfold((i + 1) as nat);
            lemma2_to64_rest();
            if i + 1 < 63 {
                lemma_pow2_strictly_increases((i + 1) as nat, 63);
            }
        }
        d = d * 2;
        i = i + 1;
    }
    let x: u128 = v * 100;
    let q = x / d;
    let r = x % d;
    proof {
        lemma_div_is_ordered_by_denominator(x as int, 1, d as int);
    }
    if 2 * r > d || (2 * r == d && q % 2 == 1) {
        q + 1
    } else {
        q
    }
}

/// Writes a count of hundredths with two decimals.
pub fn fixed2_vec(h: u128) -> (r: Vec<char>)
    ensures
        r@ == fixed2(h as nat),
{
    let mut v = decimal_vec(h / 100);
    let c1 = (((h % 100) / 10) as u8 + 48) as char;
    let c2 = ((h % 10) as u8 + 48) as char;
    assert(c1 == digit_char(((h as nat) % 100) / 10));
    assert(c2 == digit_char((h as nat) % 10));
    let ghost front = v@;
    v.push('.');
    v.push(c1);
    v.push(c2);
    assert(v@ =~= front + seq!['.', c1, c2]);
    v
}

/// The text that `{:.2}` prints for `(n as f64) / 2^shift`.
pub fn scaled_text_vec(n: u64, shift: u32) -> (r: Vec<char>)
    requires
        shift <= 63,
    ensures
        r@ == scaled_text(n as nat, shift as nat),
{
    let v = f64_value_of(n);
    let h = hundredths_of(v, shift);
    fixed2_vec(h)
}

/// Formats a byte count the way the dialogs show sizes: the count divided by
/// 1024 while it is at least 1024, up to gigabytes, with two decimals and the
/// unit (`B`, `KB`, `MB` or `GB`).
pub fn format_size(bytes: u64) -> (r: String)
    ensures
        r@ == size_text(bytes as nat),
{
    let v = f64_value_of(bytes);
    let k: u32 = if v >= 0x4000_0000 {
        3
    } else if v >= 0x10_0000 {
        2
    } else if v >= 0x400 {
        1
    } else {
        0
    };
    let h = hundredths_of(v, 10 * k);
    let mut out = fixed2_vec(h);
    out.push(' ');
    if k == 1 {
        out.push('K');
    } else if k == 2 {
        out.push('M');
    } else if k == 3 {
        out.push('G');
    }
    out.push('B');
    let ghost unit = unit_name(k as nat);
    assert(out@ == fixed2(h as nat) + seq![' '] + unit);
    string_of(&out)
}

} // verus!
