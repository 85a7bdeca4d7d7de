//! Decimal formatting of the integer quantities that appear in instrument
//! commands and CSV rows: plain integers, and scaled values such as a
//! microamp count printed in amps.

use vstd::prelude::*;

verus! {

/// The decimal digit character for a value below ten.
pub open spec fn digit_char(d: int) -> char {
    if d == 0 {
        '0'
    } else if d == 1 {
        '1'
    } else if d == 2 {
        '2'
    } else if d == 3 {
        '3'
    } else if d == 4 {
        '4'
    } else if d == 5 {
        '5'
    } else if d == 6 {
        '6'
    } else if d == 7 {
        '7'
    } else if d == 8 {
        '8'
    } else {
        '9'
    }
}

/// The usual decimal rendering of a nonnegative integer, most significant
/// digit first, with no leading zeros (and a single `'0'` for zero).
pub open spec fn spec_digits(n: nat) -> Seq<char>
    decreases n,
{
    if n < 10 {
        seq![digit_char(n as int)]
    } else {
        spec_digits(n / 10) + seq![digit_char((n % 10) as int)]
    }
}

fn digit_str(d: u64) -> (r: &'static str)
    requires
        d < 10,
    ensures
        r@ == seq![digit_char(d as int)],
{
    proof {
        reveal_strlit("0");
        reveal_strlit("1");
        reveal_strlit("2");
        reveal_strlit("3");
        reveal_strlit("4");
        reveal_strlit("5");
        reveal_strlit("6");
        reveal_strlit("7");
        reveal_strlit("8");
        reveal_strlit("9");
    }
    match d {
        0 => "0",
        1 => "1",
        2 => "2",
        3 => "3",
        4 => "4",
        5 => "5",
        6 => "6",
        7 => "7",
        8 => "8",
        _ => "9",
    }
}

/// Append the decimal rendering of `n` to `out`.
pub fn push_u64(out: &mut String, n: u64)
    ensures
        final(out)@ == old(out)@ + spec_digits(n as nat),
    decreases n,
{
    if n < 10 {
        out.append(digit_str(n));
    } else {
        push_u64(out, n / 10);
        out.append(digit_str(n % 10));
    }
}

/// The decimal rendering of `n` as a fresh string.
pub fn u64_string(n: u64) -> (r: String)
    ensures
        r@ == spec_digits(n as nat),
{
    let mut s = String::new();
    push_u64(&mut s, n);
    s
}

/// A decimal rendering always has at least one digit.
pub proof fn lemma_digits_len(n: nat)
    ensures
        spec_digits(n).len() >= 1,
    decreases n,
{
    if n >= 10 {
        lemma_digits_len(n / 10);
    }
}

/// A scaled rendering is never empty either.
pub proof fn lemma_scaled_signed_len(v: int, k: nat)
    ensures
        spec_scaled_signed(v, k).len() >= 1,
{
    if v < 0 {
        lemma_digits_len(((-v) as nat) / pow10(k));
    } else {
        lemma_digits_len((v as nat) / pow10(k));
    }
}

pub open spec fn pow10(k: nat) -> nat
    decreases k,
{
    if k == 0 {
        1
    } else {
        10 * pow10((k - 1) as nat)
    }
}

/// `n` rendered in exactly `k` digits, zero-padded on the left.
pub open spec fn spec_padded(n: nat, k: nat) -> Seq<char>
    decreases k,
{
    if k == 0 {
        Seq::empty()
    } else {
        spec_padded(n / 10, (k - 1) as nat) + seq![digit_char((n % 10) as int)]
    }
}

/// `s` with every trailing `'0'` removed.
pub open spec fn trim_zeros(s: Seq<char>) -> Seq<char>
    decreases s.len(),
{
    if s.len() > 0 && s[s.len() - 1] == '0' {
        trim_zeros(s.drop_last())
    } else {
        s
    }
}

/// The decimal rendering of the rational `m / 10^k`: the integer part in
/// full, then, when the remainder is not zero, a point and the fractional
/// digits with trailing zeros removed.
pub open spec fn spec_scaled(m: nat, k: nat) -> Seq<char> {
    let ip = m / pow10(k);
    let fp = m % pow10(k);
    if fp == 0 {
        spec_digits(ip)
    } else {
        spec_digits(ip) + seq!['.'] + trim_zeros(spec_padded(fp, k))
    }
}

/// The decimal rendering of `v / 10^k` with a leading minus sign for
/// negative values.
pub open spec fn spec_scaled_signed(v: int, k: nat) -> Seq<char> {
    if v < 0 {
        seq!['-'] + spec_scaled((-v) as nat, k)
    } else {
        spec_scaled(v as nat, k)
    }
}

fn pow10_u64(k: u64) -> (r: u64)
    requires
        k <= 6,
    ensures
        r == pow10(k as nat),
        r >= 1,
{
    proof {
        assert(pow10(0) == 1);
        assert(pow10(1) == 10);
        assert(pow10(2) == 100);
        assert(pow10(3) == 1000);
        assert(pow10(4) == 10000);
        assert(pow10(5) == 100000);
        assert(pow10(6) == 1000000);
    }
    match k {
        0 => 1,
        1 => 10,
        2 => 100,
        3 => 1000,
        4 => 10000,
        5 => 100000,
        _ => 1000000,
    }
}

fn push_padded(out: &mut String, n: u64, k: u64)
    requires
        n < pow10(k as nat),
    ensures
        final(out)@ == old(out)@ + spec_padded(n as nat, k as nat),
    decreases k,
{
    if k > 0 {
        proof {
            assert(pow10(k as nat) == 10 * pow10((k - 1) as nat));
        }
        push_padded(out, n / 10, k - 1);
        out.append(digit_str(n % 10));
    }
}

/// Append the decimal rendering of `m / 10^k` to `out`.
pub fn push_scaled(out: &mut String, m: u64, k: u64)
    requires
        k <= 6,
    ensures
        final(out)@ == old(out)@ + spec_scaled(m as nat, k as nat),
{
    proof {
        reveal_strlit(".");
    }
    let p = pow10_u64(k);
    let ip = m / p;
    let mut fp = m % p;
    push_u64(out, ip);
    if fp != 0 {
        out.append(".");
        assert("."@ =~= seq!['.']);
        let ghost whole = spec_padded((m % p) as nat, k as nat);
        let mut kk = k;
        while fp % 10 == 0
            invariant
                0 < fp < pow10(kk as nat),
                kk <= k,
                trim_zeros(spec_padded(fp as nat, kk as nat)) == trim_zeros(whole),
            decreases fp,
        {
            proof {
                assert(pow10(kk as nat) == 10 * pow10((kk - 1) as nat));
                let s = spec_padded(fp as nat, kk as nat);
                assert(s == spec_padded((fp / 10) as nat, (kk - 1) as nat) + seq![
                    digit_char((fp % 10) as int),
                ]);
                assert(s.drop_last() =~= spec_padded((fp / 10) as nat, (kk - 1) as nat));
                assert(s[s.len() - 1] == '0');
            }
            fp = fp / 10;
            kk = kk - 1;
        }
        proof {
            let s = spec_padded(fp as nat, kk as nat);
            if kk > 0 {
                assert(s == spec_padded((fp / 10) as nat, (kk - 1) as nat) + seq![
                    digit_char((fp % 10) as int),
                ]);
                assert(s[s.len() - 1] != '0');
            }
            assert(trim_zeros(s) == s);
        }
        push_padded(out, fp, kk);
    }
}

/// The decimal rendering of `m / 10^k` as a fresh string.
pub fn scaled_string_u64(m: u64, k: u64) -> (r: String)
    requires
        k <= 6,
    ensures
        r@ == spec_scaled(m as nat, k as nat),
{
    let mut s = String::new();
    push_scaled(&mut s, m, k);
    s
}

/// The decimal rendering of `v / 10^k` as a fresh string.
pub fn scaled_string(v: i64, k: u64) -> (r: String)
    requires
        k <= 6,
    ensures
        r@ == spec_scaled_signed(v as int, k as nat),
{
    proof {
        reveal_strlit("-");
    }
    let mut s = String::new();
    if v < 0 {
        s.append("-");
        assert("-"@ =~= seq!['-']);
        let m = (-(v as i128)) as u64;
        assert(m == -(v as int)) by {
            assert(-(v as int) <= 0x8000_0000_0000_0000);
        }
        push_scaled(&mut s, m, k);
    } else {
        push_scaled(&mut s, v as u64, k);
    }
    s
}

} // verus!
