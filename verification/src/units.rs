//! Human-readable sizes, speeds and remaining times, and the widths of the
//! download table's columns.
use vstd::prelude::*;
use crate::text::{decimal, decimal_string, digit_char, push_char, push_str};

verus! {

/// Number of binary digits of `n` (0 for 0).
pub open spec fn bit_length(n: nat) -> nat
    decreases n,
{
    if n == 0 {
        0
    } else {
        1 + bit_length(n / 2)
    }
}

pub open spec fn two_to(e: nat) -> nat
    decreases e,
{
    if e == 0 {
        1
    } else {
        2 * two_to((e - 1) as nat)
    }
}

/// `num / den` rounded to the nearest integer, ties to the even one.
pub open spec fn round_half_even(num: nat, den: nat) -> nat
    recommends
        den > 0,
{
    let q = num / den;
    let r = num % den;
    if 2 * r > den || (2 * r == den && q % 2 == 1) {
        q + 1
    } else {
        q
    }
}

/// The value of `n as f64`: `n` rounded to 53 significant bits, ties to an
/// even significand.
pub open spec fn as_f64(n: nat) -> nat {
    if bit_length(n) <= 53 {
        n
    } else {
        let p = two_to((bit_length(n) - 53) as nat);
        round_half_even(n, p) * p
    }
}

/// How many times 1024 divides into the value before it drops under 1024,
/// at most four (B, KB, MB, GB, TB).
pub open spec fn unit_index(m: nat) -> nat {
    if m < 1024 {
        0
    } else if m < 1048576 {
        1
    } else if m < 1073741824 {
        2
    } else if m < 1099511627776 {
        3
    } else {
        4
    }
}

pub open spec fn unit_scale(k: nat) -> nat {
    if k == 0 {
        1
    } else if k == 1 {
        1024
    } else if k == 2 {
        1048576
    } else if k == 3 {
        1073741824
    } else {
        1099511627776
    }
}

pub open spec fn unit_name(k: nat) -> Seq<char> {
    if k == 0 {
        "B"@
    } else if k == 1 {
        "KB"@
    } else if k == 2 {
        "MB"@
    } else if k == 3 {
        "GB"@
    } else {
        "TB"@
    }
}

/// `format!("{:.1} {unit}", size)` for the size in the largest unit it
/// reaches: tenths of the unit, rounded half to even as Rust formats
/// floats.
pub open spec fn bytes_text(bytes: nat) -> Seq<char> {
    let m = as_f64(bytes);
    let k = unit_index(m);
    let t = round_half_even(10 * m, unit_scale(k));
    decimal(t / 10) + "."@ + seq![digit_char((t % 10) as int)] + " "@ + unit_name(k)
}

proof fn lemma_bit_length_bound(n: nat, k: nat)
    requires
        n < two_to(k),
    ensures
        bit_length(n) <= k,
    decreases k,
{
    if n > 0 && k > 0 {
        lemma_bit_length_bound(n / 2, (k - 1) as nat);
    }
}

proof fn lemma_two_to_positive(e: nat)
    ensures
        two_to(e) >= 1,
    decreases e,
{
    if e > 0 {
        lemma_two_to_positive((e - 1) as nat);
    }
}

proof fn lemma_two_to_monotone(a: nat, b: nat)
    requires
        a <= b,
    ensures
        two_to(a) <= two_to(b),
    decreases b,
{
    if a < b {
        lemma_two_to_monotone(a, (b - 1) as nat);
        lemma_two_to_positive((b - 1) as nat);
    }
}

proof fn lemma_two_to_11()
    ensures
        two_to(11) == 2048,
{
    reveal_with_fuel(two_to, 12);
}

proof fn lemma_two_to_64()
    ensures
        two_to(64) == 18446744073709551616,
{
    lemma_two_to_11();
    reveal_with_fuel(two_to, 12);
    assert(two_to(22) == 2048 * 2048);
    assert(two_to(33) == 2048 * 2048 * 2048);
    assert(two_to(44) == 2048 * 2048 * 2048 * 2048);
    assert(two_to(55) == 2048 * 2048 * 2048 * 2048 * 2048);
    assert(two_to(64) == 512 * two_to(55));
}

/// `bytes as f64`, as the exact integer it is.
fn f64_value(n: u64) -> (m: u128)
    ensures
        m == as_f64(n as nat),
        m <= 18446744073709551616 + 2048,
{
    let mut x: u64 = n;
    let mut b: u64 = 0;
    assert(two_to(0) == 1);
    while x > 0
        invariant
            b + bit_length(x as nat) == bit_length(n as nat),
            b <= 64,
            x as int * two_to(b as nat) <= n,
        decreases x,
    {
        proof {
            lemma_two_to_positive(b as nat);
            assert(two_to((b + 1) as nat) == 2 * two_to(b as nat));
            assert((x / 2) as int * two_to((b + 1) as nat) <= x as int * two_to(b as nat)) by (nonlinear_arith)
                requires
                    two_to((b + 1) as nat) == 2 * two_to(b as nat),
                    two_to(b as nat) >= 1,
            {
            }
            lemma_two_to_positive(b as nat);
            assert(two_to(b as nat) >= 1);
            if b == 64 {
                lemma_two_to_64();
                assert(x as int * two_to(b as nat) >= two_to(64)) by (nonlinear_arith)
                    requires
                        x >= 1,
                        b == 64,
                {
                }
            }
        }
        x = x / 2;
        b = b + 1;
    }
    if b <= 53 {
        return n as u128;
    }
    let e: u64 = b - 53;
    let mut p: u128 = 1;
    let mut i: u64 = 0;
    while i < e
        invariant
            i <= e,
            e <= 11,
            p == two_to(i as nat),
            1 <= p <= 2048,
        decreases e - i,
    {
        proof {
            lemma_two_to_monotone((i + 1) as nat, 11);
            lemma_two_to_11();
        }
        p = p * 2;
        i = i + 1;
    }
    let wide: u128 = n as u128;
    let q = wide / p;
    let r = wide % p;
    proof {
        lemma_two_to_positive(e as nat);
        vstd::arithmetic::div_mod::lemma_fundamental_div_mod(wide as int, p as int);
        assert(q * p <= wide) by (nonlinear_arith)
            requires
                wide == p * q + r,
                r >= 0,
        {
        }
        assert((q + 1) * p == q * p + p) by (nonlinear_arith);
    }
    if 2 * r > p || (2 * r == p && q % 2 == 1) {
        (q + 1) * p
    } else {
        q * p
    }
}

fn unit_str(k: u64) -> (r: &'static str)
    ensures
        r@ == unit_name(k as nat),
{
    if k == 0 {
        "B"
    } else if k == 1 {
        "KB"
    } else if k == 2 {
        "MB"
    } else if k == 3 {
        "GB"
    } else {
        "TB"
    }
}

/// A byte count in binary units with one decimal: `1.5 KB`.
pub fn format_bytes(bytes: u64) -> (r: String)
    ensures
        r@ == bytes_text(bytes as nat),
{
    let m = f64_value(bytes);
    let (k, den): (u64, u128) = if m < 1024 {
        (0, 1)
    } else if m < 1048576 {
        (1, 1024)
    } else if m < 1073741824 {
        (2, 1048576)
    } else if m < 1099511627776 {
        (3, 1073741824)
    } else {
        (4, 1099511627776)
    };
    let num: u128 = m * 10;
    let q = num / den;
    let rem = num % den;
    let t: u128 = if 2 * rem > den || (2 * rem == den && q % 2 == 1) {
        q + 1
    } else {
        q
    };
    proof {
        assert(q <= num) by (nonlinear_arith)
            requires
                den >= 1,
                q == num / den,
        {
        }
        if k >= 1 {
            assert(q * 1024 <= num) by (nonlinear_arith)
                requires
                    den >= 1024,
                    q == num / den,
                    num >= 0,
            {
                vstd::arithmetic::div_mod::lemma_fundamental_div_mod(num as int, den as int);
            }
        }
    }
    let whole = t / 10;
    let tenth = t % 10;
    assert(whole < 18446744073709551615) by {
        if k == 0 {
            assert(m < 1024);
            assert(den == 1);
        }
    }
    let mut s = decimal_string(whole as u64);
    push_char(&mut s, '.');
    push_char(&mut s, crate::text::digit_of(tenth as u64));
    push_char(&mut s, ' ');
    push_str(&mut s, unit_str(k));
    proof {
        reveal_strlit(".");
        reveal_strlit(" ");
        assert(k == unit_index(m as nat));
        assert(den == unit_scale(k as nat));
        assert(t == round_half_even(10 * m as nat, den as nat));
        assert(s@ =~= bytes_text(bytes as nat));
    }
    s
}

/// A transfer speed: `-` when nothing moves, else the size per second.
pub fn format_speed(bytes_per_sec: u64) -> (r: String)
    ensures
        r@ == (if bytes_per_sec == 0 {
            "-"@
        } else {
            bytes_text(bytes_per_sec as nat) + "/s"@
        }),
{
    if bytes_per_sec == 0 {
        return "-".to_owned();
    }
    let mut s = format_bytes(bytes_per_sec);
    push_str(&mut s, "/s");
    s
}

/// Remaining time: hours and minutes, or minutes and seconds, or seconds.
pub open spec fn eta_text(seconds: nat) -> Seq<char> {
    let h = seconds / 3600;
    let m = (seconds % 3600) / 60;
    let s = seconds % 60;
    if h > 0 {
        decimal(h) + "h"@ + decimal(m) + "m"@
    } else if m > 0 {
        decimal(m) + "m"@ + decimal(s) + "s"@
    } else {
        decimal(s) + "s"@
    }
}

pub fn format_eta(seconds: u64) -> (r: String)
    ensures
        r@ == eta_text(seconds as nat),
{
    let h = seconds / 3600;
    let m = (seconds % 3600) / 60;
    let s = seconds % 60;
    if h > 0 {
        let mut out = decimal_string(h);
        push_str(&mut out, "h");
        push_str(&mut out, decimal_string(m).as_str());
        push_str(&mut out, "m");
        out
    } else if m > 0 {
        let mut out = decimal_string(m);
        push_str(&mut out, "m");
        push_str(&mut out, decimal_string(s).as_str());
        push_str(&mut out, "s");
        out
    } else {
        let mut out = decimal_string(s);
        push_str(&mut out, "s");
        out
    }
}

} // verus!
