//! Human-readable quantities: byte sizes, durations, ordinals, and the
//! padding and truncation of names in tables and progress lines.
//!
//! Byte sizes and sub-ten-second durations are shown with one decimal, as
//! Rust's `{:.1}` shows the `f64` nearest to the exact quantity. That value
//! is computed here in integer arithmetic: the rounding of an integer to the
//! nearest double (53 significant bits, ties to even), and the decimal
//! rounding of a double to tenths (ties to even).

use vstd::prelude::*;
use vstd::string::*;

use crate::text::{dec, digit_char, fmt_u64, owned, push_char};

verus! {

/// `2` to the power `e`.
pub open spec fn pow2(e: nat) -> nat
    decreases e,
{
    if e == 0 {
        1
    } else {
        2 * pow2((e - 1) as nat)
    }
}

/// The number of binary digits of `x` (0 for 0).
pub open spec fn bit_len(x: nat) -> nat
    decreases x,
{
    if x == 0 {
        0
    } else {
        1 + bit_len(x / 2)
    }
}

/// The integer nearest to `a / b`, ties to the even one.
pub open spec fn round_half_even(a: nat, b: nat) -> nat {
    let q = a / b;
    let r = a % b;
    if 2 * r > b || (2 * r == b && q % 2 == 1) {
        q + 1
    } else {
        q
    }
}

/// `x` rounded to 53 significant bits, ties to even: the integer value of
/// the `f64` nearest to `x`.
pub open spec fn to_f64_int(x: nat) -> nat {
    if bit_len(x) <= 53 {
        x
    } else {
        let p = pow2((bit_len(x) - 53) as nat);
        round_half_even(x, p) * p
    }
}

proof fn lemma_pow2_pos(e: nat)
    ensures
        pow2(e) >= 1,
    decreases e,
{
    if e > 0 {
        lemma_pow2_pos((e - 1) as nat);
    }
}

proof fn lemma_pow2_mono(a: nat, b: nat)
    requires
        a <= b,
    ensures
        pow2(a) <= pow2(b),
    decreases b,
{
    if a < b {
        lemma_pow2_mono(a, (b - 1) as nat);
    }
}

/// A positive number has as many binary digits as the exponent of its
/// highest power of two, plus one.
proof fn lemma_bit_len_bounds(x: nat)
    requires
        x > 0,
    ensures
        bit_len(x) >= 1,
        pow2((bit_len(x) - 1) as nat) <= x,
        bit_len(x) <= x,
    decreases x,
{
    assert(bit_len(x) == 1 + bit_len(x / 2));
    if x > 1 {
        lemma_bit_len_bounds(x / 2);
        assert(pow2(bit_len(x / 2)) == 2 * pow2((bit_len(x / 2) - 1) as nat));
    } else {
        assert(bit_len(0) == 0);
        assert(pow2(0) == 1);
    }
}

fn round_half_even_exec(a: u128, b: u128) -> (r: u128)
    requires
        b > 0,
        a / b < u128::MAX,
    ensures
        r == round_half_even(a as nat, b as nat),
{
    let q = a / b;
    let r = a % b;
    if r > b - r || (r == b - r && q % 2 == 1) {
        q + 1
    } else {
        q
    }
}

fn bit_len_exec(x: u128) -> (r: u128)
    ensures
        r == bit_len(x as nat),
{
    let mut y = x;
    let mut l: u128 = 0;
    proof {
        if x > 0 {
            lemma_bit_len_bounds(x as nat);
        }
    }
    while y > 0
        invariant
            bit_len(x as nat) == l + bit_len(y as nat),
            bit_len(x as nat) <= x,
        decreases y,
    {
        y = y / 2;
        l = l + 1;
    }
    l
}

fn pow2_exec(e: u128) -> (r: u128)
    requires
        pow2(e as nat) <= u128::MAX,
    ensures
        r == pow2(e as nat),
{
    let mut p: u128 = 1;
    let mut i: u128 = 0;
    while i < e
        invariant
            i <= e,
            pow2(e as nat) <= u128::MAX,
            p == pow2(i as nat),
        decreases e - i,
    {
        proof {
            lemma_pow2_mono((i + 1) as nat, e as nat);
        }
        p = p * 2;
        i = i + 1;
    }
    p
}

/// Rounding to 53 significant bits moves a number by at most its own size.
proof fn lemma_to_f64_int_bound(x: nat)
    ensures
        to_f64_int(x) <= 2 * x,
{
    if bit_len(x) > 53 {
        let d = (bit_len(x) - 53) as nat;
        let p = pow2(d);
        lemma_bit_len_bounds(x);
        lemma_pow2_mono(d, (bit_len(x) - 1) as nat);
        lemma_pow2_pos(d);
        assert(round_half_even(x, p) <= x / p + 1);
        assert((x / p) * p <= x) by (nonlinear_arith)
            requires
                p > 0,
        ;
        assert((x / p + 1) * p == (x / p) * p + p) by (nonlinear_arith);
        assert(round_half_even(x, p) * p <= (x / p + 1) * p) by (nonlinear_arith)
            requires
                round_half_even(x, p) <= x / p + 1,
        ;
    }
}

fn to_f64_int_exec(x: u128) -> (r: u128)
    requires
        x <= u128::MAX / 2,
    ensures
        r == to_f64_int(x as nat),
{
    let l = bit_len_exec(x);
    if l <= 53 {
        x
    } else {
        proof {
            lemma_bit_len_bounds(x as nat);
            lemma_pow2_mono((l - 53) as nat, (l - 1) as nat);
            lemma_pow2_pos((l - 53) as nat);
            lemma_to_f64_int_bound(x as nat);
        }
        let p = pow2_exec(l - 53);
        assert(x / p <= x) by (nonlinear_arith)
            requires
                p >= 1,
        ;
        let q = round_half_even_exec(x, p);
        assert(q * p == to_f64_int(x as nat));
        q * p
    }
}

/// The binary unit a size is shown in: the largest of B, KiB, MiB, GiB and
/// TiB that the size reaches.
pub open spec fn byte_unit(f: nat) -> nat {
    if f >= 1099511627776 {
        4
    } else if f >= 1073741824 {
        3
    } else if f >= 1048576 {
        2
    } else if f >= 1024 {
        1
    } else {
        0
    }
}

/// The number of bytes in binary unit `u`.
pub open spec fn unit_scale(u: nat) -> nat {
    if u == 0 {
        1
    } else if u == 1 {
        1024
    } else if u == 2 {
        1048576
    } else if u == 3 {
        1073741824
    } else {
        1099511627776
    }
}

/// The name of binary unit `u`.
pub open spec fn unit_name(u: nat) -> Seq<char> {
    if u == 0 {
        "B"@
    } else if u == 1 {
        "KiB"@
    } else if u == 2 {
        "MiB"@
    } else if u == 3 {
        "GiB"@
    } else {
        "TiB"@
    }
}

/// `t` tenths written with one decimal, like `12.3`.
pub open spec fn tenths_text(t: nat) -> Seq<char> {
    dec(t / 10) + seq!['.', digit_char((t % 10) as int)]
}

/// A byte count for people: exact below 1 KiB (`512 B`), otherwise one
/// decimal of the largest binary unit it reaches (`1.5 KiB`), the count
/// first taken as the nearest `f64`.
pub open spec fn spec_human_bytes(bytes: nat) -> Seq<char> {
    if bytes < 1024 {
        dec(bytes) + " B"@
    } else {
        let f = to_f64_int(bytes);
        let u = byte_unit(f);
        tenths_text(round_half_even(10 * f, unit_scale(u))) + " "@ + unit_name(u)
    }
}

fn push_tenths(s: &mut String, t: u64)
    ensures
        final(s)@ == old(s)@ + tenths_text(t as nat),
{
    let whole = fmt_u64(t / 10);
    s.append(whole.as_str());
    push_char(s, '.');
    let frac = fmt_u64(t % 10);
    proof {
        assert(dec((t % 10) as nat) =~= seq![digit_char((t % 10) as int)]);
    }
    s.append(frac.as_str());
}

/// Writes a byte count for people.
pub fn human_bytes(bytes: u64) -> (r: String)
    ensures
        r@ == spec_human_bytes(bytes as nat),
{
    if bytes < 1024 {
        let mut r = fmt_u64(bytes);
        r.append(" B");
        return r;
    }
    proof {
        lemma_to_f64_int_bound(bytes as nat);
    }
    let f = to_f64_int_exec(bytes as u128);
    let (scale, name): (u128, &str) = if f >= 1099511627776 {
        (1099511627776, "TiB")
    } else if f >= 1073741824 {
        (1073741824, "GiB")
    } else if f >= 1048576 {
        (1048576, "MiB")
    } else if f >= 1024 {
        (1024, "KiB")
    } else {
        (1, "B")
    };
    assert((10 * f) / (scale as int) < u128::MAX) by (nonlinear_arith)
        requires
            scale >= 1,
            f <= 2 * u64::MAX,
    ;
    let t = round_half_even_exec(10 * f, scale);
    assert(t <= u64::MAX) by (nonlinear_arith)
        requires
            scale >= 1024 || f < 1024,
            f >= 1024 || scale == 1,
            f <= 2 * u64::MAX,
            f >= 1024 ==> scale >= 1024,
            t <= (10 * f) / (scale as int) + 1,
    ;
    let mut r = String::new();
    push_tenths(&mut r, t as u64);
    r.append(" ");
    r.append(name);
    r
}

/// `2^52 * 10^9`: a value at least this large, divided by `10^9`, has the
/// 53 significant bits of an `f64`.
pub open spec fn scale_limit() -> nat {
    4503599627370496000000000
}

/// How many doublings bring the positive `v` up to `scale_limit()`.
pub open spec fn doublings(v: nat) -> nat
    decreases (if v >= scale_limit() {
        0
    } else {
        scale_limit() - v
    }),
    when v > 0
{
    if v >= scale_limit() {
        0
    } else {
        1 + doublings(2 * v)
    }
}

/// The tenths of `secs + nanos / 10^9` as `Duration::as_secs_f64` computes
/// it and `{:.1}` rounds it: `nanos / 10^9` rounded to an `f64`, the sum
/// rounded to an `f64`, then rounded to tenths, ties to even.
pub open spec fn secs_f64_tenths(secs: nat, nanos: nat) -> nat {
    if nanos == 0 {
        10 * secs
    } else {
        let e = doublings(nanos);
        let m = round_half_even(nanos * pow2(e), 1_000_000_000);
        round_half_even(10 * to_f64_int(secs * pow2(e) + m), pow2(e))
    }
}

/// Two decimal digits, with a leading zero below 10.
pub open spec fn two_digits(x: nat) -> Seq<char> {
    if x < 10 {
        seq!['0'] + dec(x)
    } else {
        dec(x)
    }
}

/// A duration for people: one decimal of a second below 10 s (`3.2s`),
/// whole seconds below a minute (`42s`), minutes and seconds below an hour
/// (`5m07s`), otherwise hours and minutes (`2h03m`).
pub open spec fn spec_human_duration(secs: nat, nanos: nat) -> Seq<char> {
    if secs < 10 {
        tenths_text(secs_f64_tenths(secs, nanos)) + "s"@
    } else if secs < 60 {
        dec(secs) + "s"@
    } else if secs < 3600 {
        dec(secs / 60) + "m"@ + two_digits(secs % 60) + "s"@
    } else {
        dec(secs / 3600) + "h"@ + two_digits((secs % 3600) / 60) + "m"@
    }
}

fn push_two_digits(s: &mut String, x: u64)
    ensures
        final(s)@ == old(s)@ + two_digits(x as nat),
{
    if x < 10 {
        push_char(s, '0');
        let d = fmt_u64(x);
        s.append(d.as_str());
        assert(final(s)@ =~= old(s)@ + two_digits(x as nat));
    } else {
        let d = fmt_u64(x);
        s.append(d.as_str());
    }
}

fn secs_f64_tenths_exec(secs: u64, nanos: u32) -> (t: u64)
    requires
        secs < 10,
        nanos < 1_000_000_000,
    ensures
        t == secs_f64_tenths(secs as nat, nanos as nat),
{
    if nanos == 0 {
        return 10 * secs;
    }
    let limit: u128 = 4503599627370496000000000;
    let mut v: u128 = nanos as u128;
    let mut p: u128 = 1;
    let mut e: u128 = 0;
    assert(pow2(0) == 1);
    while v < limit
        invariant
            nanos > 0,
            v >= 1,
            p >= 1,
            limit == scale_limit(),
            v == nanos * pow2(e as nat),
            p == pow2(e as nat),
            v < 2 * limit,
            p <= v,
            doublings(nanos as nat) == e + doublings(v as nat),
            e <= v,
        decreases 2 * limit - v,
    {
        assert(pow2((e + 1) as nat) == 2 * pow2(e as nat));
        assert(nanos * (2 * pow2(e as nat)) == 2 * (nanos * pow2(e as nat))) by (nonlinear_arith);
        v = v * 2;
        p = p * 2;
        e = e + 1;
    }
    let m = round_half_even_exec(v, 1_000_000_000);
    assert(m <= p) by (nonlinear_arith)
        requires
            m <= v / 1_000_000_000 + 1,
            v == nanos * p,
            nanos < 1_000_000_000,
            p >= 1,
    ;
    assert(secs * p + m <= 10 * p) by (nonlinear_arith)
        requires
            secs < 10,
            m <= p,
    ;
    proof {
        lemma_to_f64_int_bound((secs * p + m) as nat);
    }
    let n = to_f64_int_exec(secs as u128 * p + m);
    assert((10 * n) / (p as int) <= 200) by (nonlinear_arith)
        requires
            p >= 1,
            n <= 20 * p,
    ;
    let t = round_half_even_exec(10 * n, p);
    t as u64
}

/// Writes a duration of `secs` seconds and `nanos` nanoseconds for people.
pub fn human_duration(secs: u64, nanos: u32) -> (r: String)
    requires
        nanos < 1_000_000_000,
    ensures
        r@ == spec_human_duration(secs as nat, nanos as nat),
{
    let mut r = String::new();
    if secs < 10 {
        let t = secs_f64_tenths_exec(secs, nanos);
        push_tenths(&mut r, t);
        r.append("s");
    } else if secs < 60 {
        r = fmt_u64(secs);
        r.append("s");
    } else if secs < 3600 {
        r = fmt_u64(secs / 60);
        r.append("m");
        push_two_digits(&mut r, secs % 60);
        r.append("s");
    } else {
        r = fmt_u64(secs / 3600);
        r.append("h");
        push_two_digits(&mut r, (secs % 3600) / 60);
        r.append("m");
    }
    r
}

/// The longest name a progress line shows whole.
pub const TRUNCATE_MAX: usize = 28;

/// `name` cut to at most 28 characters: unchanged when it fits, otherwise
/// its first 27 characters and an ellipsis.
pub open spec fn spec_truncate(name: Seq<char>) -> Seq<char> {
    if name.len() <= 28 {
        name
    } else {
        name.take(27).push('\u{2026}')
    }
}

/// Keeps one long file name from squeezing a progress bar to nothing.
/// Counts characters, not bytes, so no character is cut in half.
pub fn truncate(name: &str) -> (r: String)
    ensures
        r@ == spec_truncate(name@),
        r@.len() <= 28,
{
    let n = name.unicode_len();
    if n <= TRUNCATE_MAX {
        return owned(name);
    }
    let head = name.substring_char(0, TRUNCATE_MAX - 1);
    let mut r = owned(head);
    push_char(&mut r, '\u{2026}');
    r
}

/// The English ordinal suffix of `n`: `th` for 11, 12 and 13 and for
/// anything not ending in 1, 2 or 3.
pub open spec fn ordinal_suffix(n: nat) -> Seq<char> {
    if n % 100 == 11 || n % 100 == 12 || n % 100 == 13 {
        "th"@
    } else if n % 10 == 1 {
        "st"@
    } else if n % 10 == 2 {
        "nd"@
    } else if n % 10 == 3 {
        "rd"@
    } else {
        "th"@
    }
}

/// `n` as an English ordinal: `1st`, `2nd`, `3rd`, `4th`, `11th`, `21st`.
pub fn ordinal(n: u64) -> (r: String)
    ensures
        r@ == dec(n as nat) + ordinal_suffix(n as nat),
{
    let suffix = if n % 100 == 11 || n % 100 == 12 || n % 100 == 13 {
        "th"
    } else if n % 10 == 1 {
        "st"
    } else if n % 10 == 2 {
        "nd"
    } else if n % 10 == 3 {
        "rd"
    } else {
        "th"
    };
    let mut r = fmt_u64(n);
    r.append(suffix);
    r
}

/// `k` spaces.
pub open spec fn spaces(k: nat) -> Seq<char> {
    Seq::new(k, |i: int| ' ')
}

fn push_spaces(s: &mut String, k: usize)
    ensures
        final(s)@ == old(s)@ + spaces(k as nat),
{
    let mut i: usize = 0;
    while i < k
        invariant
            i <= k,
            s@ == old(s)@ + spaces(i as nat),
        decreases k - i,
    {
        push_char(s, ' ');
        i += 1;
        assert(s@ =~= old(s)@ + spaces(i as nat));
    }
}

/// `s` right-aligned in `width` characters, as `{:>width}` pads it.
pub open spec fn spec_pad_left(s: Seq<char>, width: nat) -> Seq<char> {
    if s.len() >= width {
        s
    } else {
        spaces((width - s.len()) as nat) + s
    }
}

/// `s` left-aligned in `width` characters, as `{:<width}` pads it.
pub open spec fn spec_pad_right(s: Seq<char>, width: nat) -> Seq<char> {
    if s.len() >= width {
        s
    } else {
        s + spaces((width - s.len()) as nat)
    }
}

/// Right-aligns `s` in `width` characters.
pub fn pad_left(s: &str, width: usize) -> (r: String)
    ensures
        r@ == spec_pad_left(s@, width as nat),
{
    let n = s.unicode_len();
    let mut r = String::new();
    if n < width {
        push_spaces(&mut r, width - n);
    }
    r.append(s);
    r
}

/// Left-aligns `s` in `width` characters.
pub fn pad_right(s: &str, width: usize) -> (r: String)
    ensures
        r@ == spec_pad_right(s@, width as nat),
{
    let n = s.unicode_len();
    let mut r = owned(s);
    if n < width {
        push_spaces(&mut r, width - n);
    }
    r
}

} // verus!
