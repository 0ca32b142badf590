//! Renderings of an elapsed time as a wall-clock string.
//!
//! `to_string1` renders whole seconds as `HH:MM:SS`; `to_string2` renders
//! milliseconds as `HH:MM:SS:mmm`. Each field is zero-padded (two digits, three
//! for milliseconds); the hours field grows beyond two digits when needed.
//! The counters of the minutes (and, for milliseconds, of the seconds) are
//! 32-bit signed integers, so an elapsed time whose count overflows them is
//! outside what the renderings accept.

use vstd::prelude::*;
use crate::decimal::{append_padded_decimal, decimal_digits, decimal_value, lemma_padded_decimal_round_trip, padded_decimal};

verus! {

/// The largest value of a 32-bit signed counter.
pub open spec fn counter_max() -> int {
    2147483647
}

/// `HH:MM:SS` from the three field values.
pub open spec fn hms_text(hours: nat, minutes: nat, seconds: nat) -> Seq<char> {
    padded_decimal(hours, 2) + seq![':'] + padded_decimal(minutes, 2) + seq![':']
        + padded_decimal(seconds, 2)
}

/// The `HH:MM:SS` rendering of a number of seconds.
pub open spec fn seconds_clock_text(secs: nat) -> Seq<char> {
    hms_text(secs / 3600, (secs % 3600) / 60, secs % 60)
}

/// The `HH:MM:SS:mmm` rendering of a number of milliseconds.
pub open spec fn millis_clock_text(millis: nat) -> Seq<char> {
    hms_text(millis / 3_600_000, (millis % 3_600_000) / 60_000, (millis % 60_000) / 1000)
        + seq![':'] + padded_decimal(millis % 1000, 3)
}

/// The seconds that `to_string1` accepts: the minute counter stays in range.
pub open spec fn seconds_in_range(secs: nat) -> bool {
    secs / 60 <= counter_max()
}

/// The milliseconds that `to_string2` accepts: the second counter stays in range.
pub open spec fn millis_in_range(millis: nat) -> bool {
    millis / 1000 <= counter_max()
}

fn append_colon(out: &mut String)
    ensures
        final(out)@ == old(out)@ + seq![':'],
{
    proof {
        reveal_strlit(":");
    }
    out.append(":");
}

/// Renders three clock fields as `HH:MM:SS`.
fn format_hms(hour: i32, min: i32, sec: i32) -> (s: String)
    requires
        hour >= 0,
        min >= 0,
        sec >= 0,
    ensures
        s@ == hms_text(hour as nat, min as nat, sec as nat),
{
    let mut s = String::new();
    append_padded_decimal(&mut s, hour as u64, 2);
    append_colon(&mut s);
    append_padded_decimal(&mut s, min as u64, 2);
    append_colon(&mut s);
    append_padded_decimal(&mut s, sec as u64, 2);
    s
}

proof fn lemma_split(total: int, unit: int, count: int, rest: int)
    requires
        unit > 0,
        count >= 0,
        0 <= rest < unit,
        count * unit + rest == total,
    ensures
        count == total / unit,
        rest == total % unit,
{
    vstd::arithmetic::div_mod::lemma_fundamental_div_mod_converse(total, unit, count, rest);
}

proof fn lemma_nested(total: int, a: int, b: int)
    requires
        total >= 0,
        a > 0,
        b > 0,
    ensures
        total / a / b == total / (a * b),
        (total / a) % b == (total % (a * b)) / a,
{
    vstd::arithmetic::div_mod::lemma_div_denominator(total, a, b);
    vstd::arithmetic::div_mod::lemma_breakdown(total, a, b);
    vstd::arithmetic::div_mod::lemma_mod_bound(total / a, b);
    vstd::arithmetic::div_mod::lemma_mod_bound(total, a);
    vstd::arithmetic::div_mod::lemma_div_pos_is_pos(total, a);
    vstd::arithmetic::mul::lemma_mul_is_commutative(a, (total / a) % b);
    lemma_split(total % (a * b), a, (total / a) % b, total % a);
}

/// Renders a number of seconds as `HH:MM:SS`, counting minutes and hours by
/// repeated subtraction.
pub fn to_string1(secs: u64) -> (s: String)
    requires
        seconds_in_range(secs as nat),
    ensures
        s@ == seconds_clock_text(secs as nat),
{
    let mut sec: u64 = secs;
    let mut min: i32 = 0;
    let mut hour: i32 = 0;
    while 60 <= sec
        invariant
            0 <= min,
            min as int * 60 + sec == secs,
            secs / 60 <= counter_max(),
        decreases sec,
    {
        assert(min + 1 <= secs / 60) by {
            lemma_split_le(secs as int, 60, min + 1);
        }
        min += 1;
        sec -= 60;
    }
    proof {
        lemma_split(secs as int, 60, min as int, sec as int);
    }
    let ghost minutes = min as int;
    while 60 <= min
        invariant
            0 <= min,
            0 <= hour,
            hour as int * 60 + min == minutes,
            minutes <= counter_max(),
        decreases min,
    {
        assert(hour + 1 <= minutes) by (nonlinear_arith)
            requires
                hour as int * 60 + min == minutes,
                min >= 60,
                hour >= 0;
        hour += 1;
        min -= 60;
    }
    proof {
        lemma_split(minutes, 60, hour as int, min as int);
        lemma_nested(secs as int, 60, 60);
    }
    format_hms(hour, min, sec as i32)
}

proof fn lemma_split_le(total: int, unit: int, count: int)
    requires
        unit > 0,
        count >= 0,
        count * unit <= total,
    ensures
        count <= total / unit,
{
    vstd::arithmetic::div_mod::lemma_div_is_ordered(count * unit, total, unit);
    vstd::arithmetic::div_mod::lemma_div_multiples_vanish(count, unit);
    vstd::arithmetic::mul::lemma_mul_is_commutative(count, unit);
}

/// Renders a number of milliseconds as `HH:MM:SS:mmm`, counting seconds,
/// minutes and hours by repeated subtraction.
pub fn to_string2(millis: u128) -> (s: String)
    requires
        millis_in_range(millis as nat),
    ensures
        s@ == millis_clock_text(millis as nat),
{
    let mut ms: u128 = millis;
    let mut sec: i32 = 0;
    let mut min: i32 = 0;
    let mut hour: i32 = 0;
    while 1000 <= ms
        invariant
            0 <= sec,
            sec as int * 1000 + ms == millis,
            millis / 1000 <= counter_max(),
        decreases ms,
    {
        assert(sec + 1 <= millis / 1000) by {
            lemma_split_le(millis as int, 1000, sec + 1);
        }
        sec += 1;
        ms -= 1000;
    }
    proof {
        lemma_split(millis as int, 1000, sec as int, ms as int);
    }
    let ghost seconds = sec as int;
    while 60 <= sec
        invariant
            0 <= sec,
            0 <= min,
            min as int * 60 + sec == seconds,
            seconds <= counter_max(),
        decreases sec,
    {
        assert(min + 1 <= seconds) by (nonlinear_arith)
            requires
                min as int * 60 + sec == seconds,
                sec >= 60,
                min >= 0;
        min += 1;
        sec -= 60;
    }
    proof {
        lemma_split(seconds, 60, min as int, sec as int);
    }
    let ghost minutes = min as int;
    while 60 <= min
        invariant
            0 <= min,
            0 <= hour,
            hour as int * 60 + min == minutes,
            minutes <= counter_max(),
        decreases min,
    {
        assert(hour + 1 <= minutes) by (nonlinear_arith)
            requires
                hour as int * 60 + min == minutes,
                min >= 60,
                hour >= 0;
        hour += 1;
        min -= 60;
    }
    proof {
        lemma_split(minutes, 60, hour as int, min as int);
        lemma_millis_fields(millis as int);
    }
    let mut s = format_hms(hour, min, sec);
    append_colon(&mut s);
    append_padded_decimal(&mut s, ms as u64, 3);
    s
}

proof fn lemma_millis_fields(millis: int)
    requires
        millis >= 0,
    ensures
        millis / 1000 / 60 / 60 == millis / 3_600_000,
        (millis / 1000 / 60) % 60 == (millis % 3_600_000) / 60_000,
        (millis / 1000) % 60 == (millis % 60_000) / 1000,
{
    lemma_nested(millis, 1000, 60);
    lemma_nested(millis / 1000, 60, 60);
    lemma_nested(millis, 60_000, 60);
    vstd::arithmetic::div_mod::lemma_div_denominator(millis, 1000, 60);
}

/// The millisecond rendering of a duration is its whole-second rendering,
/// a colon, and the leftover milliseconds as three digits; every duration that
/// the millisecond rendering accepts, the second rendering accepts too.
pub proof fn lemma_millis_text_extends_seconds_text(millis: nat)
    ensures
        millis_clock_text(millis) == seconds_clock_text(millis / 1000) + seq![':']
            + padded_decimal(millis % 1000, 3),
        millis_in_range(millis) ==> seconds_in_range(millis / 1000),
{
    lemma_millis_fields(millis as int);
    lemma_nested(millis as int, 1000, 60);
    lemma_nested(millis as int, 1000, 3600);
    lemma_nested((millis / 1000) as int, 60, 60);
}

proof fn lemma_short_padded_len(n: nat, width: nat)
    requires
        (width == 2 && n < 100) || (width == 3 && n < 1000),
    ensures
        padded_decimal(n, width).len() == width,
{
    reveal_with_fuel(decimal_digits, 4);
    if n >= 100 {
        assert(decimal_digits(n).len() == 3) by {
            assert(decimal_digits(n / 10).len() == 2);
        }
    }
}

proof fn lemma_hms_injective(h1: nat, m1: nat, s1: nat, h2: nat, m2: nat, s2: nat)
    requires
        m1 < 60,
        s1 < 60,
        m2 < 60,
        s2 < 60,
        hms_text(h1, m1, s1) == hms_text(h2, m2, s2),
    ensures
        h1 == h2,
        m1 == m2,
        s1 == s2,
{
    lemma_short_padded_len(m1, 2);
    lemma_short_padded_len(s1, 2);
    lemma_short_padded_len(m2, 2);
    lemma_short_padded_len(s2, 2);
    let t = hms_text(h1, m1, s1);
    let ph1 = padded_decimal(h1, 2);
    let ph2 = padded_decimal(h2, 2);
    let l = ph1.len() as int;
    assert(hms_text(h1, m1, s1).len() == ph1.len() + 6);
    assert(hms_text(h2, m2, s2).len() == ph2.len() + 6);
    assert(ph2.len() == l);
    assert(t.subrange(0, l) =~= ph1);
    assert(t.subrange(0, l) =~= ph2);
    assert(t.subrange(l + 1, l + 3) =~= padded_decimal(m1, 2));
    assert(t.subrange(l + 1, l + 3) =~= padded_decimal(m2, 2));
    assert(t.subrange(l + 4, l + 6) =~= padded_decimal(s1, 2));
    assert(t.subrange(l + 4, l + 6) =~= padded_decimal(s2, 2));
    lemma_padded_decimal_round_trip(h1, 2);
    lemma_padded_decimal_round_trip(h2, 2);
    lemma_padded_decimal_round_trip(m1, 2);
    lemma_padded_decimal_round_trip(m2, 2);
    lemma_padded_decimal_round_trip(s1, 2);
    lemma_padded_decimal_round_trip(s2, 2);
}

proof fn lemma_hms_recombine(secs: int)
    requires
        secs >= 0,
    ensures
        secs == (secs / 3600) * 3600 + ((secs % 3600) / 60) * 60 + secs % 60,
        (secs % 3600) / 60 < 60,
        secs % 60 < 60,
{
    vstd::arithmetic::div_mod::lemma_fundamental_div_mod(secs, 3600);
    vstd::arithmetic::div_mod::lemma_fundamental_div_mod(secs % 3600, 60);
    vstd::arithmetic::div_mod::lemma_mod_bound(secs, 3600);
    lemma_nested(secs, 60, 60);
    vstd::arithmetic::div_mod::lemma_mod_mod(secs, 60, 60);
}

/// Distinct numbers of seconds render as distinct `HH:MM:SS` texts: the
/// rendering can be read back to the number of seconds.
pub proof fn lemma_seconds_text_injective(a: nat, b: nat)
    requires
        seconds_clock_text(a) == seconds_clock_text(b),
    ensures
        a == b,
{
    lemma_hms_recombine(a as int);
    lemma_hms_recombine(b as int);
    lemma_hms_injective(a / 3600, (a % 3600) / 60, a % 60, b / 3600, (b % 3600) / 60, b % 60);
}

/// Distinct numbers of milliseconds render as distinct `HH:MM:SS:mmm` texts.
pub proof fn lemma_millis_text_injective(a: nat, b: nat)
    requires
        millis_clock_text(a) == millis_clock_text(b),
    ensures
        a == b,
{
    lemma_millis_text_extends_seconds_text(a);
    lemma_millis_text_extends_seconds_text(b);
    lemma_short_padded_len(a % 1000, 3);
    lemma_short_padded_len(b % 1000, 3);
    let t = millis_clock_text(a);
    let n = t.len() - 4;
    assert(t.subrange(0, n) =~= seconds_clock_text(a / 1000));
    assert(t.subrange(0, n) =~= seconds_clock_text(b / 1000));
    assert(t.subrange(n + 1, n + 4) =~= padded_decimal(a % 1000, 3));
    assert(t.subrange(n + 1, n + 4) =~= padded_decimal(b % 1000, 3));
    lemma_padded_decimal_round_trip(a % 1000, 3);
    lemma_padded_decimal_round_trip(b % 1000, 3);
    lemma_seconds_text_injective(a / 1000, b / 1000);
    vstd::arithmetic::div_mod::lemma_fundamental_div_mod(a as int, 1000);
    vstd::arithmetic::div_mod::lemma_fundamental_div_mod(b as int, 1000);
}

} // verus!
