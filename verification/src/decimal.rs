//! Decimal rendering of unsigned integers, zero-padded to a minimum width.

use vstd::prelude::*;

verus! {

/// The ASCII digit for a value below ten.
pub open spec fn digit_char(d: nat) -> char {
    if d == 0 { '0' }
    else if d == 1 { '1' }
    else if d == 2 { '2' }
    else if d == 3 { '3' }
    else if d == 4 { '4' }
    else if d == 5 { '5' }
    else if d == 6 { '6' }
    else if d == 7 { '7' }
    else if d == 8 { '8' }
    else { '9' }
}

/// The value of an ASCII digit character.
pub open spec fn digit_value(c: char) -> int {
    (c as int) - ('0' as int)
}

/// The shortest decimal spelling of `n` (a single `0` for zero).
pub open spec fn decimal_digits(n: nat) -> Seq<char>
    decreases n,
{
    if n < 10 {
        seq![digit_char(n)]
    } else {
        decimal_digits(n / 10).push(digit_char(n % 10))
    }
}

/// `count` copies of the character `0`.
pub open spec fn zeros(count: nat) -> Seq<char> {
    Seq::new(count, |_i: int| '0')
}

/// The decimal spelling of `n`, with leading zeros up to `width` characters,
/// as Rust's `{:0width$}` writes an unsigned integer.
pub open spec fn padded_decimal(n: nat, width: nat) -> Seq<char> {
    let d = decimal_digits(n);
    if d.len() < width {
        zeros((width - d.len()) as nat) + d
    } else {
        d
    }
}

/// The number that a string of ASCII digits spells in base ten.
pub open spec fn decimal_value(s: Seq<char>) -> int
    decreases s.len(),
{
    if s.len() == 0 {
        0
    } else {
        decimal_value(s.drop_last()) * 10 + digit_value(s.last())
    }
}

/// Every character of `s` is an ASCII digit.
pub open spec fn all_digits(s: Seq<char>) -> bool {
    forall|i: int| 0 <= i < s.len() ==> '0' <= #[trigger] s[i] <= '9'
}

proof fn lemma_digit_char(d: nat)
    requires
        d < 10,
    ensures
        digit_value(digit_char(d)) == d,
        '0' <= digit_char(d) <= '9',
{
}

proof fn lemma_decimal_digits(n: nat)
    ensures
        decimal_value(decimal_digits(n)) == n,
        all_digits(decimal_digits(n)),
        decimal_digits(n).len() >= 1,
    decreases n,
{
    if n < 10 {
        lemma_digit_char(n);
        let d = decimal_digits(n);
        assert(d.drop_last() =~= Seq::<char>::empty());
        assert(decimal_value(d.drop_last()) == 0);
        assert(decimal_value(d) == decimal_value(d.drop_last()) * 10 + digit_value(d.last()));
    } else {
        lemma_decimal_digits(n / 10);
        lemma_digit_char(n % 10);
        let d = decimal_digits(n);
        assert(d.drop_last() =~= decimal_digits(n / 10));
        assert(d.last() == digit_char(n % 10));
        assert(n == (n / 10) * 10 + n % 10);
        assert(decimal_value(d) == decimal_value(d.drop_last()) * 10 + digit_value(d.last()));
        assert(all_digits(d)) by {
            assert forall|i: int| 0 <= i < d.len() implies '0' <= #[trigger] d[i] <= '9' by {
                if i < d.len() - 1 {
                    assert(d[i] == decimal_digits(n / 10)[i]);
                }
            }
        }
    }
}

proof fn lemma_leading_zeros(k: nat, s: Seq<char>)
    ensures
        decimal_value(zeros(k) + s) == decimal_value(s),
    decreases s.len(),
{
    if s.len() == 0 {
        assert(zeros(k) + s =~= zeros(k));
        lemma_zeros_value(k);
    } else {
        assert((zeros(k) + s).drop_last() =~= zeros(k) + s.drop_last());
        lemma_leading_zeros(k, s.drop_last());
    }
}

proof fn lemma_zeros_value(k: nat)
    ensures
        decimal_value(zeros(k)) == 0,
    decreases k,
{
    if k > 0 {
        assert(zeros(k).drop_last() =~= zeros((k - 1) as nat));
        lemma_zeros_value((k - 1) as nat);
    }
}

/// Reading back a padded decimal rendering gives the number that was
/// rendered; the rendering is all digits and at least `width` long.
pub proof fn lemma_padded_decimal_round_trip(n: nat, width: nat)
    ensures
        decimal_value(padded_decimal(n, width)) == n,
        all_digits(padded_decimal(n, width)),
        padded_decimal(n, width).len() >= width,
        padded_decimal(n, width).len() >= 1,
{
    lemma_decimal_digits(n);
    let d = decimal_digits(n);
    if d.len() < width {
        let k = (width - d.len()) as nat;
        lemma_leading_zeros(k, d);
        let p = zeros(k) + d;
        assert forall|i: int| 0 <= i < p.len() implies '0' <= #[trigger] p[i] <= '9' by {
            if i >= k {
                assert(p[i] == d[i - k]);
            }
        }
    }
}

/// The one-character string for a digit.
fn digit_str(d: u64) -> (s: &'static str)
    requires
        d < 10,
    ensures
        s@ == seq![digit_char(d as nat)],
{
    proof {
        reveal_strlit("0");
        reveal_strlit("1");
        reveal_strlit("2");
        reveal_strlit("3");
        reveal_strlit("4");
        reveal_strlit("5");
        reveal_strlit("6");
        reveal_strlit("7");
        reveal_strlit("8");
        reveal_strlit("9");
    }
    if d == 0 {
        "0"
    } else if d == 1 {
        "1"
    } else if d == 2 {
        "2"
    } else if d == 3 {
        "3"
    } else if d == 4 {
        "4"
    } else if d == 5 {
        "5"
    } else if d == 6 {
        "6"
    } else if d == 7 {
        "7"
    } else if d == 8 {
        "8"
    } else {
        "9"
    }
}

/// Appends the shortest decimal spelling of `n`.
fn append_decimal(out: &mut String, n: u64)
    ensures
        final(out)@ == old(out)@ + decimal_digits(n as nat),
    decreases n,
{
    if n >= 10 {
        append_decimal(out, n / 10);
    }
    out.append(digit_str(n % 10));
}

/// The number of characters in the shortest decimal spelling of `n`.
fn digit_count(n: u64) -> (c: u64)
    ensures
        c as nat == decimal_digits(n as nat).len(),
    decreases n,
{
    if n < 10 {
        1
    } else {
        proof {
            lemma_digit_count_bound((n / 10) as nat);
        }
        digit_count(n / 10) + 1
    }
}

proof fn lemma_digit_count_bound(n: nat)
    ensures
        decimal_digits(n).len() <= n + 1,
    decreases n,
{
    if n >= 10 {
        lemma_digit_count_bound(n / 10);
    }
}

/// Appends `n` in decimal, zero-padded on the left to `width` characters.
pub fn append_padded_decimal(out: &mut String, n: u64, width: usize)
    ensures
        final(out)@ == old(out)@ + padded_decimal(n as nat, width as nat),
{
    let len = digit_count(n);
    let wide = width as u64;
    if len < wide {
        let mut i: u64 = 0;
        let ghost start = out@;
        while i < wide - len
            invariant
                len < wide,
                wide == width,
                i <= wide - len,
                out@ == start + zeros(i as nat),
            decreases wide - len - i,
        {
            proof {
                reveal_strlit("0");
            }
            out.append("0");
            assert(start + zeros((i + 1) as nat) =~= start + zeros(i as nat) + seq!['0']);
            i = i + 1;
        }
        append_decimal(out, n);
        assert(out@ =~= start + padded_decimal(n as nat, width as nat));
    } else {
        append_decimal(out, n);
    }
}

} // verus!
