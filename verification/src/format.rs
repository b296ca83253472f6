//! Rendering of a whole number of seconds as a clock reading.
//!
//! A reading is `MM:SS` below one hour and `HH:MM:SS` from one hour on. Each
//! group is written in decimal with at least two digits; only the hours can
//! need more.

use vstd::prelude::*;

verus! {

/// The character that stands for the decimal digit `d`.
pub open spec fn digit_char(d: nat) -> char
    recommends
        d < 10,
{
    seq!['0', '1', '2', '3', '4', '5', '6', '7', '8', '9'][d as int]
}

/// The decimal numeral of `n`, most significant digit first, without padding.
pub open spec fn decimal(n: nat) -> Seq<char>
    decreases n,
{
    if n < 10 {
        seq![digit_char(n)]
    } else {
        decimal(n / 10).push(digit_char(n % 10))
    }
}

/// The decimal numeral of `n`, padded with a leading zero to two digits.
pub open spec fn two_digits(n: nat) -> Seq<char> {
    if n < 10 {
        seq!['0', digit_char(n)]
    } else {
        decimal(n)
    }
}

/// The clock reading of `total_secs` seconds: hours, minutes and seconds
/// separated by colons, the hours left out while they are zero.
pub open spec fn hhmmss(total_secs: nat) -> Seq<char> {
    let h = total_secs / 3600;
    let m = (total_secs % 3600) / 60;
    let s = total_secs % 60;
    if h > 0 {
        two_digits(h) + seq![':'] + two_digits(m) + seq![':'] + two_digits(s)
    } else {
        two_digits(m) + seq![':'] + two_digits(s)
    }
}

/// A numeral of `n` has as many digits as `n` needs, and at least one.
pub proof fn lemma_decimal_len(n: nat)
    ensures
        decimal(n).len() >= 1,
        n < 10 <==> decimal(n).len() == 1,
        10 <= n < 100 <==> decimal(n).len() == 2,
    decreases n,
{
    if n >= 10 {
        lemma_decimal_len(n / 10);
    }
}

/// Below a hundred, a group is its tens digit followed by its units digit.
pub proof fn lemma_two_digits(n: nat)
    requires
        n < 100,
    ensures
        two_digits(n) == seq![digit_char(n / 10), digit_char(n % 10)],
{
    if n >= 10 {
        assert(decimal(n / 10) == seq![digit_char(n / 10)]);
    }
    assert(two_digits(n) =~= seq![digit_char(n / 10), digit_char(n % 10)]);
}

/// Below one hour a reading is the five characters `MM:SS`; from one hour
/// up to a hundred hours it is the eight characters `HH:MM:SS`; from a
/// hundred hours on the hours take more room.
pub proof fn lemma_hhmmss_layout(total_secs: nat)
    ensures
        total_secs < 3600 ==> hhmmss(total_secs) == seq![
            digit_char(total_secs / 60 / 10),
            digit_char(total_secs / 60 % 10),
            ':',
            digit_char(total_secs % 60 / 10),
            digit_char(total_secs % 60 % 10),
        ],
        3600 <= total_secs < 360000 ==> hhmmss(total_secs) == seq![
            digit_char(total_secs / 3600 / 10),
            digit_char(total_secs / 3600 % 10),
            ':',
            digit_char(total_secs % 3600 / 60 / 10),
            digit_char(total_secs % 3600 / 60 % 10),
            ':',
            digit_char(total_secs % 60 / 10),
            digit_char(total_secs % 60 % 10),
        ],
        total_secs >= 360000 ==> hhmmss(total_secs).len() > 8,
{
    let h = total_secs / 3600;
    let m = (total_secs % 3600) / 60;
    let s = total_secs % 60;
    lemma_two_digits(m);
    lemma_two_digits(s);
    if total_secs < 3600 {
        assert(m == total_secs / 60);
        assert(hhmmss(total_secs) =~= seq![
            digit_char(m / 10),
            digit_char(m % 10),
            ':',
            digit_char(s / 10),
            digit_char(s % 10),
        ]);
    } else if total_secs < 360000 {
        lemma_two_digits(h);
        assert(hhmmss(total_secs) =~= seq![
            digit_char(h / 10),
            digit_char(h % 10),
            ':',
            digit_char(m / 10),
            digit_char(m % 10),
            ':',
            digit_char(s / 10),
            digit_char(s % 10),
        ]);
    } else {
        lemma_decimal_len(h);
    }
}

/// The one-character string of the digit `d`.
fn digit_str(d: u64) -> (s: &'static str)
    requires
        d < 10,
    ensures
        s@ == seq![digit_char(d as nat)],
{
    proof {
        reveal_strlit("0");
        reveal_strlit("1");
        reveal_strlit("2");
        reveal_strlit("3");
        reveal_strlit("4");
        reveal_strlit("5");
        reveal_strlit("6");
        reveal_strlit("7");
        reveal_strlit("8");
        reveal_strlit("9");
    }
    let s = if d == 0 {
        "0"
    } else if d == 1 {
        "1"
    } else if d == 2 {
        "2"
    } else if d == 3 {
        "3"
    } else if d == 4 {
        "4"
    } else if d == 5 {
        "5"
    } else if d == 6 {
        "6"
    } else if d == 7 {
        "7"
    } else if d == 8 {
        "8"
    } else {
        "9"
    };
    assert(s@ =~= seq![digit_char(d as nat)]);
    s
}

/// Appends the unpadded decimal numeral of `n` to `out`.
fn push_decimal(out: &mut String, n: u64)
    ensures
        final(out)@ == old(out)@ + decimal(n as nat),
    decreases n,
{
    if n >= 10 {
        push_decimal(out, n / 10);
    }
    out.append(digit_str(n % 10));
    assert(out@ =~= old(out)@ + decimal(n as nat));
}

/// Appends the decimal numeral of `n`, padded to two digits, to `out`.
fn push_two_digits(out: &mut String, n: u64)
    ensures
        final(out)@ == old(out)@ + two_digits(n as nat),
{
    if n < 10 {
        out.append("0");
        proof {
            reveal_strlit("0");
        }
    }
    push_decimal(out, n);
    assert(out@ =~= old(out)@ + two_digits(n as nat));
}

/// Appends the colon that separates two groups of a reading to `out`.
fn push_colon(out: &mut String)
    ensures
        final(out)@ == old(out)@ + seq![':'],
{
    out.append(":");
    proof {
        reveal_strlit(":");
    }
    assert(out@ =~= old(out)@ + seq![':']);
}

/// Formats `total_secs` seconds as a clock reading: `MM:SS` below one
/// hour, `HH:MM:SS` from one hour on.
pub fn fmt_hhmmss(total_secs: u64) -> (text: String)
    ensures
        text@ == hhmmss(total_secs as nat),
{
    let h: u64 = total_secs / 3600;
    let m: u64 = (total_secs % 3600) / 60;
    let s: u64 = total_secs % 60;
    let mut text = String::new();
    if h > 0 {
        push_two_digits(&mut text, h);
        push_colon(&mut text);
    }
    push_two_digits(&mut text, m);
    push_colon(&mut text);
    push_two_digits(&mut text, s);
    assert(text@ =~= hhmmss(total_secs as nat));
    text
}

} // verus!
