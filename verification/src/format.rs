//! Pure formatting of seconds as "MM:SS" and of the run/phase flags as a
//! status line.

use vstd::prelude::*;
use vstd::string::StringExecFns;

verus! {

/// The character for a single decimal digit.
pub open spec fn digit_char(d: nat) -> char {
    if d == 0 {
        '0'
    } else if d == 1 {
        '1'
    } else if d == 2 {
        '2'
    } else if d == 3 {
        '3'
    } else if d == 4 {
        '4'
    } else if d == 5 {
        '5'
    } else if d == 6 {
        '6'
    } else if d == 7 {
        '7'
    } else if d == 8 {
        '8'
    } else {
        '9'
    }
}

/// The decimal digits of `n`, most significant first, with no leading zero
/// (a single '0' for zero itself).
pub open spec fn dec_digits(n: nat) -> Seq<char>
    decreases n,
{
    if n < 10 {
        seq![digit_char(n)]
    } else {
        dec_digits(n / 10).push(digit_char(n % 10))
    }
}

/// The decimal digits of `n`, padded with a leading '0' to at least width two.
pub open spec fn padded2(n: nat) -> Seq<char> {
    if n < 10 {
        seq!['0', digit_char(n)]
    } else {
        dec_digits(n)
    }
}

/// What `format_time` returns: minutes and seconds, each zero-padded to
/// width two, separated by ':'.
pub open spec fn spec_format_time(t: nat) -> Seq<char> {
    padded2(t / 60) + seq![':'] + padded2(t % 60)
}

/// Maps a digit to its one-character string.
fn digit_str(d: usize) -> (r: &'static str)
    requires
        d < 10,
    ensures
        r@ =~= seq![digit_char(d as nat)],
{
    proof {
        reveal_strlit("0");
        reveal_strlit("1");
        reveal_strlit("2");
        reveal_strlit("3");
        reveal_strlit("4");
        reveal_strlit("5");
        reveal_strlit("6");
        reveal_strlit("7");
        reveal_strlit("8");
        reveal_strlit("9");
    }
    match d {
        0 => "0",
        1 => "1",
        2 => "2",
        3 => "3",
        4 => "4",
        5 => "5",
        6 => "6",
        7 => "7",
        8 => "8",
        _ => "9",
    }
}

/// Appends the decimal digits of `n` to `out`, most significant first.
fn append_decimal(out: &mut String, n: usize)
    ensures
        final(out)@ == old(out)@ + dec_digits(n as nat),
    decreases n,
{
    if n < 10 {
        out.append(digit_str(n));
    } else {
        append_decimal(out, n / 10);
        out.append(digit_str(n % 10));
        proof {
            assert(out@ =~= old(out)@ + dec_digits(n as nat));
        }
    }
}

/// Appends the decimal digits of `n` to `out`, zero-padded to width two.
fn append_padded2(out: &mut String, n: usize)
    ensures
        final(out)@ == old(out)@ + padded2(n as nat),
{
    if n < 10 {
        proof {
            reveal_strlit("0");
        }
        out.append("0");
        out.append(digit_str(n));
        proof {
            assert(out@ =~= old(out)@ + padded2(n as nat));
        }
    } else {
        append_decimal(out, n);
    }
}

/// Renders `time` seconds as "MM:SS": minutes first, then seconds, each
/// zero-padded to width two (minutes take more than two characters from
/// 100 minutes upward).
pub fn format_time(time: usize) -> (r: String)
    ensures
        r@ == spec_format_time(time as nat),
{
    let mut out = String::new();
    append_padded2(&mut out, time / 60);
    proof {
        reveal_strlit(":");
    }
    out.append(":");
    append_padded2(&mut out, time % 60);
    proof {
        assert(out@ =~= spec_format_time(time as nat));
    }
    out
}

/// Below 100 minutes — that is, for any `t` under 6000 seconds — the
/// formatted time is exactly five characters in the shape "DD:DD": two
/// decimal digits, a colon, and two decimal digits.
pub proof fn lemma_format_time_shape(t: nat)
    requires
        t < 6000,
    ensures
        spec_format_time(t).len() == 5,
        spec_format_time(t)[0] == digit_char(t / 60 / 10),
        spec_format_time(t)[1] == digit_char(t / 60 % 10),
        spec_format_time(t)[2] == ':',
        spec_format_time(t)[3] == digit_char(t % 60 / 10),
        spec_format_time(t)[4] == digit_char(t % 60 % 10),
{
    let minutes: nat = t / 60;
    let seconds: nat = t % 60;
    assert(minutes < 100);
    assert(seconds < 60);
    lemma_padded2_two_digits(minutes);
    lemma_padded2_two_digits(seconds);
    assert(spec_format_time(t)[0] == padded2(minutes)[0]);
    assert(spec_format_time(t)[1] == padded2(minutes)[1]);
    assert(spec_format_time(t)[3] == padded2(seconds)[0]);
    assert(spec_format_time(t)[4] == padded2(seconds)[1]);
}

/// Below 100, the zero-padded rendering is exactly the tens digit followed
/// by the ones digit.
pub proof fn lemma_padded2_two_digits(n: nat)
    requires
        n < 100,
    ensures
        padded2(n).len() == 2,
        padded2(n)[0] == digit_char(n / 10),
        padded2(n)[1] == digit_char(n % 10),
{
    if n < 10 {
        assert(n / 10 == 0);
        assert(n % 10 == n);
    } else {
        assert(dec_digits(n) == dec_digits(n / 10).push(digit_char(n % 10)));
        assert(n / 10 < 10);
        assert(dec_digits(n / 10) == seq![digit_char(n / 10)]);
    }
}

/// What `format_status` returns for each combination of the two flags.
pub open spec fn spec_format_status(on_break: bool, running: bool) -> Seq<char> {
    if !running {
        "Timer is paused"@
    } else if on_break {
        "On Break!"@
    } else {
        "Working!"@
    }
}

/// Renders the phase and run flags as a human-readable status: paused takes
/// precedence, then the break phase, then work.
pub fn format_status(on_break: bool, running: bool) -> (r: String)
    ensures
        r@ == spec_format_status(on_break, running),
{
    if !running {
        String::from_str("Timer is paused")
    } else if on_break {
        String::from_str("On Break!")
    } else {
        String::from_str("Working!")
    }
}

} // verus!
