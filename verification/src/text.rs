//! Numbers and durations as text.

use vstd::prelude::*;

verus! {

/// The decimal digit of a number below ten.
pub open spec fn digit(d: nat) -> char {
    (48 + d) as char
}

/// The number in decimal, without leading zeros.
pub open spec fn decimal(n: nat) -> Seq<char>
    decreases n,
{
    if n < 10 {
        seq![digit(n)]
    } else {
        decimal(n / 10).push(digit(n % 10))
    }
}

fn push_digit(text: &mut String, d: u64)
    requires
        d < 10,
    ensures
        final(text)@ == old(text)@.push(digit(d as nat)),
{
    proof {
        reveal_strlit("0");
        reveal_strlit("1");
        reveal_strlit("2");
        reveal_strlit("3");
        reveal_strlit("4");
        reveal_strlit("5");
        reveal_strlit("6");
        reveal_strlit("7");
        reveal_strlit("8");
        reveal_strlit("9");
    }
    let s: &str = match d {
        0 => "0",
        1 => "1",
        2 => "2",
        3 => "3",
        4 => "4",
        5 => "5",
        6 => "6",
        7 => "7",
        8 => "8",
        _ => "9",
    };
    assert(s@ =~= seq![digit(d as nat)]);
    text.append(s);
    assert(text@ =~= old(text)@.push(digit(d as nat)));
}

/// Appends the number in decimal.
pub fn push_decimal(text: &mut String, n: u64)
    ensures
        final(text)@ == old(text)@ + decimal(n as nat),
    decreases n,
{
    if n < 10 {
        push_digit(text, n);
    } else {
        push_decimal(text, n / 10);
        push_digit(text, n % 10);
    }
    assert(text@ =~= old(text)@ + decimal(n as nat));
}

/// A number with its unit, or nothing where the number is zero.
pub open spec fn part(n: nat, unit: Seq<char>) -> Seq<char> {
    if n == 0 {
        Seq::empty()
    } else {
        decimal(n) + unit
    }
}

/// The hours, minutes, seconds and milliseconds of a duration, one behind the
/// other.
pub open spec fn duration_parts(secs: nat, millis: nat) -> Seq<char> {
    part(secs / 3600, "h"@) + part(secs % 3600 / 60, "m"@) + part(secs % 60, "s"@) + part(
        millis,
        "ms"@,
    )
}

/// A duration as text: its parts, or `0s` where all of them are zero.
pub open spec fn human_duration(secs: nat, millis: nat) -> Seq<char> {
    if secs == 0 && millis == 0 {
        "0s"@
    } else {
        duration_parts(secs, millis)
    }
}

fn push_part(text: &mut String, n: u64, unit: &str)
    ensures
        final(text)@ == old(text)@ + part(n as nat, unit@),
{
    if n > 0 {
        push_decimal(text, n);
        text.append(unit);
    }
    assert(text@ =~= old(text)@ + part(n as nat, unit@));
}

/// A duration, given as whole seconds and the milliseconds beyond them, as text.
pub fn format_duration_human(secs: u64, millis: u32) -> (r: String)
    ensures
        r@ == human_duration(secs as nat, millis as nat),
{
    let mut r: String = String::new();
    push_part(&mut r, secs / 3600, "h");
    push_part(&mut r, secs % 3600 / 60, "m");
    push_part(&mut r, secs % 60, "s");
    push_part(&mut r, millis as u64, "ms");
    assert(r@ =~= duration_parts(secs as nat, millis as nat));
    if secs == 0 && millis == 0 {
        "0s".to_owned()
    } else {
        r
    }
}

proof fn decimal_starts_with(n: nat)
    ensures
        decimal(n).len() >= 1,
        n > 0 ==> decimal(n)[0] != '0',
    decreases n,
{
    if n >= 10 {
        decimal_starts_with(n / 10);
    }
}

/// A duration reads `0s` only where it is shorter than a millisecond; no
/// duration reads as the empty text.
pub proof fn only_no_time_reads_as_zero(secs: nat, millis: nat)
    ensures
        human_duration(secs, millis).len() > 0,
        human_duration(secs, millis) == "0s"@ <==> secs == 0 && millis == 0,
{
    reveal_strlit("0s");
    let h = secs / 3600;
    let m = secs % 3600 / 60;
    let s = secs % 60;
    decimal_starts_with(h);
    decimal_starts_with(m);
    decimal_starts_with(s);
    decimal_starts_with(millis);
    if secs != 0 || millis != 0 {
        let text = duration_parts(secs, millis);
        assert(h == 0 && m == 0 && s == 0 ==> secs == 0);
        if h > 0 {
            assert(text[0] == decimal(h)[0]);
        } else if m > 0 {
            assert(text[0] == decimal(m)[0]);
        } else if s > 0 {
            assert(text[0] == decimal(s)[0]);
        } else {
            assert(text[0] == decimal(millis)[0]);
        }
    }
}

/// The decimal text of a number has digits only, no leading zero, and the number
/// as its value.
pub proof fn decimal_reads_as_the_number(n: nat)
    ensures
        forall|i: int| 0 <= i < decimal(n).len() ==> '0' <= #[trigger] decimal(n)[i] <= '9',
        decimal(n).len() >= 1,
        n > 0 ==> decimal(n)[0] != '0',
        n == 0 ==> decimal(n).len() == 1,
        decimal(n).fold_left(0int, |value: int, c: char| value * 10 + (c as int - 48)) == n,
    decreases n,
{
    let f = |value: int, c: char| value * 10 + (c as int - 48);
    decimal_starts_with(n);
    if n < 10 {
        assert(decimal(n).drop_last() =~= Seq::<char>::empty());
        assert(decimal(n).fold_left(0int, f) == f(decimal(n).drop_last().fold_left(0int, f), digit(n)));
    } else {
        decimal_reads_as_the_number(n / 10);
        assert(decimal(n).drop_last() =~= decimal(n / 10));
        assert(decimal(n).fold_left(0int, f) == f(decimal(n / 10).fold_left(0int, f), digit(n % 10)));
    }
}

/// A duration reads as its hours, minutes, seconds and milliseconds, in this
/// order and each with its unit; those that are zero are left out.
pub proof fn a_duration_reads_as_its_parts(h: nat, m: nat, s: nat, millis: nat)
    requires
        m < 60,
        s < 60,
        h > 0 || m > 0 || s > 0 || millis > 0,
    ensures
        human_duration(3600 * h + 60 * m + s, millis) == (if h > 0 {
            decimal(h) + "h"@
        } else {
            Seq::empty()
        }) + (if m > 0 {
            decimal(m) + "m"@
        } else {
            Seq::empty()
        }) + (if s > 0 {
            decimal(s) + "s"@
        } else {
            Seq::empty()
        }) + (if millis > 0 {
            decimal(millis) + "ms"@
        } else {
            Seq::empty()
        }),
{
    let secs = 3600 * h + 60 * m + s;
    assert(secs / 3600 == h);
    assert(secs % 3600 / 60 == m);
    assert(secs % 60 == s);
}

/// A duration in words is its hours, minutes, seconds and milliseconds, those
/// that are not zero.
pub proof fn a_duration_in_words(secs: u64, millis: u32, words: String)
    requires
        call_ensures(format_duration_human, (secs, millis), words),
    ensures
        secs == 0 && millis == 0 <==> words@ == "0s"@,
        secs > 0 || millis > 0 ==> words@ == (if secs >= 3600 {
            decimal((secs / 3600) as nat) + "h"@
        } else {
            Seq::empty()
        }) + (if secs % 3600 >= 60 {
            decimal((secs % 3600 / 60) as nat) + "m"@
        } else {
            Seq::empty()
        }) + (if secs % 60 > 0 {
            decimal((secs % 60) as nat) + "s"@
        } else {
            Seq::empty()
        }) + (if millis > 0 {
            decimal(millis as nat) + "ms"@
        } else {
            Seq::empty()
        }),
{
    only_no_time_reads_as_zero(secs as nat, millis as nat);
}

} // verus!
