//! Decimal rendering of integers and of a time of day.

use vstd::prelude::*;

verus! {

/// The character of a decimal digit.
pub open spec fn digit_char(d: int) -> char
    recommends
        0 <= d < 10,
{
    if d == 0 { '0' }
    else if d == 1 { '1' }
    else if d == 2 { '2' }
    else if d == 3 { '3' }
    else if d == 4 { '4' }
    else if d == 5 { '5' }
    else if d == 6 { '6' }
    else if d == 7 { '7' }
    else if d == 8 { '8' }
    else { '9' }
}

/// The decimal digits of `n`, most significant first, without leading zeros
/// (`0` is written as one digit).
pub open spec fn decimal(n: nat) -> Seq<char>
    decreases n,
{
    if n < 10 {
        seq![digit_char(n as int)]
    } else {
        decimal(n / 10).push(digit_char((n % 10) as int))
    }
}

/// The text of a signed integer, as `{}` formats it: a minus sign before the
/// digits of a negative number.
pub open spec fn signed_decimal(n: int) -> Seq<char> {
    if n < 0 {
        seq!['-'] + decimal((-n) as nat)
    } else {
        decimal(n as nat)
    }
}

/// The text of `n` in two digits, with a leading zero below ten.
pub open spec fn two_digits(n: nat) -> Seq<char>
    recommends
        n < 100,
{
    seq![digit_char((n / 10) as int), digit_char((n % 10) as int)]
}

/// The time of day `hh:mm:ss` of an instant given in seconds since the epoch.
pub open spec fn clock_text(secs: nat) -> Seq<char> {
    let day = secs % 86400;
    two_digits(day / 3600) + seq![':'] + two_digits((day % 3600) / 60) + seq![':']
        + two_digits(day % 60)
}

/// The number that a sequence of digit characters denotes.
pub open spec fn digits_value(s: Seq<char>) -> int
    decreases s.len(),
{
    if s.len() == 0 {
        0
    } else {
        digits_value(s.drop_last()) * 10 + (s.last() as int - '0' as int)
    }
}

/// One digit as a string.
pub fn digit_str(d: u64) -> (s: &'static str)
    requires
        d < 10,
    ensures
        s@ == seq![digit_char(d as int)],
{
    proof {
        reveal_strlit("0");
        reveal_strlit("1");
        reveal_strlit("2");
        reveal_strlit("3");
        reveal_strlit("4");
        reveal_strlit("5");
        reveal_strlit("6");
        reveal_strlit("7");
        reveal_strlit("8");
        reveal_strlit("9");
    }
    match d {
        0 => "0",
        1 => "1",
        2 => "2",
        3 => "3",
        4 => "4",
        5 => "5",
        6 => "6",
        7 => "7",
        8 => "8",
        _ => "9",
    }
}

/// Appends the decimal digits of `n` to `out`.
pub fn push_decimal(out: &mut String, n: u64)
    ensures
        final(out)@ == old(out)@ + decimal(n as nat),
    decreases n,
{
    if n >= 10 {
        push_decimal(out, n / 10);
    }
    out.append(digit_str(n % 10));
    proof {
        assert(old(out)@ + decimal(n as nat) =~= old(out)@ + (if n >= 10 {
            decimal((n / 10) as nat)
        } else {
            Seq::<char>::empty()
        }) + seq![digit_char((n % 10) as int)]);
    }
}

/// The decimal text of an unsigned integer.
pub fn u64_text(n: u64) -> (s: String)
    ensures
        s@ == decimal(n as nat),
{
    let mut s = String::new();
    push_decimal(&mut s, n);
    s
}

/// The decimal text of a signed integer.
pub fn i64_text(n: i64) -> (s: String)
    ensures
        s@ == signed_decimal(n as int),
{
    if n < 0 {
        let mut s = String::from_str("-");
        proof {
            reveal_strlit("-");
        }
        let magnitude: u64 = if n == i64::MIN {
            9223372036854775808u64
        } else {
            (-n) as u64
        };
        push_decimal(&mut s, magnitude);
        s
    } else {
        u64_text(n as u64)
    }
}

/// `n` in two digits.
pub fn push_two_digits(out: &mut String, n: u64)
    requires
        n < 100,
    ensures
        final(out)@ == old(out)@ + two_digits(n as nat),
{
    out.append(digit_str(n / 10));
    out.append(digit_str(n % 10));
    proof {
        assert(old(out)@ + two_digits(n as nat) =~= old(out)@ + seq![digit_char((n / 10) as int)]
            + seq![digit_char((n % 10) as int)]);
    }
}

/// The time of day `hh:mm:ss` of an instant in seconds since the epoch.
pub fn clock_string(secs: u64) -> (s: String)
    ensures
        s@ == clock_text(secs as nat),
{
    let day: u64 = secs % 86400;
    let mut s = String::new();
    push_two_digits(&mut s, day / 3600);
    s.append(":");
    push_two_digits(&mut s, (day % 3600) / 60);
    s.append(":");
    push_two_digits(&mut s, day % 60);
    proof {
        reveal_strlit(":");
    }
    s
}

/// A digit character stands for its digit.
pub proof fn lemma_digit_char_value(d: int)
    requires
        0 <= d < 10,
    ensures
        digit_char(d) as int - '0' as int == d,
        '0' <= digit_char(d) <= '9',
{
    assert('0' as int == 48);
    assert('9' as int == 57);
    if d == 0 {} else if d == 1 { assert('1' as int == 49); }
    else if d == 2 { assert('2' as int == 50); }
    else if d == 3 { assert('3' as int == 51); }
    else if d == 4 { assert('4' as int == 52); }
    else if d == 5 { assert('5' as int == 53); }
    else if d == 6 { assert('6' as int == 54); }
    else if d == 7 { assert('7' as int == 55); }
    else if d == 8 { assert('8' as int == 56); }
    else {}
}

/// Every rendered number reads back as itself.
pub proof fn lemma_decimal_value(n: nat)
    ensures
        digits_value(decimal(n)) == n,
        decimal(n).len() >= 1,
    decreases n,
{
    lemma_digit_char_value((n % 10) as int);
    if n >= 10 {
        lemma_decimal_value(n / 10);
        let d = decimal(n);
        assert(d.drop_last() =~= decimal(n / 10));
        assert(d.last() == digit_char((n % 10) as int));
        assert(digits_value(d) == digits_value(d.drop_last()) * 10 + (d.last() as int - '0' as int));
        assert(n == (n / 10) * 10 + n % 10);
    } else {
        let d = decimal(n);
        assert(d.drop_last() =~= Seq::<char>::empty());
        assert(d.last() == digit_char(n as int));
        assert(digits_value(d) == digits_value(d.drop_last()) * 10 + (d.last() as int - '0' as int));
    }
}

/// The clock text always has the shape `hh:mm:ss` with an hour below 24 and
/// minutes and seconds below 60.
pub proof fn lemma_clock_shape(secs: nat)
    ensures
        clock_text(secs).len() == 8,
        clock_text(secs)[2] == ':',
        clock_text(secs)[5] == ':',
        digits_value(clock_text(secs).subrange(0, 2)) == (secs % 86400) / 3600,
        digits_value(clock_text(secs).subrange(3, 5)) == (secs % 3600) / 60,
        digits_value(clock_text(secs).subrange(6, 8)) == secs % 60,
        (secs % 86400) / 3600 < 24,
{
    let day: nat = secs % 86400;
    let t = clock_text(secs);
    assert(t.subrange(0, 2) =~= two_digits(day / 3600));
    assert(t.subrange(3, 5) =~= two_digits((day % 3600) / 60));
    assert(t.subrange(6, 8) =~= two_digits(day % 60));
    assert((day % 3600) == secs % 3600) by (nonlinear_arith)
        requires day == secs % 86400;
    assert(day % 60 == secs % 60) by (nonlinear_arith)
        requires day == secs % 86400;
    lemma_two_digits_value(day / 3600);
    lemma_two_digits_value((day % 3600) / 60);
    lemma_two_digits_value(day % 60);
}

/// Two digits read back as the number below one hundred that they render.
pub proof fn lemma_two_digits_value(n: nat)
    requires
        n < 100,
    ensures
        digits_value(two_digits(n)) == n,
{
    let s = two_digits(n);
    lemma_digit_char_value((n / 10) as int);
    lemma_digit_char_value((n % 10) as int);
    assert(s.drop_last() =~= seq![digit_char((n / 10) as int)]);
    assert(s.drop_last().drop_last() =~= Seq::<char>::empty());
    assert(digits_value(s.drop_last()) == digits_value(s.drop_last().drop_last()) * 10
        + (s.drop_last().last() as int - '0' as int));
    assert(digits_value(s) == digits_value(s.drop_last()) * 10 + (s.last() as int - '0' as int));
    assert(n == (n / 10) * 10 + n % 10);
}

} // verus!
