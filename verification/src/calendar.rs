//! Calendar dates as day numbers.
//!
//! A date is the number of days since 31 December of the year 1 BCE in the
//! proleptic Gregorian calendar, so that 1 January of the year 1 is day 1.
//! The conversion between day numbers and year, month and day is left to
//! `chrono`; everything else in this crate works on day numbers alone.

use vstd::prelude::*;

verus! {

/// Year, month (1 to 12) and day of month (1 to 31) that `chrono` gives for a
/// day number, or `None` where the day lies outside the dates it represents.
pub uninterp spec fn civil_of_day(day: int) -> Option<(int, int, int)>;

/// The day number that `chrono` gives for a year, month and day of month, or
/// `None` where they name no date that it represents.
pub uninterp spec fn day_of_civil(year: int, month: int, day: int) -> Option<int>;

/// Whether a triple is the year, month and day of `civil_of_day(day)`.
pub open spec fn is_civil_of(day: int, r: Option<(i32, u32, u32)>) -> bool {
    match r {
        Some(t) => civil_of_day(day) == Some((t.0 as int, t.1 as int, t.2 as int)) && 1 <= t.1
            <= 12 && 1 <= t.2 <= 31,
        None => civil_of_day(day) is None,
    }
}

/// Whether a day number is `day_of_civil` of the three arguments.
pub open spec fn is_day_of(year: int, month: int, day: int, r: Option<i32>) -> bool {
    match r {
        Some(n) => day_of_civil(year, month, day) == Some(n as int),
        None => day_of_civil(year, month, day) is None,
    }
}

/// Calls `chrono::NaiveDate::from_num_days_from_ce_opt` and reads the date's
/// `year`, `month` and `day`. Trusted: the result is what `civil_of_day`
/// names, and, as chrono documents, the month lies in 1..=12 and the day of
/// month in 1..=31.
#[verifier::external_body]
pub(crate) fn civil_from_day(day: i32) -> (r: Option<(i32, u32, u32)>)
    ensures
        match r {
            Some(t) => civil_of_day(day as int) == Some((t.0 as int, t.1 as int, t.2 as int)) && 1
                <= t.1 <= 12 && 1 <= t.2 <= 31,
            None => civil_of_day(day as int) is None,
        },
{
    match chrono::NaiveDate::from_num_days_from_ce_opt(day) {
        Some(date) => Some(
            (
                chrono::Datelike::year(&date),
                chrono::Datelike::month(&date),
                chrono::Datelike::day(&date),
            ),
        ),
        None => None,
    }
}

/// Calls `chrono::NaiveDate::from_ymd_opt` and reads the date's
/// `num_days_from_ce`. Trusted: the result is what `day_of_civil` names.
#[verifier::external_body]
pub(crate) fn day_from_civil(year: i32, month: u32, day: u32) -> (r: Option<i32>)
    ensures
        match r {
            Some(n) => day_of_civil(year as int, month as int, day as int) == Some(n as int),
            None => day_of_civil(year as int, month as int, day as int) is None,
        },
{
    match chrono::NaiveDate::from_ymd_opt(year, month, day) {
        Some(date) => Some(chrono::Datelike::num_days_from_ce(&date)),
        None => None,
    }
}

/// Calls `String::push`. Trusted: the character is appended to the text.
#[verifier::external_body]
pub(crate) fn push_char(s: &mut String, c: char)
    ensures
        final(s)@ == old(s)@.push(c),
{
    s.push(c)
}

/// Year, month and day of month of a day number; `None` for a day outside
/// the calendar's range.
pub fn civil_date(day: i32) -> (r: Option<(i32, u32, u32)>)
    ensures
        is_civil_of(day as int, r),
{
    civil_from_day(day)
}

/// The day number of a calendar date; `None` where year, month and day name
/// no date.
pub fn day_number(year: i32, month: u32, day: u32) -> (r: Option<i32>)
    ensures
        is_day_of(year as int, month as int, day as int, r),
{
    day_from_civil(year, month, day)
}

/// The character of a decimal digit.
pub open spec fn digit_char(d: int) -> char
    recommends
        0 <= d <= 9,
{
    if d == 0 {
        '0'
    } else if d == 1 {
        '1'
    } else if d == 2 {
        '2'
    } else if d == 3 {
        '3'
    } else if d == 4 {
        '4'
    } else if d == 5 {
        '5'
    } else if d == 6 {
        '6'
    } else if d == 7 {
        '7'
    } else if d == 8 {
        '8'
    } else {
        '9'
    }
}

/// The last `width` decimal digits of `n`, most significant first.
pub open spec fn decimal(n: int, width: nat) -> Seq<char>
    recommends
        n >= 0,
    decreases width,
{
    if width == 0 {
        Seq::empty()
    } else {
        decimal(n / 10, (width - 1) as nat).push(digit_char(n % 10))
    }
}

/// The character of a decimal digit.
pub fn digit(d: u32) -> (c: char)
    requires
        d <= 9,
    ensures
        c == digit_char(d as int),
{
    if d == 0 {
        '0'
    } else if d == 1 {
        '1'
    } else if d == 2 {
        '2'
    } else if d == 3 {
        '3'
    } else if d == 4 {
        '4'
    } else if d == 5 {
        '5'
    } else if d == 6 {
        '6'
    } else if d == 7 {
        '7'
    } else if d == 8 {
        '8'
    } else {
        '9'
    }
}

/// Appends the last two decimal digits of `n` to `s`.
pub fn push_two_digits(s: &mut String, n: u32)
    ensures
        final(s)@ == old(s)@ + decimal(n as int, 2),
{
    let tens: u32 = (n / 10) % 10;
    let ones: u32 = n % 10;
    push_char(s, digit(tens));
    push_char(s, digit(ones));
    proof {
        reveal_with_fuel(decimal, 3);
        assert(decimal(n as int, 2) =~= seq![digit_char(tens as int), digit_char(ones as int)]);
        assert(final(s)@ =~= old(s)@ + decimal(n as int, 2));
    }
}

/// Appends the last four decimal digits of `n` to `s`.
pub fn push_four_digits(s: &mut String, n: u32)
    ensures
        final(s)@ == old(s)@ + decimal(n as int, 4),
{
    let hi: u32 = n / 100;
    let lo: u32 = n % 100;
    push_two_digits(s, hi);
    push_two_digits(s, lo);
    proof {
        reveal_with_fuel(decimal, 5);
        assert(decimal(n as int, 4) =~= decimal(hi as int, 2) + decimal(lo as int, 2));
        assert(final(s)@ =~= old(s)@ + decimal(n as int, 4));
    }
}

/// The decimal digits of `n`, without leading zeros.
pub open spec fn number_digits(n: nat) -> Seq<char>
    decreases n,
{
    if n < 10 {
        seq![digit_char(n as int)]
    } else {
        number_digits(n / 10).push(digit_char((n % 10) as int))
    }
}

/// Appends the decimal digits of `n` to `s`.
pub fn push_number(s: &mut String, n: u64)
    ensures
        final(s)@ == old(s)@ + number_digits(n as nat),
    decreases n,
{
    if n >= 10 {
        push_number(s, n / 10);
    }
    push_char(s, digit((n % 10) as u32));
    assert(s@ =~= old(s)@ + number_digits(n as nat));
}

/// The decimal text of a whole number, with a minus sign where it is
/// negative.
pub open spec fn signed_digits(n: int) -> Seq<char> {
    if n < 0 {
        seq!['-'] + number_digits((-n) as nat)
    } else {
        number_digits(n as nat)
    }
}

/// Appends the decimal text of `n` to `s`.
pub fn push_signed(s: &mut String, n: i32)
    ensures
        final(s)@ == old(s)@ + signed_digits(n as int),
{
    if n < 0 {
        push_char(s, '-');
        push_number(s, (-(n as i64)) as u64);
        assert(s@ =~= old(s)@ + signed_digits(n as int));
    } else {
        push_number(s, n as u64);
    }
}

/// A day as `YYYY-MM-DD`, or `????-??-??` where the day has no calendar date
/// with a year from 0 to 9999.
pub open spec fn iso_text(day: int) -> Seq<char> {
    match civil_of_day(day) {
        Some(t) => if 0 <= t.0 <= 9999 {
            decimal(t.0, 4) + seq!['-'] + decimal(t.1, 2) + seq!['-'] + decimal(t.2, 2)
        } else {
            seq!['?', '?', '?', '?', '-', '?', '?', '-', '?', '?']
        },
        None => seq!['?', '?', '?', '?', '-', '?', '?', '-', '?', '?'],
    }
}

/// Appends `count` question marks to `s`.
pub fn push_unknown(s: &mut String, count: usize)
    ensures
        final(s)@ == old(s)@ + Seq::new(count as nat, |i: int| '?'),
{
    let mut k: usize = 0;
    while k < count
        invariant
            k <= count,
            s@ == old(s)@ + Seq::new(k as nat, |i: int| '?'),
        decreases count - k,
    {
        push_char(s, '?');
        k = k + 1;
        assert(s@ =~= old(s)@ + Seq::new(k as nat, |i: int| '?'));
    }
}

/// Appends a day to `s` in the form `YYYY-MM-DD`.
pub fn push_iso_date(s: &mut String, day: i32)
    ensures
        final(s)@ == old(s)@ + iso_text(day as int),
{
    match civil_from_day(day) {
        Some((y, m, d)) => {
            if 0 <= y && y <= 9999 {
                push_four_digits(s, y as u32);
                push_char(s, '-');
                push_two_digits(s, m);
                push_char(s, '-');
                push_two_digits(s, d);
                assert(s@ =~= old(s)@ + iso_text(day as int));
            } else {
                push_unknown(s, 4);
                push_char(s, '-');
                push_unknown(s, 2);
                push_char(s, '-');
                push_unknown(s, 2);
                assert(s@ =~= old(s)@ + iso_text(day as int));
            }
        },
        None => {
            push_unknown(s, 4);
            push_char(s, '-');
            push_unknown(s, 2);
            push_char(s, '-');
            push_unknown(s, 2);
            assert(s@ =~= old(s)@ + iso_text(day as int));
        },
    }
}

} // verus!
