//! The civil calendar: days and seconds since 1970-01-01 as dates and as
//! ISO texts that compare like the moments they name.

use vstd::prelude::*;
use vstd::string::*;

use crate::text::{chars_of, decimal, digit_char, padded, push_padded, zeros};

verus! {

/// Whether a year of the Gregorian calendar has a 29th of February.
pub open spec fn leap(year: int) -> bool {
    year % 4 == 0 && (year % 100 != 0 || year % 400 == 0)
}

/// How many days a month has.
pub open spec fn month_days(year: int, month: int) -> int {
    if month == 2 {
        if leap(year) {
            29
        } else {
            28
        }
    } else if month == 4 || month == 6 || month == 9 || month == 11 {
        30
    } else {
        31
    }
}

/// How many days of a year lie before a month.
pub open spec fn days_before_month(year: int, month: int) -> int
    decreases month,
{
    if month <= 1 {
        0
    } else {
        days_before_month(year, month - 1) + month_days(year, month - 1)
    }
}

/// How many days lie between 0001-01-01 and the start of a year.
pub open spec fn days_before_year(year: int) -> int {
    365 * (year - 1) + (year - 1) / 4 - (year - 1) / 100 + (year - 1) / 400
}

/// Whether a date exists.
pub open spec fn valid_date(year: int, month: int, day: int) -> bool {
    1 <= month <= 12 && 1 <= day <= month_days(year, month)
}

/// Which day a date is, counted from 1970-01-01.
pub open spec fn day_number(year: int, month: int, day: int) -> int {
    days_before_year(year) + days_before_month(year, month) + day - 1 - days_before_year(1970)
}

#[verifier::spinoff_prover]
proof fn lemma_year_of_era(doe: int, yoe: int)
    requires
        0 <= doe < 146097,
        yoe == (doe - doe / 1460 + doe / 36524 - doe / 146096) / 365,
    ensures
        0 <= yoe <= 399,
        365 * yoe + yoe / 4 - yoe / 100 <= doe,
        doe <= 365 * yoe + yoe / 4 - yoe / 100 + 365,
        doe == 365 * yoe + yoe / 4 - yoe / 100 + 365 ==> yoe % 4 == 3 && (yoe % 100 != 99 || yoe
            == 399),
{
    let century = doe / 36524;
    assert(0 <= century <= 4);
    if century == 0 {
        lemma_year_of_century(doe, 0, yoe);
    } else if century == 1 {
        lemma_year_of_century(doe, 1, yoe);
    } else if century == 2 {
        lemma_year_of_century(doe, 2, yoe);
    } else if century == 3 {
        lemma_year_of_century(doe, 3, yoe);
    } else {
        assert(doe == 146096);
    }
}

/// The same within one century, the leap day of its last year aside.
#[verifier::spinoff_prover]
proof fn lemma_year_of_century(doe: int, century: int, yoe: int)
    requires
        0 <= century <= 3,
        36524 * century <= doe < 36524 * (century + 1),
        yoe == (doe - doe / 1460 + century) / 365,
    ensures
        100 * century <= yoe < 100 * (century + 1),
        365 * yoe + yoe / 4 - century <= doe,
        doe <= 365 * yoe + yoe / 4 - century + 365,
        doe == 365 * yoe + yoe / 4 - century + 365 ==> yoe % 4 == 3 && yoe % 100 != 99,
{
    // Four years of 1461 days each, and the years within them.
    let in_century = doe - 36524 * century;
    let quad = in_century / 1461;
    let day = in_century % 1461;
    let year = if day == 1460 { 3 } else { day / 365 };
    assert(0 <= quad <= 24 && 0 <= day < 1461 && 0 <= year <= 3);
    assert(yoe == 100 * century + 4 * quad + year);
}

/// A year is a day longer when it is a leap year.
pub proof fn law_year_lengths(year: int)
    ensures
        days_before_year(year + 1) - days_before_year(year) == if leap(year) {
            366int
        } else {
            365
        },
{
}

/// A year ends where the next one starts.
proof fn lemma_months_fill_the_year(year: int)
    ensures
        days_before_month(year, 1) == 0,
        days_before_month(year, 2) == 31,
        days_before_month(year, 3) == month_days(year, 2) + 31,
        days_before_month(year, 4) == month_days(year, 2) + 62,
        days_before_month(year, 5) == month_days(year, 2) + 92,
        days_before_month(year, 6) == month_days(year, 2) + 123,
        days_before_month(year, 7) == month_days(year, 2) + 153,
        days_before_month(year, 8) == month_days(year, 2) + 184,
        days_before_month(year, 9) == month_days(year, 2) + 215,
        days_before_month(year, 10) == month_days(year, 2) + 245,
        days_before_month(year, 11) == month_days(year, 2) + 276,
        days_before_month(year, 12) == month_days(year, 2) + 306,
{
    reveal_with_fuel(days_before_month, 13);
}

/// The day before the first of a month is the last of the month before, and
/// the day before a year is the last of December.
pub proof fn law_days_follow_each_other(year: int, month: int, day: int)
    requires
        valid_date(year, month, day),
    ensures
        day < month_days(year, month) ==> day_number(year, month, day + 1) == day_number(
            year,
            month,
            day,
        ) + 1,
        day == month_days(year, month) && month < 12 ==> day_number(year, month + 1, 1)
            == day_number(year, month, day) + 1,
        day == month_days(year, month) && month == 12 ==> day_number(year + 1, 1, 1) == day_number(
            year,
            month,
            day,
        ) + 1,
{
    lemma_months_fill_the_year(year);
    lemma_months_fill_the_year(year + 1);
    law_year_lengths(year);
}

/// The start of a year lies at most this many days before a later year's.
proof fn lemma_years_apart(a: int, b: int)
    requires
        a < b,
    ensures
        days_before_year(a) + if leap(a) { 366int } else { 365 } <= days_before_year(b),
    decreases b - a,
{
    law_year_lengths(b - 1);
    law_year_lengths(a);
    if a < b - 1 {
        lemma_years_apart(a, b - 1);
    }
}

proof fn lemma_day_of_year_bound(year: int, month: int, day: int)
    requires
        valid_date(year, month, day),
    ensures
        0 <= days_before_month(year, month) + day - 1 < if leap(year) { 366int } else { 365 },
{
    lemma_months_fill_the_year(year);
}

/// Two dates on the same day are the same date.
pub proof fn law_dates_are_unique(y1: int, m1: int, d1: int, y2: int, m2: int, d2: int)
    requires
        valid_date(y1, m1, d1),
        valid_date(y2, m2, d2),
        day_number(y1, m1, d1) == day_number(y2, m2, d2),
    ensures
        y1 == y2 && m1 == m2 && d1 == d2,
{
    lemma_day_of_year_bound(y1, m1, d1);
    lemma_day_of_year_bound(y2, m2, d2);
    if y1 < y2 {
        lemma_years_apart(y1, y2);
    } else if y2 < y1 {
        lemma_years_apart(y2, y1);
    }
    lemma_months_fill_the_year(y1);
}

/// The days up to the start of a March-based year, counted from 0000-03-01,
/// add up over the eras of 400 years.
proof fn lemma_eras_add_up(z: int, era: int, doe: int, yoe: int, doy: int)
    requires
        z == 146_097 * era + doe,
        0 <= yoe <= 399,
        doe == 365 * yoe + yoe / 4 - yoe / 100 + doy,
    ensures
        ({
            let y = yoe + era * 400;
            z == 365 * y + y / 4 - y / 100 + y / 400 + doy
        }),
{
    let y = yoe + era * 400;
    assert(y / 4 == yoe / 4 + era * 100);
    assert(y / 100 == yoe / 100 + era * 4);
    assert(y / 400 == era);
}

/// A March-based year holds a 366th day only before a leap year's end.
proof fn lemma_leap_day_comes_last(era: int, yoe: int)
    requires
        0 <= yoe <= 399,
        yoe % 4 == 3,
        yoe % 100 != 99 || yoe == 399,
    ensures
        leap(yoe + era * 400 + 1),
{
}

/// The month and day of a day in a March-based year.
proof fn lemma_month_of_day(y: int, doy: int, mp: int)
    requires
        0 <= doy <= 365,
        doy == 365 ==> leap(y + 1),
        mp == (5 * doy + 2) / 153,
    ensures
        ({
            let day = doy - (153 * mp + 2) / 5 + 1;
            let month = if mp < 10 {
                mp + 3
            } else {
                mp - 9
            };
            let year = if month <= 2 {
                y + 1
            } else {
                y
            };
            &&& 0 <= mp <= 11
            &&& valid_date(year, month, day)
            &&& day_number(year, month, day) == 365 * y + y / 4 - y / 100 + y / 400 + doy - 719_468
        }),
{
    lemma_months_fill_the_year(y);
    lemma_months_fill_the_year(y + 1);
    law_year_lengths(y);
    assert(days_before_year(1970) == 719162);
    assert(days_before_year(y + 1) == 365 * y + y / 4 - y / 100 + y / 400);
    assert(0 <= mp <= 11);
    if mp == 0 {
    } else if mp == 1 {
    } else if mp == 2 {
    } else if mp == 3 {
    } else if mp == 4 {
    } else if mp == 5 {
    } else if mp == 6 {
    } else if mp == 7 {
    } else if mp == 8 {
    } else if mp == 9 {
    } else if mp == 10 {
    } else {
    }
}

/// Days since 1970-01-01 to a (year, month, day) civil date (Howard Hinnant's
/// algorithm: years are counted from March, so the leap day comes last).
pub fn civil_from_days(days: i64) -> (date: (i64, u32, u32))
    requires
        days <= i64::MAX - 719_468,
    ensures
        valid_date(date.0 as int, date.1 as int, date.2 as int),
        day_number(date.0 as int, date.1 as int, date.2 as int) == days,
{
    let shifted: i64 = days + 719_468;
    let (era, day_of_era) = floor_div(shifted, 146_097);
    let year_of_era: i64 = (day_of_era - day_of_era / 1460 + day_of_era / 36_524 - day_of_era
        / 146_096) / 365;
    proof {
        lemma_year_of_era(day_of_era as int, year_of_era as int);
    }
    let year: i64 = year_of_era + era * 400;
    let day_of_year: i64 = day_of_era - (365 * year_of_era + year_of_era / 4 - year_of_era / 100);
    let month_prime: i64 = (5 * day_of_year + 2) / 153;
    proof {
        vstd::arithmetic::div_mod::lemma_fundamental_div_mod(shifted as int, 146_097);
        lemma_eras_add_up(
            shifted as int,
            era as int,
            day_of_era as int,
            year_of_era as int,
            day_of_year as int,
        );
        if day_of_year == 365 {
            lemma_leap_day_comes_last(era as int, year_of_era as int);
        }
        lemma_month_of_day(year as int, day_of_year as int, month_prime as int);
    }
    let day: u32 = (day_of_year - (153 * month_prime + 2) / 5 + 1) as u32;
    let month: u32 = (if month_prime < 10 {
        month_prime + 3
    } else {
        month_prime - 9
    }) as u32;
    (
        if month <= 2 {
            year + 1
        } else {
            year
        },
        month,
        day,
    )
}

/// Quotient and remainder, the remainder never negative.
fn floor_div(a: i64, b: i64) -> (r: (i64, i64))
    requires
        1 < b < 1_000_000,
    ensures
        r.0 == a as int / b as int,
        r.1 == a as int % b as int,
{
    if a >= 0 {
        (a / b, a % b)
    } else {
        // -a - 1 >= 0, and a = -(-a - 1) - 1.
        let m: i64 = -(a + 1);
        let q: i64 = m / b;
        let r: i64 = m % b;
        proof {
            let (ai, bi, qi, ri) = (a as int, b as int, q as int, r as int);
            assert(m == qi * bi + ri) by {
                vstd::arithmetic::div_mod::lemma_fundamental_div_mod(m as int, bi);
                vstd::arithmetic::mul::lemma_mul_is_commutative(bi, qi);
            }
            assert(ai == (-qi - 1) * bi + (bi - 1 - ri)) by (nonlinear_arith)
                requires
                    -(ai + 1) == qi * bi + ri,
            ;
            vstd::arithmetic::div_mod::lemma_fundamental_div_mod_converse(
                ai,
                bi,
                -qi - 1,
                bi - 1 - ri,
            );
        }
        (-q - 1, b - 1 - r)
    }
}

/// A moment as "YYYY-MM-DDTHH:MM:SSZ".
pub open spec fn iso_shape(date: (int, int, int), second_of_day: int) -> Seq<char> {
    padded(date.0, 4) + "-"@ + padded(date.1, 2) + "-"@ + padded(date.2, 2) + "T"@ + padded(
        second_of_day / 3600,
        2,
    ) + ":"@ + padded(second_of_day / 60 % 60, 2) + ":"@ + padded(second_of_day % 60, 2) + "Z"@
}

/// Whether a text is the ISO form of a moment, given in seconds since 1970.
pub open spec fn is_iso(text: Seq<char>, secs: int) -> bool {
    exists|year: int, month: int, day: int|
        valid_date(year, month, day) && #[trigger] day_number(year, month, day) == secs / 86_400
            && text == iso_shape((year, month, day), secs % 86_400)
}

/// Seconds since 1970-01-01 as "YYYY-MM-DDTHH:MM:SSZ".
pub fn epoch_to_iso(secs: i64) -> (text: String)
    ensures
        is_iso(text@, secs as int),
{
    let (days, time) = floor_div(secs, 86_400);
    let (year, month, day) = civil_from_days(days);
    let mut text = String::new();
    push_padded(&mut text, year, 4);
    assert(text@ =~= padded(year as int, 4));
    text.append("-");
    push_padded(&mut text, month as i64, 2);
    text.append("-");
    push_padded(&mut text, day as i64, 2);
    text.append("T");
    push_padded(&mut text, time / 3600, 2);
    text.append(":");
    push_padded(&mut text, (time % 3600) / 60, 2);
    text.append(":");
    push_padded(&mut text, time % 60, 2);
    text.append("Z");
    proof {
        assert((time % 3600) / 60 == time as int / 60 % 60);
        assert(text@ == iso_shape((year as int, month as int, day as int), time as int));
        assert(day_number(year as int, month as int, day as int) == secs as int / 86_400);
    }
    text
}

/// The ISO text of a moment is the only one: the date and so the text are
/// determined by the seconds.
pub proof fn law_iso_is_determined(a: Seq<char>, b: Seq<char>, secs: int)
    requires
        is_iso(a, secs),
        is_iso(b, secs),
    ensures
        a == b,
{
    let (y1, m1, d1) = choose|year: int, month: int, day: int|
        valid_date(year, month, day) && #[trigger] day_number(year, month, day) == secs / 86_400
            && a == iso_shape((year, month, day), secs % 86_400);
    let (y2, m2, d2) = choose|year: int, month: int, day: int|
        valid_date(year, month, day) && #[trigger] day_number(year, month, day) == secs / 86_400
            && b == iso_shape((year, month, day), secs % 86_400);
    law_dates_are_unique(y1, m1, d1, y2, m2, d2);
}

// Comparing moments as texts.

/// Whether a text stands before another in a dictionary, or is the same.
pub open spec fn not_after(a: Seq<char>, b: Seq<char>) -> bool
    decreases a.len(),
{
    if a.len() == 0 {
        true
    } else if b.len() == 0 {
        false
    } else if a[0] != b[0] {
        a[0] < b[0]
    } else {
        not_after(a.drop_first(), b.drop_first())
    }
}

/// Whether a moment, or a day, has come, both given as ISO texts.
pub fn has_come(moment: &str, now: &str) -> (answer: bool)
    ensures
        answer == not_after(moment@, now@),
{
    let a: Vec<char> = chars_of(moment);
    let b: Vec<char> = chars_of(now);
    let mut i: usize = 0;
    assert(moment@.skip(0) =~= moment@);
    assert(now@.skip(0) =~= now@);
    while i < a.len() && i < b.len()
        invariant
            a@ == moment@,
            b@ == now@,
            i <= a@.len(),
            i <= b@.len(),
            not_after(moment@.skip(i as int), now@.skip(i as int)) == not_after(moment@, now@),
        decreases a@.len() - i,
    {
        if a[i] != b[i] {
            return a[i] < b[i];
        }
        assert(moment@.skip(i as int).drop_first() =~= moment@.skip(i + 1));
        assert(now@.skip(i as int).drop_first() =~= now@.skip(i + 1));
        i += 1;
    }
    i == a.len()
}

/// Behind heads of one length, the first difference decides.
proof fn lemma_heads_decide(a: Seq<char>, b: Seq<char>, x: Seq<char>, y: Seq<char>)
    requires
        a.len() == b.len(),
    ensures
        not_after(a + x, b + y) == if a == b {
            not_after(x, y)
        } else {
            not_after(a, b)
        },
    decreases a.len(),
{
    if a.len() == 0 {
        assert(a =~= b);
        assert(a + x =~= x);
        assert(b + y =~= y);
    } else {
        assert((a + x)[0] == a[0]);
        assert((b + y)[0] == b[0]);
        if a[0] == b[0] {
            assert((a + x).drop_first() =~= a.drop_first() + x);
            assert((b + y).drop_first() =~= b.drop_first() + y);
            lemma_heads_decide(a.drop_first(), b.drop_first(), x, y);
            if a != b {
                assert(a.drop_first() != b.drop_first()) by {
                    if a.drop_first() == b.drop_first() {
                        assert forall|i: int| 0 <= i < a.len() implies a[i] == b[i] by {
                            if i > 0 {
                                assert(a[i] == a.drop_first()[i - 1]);
                                assert(b[i] == b.drop_first()[i - 1]);
                            }
                        }
                        assert(a =~= b);
                    }
                }
            }
        }
    }
}

/// Ten to a power.
spec fn ten_to(width: nat) -> nat
    decreases width,
{
    if width == 0 {
        1
    } else {
        10 * ten_to((width - 1) as nat)
    }
}

proof fn lemma_decimal_len(n: nat, width: nat)
    requires
        width > 0,
        n < ten_to(width),
    ensures
        0 < decimal(n).len() <= width,
    decreases width,
{
    if n >= 10 {
        assert(width > 1) by {
            if width == 1 {
                assert(ten_to(0) == 1);
            }
        }
        lemma_decimal_len(n / 10, (width - 1) as nat);
    }
}

/// A number filled up with zeros is the number without its last digit, filled
/// up, and that digit.
proof fn lemma_padded_step(n: nat, width: nat)
    requires
        width > 1,
        n < ten_to(width),
    ensures
        padded(n as int, width) == padded((n / 10) as int, (width - 1) as nat).push(
            digit_char((n % 10) as int),
        ),
        padded(n as int, width).len() == width,
{
    reveal(padded);
    let rest = n / 10;
    lemma_decimal_len(n, width);
    lemma_decimal_len(rest, (width - 1) as nat);
    if n >= 10 {
        assert(padded(n as int, width) =~= padded(rest as int, (width - 1) as nat).push(
            digit_char((n % 10) as int),
        ));
    } else {
        assert(rest == 0);
        assert(decimal(0) =~= seq!['0']);
        assert(padded(0, (width - 1) as nat) =~= zeros((width - 1) as nat));
        assert(padded(n as int, width) =~= zeros((width - 1) as nat).push(digit_char(n as int)));
    }
}

/// Numbers filled up to one width compare like themselves.
proof fn lemma_padded_order(a: nat, b: nat, width: nat)
    requires
        width > 0,
        a < ten_to(width),
        b < ten_to(width),
    ensures
        not_after(padded(a as int, width), padded(b as int, width)) == (a <= b),
        (padded(a as int, width) == padded(b as int, width)) == (a == b),
        padded(a as int, width).len() == width,
        padded(b as int, width).len() == width,
    decreases width,
{
    if width == 1 {
        reveal(padded);
        reveal_with_fuel(not_after, 2);
        assert(ten_to(0) == 1);
        let x = padded(a as int, 1);
        let y = padded(b as int, 1);
        assert(x =~= seq![digit_char(a as int)]);
        assert(y =~= seq![digit_char(b as int)]);
        assert(x[0] == digit_char(a as int));
        assert(y[0] == digit_char(b as int));
        assert(x.drop_first() =~= Seq::empty());
    } else {
        let w = (width - 1) as nat;
        lemma_padded_step(a, width);
        lemma_padded_step(b, width);
        lemma_padded_order(a / 10, b / 10, w);
        let x = padded((a / 10) as int, w);
        let y = padded((b / 10) as int, w);
        let p = seq![digit_char((a % 10) as int)];
        let q = seq![digit_char((b % 10) as int)];
        lemma_heads_decide(x, y, p, q);
        assert(x.push(p[0]) =~= x + p);
        assert(y.push(q[0]) =~= y + q);
        reveal_with_fuel(not_after, 2);
        assert(p.drop_first() =~= Seq::empty());
        assert(not_after(p, q) == (a % 10 <= b % 10));
        if x.push(p[0]) == y.push(q[0]) {
            assert(x =~= x.push(p[0]).drop_last());
            assert(y =~= y.push(q[0]).drop_last());
            assert(x.push(p[0]).last() == p[0]);
            assert(y.push(q[0]).last() == q[0]);
        }
    }
}

/// A later date is a later day.
proof fn lemma_date_order(y1: int, m1: int, d1: int, y2: int, m2: int, d2: int)
    requires
        valid_date(y1, m1, d1),
        valid_date(y2, m2, d2),
        y1 < y2 || (y1 == y2 && (m1 < m2 || (m1 == m2 && d1 < d2))),
    ensures
        day_number(y1, m1, d1) < day_number(y2, m2, d2),
{
    lemma_day_of_year_bound(y1, m1, d1);
    lemma_day_of_year_bound(y2, m2, d2);
    if y1 < y2 {
        lemma_years_apart(y1, y2);
    } else {
        lemma_months_fill_the_year(y1);
    }
}

/// One field of a moment, then the rest: the field decides unless it is the
/// same.
proof fn lemma_field_decides(
    a: nat,
    b: nat,
    width: nat,
    mark: Seq<char>,
    x: Seq<char>,
    y: Seq<char>,
)
    requires
        width > 0,
        a < ten_to(width),
        b < ten_to(width),
    ensures
        not_after(padded(a as int, width) + (mark + x), padded(b as int, width) + (mark + y)) == (a
            < b || (a == b && not_after(x, y))),
{
    lemma_padded_order(a, b, width);
    lemma_heads_decide(padded(a as int, width), padded(b as int, width), mark + x, mark + y);
    lemma_heads_decide(mark, mark, x, y);
}

spec fn clock_shape(hour: int, minute: int, second: int) -> Seq<char> {
    padded(hour, 2) + (":"@ + (padded(minute, 2) + (":"@ + (padded(second, 2) + ("Z"@ + Seq::<
        char,
    >::empty())))))
}

proof fn lemma_clock_order(h1: nat, m1: nat, s1: nat, h2: nat, m2: nat, s2: nat)
    requires
        h1 < 100 && m1 < 100 && s1 < 100,
        h2 < 100 && m2 < 100 && s2 < 100,
    ensures
        not_after(
            clock_shape(h1 as int, m1 as int, s1 as int),
            clock_shape(h2 as int, m2 as int, s2 as int),
        ) == (h1 < h2 || (h1 == h2 && (m1 < m2 || (m1 == m2 && s1 <= s2)))),
{
    assert(ten_to(2) == 100) by {
        reveal_with_fuel(ten_to, 3);
    }
    let e = Seq::<char>::empty();
    let x = padded(s1 as int, 2) + ("Z"@ + e);
    let y = padded(s2 as int, 2) + ("Z"@ + e);
    lemma_field_decides(s1, s2, 2, "Z"@, e, e);
    assert(not_after(e, e));
    lemma_field_decides(m1, m2, 2, ":"@, x, y);
    lemma_field_decides(
        h1,
        h2,
        2,
        ":"@,
        padded(m1 as int, 2) + (":"@ + x),
        padded(m2 as int, 2) + (":"@ + y),
    );
}

/// The seconds of a day as hours, minutes and seconds, in order.
proof fn lemma_clock_fields(s: int, t: int)
    requires
        0 <= s < 86_400,
        0 <= t < 86_400,
    ensures
        0 <= s / 3600 < 24 && 0 <= s / 60 % 60 < 60 && 0 <= s % 60 < 60,
        (s <= t) == (s / 3600 < t / 3600 || (s / 3600 == t / 3600 && (s / 60 % 60 < t / 60 % 60 || (s
            / 60 % 60 == t / 60 % 60 && s % 60 <= t % 60)))),
{
    let (h, m, c) = (s / 3600, s / 60 % 60, s % 60);
    let (i, n, d) = (t / 3600, t / 60 % 60, t % 60);
    assert(s == 3600 * h + 60 * m + c && t == 3600 * i + 60 * n + d);
}

spec fn moment_shape(date: (int, int, int), second_of_day: int) -> Seq<char> {
    padded(date.0, 4) + ("-"@ + (padded(date.1, 2) + ("-"@ + (padded(date.2, 2) + ("T"@
        + clock_shape(second_of_day / 3600, second_of_day / 60 % 60, second_of_day % 60))))))
}

proof fn lemma_moment_order(a: (int, int, int), s: int, b: (int, int, int), t: int)
    requires
        0 <= a.0 <= 9999,
        0 <= b.0 <= 9999,
        valid_date(a.0, a.1, a.2),
        valid_date(b.0, b.1, b.2),
        0 <= s < 86_400,
        0 <= t < 86_400,
    ensures
        not_after(moment_shape(a, s), moment_shape(b, t)) == (a.0 < b.0 || (a.0 == b.0 && (a.1 < b.1
            || (a.1 == b.1 && (a.2 < b.2 || (a.2 == b.2 && s <= t)))))),
{
    assert(ten_to(2) == 100 && ten_to(4) == 10_000) by {
        reveal_with_fuel(ten_to, 5);
    }
    lemma_clock_fields(s, t);
    lemma_clock_fields(t, s);
    lemma_clock_order(
        (s / 3600) as nat,
        (s / 60 % 60) as nat,
        (s % 60) as nat,
        (t / 3600) as nat,
        (t / 60 % 60) as nat,
        (t % 60) as nat,
    );
    let a4 = clock_shape(s / 3600, s / 60 % 60, s % 60);
    let b4 = clock_shape(t / 3600, t / 60 % 60, t % 60);
    let a3 = padded(a.2, 2) + ("T"@ + a4);
    let b3 = padded(b.2, 2) + ("T"@ + b4);
    lemma_field_decides(a.2 as nat, b.2 as nat, 2, "T"@, a4, b4);
    let a2 = padded(a.1, 2) + ("-"@ + a3);
    let b2 = padded(b.1, 2) + ("-"@ + b3);
    lemma_field_decides(a.1 as nat, b.1 as nat, 2, "-"@, a3, b3);
    lemma_field_decides(a.0 as nat, b.0 as nat, 4, "-"@, a2, b2);
}

proof fn lemma_shapes_agree(date: (int, int, int), second_of_day: int)
    ensures
        iso_shape(date, second_of_day) == moment_shape(date, second_of_day),
{
    assert(iso_shape(date, second_of_day) =~= moment_shape(date, second_of_day));
}

/// A date of the years 0 to 9999 is one by its day.
proof fn lemma_year_in_range(year: int, month: int, day: int)
    requires
        valid_date(year, month, day),
        -719_528 <= day_number(year, month, day) < 2_932_897,
    ensures
        0 <= year <= 9999,
{
    lemma_day_of_year_bound(year, month, day);
    if year < 0 {
        lemma_years_apart(year, 0);
    }
    if year > 9999 {
        if year > 10_000 {
            lemma_years_apart(10_000, year);
        }
    }
}

/// ISO texts compare like the moments they name, from the start of the year 0
/// to the end of the year 9999.
pub proof fn law_iso_texts_compare_like_moments(a: Seq<char>, b: Seq<char>, s: int, t: int)
    requires
        is_iso(a, s),
        is_iso(b, t),
        -62_167_219_200 <= s < 253_402_300_800,
        -62_167_219_200 <= t < 253_402_300_800,
    ensures
        not_after(a, b) == (s <= t),
{
    let (y1, m1, d1) = choose|year: int, month: int, day: int|
        valid_date(year, month, day) && #[trigger] day_number(year, month, day) == s / 86_400 && a
            == iso_shape((year, month, day), s % 86_400);
    let (y2, m2, d2) = choose|year: int, month: int, day: int|
        valid_date(year, month, day) && #[trigger] day_number(year, month, day) == t / 86_400 && b
            == iso_shape((year, month, day), t % 86_400);
    lemma_year_in_range(y1, m1, d1);
    lemma_year_in_range(y2, m2, d2);
    lemma_shapes_agree((y1, m1, d1), s % 86_400);
    lemma_shapes_agree((y2, m2, d2), t % 86_400);
    lemma_moment_order((y1, m1, d1), s % 86_400, (y2, m2, d2), t % 86_400);
    if y1 < y2 || (y1 == y2 && (m1 < m2 || (m1 == m2 && d1 < d2))) {
        lemma_date_order(y1, m1, d1, y2, m2, d2);
    } else if !(y1 == y2 && m1 == m2 && d1 == d2) {
        lemma_date_order(y2, m2, d2, y1, m1, d1);
    }
}

/// A decimal digit.
pub open spec fn is_digit(c: char) -> bool {
    '0' <= c && c <= '9'
}

/// Whether a text is written as "YYYY-MM-DDTHH:MM:SSZ", digit for digit.
pub open spec fn has_iso_shape(text: Seq<char>) -> bool {
    &&& text.len() == 20
    &&& forall|i: int|
        0 <= i < 20 ==> if i == 4 || i == 7 {
            #[trigger] text[i] == '-'
        } else if i == 10 {
            text[i] == 'T'
        } else if i == 13 || i == 16 {
            text[i] == ':'
        } else if i == 19 {
            text[i] == 'Z'
        } else {
            is_digit(text[i])
        }
}

proof fn lemma_padded_digits(n: nat, width: nat)
    requires
        width > 0,
        n < ten_to(width),
    ensures
        padded(n as int, width).len() == width,
        forall|i: int| 0 <= i < width ==> is_digit(#[trigger] padded(n as int, width)[i]),
    decreases width,
{
    if width == 1 {
        reveal(padded);
        assert(ten_to(0) == 1);
        assert(padded(n as int, 1) =~= seq![digit_char(n as int)]);
    } else {
        lemma_padded_step(n, width);
        lemma_padded_digits(n / 10, (width - 1) as nat);
    }
}

/// From the start of the year 0 to the end of the year 9999 an ISO text is
/// written as "YYYY-MM-DDTHH:MM:SSZ", in 20 characters.
pub proof fn law_iso_texts_have_one_shape(text: Seq<char>, secs: int)
    requires
        is_iso(text, secs),
        -62_167_219_200 <= secs < 253_402_300_800,
    ensures
        has_iso_shape(text),
{
    let (year, month, day) = choose|year: int, month: int, day: int|
        valid_date(year, month, day) && #[trigger] day_number(year, month, day) == secs / 86_400
            && text == iso_shape((year, month, day), secs % 86_400);
    lemma_year_in_range(year, month, day);
    let second = secs % 86_400;
    assert(ten_to(2) == 100 && ten_to(4) == 10_000) by {
        reveal_with_fuel(ten_to, 5);
    }
    lemma_padded_digits(year as nat, 4);
    lemma_padded_digits(month as nat, 2);
    lemma_padded_digits(day as nat, 2);
    lemma_padded_digits((second / 3600) as nat, 2);
    lemma_padded_digits((second / 60 % 60) as nat, 2);
    lemma_padded_digits((second % 60) as nat, 2);
    reveal_strlit("-");
    reveal_strlit("T");
    reveal_strlit(":");
    reveal_strlit("Z");
    let date = padded(year, 4) + "-"@ + padded(month, 2) + "-"@ + padded(day, 2);
    let clock = padded(second / 3600, 2) + ":"@ + padded(second / 60 % 60, 2) + ":"@ + padded(
        second % 60,
        2,
    );
    assert(date.len() == 10 && clock.len() == 8);
    assert(text =~= date + "T"@ + clock + "Z"@);
    assert forall|i: int| 0 <= i < 10 implies text[i] == #[trigger] date[i] by {}
    assert forall|i: int| 11 <= i < 19 implies #[trigger] text[i] == clock[i - 11] by {}
}

/// Two clock readings before the year 10000 give texts of one shape that
/// compare like the readings: the later one is never before the earlier, and
/// strictly behind it where a second lies between.
pub proof fn law_readings_compare_as_texts(a: u64, b: u64, first: Seq<char>, second: Seq<char>)
    requires
        a <= b < 253_402_300_800,
        is_iso(first, reading_secs(Some(a)) as int),
        is_iso(second, reading_secs(Some(b)) as int),
    ensures
        has_iso_shape(first),
        has_iso_shape(second),
        not_after(first, second),
        a < b ==> !not_after(second, first),
{
    law_iso_texts_have_one_shape(first, a as int);
    law_iso_texts_have_one_shape(second, b as int);
    law_iso_texts_compare_like_moments(first, second, a as int, b as int);
    law_iso_texts_compare_like_moments(second, first, b as int, a as int);
}

/// The wall clock, through `SystemTime::elapsed` on the Unix epoch: whole
/// seconds since 1970-01-01, or nothing when the clock stands before it.
/// Nothing is claimed of the reading, which is the machine's.
#[verifier::external_body]
fn clock_reading() -> (secs: Option<u64>) {
    match std::time::UNIX_EPOCH.elapsed() {
        Ok(elapsed) => Some(elapsed.as_secs()),
        Err(_) => None,
    }
}

/// The seconds a clock reading stands for: a clock before 1970 reads as 1970.
pub open spec fn reading_secs(reading: Option<u64>) -> i64 {
    match reading {
        Some(secs) => secs as i64,
        None => 0,
    }
}

/// A clock reading as an ISO text.
pub fn reading_to_iso(reading: Option<u64>) -> (text: String)
    ensures
        is_iso(text@, reading_secs(reading) as int),
        0 <= reading_secs(reading) < 253_402_300_800 ==> has_iso_shape(text@),
{
    let text: String = match reading {
        Some(secs) => epoch_to_iso(secs as i64),
        None => epoch_to_iso(0),
    };
    proof {
        if 0 <= reading_secs(reading) < 253_402_300_800 {
            law_iso_texts_have_one_shape(text@, reading_secs(reading) as int);
        }
    }
    text
}

/// The current moment as "YYYY-MM-DDTHH:MM:SSZ", comparable lexicographically
/// with the servers' UTC datetime values. Which moment it is, is the clock's.
pub fn now_utc_iso() -> (text: String)
    ensures
        exists|reading: Option<u64>|
            is_iso(text@, #[trigger] reading_secs(reading) as int) && (0 <= reading_secs(reading)
                < 253_402_300_800 ==> has_iso_shape(text@)),
{
    reading_to_iso(clock_reading())
}

} // verus!
