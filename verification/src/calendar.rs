use vstd::prelude::*;

verus! {

/// Whether `y` is a leap year of the proleptic Gregorian calendar.
pub open spec fn is_leap_year(y: int) -> bool {
    (y % 4 == 0 && y % 100 != 0) || y % 400 == 0
}

/// Number of days of month `m` (1 = January) in year `y`.
pub open spec fn days_in_month(y: int, m: int) -> int {
    if m == 2 {
        if is_leap_year(y) {
            29
        } else {
            28
        }
    } else if m == 4 || m == 6 || m == 9 || m == 11 {
        30
    } else {
        31
    }
}

/// Number of days of year `y` that lie before the first day of month `m`.
pub open spec fn days_before_month(y: int, m: int) -> int
    decreases m,
{
    if m <= 1 {
        0
    } else {
        days_before_month(y, m - 1) + days_in_month(y, m - 1)
    }
}

/// Number of leap years among the years `1 ..= y - 1` (for `y >= 1`).
pub open spec fn leap_years_before(y: int) -> int {
    (y - 1) / 4 - (y - 1) / 100 + (y - 1) / 400
}

/// Number of days from 1970-01-01 to the date `y-m-d`.
pub open spec fn days_from_civil(y: int, m: int, d: int) -> int {
    365 * (y - 1970) + (leap_years_before(y) - leap_years_before(1970)) + days_before_month(y, m) + (
    d - 1)
}

/// Whether `y-m-d` names an existing day of the Gregorian calendar.
pub open spec fn is_valid_date(y: int, m: int, d: int) -> bool {
    1 <= m <= 12 && 1 <= d <= days_in_month(y, m)
}

/// Days from 0000-03-01 to `y`-03-01: the calendar counted in years that start in March.
spec fn march_year_start(y: int) -> int {
    365 * y + y / 4 - y / 100 + y / 400
}

/// Days from March 1 to the first day of the `mp`-th month counted from March (0 = March).
spec fn march_month_offset(mp: int) -> int {
    (153 * mp + 2) / 5
}

/// Length of the `mp`-th month counted from March, in a year whose February has `feb` days.
spec fn march_month_len(mp: int, feb: int) -> int {
    if mp == 11 {
        feb
    } else if mp == 1 || mp == 3 || mp == 6 || mp == 8 {
        30
    } else {
        31
    }
}

spec fn leap_day(y: int) -> int {
    if is_leap_year(y) {
        1
    } else {
        0
    }
}

proof fn lemma_year_step(y: int)
    requires
        y >= 0,
    ensures
        march_year_start(y + 1) == march_year_start(y) + 365 + leap_day(y + 1),
{
}

proof fn lemma_era_shift(era: int, yoe: int)
    requires
        era >= 0,
        0 <= yoe < 400,
    ensures
        march_year_start(400 * era + yoe) == 146097 * era + march_year_start(yoe),
{
}

/// Within one 400-year era, the year-of-era formula recovers the year of every day.
proof fn lemma_year_of_era(y: int, k: int)
    requires
        0 <= y < 400,
        0 <= k < 365 + leap_day(y + 1),
    ensures
        ({
            let doe = march_year_start(y) + k;
            (doe - doe / 1460 + doe / 36524 - doe / 146096) / 365 == y
        }),
{
    let q = y / 4;
    let r = y % 4;
    let c = y / 100;
    let s = q % 25;
    assert(q == 25 * c + s);
    assert(y == 4 * q + r);
    let doe = march_year_start(y) + k;
    assert(march_year_start(y) == 36524 * c + 1461 * s + 365 * r);
    assert(doe == 1460 * q + (24 * c + s + 365 * r + k));
    if k == 365 {
        assert(r == 3);
    }
    assert(doe / 146096 == if doe == 146096 { 1int } else { 0int });
    assert(doe / 36524 == if doe == 146096 { c + 1 } else { c });
    assert(doe / 1460 == if 24 * c + s + 365 * r + k >= 1460 { q + 1 } else { q });
}

/// Finds the March-based year containing day `doe` of an era.
proof fn lemma_locate_year(doe: int, hi: int) -> (y: int)
    requires
        0 < hi <= 400,
        0 <= doe < march_year_start(hi),
    ensures
        0 <= y < hi,
        march_year_start(y) <= doe < march_year_start(y + 1),
    decreases hi,
{
    lemma_year_step(hi - 1);
    if doe >= march_year_start(hi - 1) {
        hi - 1
    } else {
        lemma_locate_year(doe, hi - 1)
    }
}

/// Splitting a day of a March-based year into month and day of month.
proof fn lemma_month_of_year(doy: int, feb: int)
    requires
        feb == 28 || feb == 29,
        0 <= doy < 337 + feb,
    ensures
        ({
            let mp = (5 * doy + 2) / 153;
            let d = doy - march_month_offset(mp) + 1;
            &&& 0 <= mp <= 11
            &&& 1 <= d <= march_month_len(mp, feb)
        }),
{
    let mp = (5 * doy + 2) / 153;
    assert(0 <= mp <= 11);
    assert(153 * mp <= 5 * doy + 2 < 153 * mp + 153);
    if mp == 0 {
    } else if mp == 1 {
    } else if mp == 2 {
    } else if mp == 3 {
    } else if mp == 4 {
    } else if mp == 5 {
    } else if mp == 6 {
    } else if mp == 7 {
    } else if mp == 8 {
    } else if mp == 9 {
    } else if mp == 10 {
    } else {
    }
}

proof fn lemma_days_before_month_table(y: int, m: int)
    requires
        1 <= m <= 12,
    ensures
        days_before_month(y, m) == (if m <= 2 {
            march_month_offset(m + 9) - 306
        } else {
            march_month_offset(m - 3) + 59 + leap_day(y)
        }),
{
    reveal_with_fuel(days_before_month, 12);
}

/// The March-based position of a date agrees with `days_from_civil`.
proof fn lemma_civil_from_march(yy: int, mp: int, d: int)
    requires
        yy >= 0,
        0 <= mp <= 11,
    ensures
        ({
            let m = if mp < 10 { mp + 3 } else { mp - 9 };
            let y = if m <= 2 { yy + 1 } else { yy };
            &&& days_from_civil(y, m, d) == march_year_start(yy) + march_month_offset(mp) + d - 1
                - 719468
            &&& days_in_month(y, m) == march_month_len(mp, 28 + leap_day(yy + 1))
        }),
{
    let m = if mp < 10 { mp + 3 } else { mp - 9 };
    let y = if m <= 2 { yy + 1 } else { yy };
    lemma_days_before_month_table(y, m);
    assert(leap_years_before(1970) == 477);
}

/// The date `(year, month, day)` that lies `days` days after 1970-01-01 (for `days >= 0`);
/// what it is, is stated by `law_civil_from_days`.
pub closed spec fn civil_from_days(days: int) -> (int, int, int) {
    let z = days + 719468;
    let era = z / 146097;
    let doe = z - era * 146097;
    let yoe = (doe - doe / 1460 + doe / 36524 - doe / 146096) / 365;
    let doy = doe - (365 * yoe + yoe / 4 - yoe / 100);
    let mp = (5 * doy + 2) / 153;
    let d = doy - (153 * mp + 2) / 5 + 1;
    let m = if mp < 10 { mp + 3 } else { mp - 9 };
    let y = yoe + era * 400;
    (if m <= 2 { y + 1 } else { y }, m, d)
}

/// The within-era part of the algorithm: year of era, day of year, month and day.
proof fn lemma_within_era(doe: int)
    requires
        0 <= doe < 146097,
    ensures
        ({
            let yoe = (doe - doe / 1460 + doe / 36524 - doe / 146096) / 365;
            let doy = doe - (365 * yoe + yoe / 4 - yoe / 100);
            let mp = (5 * doy + 2) / 153;
            let d = doy - (153 * mp + 2) / 5 + 1;
            &&& 0 <= yoe < 400
            &&& doy == doe - march_year_start(yoe)
            &&& 0 <= mp <= 11
            &&& d == doy - march_month_offset(mp) + 1
            &&& 1 <= d <= march_month_len(mp, 28 + leap_day(yoe + 1))
        }),
{
    let yoe = (doe - doe / 1460 + doe / 36524 - doe / 146096) / 365;
    let yy = lemma_locate_year(doe, 400);
    lemma_year_step(yy);
    lemma_year_of_era(yy, doe - march_year_start(yy));
    assert(yoe == yy);
    let doy = doe - (365 * yoe + yoe / 4 - yoe / 100);
    assert(doy == doe - march_year_start(yoe));
    lemma_month_of_year(doy, 28 + leap_day(yoe + 1));
}

proof fn lemma_leap_day_period(y: int, era: int)
    ensures
        leap_day(y + era * 400) == leap_day(y),
{
    assert((y + era * 400) % 4 == y % 4);
    assert((y + era * 400) % 100 == y % 100);
    assert((y + era * 400) % 400 == y % 400);
}

/// The date of a day count is a valid date, on or after 1970-01-01, that lies exactly that
/// many days after 1970-01-01.
pub proof fn law_civil_from_days(days: int)
    requires
        0 <= days <= u32::MAX,
    ensures
        ({
            let (y, m, d) = civil_from_days(days);
            &&& 1970 <= y <= 12_000_000
            &&& is_valid_date(y, m, d)
            &&& days_from_civil(y, m, d) == days
        }),
{
    let z = days + 719468;
    let era = z / 146097;
    let doe = z - era * 146097;
    assert(0 <= era <= 29402);
    assert(0 <= doe < 146097);
    lemma_within_era(doe);
    let yoe = (doe - doe / 1460 + doe / 36524 - doe / 146096) / 365;
    let doy = doe - (365 * yoe + yoe / 4 - yoe / 100);
    let mp = (5 * doy + 2) / 153;
    let d = doy - (153 * mp + 2) / 5 + 1;
    lemma_era_shift(era, yoe);
    lemma_leap_day_period(yoe + 1, era);
    lemma_civil_from_march(yoe + era * 400, mp, d);
    assert(march_year_start(yoe + era * 400) + march_month_offset(mp) + d - 1 == z);
}

/// Converts a count of days since 1970-01-01 into the Gregorian date `(year, month, day)`.
pub fn days_to_ymd(days: u32) -> (r: (u32, u32, u32))
    ensures
        r.0 >= 1970,
        is_valid_date(r.0 as int, r.1 as int, r.2 as int),
        days_from_civil(r.0 as int, r.1 as int, r.2 as int) == days as int,
        (r.0 as int, r.1 as int, r.2 as int) == civil_from_days(days as int),
{
    proof {
        law_civil_from_days(days as int);
    }
    let ghost spec_result = civil_from_days(days as int);
    let d: i64 = days as i64 + 719468;
    let era: i64 = (if d >= 0 { d } else { d - 146096 }) / 146097;
    let doe: i64 = d - era * 146097;
    assert(0 <= doe < 146097);
    let yoe: i64 = (doe - doe / 1460 + doe / 36524 - doe / 146096) / 365;
    assert(0 <= yoe < 400);
    let y: u32 = (yoe + era * 400) as u32;
    let doy: i64 = doe - (365 * yoe + yoe / 4 - yoe / 100);
    assert(0 <= doy <= 365);
    let mp: i64 = (5 * doy + 2) / 153;
    let dd: u32 = (doy - (153 * mp + 2) / 5 + 1) as u32;
    let m: u32 = (if mp < 10 { mp + 3 } else { mp - 9 }) as u32;
    let y: u32 = if m <= 2 { y + 1 } else { y };
    assert((y as int, m as int, dd as int) == spec_result);
    (y, m, dd)
}

/// A day of a March-based year lies in the month the offset formula gives back.
proof fn lemma_month_roundtrip(mp: int, d: int, feb: int)
    requires
        feb == 28 || feb == 29,
        0 <= mp <= 11,
        1 <= d <= march_month_len(mp, feb),
    ensures
        (5 * (march_month_offset(mp) + d - 1) + 2) / 153 == mp,
        march_month_offset(mp) + d - 1 < 337 + feb,
{
    if mp == 0 {
    } else if mp == 1 {
    } else if mp == 2 {
    } else if mp == 3 {
    } else if mp == 4 {
    } else if mp == 5 {
    } else if mp == 6 {
    } else if mp == 7 {
    } else if mp == 8 {
    } else if mp == 9 {
    } else if mp == 10 {
    } else {
    }
}

/// Counting the days of a date on or after 1970-01-01 and turning the count back into a
/// date gives the date again; so no two valid dates share a day count.
pub proof fn law_days_from_civil_inverts(y: int, m: int, d: int)
    requires
        1970 <= y,
        is_valid_date(y, m, d),
        days_from_civil(y, m, d) <= u32::MAX,
    ensures
        civil_from_days(days_from_civil(y, m, d)) == (y, m, d),
{
    let yy = if m <= 2 { y - 1 } else { y };
    let mp = if m >= 3 { m - 3 } else { m + 9 };
    lemma_civil_from_march(yy, mp, d);
    let feb = 28 + leap_day(yy + 1);
    lemma_month_roundtrip(mp, d, feb);
    let k = march_month_offset(mp) + d - 1;
    let e = yy / 400;
    let yoe = yy % 400;
    lemma_era_shift(e, yoe);
    lemma_leap_day_period(yoe + 1, e);
    lemma_year_step(yoe);
    assert(march_year_start(yoe + 1) <= march_year_start(400)) by {
        lemma_year_start_monotone(yoe + 1, 400);
    }
    let z = days_from_civil(y, m, d) + 719468;
    assert(z == 146097 * e + march_year_start(yoe) + k);
    assert(z / 146097 == e);
    lemma_year_of_era(yoe, k);
}

proof fn lemma_year_start_monotone(a: int, b: int)
    requires
        0 <= a <= b,
    ensures
        march_year_start(a) <= march_year_start(b),
    decreases b - a,
{
    if a < b {
        lemma_year_step(a);
        lemma_year_start_monotone(a + 1, b);
    }
}

/// Days after 1970-01-01 that map to the same date are the same day.
pub proof fn law_days_to_ymd_injective(a: int, b: int)
    requires
        0 <= a <= u32::MAX,
        0 <= b <= u32::MAX,
        civil_from_days(a) == civil_from_days(b),
    ensures
        a == b,
{
    law_civil_from_days(a);
    law_civil_from_days(b);
}

/// The character of the decimal digit `d`.
pub open spec fn digit_char(d: int) -> char {
    (48 + d) as char
}

/// The decimal digits of `n`, most significant first, without leading zeros.
pub open spec fn decimal_digits(n: nat) -> Seq<char>
    decreases n,
{
    if n < 10 {
        seq![digit_char(n as int)]
    } else {
        decimal_digits(n / 10).push(digit_char((n % 10) as int))
    }
}

/// `n` in decimal, padded with leading zeros to at least `width` characters.
#[verifier::opaque]
pub open spec fn zero_padded(n: nat, width: nat) -> Seq<char> {
    if decimal_digits(n).len() >= width {
        decimal_digits(n)
    } else {
        Seq::new((width - decimal_digits(n).len()) as nat, |i: int| '0') + decimal_digits(n)
    }
}

/// The UTC time `secs` seconds and `nanos` nanoseconds after the Unix epoch, written as
/// `YYYY-MM-DDTHH:MM:SS.NNNNNNNNNZ` (the day count taken modulo 2^32).
pub open spec fn timestamp_text(secs: u64, nanos: u32) -> Seq<char> {
    let rest = secs % 86400;
    let date = civil_from_days(((secs / 86400) as u32) as int);
    zero_padded(date.0 as nat, 4) + seq!['-'] + zero_padded(date.1 as nat, 2) + seq!['-']
        + zero_padded(date.2 as nat, 2) + seq!['T'] + zero_padded((rest / 3600) as nat, 2) + seq![
        ':',
    ] + zero_padded(((rest % 3600) / 60) as nat, 2) + seq![':'] + zero_padded((rest % 60) as nat, 2)
        + seq!['.'] + zero_padded(nanos as nat, 9) + seq!['Z']
}

fn decimal_chars(n: u64) -> (r: Vec<char>)
    ensures
        r@ == decimal_digits(n as nat),
    decreases n,
{
    if n < 10 {
        let mut r: Vec<char> = Vec::new();
        r.push(((n as u8) + 48) as char);
        assert(r@ =~= seq![digit_char(n as int)]);
        r
    } else {
        let mut r = decimal_chars(n / 10);
        r.push((((n % 10) as u8) + 48) as char);
        r
    }
}

fn push_zero_padded(out: &mut Vec<char>, n: u64, width: usize)
    ensures
        final(out)@ == old(out)@ + zero_padded(n as nat, width as nat),
{
    let digits = decimal_chars(n);
    let ghost before = out@;
    let mut k: usize = digits.len();
    while k < width
        invariant
            digits.len() <= k <= width || (k == digits.len() && k >= width),
            out@ == before + Seq::new((k - digits.len()) as nat, |i: int| '0'),
        decreases width - k,
    {
        out.push('0');
        assert(out@ =~= before + Seq::new((k + 1 - digits.len()) as nat, |i: int| '0'));
        k = k + 1;
    }
    let ghost padded = out@;
    let mut j: usize = 0;
    while j < digits.len()
        invariant
            j <= digits.len(),
            out@ == padded + digits@.take(j as int),
        decreases digits.len() - j,
    {
        out.push(digits[j]);
        assert(out@ =~= padded + digits@.take(j + 1));
        j = j + 1;
    }
    assert(digits@.take(digits.len() as int) =~= digits@);
    reveal(zero_padded);
    if digits.len() >= width {
        assert(Seq::new((k - digits.len()) as nat, |i: int| '0') =~= Seq::<char>::empty());
    }
    assert(out@ =~= old(out)@ + zero_padded(n as nat, width as nat));
}

/// Writes the UTC time `secs` seconds and `nanos` nanoseconds after the Unix epoch as
/// `YYYY-MM-DDTHH:MM:SS.NNNNNNNNNZ`.
pub fn utc_timestamp(secs: u64, nanos: u32) -> (r: Vec<char>)
    ensures
        r@ == timestamp_text(secs, nanos),
{
    let day = secs / 86400;
    let rest = secs % 86400;
    let hour = rest / 3600;
    let rest2 = rest % 3600;
    let min = rest2 / 60;
    let sec = rest2 % 60;
    let (y, m, d) = days_to_ymd(day as u32);
    let ghost date = civil_from_days(((secs / 86400) as u32) as int);
    assert(y as u64 as nat == date.0 as nat && m as u64 as nat == date.1 as nat && d as u64 as nat
        == date.2 as nat);
    let mut out: Vec<char> = Vec::new();
    push_zero_padded(&mut out, y as u64, 4);
    out.push('-');
    push_zero_padded(&mut out, m as u64, 2);
    out.push('-');
    push_zero_padded(&mut out, d as u64, 2);
    out.push('T');
    push_zero_padded(&mut out, hour, 2);
    out.push(':');
    push_zero_padded(&mut out, min, 2);
    out.push(':');
    push_zero_padded(&mut out, sec, 2);
    out.push('.');
    push_zero_padded(&mut out, nanos as u64, 9);
    out.push('Z');
    assert(out@ =~= timestamp_text(secs, nanos));
    out
}

} // verus!
