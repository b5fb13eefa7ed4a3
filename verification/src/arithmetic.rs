//! The arithmetic of the fixed Hebrew calendar: molad reckoning, the
//! postponements of Rosh Hashana, and the lengths of years and months.
use vstd::prelude::*;

use crate::icu::keviyah_leap;
use crate::month::{month_number, HebrewMonth, YearLengthType};

verus! {

/// Chalakim (parts of an hour) from the beginning of reckoning to the molad tohu.
pub const CHALAKIM_MOLAD_TOHU: i64 = 31524;

/// Chalakim in a mean lunar month (29 days, 12 hours and 793 chalakim).
pub const CHALAKIM_PER_MONTH: i64 = 765433;

/// Chalakim in a day.
pub const CHALAKIM_PER_DAY: i64 = 25920;

/// The smallest Hebrew year whose arithmetic fits the machine integers used
/// here: the elapsed days of the years within these bounds, and their
/// differences, fit an `i32` with room to spare, which the proofs of the
/// arithmetic use. Every date the library builds has a year within
/// -1,040,000 to 1,040,000, well inside.
pub const MIN_HEBREW_YEAR: i32 = -5000000;

/// The largest Hebrew year whose arithmetic fits the machine integers used here.
pub const MAX_HEBREW_YEAR: i32 = 5000000;

/// Division that rounds toward zero, as Rust's `/` does on signed integers.
pub open spec fn tdiv(a: int, b: int) -> int {
    if a >= 0 {
        a / b
    } else {
        -((-a) / b)
    }
}

/// The remainder that goes with `tdiv`, as Rust's `%` on signed integers.
pub open spec fn tmod(a: int, b: int) -> int {
    a - b * tdiv(a, b)
}

/// A year whose arithmetic stays within the machine integers.
pub open spec fn year_in_range(year: int) -> bool {
    MIN_HEBREW_YEAR <= year <= MAX_HEBREW_YEAR
}

/// Whether a year is a leap year: years 3, 6, 8, 11, 14, 17 and 19 of the
/// 19-year cycle (counted with Rust's remainder, so no year below 1 is leap).
pub open spec fn spec_is_leap_year(year: int) -> bool {
    let c = tmod(year - 1, 19) + 1;
    c == 3 || c == 6 || c == 8 || c == 11 || c == 14 || c == 17 || c == 19
}

/// The month's position in the year counted from Tishrei (Tishrei is 1).
pub open spec fn spec_month_of_year(year: int, m: HebrewMonth) -> int {
    if spec_is_leap_year(year) {
        (month_number(m) + 6) % 13 + 1
    } else {
        (month_number(m) + 5) % 12 + 1
    }
}

/// The number of months from the molad tohu to Tishrei of the year.
pub open spec fn months_before_year(year: int) -> int {
    let q = tdiv(year - 1, 19);
    let r = tmod(year - 1, 19);
    235 * q + 12 * r + tdiv(7 * r + 1, 19)
}

/// The number of months from the molad tohu to the start of the given month.
pub open spec fn months_elapsed(year: int, m: HebrewMonth) -> int {
    months_before_year(year) + (spec_month_of_year(year, m) - 1)
}

/// The chalakim from the beginning of reckoning to the molad of the given month.
pub open spec fn spec_chalakim_since_molad_tohu(year: int, m: HebrewMonth) -> int {
    CHALAKIM_MOLAD_TOHU + CHALAKIM_PER_MONTH * months_elapsed(year, m)
}

/// The day of Rosh Hashana before the fourth rule of postponement:
/// the day of the molad of Tishrei, moved one day later by _molad zaken_,
/// _gatarad_ and _betutakpat_.
pub open spec fn rosh_hashana_day_before_adu(year: int) -> int {
    let ch = spec_chalakim_since_molad_tohu(year, HebrewMonth::Tishrei);
    let molad_day = tdiv(ch, CHALAKIM_PER_DAY as int);
    let molad_parts = ch - molad_day * CHALAKIM_PER_DAY;
    if molad_parts >= 19440 || (tmod(molad_day, 7) == 2 && molad_parts >= 9924
        && !spec_is_leap_year(year)) || (tmod(molad_day, 7) == 1 && molad_parts >= 16789
        && spec_is_leap_year(year - 1)) {
        molad_day + 1
    } else {
        molad_day
    }
}

/// The days from the Sunday before the beginning of reckoning to Rosh Hashana
/// of the year, after all rules of postponement (_lo ADU rosh_ included).
pub open spec fn spec_elapsed_days(year: int) -> int {
    let d = rosh_hashana_day_before_adu(year);
    if tmod(d, 7) == 0 || tmod(d, 7) == 3 || tmod(d, 7) == 5 {
        d + 1
    } else {
        d
    }
}

/// The number of days in a year.
pub open spec fn spec_days_in_year(year: int) -> int {
    spec_elapsed_days(year + 1) - spec_elapsed_days(year)
}

/// Cheshvan has 30 days.
pub open spec fn spec_is_cheshvan_long(year: int) -> bool {
    tmod(spec_days_in_year(year), 10) == 5
}

/// Kislev has 29 days.
pub open spec fn spec_is_kislev_short(year: int) -> bool {
    tmod(spec_days_in_year(year), 10) == 3
}

/// The number of days in a month of a year.
pub open spec fn spec_days_in_month(year: int, m: HebrewMonth) -> int {
    match m {
        HebrewMonth::Iyar | HebrewMonth::Tammuz | HebrewMonth::Elul | HebrewMonth::Teves => 29,
        HebrewMonth::Cheshvan => if spec_is_cheshvan_long(year) { 30 } else { 29 },
        HebrewMonth::Kislev => if spec_is_kislev_short(year) { 29 } else { 30 },
        HebrewMonth::Adar => if spec_is_leap_year(year) { 30 } else { 29 },
        HebrewMonth::AdarII => 29,
        _ => 30,
    }
}

/// The year's kviah, from the lengths of Cheshvan and Kislev.
pub open spec fn spec_kviah(year: int) -> YearLengthType {
    if spec_is_cheshvan_long(year) && !spec_is_kislev_short(year) {
        YearLengthType::Shelaimim
    } else if !spec_is_cheshvan_long(year) && spec_is_kislev_short(year) {
        YearLengthType::Chaserim
    } else {
        YearLengthType::Kesidran
    }
}

/// The month after the given one, with its year.
pub open spec fn spec_next_month(year: int, m: HebrewMonth) -> (int, HebrewMonth) {
    match m {
        HebrewMonth::Elul => (year + 1, HebrewMonth::Tishrei),
        HebrewMonth::Adar => if spec_is_leap_year(year) {
            (year, HebrewMonth::AdarII)
        } else {
            (year, HebrewMonth::Nissan)
        },
        HebrewMonth::AdarII => (year, HebrewMonth::Nissan),
        HebrewMonth::Nissan => (year, HebrewMonth::Iyar),
        HebrewMonth::Iyar => (year, HebrewMonth::Sivan),
        HebrewMonth::Sivan => (year, HebrewMonth::Tammuz),
        HebrewMonth::Tammuz => (year, HebrewMonth::Av),
        HebrewMonth::Av => (year, HebrewMonth::Elul),
        HebrewMonth::Tishrei => (year, HebrewMonth::Cheshvan),
        HebrewMonth::Cheshvan => (year, HebrewMonth::Kislev),
        HebrewMonth::Kislev => (year, HebrewMonth::Teves),
        HebrewMonth::Teves => (year, HebrewMonth::Shevat),
        HebrewMonth::Shevat => (year, HebrewMonth::Adar),
    }
}

/// Whether the year has the month (Adar II only in leap years).
pub open spec fn month_in_year(year: int, m: HebrewMonth) -> bool {
    m != HebrewMonth::AdarII || spec_is_leap_year(year)
}

/// Moving `day` days past the start of the given month: the day `day` of
/// that month if it has so many days, else the remaining days counted in the
/// following months.
pub open spec fn spec_add_days(year: int, m: HebrewMonth, day: int) -> (int, HebrewMonth, int)
    decreases day,
{
    let dim = spec_days_in_month(year, m);
    if day <= dim || dim <= 0 {
        (year, m, day)
    } else {
        let (ny, nm) = spec_next_month(year, m);
        spec_add_days(ny, nm, day - dim)
    }
}

/// Whether the year is a Hebrew leap year.
pub fn is_hebrew_leap_year(year: i32) -> (r: bool)
    requires
        year > i32::MIN,
    ensures
        r == spec_is_leap_year(year as int),
{
    let year_in_cycle = ((year - 1) % 19) + 1;
    year_in_cycle == 3 || year_in_cycle == 6 || year_in_cycle == 8 || year_in_cycle == 11
        || year_in_cycle == 14 || year_in_cycle == 17 || year_in_cycle == 19
}

/// The month's position in the year counted from Tishrei (Tishrei is 1).
pub fn hebrew_month_of_year(year: i32, month: HebrewMonth) -> (r: u8)
    requires
        year > i32::MIN,
    ensures
        r == spec_month_of_year(year as int, month),
        1 <= r <= 13,
{
    let is_leap_year = is_hebrew_leap_year(year);
    let n = month.number();
    if is_leap_year {
        (n + 6) % 13 + 1
    } else {
        (n + 5) % 12 + 1
    }
}

/// The month after the given one, with its year.
pub fn next_hebrew_month(year: i32, month: HebrewMonth) -> (r: (i32, HebrewMonth))
    requires
        i32::MIN < year < i32::MAX,
    ensures
        r.0 == spec_next_month(year as int, month).0,
        r.1 == spec_next_month(year as int, month).1,
{
    match month {
        HebrewMonth::Elul => (year + 1, HebrewMonth::Tishrei),
        HebrewMonth::Adar => {
            if is_hebrew_leap_year(year) {
                (year, HebrewMonth::AdarII)
            } else {
                (year, HebrewMonth::Nissan)
            }
        },
        HebrewMonth::AdarII => (year, HebrewMonth::Nissan),
        _ => {
            let n = month.number();
            match HebrewMonth::from_number(n + 1) {
                Some(next) => (year, next),
                None => (year, HebrewMonth::Nissan),
            }
        },
    }
}

/// The chalakim from the beginning of reckoning to the molad of the given month.
pub fn chalakim_since_molad_tohu(year: i32, month: HebrewMonth) -> (r: i64)
    requires
        year_in_range(year as int),
    ensures
        r == spec_chalakim_since_molad_tohu(year as int, month),
        -47400000000000 <= r <= 47400000000000,
{
    let month_of_year = hebrew_month_of_year(year, month);
    let q = (year - 1) / 19;
    let rem = (year - 1) % 19;
    assert(-263159 <= q <= 263158);
    assert(-18 <= rem <= 18);
    let months_elapsed = (235 * q) + (12 * rem) + ((7 * rem + 1) / 19) + (month_of_year as i32 - 1);
    assert(-61900000 <= months_elapsed <= 61900000);
    let r = CHALAKIM_MOLAD_TOHU + (CHALAKIM_PER_MONTH * months_elapsed as i64);
    r
}

/// The days from the Sunday before the beginning of reckoning to Rosh Hashana
/// of the year.
pub fn get_hebrew_elapsed_days(year: i32) -> (r: i32)
    requires
        MIN_HEBREW_YEAR < year <= MAX_HEBREW_YEAR,
    ensures
        r == spec_elapsed_days(year as int),
        -1900000000 <= r <= 1900000000,
{
    let chalakim_since = chalakim_since_molad_tohu(year, HebrewMonth::Tishrei);
    let molad_day = chalakim_since / CHALAKIM_PER_DAY;
    let molad_parts = chalakim_since - molad_day * CHALAKIM_PER_DAY;
    let mut rosh_hashana_day = molad_day;
    if (molad_parts >= 19440) || (((molad_day % 7) == 2) && (molad_parts >= 9924)
        && !is_hebrew_leap_year(year)) || (((molad_day % 7) == 1) && (molad_parts >= 16789)
        && (is_hebrew_leap_year(year - 1))) {
        rosh_hashana_day += 1;
    }
    if ((rosh_hashana_day % 7) == 0) || ((rosh_hashana_day % 7) == 3) || ((rosh_hashana_day % 7)
        == 5) {
        rosh_hashana_day += 1;
    }
    rosh_hashana_day as i32
}

/// The number of days in a Hebrew year.
pub fn days_in_hebrew_year(year: i32) -> (r: i32)
    requires
        MIN_HEBREW_YEAR < year < MAX_HEBREW_YEAR,
    ensures
        r == spec_days_in_year(year as int),
{
    get_hebrew_elapsed_days(year + 1) - get_hebrew_elapsed_days(year)
}

/// Whether Cheshvan has 30 days in the year.
pub fn is_cheshvan_long(year: i32) -> (r: bool)
    requires
        MIN_HEBREW_YEAR < year < MAX_HEBREW_YEAR,
    ensures
        r == spec_is_cheshvan_long(year as int),
{
    days_in_hebrew_year(year) % 10 == 5
}

/// Whether Kislev has 29 days in the year.
pub fn is_kislev_short(year: i32) -> (r: bool)
    requires
        MIN_HEBREW_YEAR < year < MAX_HEBREW_YEAR,
    ensures
        r == spec_is_kislev_short(year as int),
{
    days_in_hebrew_year(year) % 10 == 3
}

/// The number of days in a month of a year.
pub fn days_in_hebrew_month(year: i32, month: HebrewMonth) -> (r: u8)
    requires
        MIN_HEBREW_YEAR < year < MAX_HEBREW_YEAR,
    ensures
        r == spec_days_in_month(year as int, month),
        r == 29 || r == 30,
{
    match month {
        HebrewMonth::Iyar | HebrewMonth::Tammuz | HebrewMonth::Elul | HebrewMonth::Teves => 29,
        HebrewMonth::Cheshvan => {
            if is_cheshvan_long(year) {
                30
            } else {
                29
            }
        },
        HebrewMonth::Kislev => {
            if is_kislev_short(year) {
                29
            } else {
                30
            }
        },
        HebrewMonth::Adar => {
            if is_hebrew_leap_year(year) {
                30
            } else {
                29
            }
        },
        HebrewMonth::AdarII => 29,
        _ => 30,
    }
}

/// The year's kviah: whether Cheshvan and Kislev are both long, both
/// short, or in the regular order.
pub fn cheshvan_kislev_kviah(year: i32) -> (r: YearLengthType)
    requires
        MIN_HEBREW_YEAR < year < MAX_HEBREW_YEAR,
    ensures
        r == spec_kviah(year as int),
        r == YearLengthType::Shelaimim <==> spec_is_cheshvan_long(year as int)
            && !spec_is_kislev_short(year as int),
        r == YearLengthType::Chaserim <==> !spec_is_cheshvan_long(year as int)
            && spec_is_kislev_short(year as int),
        r == YearLengthType::Kesidran <==> spec_is_cheshvan_long(year as int)
            == spec_is_kislev_short(year as int),
{
    let long = is_cheshvan_long(year);
    let short = is_kislev_short(year);
    if long && !short {
        YearLengthType::Shelaimim
    } else if !long && short {
        YearLengthType::Chaserim
    } else {
        YearLengthType::Kesidran
    }
}

/// Adds days to a Hebrew date given by its fields, carrying into the
/// following months and years.
pub fn add_days_to_hebrew_date(year: i32, month: HebrewMonth, day: u8, days_to_add: u8) -> (r:
    Option<(i32, HebrewMonth, u8)>)
    requires
        MIN_HEBREW_YEAR < year < MAX_HEBREW_YEAR - 10,
        day + days_to_add <= u8::MAX,
    ensures
        r matches Some(t) && (t.0 as int, t.1, t.2 as int) == spec_add_days(
            year as int,
            month,
            day + days_to_add,
        ),
{
    let mut current_year = year;
    let mut current_month = month;
    let mut current_day: u8 = day + days_to_add;
    let ghost mut k: int = 0;
    loop
        invariant
            MIN_HEBREW_YEAR < year < MAX_HEBREW_YEAR - 10,
            day + days_to_add <= u8::MAX,
            year <= current_year <= year + k,
            0 <= k,
            29 * k + current_day <= day + days_to_add,
            spec_add_days(current_year as int, current_month, current_day as int) == spec_add_days(
                year as int,
                month,
                day + days_to_add,
            ),
        decreases current_day,
    {
        let days_in_month = days_in_hebrew_month(current_year, current_month);
        if current_day <= days_in_month {
            return Some((current_year, current_month, current_day));
        }
        current_day -= days_in_month;
        let (ny, nm) = next_hebrew_month(current_year, current_month);
        current_year = ny;
        current_month = nm;
        proof {
            k = k + 1;
        }
    }
}

/// A year has twelve months, or thirteen in a leap year: the months
/// reckoned before Tishrei grow by that much from one year to the next.
pub proof fn lemma_months_in_year(year: int)
    requires
        year >= 1,
    ensures
        months_before_year(year + 1) - months_before_year(year) == if spec_is_leap_year(year) {
            13int
        } else {
            12int
        },
{
    let q = (year - 1) / 19;
    let r = (year - 1) % 19;
    assert(year - 1 == 19 * q + r);
    if r == 18 {
        assert(year / 19 == q + 1 && year % 19 == 0);
    } else {
        assert(year / 19 == q && year % 19 == r + 1);
    }
    assert(tdiv(year - 1, 19) == q && tmod(year - 1, 19) == r);
    assert(r == 0 || r == 1 || r == 2 || r == 3 || r == 4 || r == 5 || r == 6 || r == 7 || r == 8
        || r == 9 || r == 10 || r == 11 || r == 12 || r == 13 || r == 14 || r == 15 || r == 16
        || r == 17 || r == 18);
}

/// The molad of each month comes exactly one mean lunar month after the
/// molad of the month before it, across the end of the year too.
pub proof fn lemma_molad_of_next_month(year: int, m: HebrewMonth)
    requires
        year >= 1,
        month_in_year(year, m),
    ensures
        spec_chalakim_since_molad_tohu(spec_next_month(year, m).0, spec_next_month(year, m).1)
            == spec_chalakim_since_molad_tohu(year, m) + CHALAKIM_PER_MONTH,
{
    let (ny, nm) = spec_next_month(year, m);
    if m == HebrewMonth::Elul {
        lemma_months_in_year(year);
        assert(months_elapsed(ny, nm) == months_elapsed(year, m) + 1);
    } else {
        assert(ny == year);
        assert(months_elapsed(ny, nm) == months_elapsed(year, m) + 1);
    }
    assert(CHALAKIM_PER_MONTH * months_elapsed(ny, nm) == CHALAKIM_PER_MONTH * months_elapsed(
        year,
        m,
    ) + CHALAKIM_PER_MONTH) by (nonlinear_arith)
        requires
            months_elapsed(ny, nm) == months_elapsed(year, m) + 1,
    ;
}

/// The leap years repeat every nineteen years.
pub proof fn lemma_leap_years_repeat(year: int)
    requires
        year >= 1,
    ensures
        spec_is_leap_year(year + 19) == spec_is_leap_year(year),
{
    let q = (year - 1) / 19;
    let r = (year - 1) % 19;
    assert(year + 18 == 19 * (q + 1) + r);
    assert((year + 18) % 19 == r);
}

/// Rosh Hashana never falls on Sunday, Wednesday or Friday (_lo ADU rosh_):
/// counted from the Sunday before the beginning of reckoning, its day number
/// is never 0, 3 or 5 modulo 7 (Rust's remainder).
pub proof fn lemma_rosh_hashana_not_adu(year: int)
    ensures
        tmod(spec_elapsed_days(year), 7) != 0,
        tmod(spec_elapsed_days(year), 7) != 3,
        tmod(spec_elapsed_days(year), 7) != 5,
{
    let d = rosh_hashana_day_before_adu(year);
    if d >= 0 {
        assert(tmod(d + 1, 7) == (d + 1) % 7);
    } else {
        let e = -d;
        assert(tmod(d, 7) == -(e % 7));
        if e >= 1 {
            assert(tmod(d + 1, 7) == -((e - 1) % 7));
        }
    }
}

/// From year 1 on, the leap years of this library's 19-year rule are those
/// that `icu_calendar` builds with a leap month.
pub proof fn lemma_leap_rules_agree(year: int)
    requires
        year >= 1,
    ensures
        keviyah_leap(year) == spec_is_leap_year(year),
{
    assert(tmod(year - 1, 19) == (year - 1) % 19);
    assert(year % 19 == ((year - 1) % 19 + 1) % 19);
}

/// Rosh Hashana before _lo ADU rosh_, for a molad of Tishrei `ch` chalakim
/// after the beginning of reckoning (not negative), in a year that is a leap
/// year or not, after a year that was a leap year or not.
pub open spec fn rh_before_adu_of(ch: int, leap: bool, leap_before: bool) -> int {
    let day = ch / 25920;
    let parts = ch % 25920;
    if parts >= 19440 || (day % 7 == 2 && parts >= 9924 && !leap) || (day % 7 == 1 && parts >= 16789
        && leap_before) {
        day + 1
    } else {
        day
    }
}

/// Rosh Hashana for such a molad, after all rules of postponement.
#[verifier::opaque]
pub open spec fn rh_of(ch: int, leap: bool, leap_before: bool) -> int {
    let d = rh_before_adu_of(ch, leap, leap_before);
    if d % 7 == 0 || d % 7 == 3 || d % 7 == 5 {
        d + 1
    } else {
        d
    }
}

/// The chalakim from one molad of Tishrei to the next.
pub open spec fn year_chalakim(leap: bool) -> int {
    if leap {
        9950629
    } else {
        9185196
    }
}

/// The year types that occur: a common year of 353 to 355 days or a leap
/// year of 383 to 385, and of those only the lengths that the weekday of its
/// Rosh Hashana (as the remainder by 7 of the elapsed days: 1 Monday, 2
/// Tuesday, 4 Thursday, 6 Shabbos) allows.
pub open spec fn occurring_year_type(w: int, len: int, leap: bool) -> bool {
    if !leap {
        (w == 1 && (len == 353 || len == 355)) || (w == 2 && len == 354) || (w == 4 && (len == 354
            || len == 355)) || (w == 6 && (len == 353 || len == 355))
    } else {
        (w == 1 && (len == 383 || len == 385)) || (w == 2 && len == 384) || (w == 4 && (len == 383
            || len == 385)) || (w == 6 && (len == 383 || len == 385))
    }
}

/// Within one week of molad times: every year type that the postponements
/// give is one that occurs.
#[verifier::spinoff_prover]
#[verifier::rlimit(100)]
proof fn lemma_year_type_in_week(t: int, leap_before: bool, leap: bool, leap_after: bool)
    requires
        0 <= t < 181440,
        !(leap_before && leap),
        !(leap && leap_after),
    ensures
        occurring_year_type(
            rh_of(t, leap, leap_before) % 7,
            rh_of(t + year_chalakim(leap), leap_after, leap) - rh_of(t, leap, leap_before),
            leap,
        ),
{
    reveal(rh_of);
}

/// Moving a molad of Tishrei by whole weeks moves its Rosh Hashana by as
/// many weeks.
proof fn lemma_rh_shift(q: int, t: int, leap: bool, leap_before: bool)
    requires
        q >= 0,
        t >= 0,
    ensures
        rh_of(181440 * q + t, leap, leap_before) == 7 * q + rh_of(t, leap, leap_before),
{
    reveal(rh_of);
    let ch = 181440 * q + t;
    assert(ch / 25920 == 7 * q + t / 25920);
    assert(ch % 25920 == t % 25920);
    assert((7 * q + t / 25920) % 7 == (t / 25920) % 7);
    let d = rh_before_adu_of(t, leap, leap_before);
    assert(rh_before_adu_of(ch, leap, leap_before) == 7 * q + d);
    assert((7 * q + d) % 7 == d % 7);
}

/// From year 1 on, two leap years never follow each other.
proof fn lemma_no_leap_pair(year: int)
    requires
        year >= 1,
    ensures
        !(spec_is_leap_year(year) && spec_is_leap_year(year + 1)),
        !(spec_is_leap_year(year - 1) && spec_is_leap_year(year)),
{
    assert(tmod(year - 1, 19) == (year - 1) % 19);
    assert(tmod(year, 19) == year % 19);
    if year >= 2 {
        assert(tmod(year - 2, 19) == (year - 2) % 19);
    } else {
        assert(tmod(year - 2, 19) == -1);
    }
}

/// From year 1 on, Rosh Hashana is the day that `rh_of` gives for the year's
/// molad of Tishrei.
proof fn lemma_elapsed_days_of_molad(year: int)
    requires
        year >= 1,
    ensures
        spec_chalakim_since_molad_tohu(year, HebrewMonth::Tishrei) >= 0,
        spec_elapsed_days(year) == rh_of(
            spec_chalakim_since_molad_tohu(year, HebrewMonth::Tishrei),
            spec_is_leap_year(year),
            spec_is_leap_year(year - 1),
        ),
{
    reveal(rh_of);
    let q = (year - 1) / 19;
    let r = (year - 1) % 19;
    assert(tdiv(year - 1, 19) == q && tmod(year - 1, 19) == r);
    assert(tdiv(7 * r + 1, 19) == (7 * r + 1) / 19);
    assert(months_before_year(year) >= 0) by (nonlinear_arith)
        requires
            months_before_year(year) == 235 * q + 12 * r + (7 * r + 1) / 19,
            q >= 0,
            r >= 0,
    ;
    assert(spec_month_of_year(year, HebrewMonth::Tishrei) == 1);
    let ch = spec_chalakim_since_molad_tohu(year, HebrewMonth::Tishrei);
    assert(ch >= 0) by (nonlinear_arith)
        requires
            ch == CHALAKIM_MOLAD_TOHU + CHALAKIM_PER_MONTH * months_elapsed(year, HebrewMonth::Tishrei),
            months_elapsed(year, HebrewMonth::Tishrei) >= 0,
    ;
    let day = ch / 25920;
    assert(tdiv(ch, CHALAKIM_PER_DAY as int) == day);
    assert(tmod(day, 7) == day % 7);
    assert(ch - day * CHALAKIM_PER_DAY == ch % 25920);
    let d = rosh_hashana_day_before_adu(year);
    assert(d >= 0);
    assert(tmod(d, 7) == d % 7);
}

/// Every year from year 1 on is of a type that occurs: a common year has 353
/// to 355 days and a leap year 383 to 385, and the weekday of its Rosh
/// Hashana (as the remainder by 7 of the elapsed days) allows only the
/// lengths of the fourteen year types.
#[verifier::spinoff_prover]
#[verifier::rlimit(50)]
pub proof fn lemma_year_type(year: int)
    requires
        year >= 1,
    ensures
        occurring_year_type(
            tmod(spec_elapsed_days(year), 7),
            spec_days_in_year(year),
            spec_is_leap_year(year),
        ),
        spec_elapsed_days(year) >= 0,
{
    lemma_elapsed_days_of_molad(year);
    lemma_elapsed_days_of_molad(year + 1);
    lemma_months_in_year(year);
    lemma_no_leap_pair(year);
    lemma_no_leap_pair(year + 1);
    let leap = spec_is_leap_year(year);
    let ch = spec_chalakim_since_molad_tohu(year, HebrewMonth::Tishrei);
    let ch2 = spec_chalakim_since_molad_tohu(year + 1, HebrewMonth::Tishrei);
    assert(spec_month_of_year(year, HebrewMonth::Tishrei) == 1);
    assert(spec_month_of_year(year + 1, HebrewMonth::Tishrei) == 1);
    assert(ch2 == ch + year_chalakim(leap)) by (nonlinear_arith)
        requires
            ch == CHALAKIM_MOLAD_TOHU + CHALAKIM_PER_MONTH * months_before_year(year),
            ch2 == CHALAKIM_MOLAD_TOHU + CHALAKIM_PER_MONTH * months_before_year(year + 1),
            months_before_year(year + 1) - months_before_year(year) == if leap {
                13int
            } else {
                12int
            },
            year_chalakim(leap) == if leap {
                9950629int
            } else {
                9185196int
            },
    ;
    let q = ch / 181440;
    let t = ch % 181440;
    assert(ch == 181440 * q + t);
    lemma_rh_shift(q, t, leap, spec_is_leap_year(year - 1));
    lemma_rh_shift(q, t + year_chalakim(leap), spec_is_leap_year(year + 1), leap);
    assert(ch2 == 181440 * q + (t + year_chalakim(leap)));
    lemma_year_type_in_week(t, spec_is_leap_year(year - 1), leap, spec_is_leap_year(year + 1));
    let e = spec_elapsed_days(year);
    assert(e == 7 * q + rh_of(t, leap, spec_is_leap_year(year - 1)));
    assert(e >= 0);
    assert(tmod(e, 7) == e % 7);
    assert(e % 7 == rh_of(t, leap, spec_is_leap_year(year - 1)) % 7);
}

} // verus!
