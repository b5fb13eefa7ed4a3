use kosher_calendar::amud_yomi_bavli_dirshu::{self as dirshu, AmudYomiBavliDirshu};
use kosher_calendar::arithmetic::{
    chalakim_since_molad_tohu, days_in_hebrew_month, days_in_hebrew_year,
    get_hebrew_elapsed_days, hebrew_month_of_year, is_hebrew_leap_year, next_hebrew_month,
    CHALAKIM_PER_MONTH,
};
use kosher_calendar::cycle::{Cycle, CycleRule, PerpetualCycleFinder};
use kosher_calendar::daf_yomi_bavli::{self as bavli, DafYomiBavli};
use kosher_calendar::daf_yomi_yerushalmi::{self as yerushalmi, DafYomiYerushalmi};
use kosher_calendar::date::{HebrewDate, Weekday};
use kosher_calendar::holiday::Holiday;
use kosher_calendar::interval::{Interval, IntervalRule};
use kosher_calendar::limud_calculator::LimudCalculator;
use kosher_calendar::mishna_yomis::{chapter_length, chapters, mishna_at, MishnaYomis};
use kosher_calendar::month::HebrewMonth;
use kosher_calendar::parsha::Parsha;
use kosher_calendar::pirkei_avos::{PirkeiAvos, PirkeiAvosUnit};
use kosher_calendar::spa_error::SpaError;
use kosher_calendar::tehillim_monthly::{unit_for_day, TehillimMonthly, TehillimUnit};
use kosher_calendar::units::{Amud, AmudIter, Daf, Side, Tractate};

fn greg(year: i32, month: u8, day: u8) -> HebrewDate {
    HebrewDate::from_gregorian_date(year, month, day).expect("valid gregorian date")
}

fn heb(year: i32, month: HebrewMonth, day: u8) -> HebrewDate {
    HebrewDate::from_hebrew_date(year, month, day).expect("valid hebrew date")
}

// Dates and the calls into icu_calendar.

#[test]
fn gregorian_day_number_of_known_dates() {
    assert_eq!(greg(1, 1, 1).day_number(), 1);
    assert_eq!(greg(2024, 1, 1).day_number() - greg(2023, 1, 1).day_number(), 365);
}

#[test]
fn invalid_gregorian_date_is_refused() {
    assert!(HebrewDate::from_gregorian_date(2023, 2, 29).is_none());
    assert!(HebrewDate::from_gregorian_date(2023, 13, 1).is_none());
}

#[test]
fn adar_two_only_in_leap_years() {
    assert!(HebrewDate::from_hebrew_date(5785, HebrewMonth::AdarII, 1).is_none());
    let d = heb(5784, HebrewMonth::AdarII, 1);
    assert_eq!(d.hebrew_month(), HebrewMonth::AdarII);
    assert!(d.is_in_leap_year());
    let a = heb(5784, HebrewMonth::Adar, 1);
    assert_eq!(a.hebrew_month(), HebrewMonth::Adar);
    assert_eq!(a.days_in_month(), 30);
    let plain = heb(5785, HebrewMonth::Adar, 14);
    assert_eq!(plain.hebrew_month(), HebrewMonth::Adar);
    assert!(!plain.is_in_leap_year());
}

#[test]
fn hebrew_date_fields_come_back() {
    let d = greg(2023, 9, 16);
    assert_eq!(d.extended_year(), 5784);
    assert_eq!(d.hebrew_month(), HebrewMonth::Tishrei);
    assert_eq!(d.day_of_month(), 1);
    assert_eq!(d.day_of_year(), 1);
    assert_eq!(d.day_of_week(), Weekday::Saturday);
    assert_eq!(d.day_of_week_number(), 7);
    assert_eq!(heb(5784, HebrewMonth::Tishrei, 1), d);
}

#[test]
fn weekday_of_a_monday() {
    let d = greg(2024, 1, 1);
    assert_eq!(d.day_of_week(), Weekday::Monday);
    assert_eq!(d.day_of_week_number(), 2);
}

#[test]
fn day_numbers_outside_range_are_refused() {
    assert!(HebrewDate::from_day_number(365_242_135).is_none());
    assert!(HebrewDate::from_day_number(-365_242_500).is_none());
    assert!(HebrewDate::from_day_number(-365_242_499).is_some());
    let last = HebrewDate::from_day_number(365_242_134).unwrap();
    assert!(last.add_days(1).is_none());
    assert_eq!(last.add_days(-1).unwrap().day_number(), 365_242_133);
    // Day numbers far beyond the Gregorian years that can be built are dates.
    assert!(HebrewDate::from_day_number(300_000_001).is_some());
}

#[test]
fn week_later_is_same_weekday() {
    let d = greg(2024, 5, 30);
    let later = d.add_days(7).unwrap();
    assert_eq!(later.day_of_week(), d.day_of_week());
    assert_eq!(d.days_until(&later), 7);
    assert!(d.is_before(&later));
    assert!(later.is_after(&d));
}

// Arithmetic of the Hebrew calendar.

#[test]
fn leap_years_repeat_every_nineteen_years() {
    for year in 5700..5800 {
        assert_eq!(is_hebrew_leap_year(year), is_hebrew_leap_year(year + 19));
    }
}

#[test]
fn next_month_steps_through_a_leap_year() {
    let mut year = 5784;
    let mut month = HebrewMonth::Tishrei;
    let mut steps = 0;
    loop {
        let (y, m) = next_hebrew_month(year, month);
        year = y;
        month = m;
        steps += 1;
        if month == HebrewMonth::Tishrei {
            break;
        }
    }
    assert_eq!(steps, 13);
    assert_eq!(year, 5785);
    assert_eq!(next_hebrew_month(5784, HebrewMonth::Adar), (5784, HebrewMonth::AdarII));
}

#[test]
fn month_numbers_of_year() {
    assert_eq!(hebrew_month_of_year(5784, HebrewMonth::Tishrei), 1);
    assert_eq!(hebrew_month_of_year(5784, HebrewMonth::Nissan), 8);
    assert_eq!(hebrew_month_of_year(5785, HebrewMonth::Nissan), 7);
}

#[test]
fn molad_advances_one_month() {
    let a = chalakim_since_molad_tohu(5784, HebrewMonth::Elul);
    let b = chalakim_since_molad_tohu(5785, HebrewMonth::Tishrei);
    assert_eq!(b - a, CHALAKIM_PER_MONTH);
}

#[test]
fn rosh_hashana_never_on_sunday_wednesday_friday() {
    for year in 5700..5900 {
        let rh = heb(year, HebrewMonth::Tishrei, 1);
        let w = rh.day_of_week();
        assert!(w != Weekday::Sunday && w != Weekday::Wednesday && w != Weekday::Friday);
        assert!(get_hebrew_elapsed_days(year + 1) > get_hebrew_elapsed_days(year));
    }
}

#[test]
fn year_lengths_match_icu() {
    for year in 5780..5800 {
        let here = days_in_hebrew_year(year);
        let span = heb(year, HebrewMonth::Tishrei, 1).days_until(&heb(year + 1, HebrewMonth::Tishrei, 1));
        assert_eq!(here as i64, span);
        assert_eq!(
            days_in_hebrew_month(year, HebrewMonth::Cheshvan),
            heb(year, HebrewMonth::Cheshvan, 1).days_in_month()
        );
    }
}

// Holidays and parshiyos.

#[test]
fn all_holidays_are_distinct() {
    let all = Holiday::all();
    assert_eq!(all.len(), 41);
    for i in 0..all.len() {
        for j in 0..i {
            assert_ne!(all[i], all[j]);
        }
    }
}

#[test]
fn holiday_kinds() {
    assert!(Holiday::YomKippur.is_assur_bemelacha());
    assert!(!Holiday::Chanukah.is_assur_bemelacha());
    assert!(Holiday::YomHaatzmaut.is_modern_holiday());
    assert!(Holiday::TishahBav.is_fast_day());
    assert!(!Holiday::Purim.is_fast_day());
}

#[test]
fn chanukah_and_omer_counts() {
    assert_eq!(heb(5784, HebrewMonth::Kislev, 25).day_of_chanukah(), Some(1));
    let first = heb(5784, HebrewMonth::Kislev, 25);
    assert_eq!(first.add_days(7).unwrap().day_of_chanukah(), Some(8));
    assert_eq!(first.add_days(8).unwrap().day_of_chanukah(), None);
    assert_eq!(first.add_days(-1).unwrap().day_of_chanukah(), None);
    assert_eq!(heb(5784, HebrewMonth::Nissan, 16).day_of_the_omer(), Some(1));
    assert_eq!(heb(5784, HebrewMonth::Sivan, 5).day_of_the_omer(), Some(49));
    assert_eq!(heb(5784, HebrewMonth::Sivan, 6).day_of_the_omer(), None);
}

#[test]
fn parsha_numbers_round_trip() {
    assert_eq!(Parsha::from_number(Parsha::Bereshis.number()), Some(Parsha::Bereshis));
    assert!(Parsha::from_number(200).is_none());
}

#[test]
fn special_parsha_only_on_shabbos() {
    // 2 Tishrei 5784 is a Sunday; 8 Tishrei 5784 is Shabbos Shuva.
    let sunday = heb(5784, HebrewMonth::Tishrei, 2);
    assert_eq!(sunday.special_parsha(None), None);
    let shuva = heb(5784, HebrewMonth::Tishrei, 8);
    assert_eq!(shuva.day_of_week(), Weekday::Saturday);
    assert_eq!(shuva.special_parsha(Some(Parsha::HaAzinu)), Some(Parsha::Shuva));
}

#[test]
fn parsha_list_of_a_year() {
    let d = heb(5784, HebrewMonth::Tishrei, 1);
    assert!(d.parsha_list_number(false).is_some());
}

// Learning schedules.

#[test]
fn daf_yomi_cycle_opens_and_closes() {
    // Cycle 14 ran from 5 January 2020 to 7 June 2027.
    let first = DafYomiBavli::default().limud(greg(2020, 1, 5)).unwrap();
    assert_eq!(first, Daf { tractate: Tractate::Berachos, page: 2 });
    let last = DafYomiBavli::default().limud(greg(2027, 6, 7)).unwrap();
    assert_eq!(last, Daf { tractate: Tractate::Niddah, page: 73 });
}

#[test]
fn daf_yomi_every_day_of_a_year() {
    let mut d = greg(2023, 1, 1);
    for _ in 0..366 {
        assert!(DafYomiBavli::default().limud(d).is_some());
        d = d.add_days(1).unwrap();
    }
}

#[test]
fn limud_through_the_date() {
    let d = greg(2017, 12, 28);
    assert_eq!(d.limud(DafYomiBavli::default()), DafYomiBavli::default().limud(d));
    assert_eq!(d.limud(MishnaYomis), MishnaYomis.limud(d));
}

#[test]
fn bavli_pages_of_tractates() {
    assert_eq!(bavli::start_daf(Tractate::Berachos, 1), 2);
    assert_eq!(bavli::end_daf(Tractate::Berachos, 1), Some(64));
    assert_eq!(bavli::end_daf(Tractate::Shekalim, 7), Some(13));
    assert_eq!(bavli::end_daf(Tractate::Shekalim, 8), Some(22));
    assert_eq!(bavli::iter(Tractate::Kinnim, 1), 23..=25);
    assert_eq!(bavli::nth_daf(1, 0), Some(Daf { tractate: Tractate::Berachos, page: 2 }));
    assert_eq!(bavli::nth_daf(1, 2702), None);
}

#[test]
fn yerushalmi_skips_yom_kippur_and_tisha_bav() {
    assert!(yerushalmi::is_skip_day(&heb(5784, HebrewMonth::Tishrei, 10)));
    assert!(yerushalmi::is_skip_day(&heb(5784, HebrewMonth::Av, 9)));
    assert!(!yerushalmi::is_skip_day(&heb(5784, HebrewMonth::Av, 10)));
    assert!(DafYomiYerushalmi::default().limud(heb(5784, HebrewMonth::Av, 9)).is_none());
    let a = heb(5784, HebrewMonth::Tishrei, 1);
    let b = heb(5784, HebrewMonth::Elul, 29);
    assert_eq!(yerushalmi::found_skips_between(&a, &b), 2);
    assert_eq!(yerushalmi::nth_daf(0), Some(Daf { tractate: Tractate::Berachos, page: 1 }));
    assert_eq!(yerushalmi::nth_daf(1554), None);
}

#[test]
fn dirshu_amudim() {
    assert_eq!(dirshu::start_daf(Tractate::Berachos, 1), Amud::new(Tractate::Berachos, 2, Side::Aleph));
    assert_eq!(dirshu::nth_amud(0), Some(Amud::new(Tractate::Berachos, 2, Side::Aleph)));
    assert_eq!(dirshu::nth_amud(5406), None);
    let first = AmudYomiBavliDirshu::default().limud(greg(2023, 10, 16)).unwrap();
    assert_eq!(first, Amud::new(Tractate::Berachos, 2, Side::Aleph));
}

#[test]
fn amud_iteration() {
    let a = Amud::new(Tractate::Kinnim, 22, Side::Bet);
    assert_eq!(a.next(), Amud::new(Tractate::Kinnim, 23, Side::Aleph));
    let mut it = AmudIter::new(a, Amud::new(Tractate::Kinnim, 23, Side::Bet));
    assert_eq!(it.next(), Some(a));
    assert_eq!(it.next(), Some(Amud::new(Tractate::Kinnim, 23, Side::Aleph)));
    assert_eq!(it.next(), Some(Amud::new(Tractate::Kinnim, 23, Side::Bet)));
    assert_eq!(it.next(), None);
    assert_eq!(AmudIter::empty().next(), None);
}

#[test]
fn mishna_counts() {
    assert_eq!(chapters(Tractate::Berachos), 9);
    assert_eq!(chapter_length(Tractate::Berachos, 1), 5);
    let first = mishna_at(0).unwrap();
    assert_eq!(first.tractate, Tractate::Berachos);
    assert_eq!((first.chapter, first.mishna), (1, 1));
    assert!(mishna_at(4191).is_some());
    assert!(mishna_at(4192).is_none());
}

#[test]
fn tehillim_book_finished_each_month() {
    // Teves 5778 has 29 days, Shevat 5778 has 30.
    assert_eq!(heb(5778, HebrewMonth::Teves, 1).days_in_month(), 29);
    let short_end = TehillimMonthly.limud(heb(5778, HebrewMonth::Teves, 29)).unwrap();
    assert!(matches!(short_end, TehillimUnit::Psalms { end: 150, .. }));
    let long_end = TehillimMonthly.limud(heb(5778, HebrewMonth::Shevat, 30)).unwrap();
    assert!(matches!(long_end, TehillimUnit::Psalms { end: 150, .. }));
    assert_eq!(unit_for_day(27, 27, 30), Some(TehillimUnit::Psalms { start: 120, end: 134 }));
    assert_eq!(unit_for_day(31, 1, 30), None);
    assert_eq!(unit_for_day(0, 1, 30), None);
}

#[test]
fn pirkei_avos_same_reading_all_week() {
    // 5784: the week from Sunday 4 Iyar to Shabbos 10 Iyar.
    let shabbos = heb(5784, HebrewMonth::Iyar, 10);
    assert_eq!(shabbos.day_of_week(), Weekday::Saturday);
    let calc = PirkeiAvos::new(false);
    let reading = calc.limud(shabbos);
    assert!(reading.is_some());
    for back in 1..7 {
        assert_eq!(calc.limud(shabbos.add_days(-back).unwrap()), reading);
    }
}

#[test]
fn pirkei_avos_units() {
    let calc = PirkeiAvos::new(true);
    assert!(calc.in_israel);
    let first = calc.limud(heb(5784, HebrewMonth::Nissan, 22)).unwrap();
    assert_eq!(first, PirkeiAvosUnit::Single(1));
}

#[test]
fn weekly_intervals_end_on_shabbos() {
    let date = heb(5784, HebrewMonth::Iyar, 3);
    let cycle = Cycle::from_perpetual(PerpetualCycleFinder::PirkeiAvos { in_israel: false }, &date).unwrap();
    assert_eq!(cycle.iteration, None);
    assert_eq!(cycle.start_date, heb(5784, HebrewMonth::Nissan, 23));
    assert_eq!(cycle.end_date.day_of_week(), Weekday::Saturday);
    let first = Interval::first_for_cycle(cycle, IntervalRule::EndsOnShabbos).unwrap();
    assert_eq!(first.iteration, 1);
    assert_eq!(first.end_date.day_of_week(), Weekday::Saturday);
    assert!(first.contains(&first.start_date));
    let second = first.next(IntervalRule::EndsOnShabbos).unwrap();
    assert_eq!(second.iteration, 2);
    assert_eq!(second.start_date, first.end_date.add_days(1).unwrap());
    assert_eq!(second.start_date.days_until(&second.end_date), 6);
    let skipped = first.skip(IntervalRule::EndsOnShabbos).unwrap();
    assert_eq!(skipped.iteration, 1);
}

#[test]
fn numbered_cycles_follow_each_other() {
    let first = greg(1923, 9, 11);
    let cycle = Cycle::from_cycle_initiation(&first, CycleRule::DafYomiBavli, &first).unwrap();
    assert_eq!(cycle.iteration, Some(1));
    assert_eq!(cycle.start_date.days_until(&cycle.end_date), 2701);
    let second = cycle.next(CycleRule::DafYomiBavli).unwrap();
    assert_eq!(second.iteration, Some(2));
    assert_eq!(second.start_date, cycle.end_date.add_days(1).unwrap());
    assert!(Cycle::from_cycle_initiation(&first, CycleRule::DafYomiBavli, &greg(1920, 1, 1)).is_none());
    let monthly = Cycle::from_perpetual(PerpetualCycleFinder::Monthly, &first).unwrap();
    assert!(monthly.next(CycleRule::DafYomiBavli).is_none());
}

#[test]
fn candles_before_shabbos_and_yom_tov() {
    let friday = heb(5784, HebrewMonth::Tishrei, 7);
    assert_eq!(friday.day_of_week(), Weekday::Friday);
    assert!(friday.has_candle_lighting(false));
    let erev_yom_kippur = heb(5784, HebrewMonth::Tishrei, 9);
    assert!(erev_yom_kippur.has_candle_lighting(true));
    let tuesday = heb(5784, HebrewMonth::Tishrei, 4);
    assert_eq!(tuesday.day_of_week(), Weekday::Tuesday);
    assert!(!tuesday.has_candle_lighting(false));
    let last = HebrewDate::from_day_number(365_242_134).unwrap();
    assert!(!last.has_candle_lighting(false));
}

#[test]
fn spa_error_messages() {
    assert_eq!(SpaError::LatitudeOutOfRange.message(), "Latitude out of range");
    assert_eq!(SpaError::DeltaUt1OutOfRange.message(), "ΔUT1 out of range");
    assert_eq!(SpaError::TimeConversionError.message(), "Time conversion error");
}

#[test]
fn pirkei_avos_every_day_of_a_cycle_without_skips() {
    // In 5784 no Shabbos of the cycle is Tisha B'Av, its eve, or 7 Sivan.
    let calc = PirkeiAvos::new(false);
    let start = heb(5784, HebrewMonth::Nissan, 23);
    let cycle = Cycle::from_perpetual(PerpetualCycleFinder::PirkeiAvos { in_israel: false }, &start).unwrap();
    let mut d = start;
    while !d.is_after(&cycle.end_date) {
        assert!(calc.limud(d).is_some());
        d = d.add_days(1).unwrap();
    }
    assert!(calc.limud(d).is_none());
}

#[test]
fn tehillim_every_day_of_a_month() {
    let first = heb(5784, HebrewMonth::Kislev, 1);
    let days = first.days_in_month();
    for i in 0..days as i32 {
        assert!(TehillimMonthly.limud(first.add_days(i).unwrap()).is_some());
    }
}

#[test]
fn yerushalmi_daf_every_day_but_skipped_ones() {
    // Around Yom Kippur 5784 (25 September 2023).
    let mut d = greg(2023, 9, 20);
    for _ in 0..10 {
        let daf = DafYomiYerushalmi::default().limud(d);
        assert_eq!(daf.is_none(), yerushalmi::is_skip_day(&d));
        d = d.add_days(1).unwrap();
    }
}

#[test]
fn gregorian_dates_built_within_constructor_range() {
    assert!(HebrewDate::from_gregorian_date(10000, 1, 1).is_none());
    assert!(HebrewDate::from_gregorian_date(-9999, 1, 1).is_some());
    assert!(HebrewDate::from_gregorian_date(2024, 2, 29).is_some());
    assert!(HebrewDate::from_gregorian_date(2100, 2, 29).is_none());
    assert!(HebrewDate::from_gregorian_date(2000, 2, 29).is_some());
    assert_eq!(greg(2000, 3, 1).day_number(), 730180);
}

#[test]
fn hebrew_dates_built_for_valid_fields() {
    for year in [1, 100, 5784, 5785, 9999] {
        for day in 1..=29u8 {
            let d = HebrewDate::from_hebrew_date(year, HebrewMonth::Shevat, day).unwrap();
            assert_eq!((d.extended_year(), d.hebrew_month(), d.day_of_month()), (year, HebrewMonth::Shevat, day));
        }
        assert_eq!(HebrewDate::from_hebrew_date(year, HebrewMonth::AdarII, 1).is_some(), is_hebrew_leap_year(year));
    }
    assert!(HebrewDate::from_hebrew_date(10000, HebrewMonth::Tishrei, 1).is_none());
    assert!(HebrewDate::from_hebrew_date(5784, HebrewMonth::Iyar, 30).is_none());
    assert!(HebrewDate::from_hebrew_date(5784, HebrewMonth::Nissan, 30).is_some());
    assert!(HebrewDate::from_hebrew_date(5784, HebrewMonth::Nissan, 0).is_none());
}

#[test]
fn every_year_has_a_parsha_list() {
    for year in 1..3000 {
        let d = heb(year * 3, HebrewMonth::Tishrei, 1);
        assert!(d.parsha_list_number(false).is_some());
        assert!(d.parsha_list_number(true).is_some());
        let len = days_in_hebrew_year(year * 3);
        assert!([353, 354, 355, 383, 384, 385].contains(&len));
    }
}

#[test]
fn amud_walk_counts() {
    let s = Amud::new(Tractate::Berachos, 2, Side::Bet);
    let e = Amud::new(Tractate::Berachos, 5, Side::Aleph);
    let mut it = AmudIter::new(s, e);
    let mut seen = Vec::new();
    while let Some(a) = it.next() {
        seen.push(a);
    }
    assert_eq!(seen.len(), 2 * (5 - 2) + 0 - 1 + 1);
    assert_eq!(seen[0], s);
    assert_eq!(seen[1], s.next());
    assert_eq!(*seen.last().unwrap(), e);
    assert_eq!(it.next(), None);
}

#[test]
fn chapter_lengths_add_up() {
    let mut total: u32 = 0;
    for t in kosher_calendar::units::all_tractates() {
        for c in 1..=chapters(t) {
            let n = chapter_length(t, c);
            assert!(n >= 1);
            total += n as u32;
        }
    }
    assert_eq!(total, 4192);
}

#[test]
fn bavli_iter_counts_add_up() {
    for (iteration, expected) in [(7, 2702), (8, 2711)] {
        let mut total = 0;
        for t in kosher_calendar::units::bavli_tractates() {
            total += bavli::iter(t, iteration).count();
        }
        assert_eq!(total, expected);
    }
    assert_eq!(bavli::iter(Tractate::Peah, 1).count(), 0);
}

#[test]
fn tehillim_month_law() {
    for n in [29u8, 30] {
        let mut next_psalm = 1;
        for k in 1..=n {
            match unit_for_day(k as i64, k, n).unwrap() {
                TehillimUnit::Psalms { start, end } => {
                    assert_eq!(start, next_psalm);
                    next_psalm = end + 1;
                }
                TehillimUnit::PsalmVerses { psalm, start_verse, .. } => {
                    assert_eq!(psalm, 119);
                    if start_verse == 1 {
                        assert_eq!(psalm, next_psalm);
                    }
                    next_psalm = 120;
                }
            }
        }
        assert_eq!(next_psalm, 151);
    }
}

#[test]
fn pirkei_avos_week_numbers_below_one() {
    let calc = PirkeiAvos::new(false);
    let date = heb(5784, HebrewMonth::Iyar, 3);
    let cycle = Cycle::from_perpetual(PerpetualCycleFinder::PirkeiAvos { in_israel: false }, &date).unwrap();
    let mut interval = Interval::first_for_cycle(cycle, IntervalRule::EndsOnShabbos).unwrap();
    interval.iteration = 0;
    assert_eq!(calc.unit_for_interval(&interval), PirkeiAvosUnit::Single(0));
    interval.iteration = -1;
    assert_eq!(calc.unit_for_interval(&interval), PirkeiAvosUnit::Single(255));
    interval.iteration = 7;
    assert_eq!(calc.unit_for_interval(&interval), PirkeiAvosUnit::Single(1));
}

#[test]
fn gregorian_date_round_trip() {
    assert_eq!(greg(2024, 1, 1).gregorian_date(), (2024, 1, 1));
    assert_eq!(heb(5784, HebrewMonth::Tishrei, 1).gregorian_date(), (2023, 9, 16));
    assert_eq!(greg(-400, 2, 29).gregorian_date(), (-400, 2, 29));
}

#[test]
fn thirtieth_days_of_fixed_months() {
    for year in [5784, 5785] {
        for (month, long) in [
            (HebrewMonth::Tishrei, true),
            (HebrewMonth::Teves, false),
            (HebrewMonth::Shevat, true),
            (HebrewMonth::Nissan, true),
            (HebrewMonth::Iyar, false),
            (HebrewMonth::Sivan, true),
            (HebrewMonth::Tammuz, false),
            (HebrewMonth::Av, true),
            (HebrewMonth::Elul, false),
        ] {
            assert_eq!(HebrewDate::from_hebrew_date(year, month, 30).is_some(), long);
            assert_eq!(days_in_hebrew_month(year, month) == 30, long);
        }
    }
    assert!(HebrewDate::from_hebrew_date(5784, HebrewMonth::Adar, 30).is_some());
    assert!(HebrewDate::from_hebrew_date(5785, HebrewMonth::Adar, 30).is_none());
    assert!(HebrewDate::from_hebrew_date(5784, HebrewMonth::AdarII, 30).is_none());
}

#[test]
fn tehillim_unit_for_interval() {
    let date = heb(5778, HebrewMonth::Teves, 29);
    let cycle = Cycle::from_perpetual(PerpetualCycleFinder::Monthly, &date).unwrap();
    let mut interval = Interval::first_for_cycle(cycle, IntervalRule::Daily).unwrap();
    while !interval.contains(&date) {
        interval = interval.next(IntervalRule::Daily).unwrap();
    }
    assert_eq!(interval.iteration, 29);
    assert_eq!(
        TehillimMonthly.unit_for_interval(&interval, &date),
        Some(TehillimUnit::Psalms { start: 140, end: 150 })
    );
}
