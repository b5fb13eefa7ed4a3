use kosher_calendar::arithmetic::{
    add_days_to_hebrew_date, chalakim_since_molad_tohu, cheshvan_kislev_kviah,
    days_in_hebrew_month, days_in_hebrew_year, get_hebrew_elapsed_days, is_cheshvan_long,
    is_hebrew_leap_year, is_kislev_short, next_hebrew_month, CHALAKIM_PER_MONTH,
};
use kosher_calendar::date::{HebrewDate, Weekday};
use kosher_calendar::holiday::Holiday;
use kosher_calendar::month::{HebrewMonth, YearLengthType};
use kosher_calendar::parsha::Parsha;

#[test]
fn test_hebrew_leap_year() {
    // Test leap years in 19-year cycle
    assert!(is_hebrew_leap_year(5784)); // Year 3 in cycle
    assert!(!is_hebrew_leap_year(5785));
    assert!(is_hebrew_leap_year(5787)); // Year 6 in cycle
    assert!(is_hebrew_leap_year(5790)); // Year 8 in cycle
}

#[test]
fn test_days_in_year() {
    let days = days_in_hebrew_year(5784);
    assert!(days >= 353 && days <= 385, "Year length out of range: {}", days);
}

#[test]
fn test_days_in_month() {
    // Regular month - always 30 days
    assert_eq!(days_in_hebrew_month(5784, HebrewMonth::Nissan), 30);

    // Regular month - always 29 days
    assert_eq!(days_in_hebrew_month(5784, HebrewMonth::Iyar), 29);

    // Adar in non-leap year is 29 days
    assert_eq!(days_in_hebrew_month(5785, HebrewMonth::Adar), 29);

    // Adar I in leap year is 30 days
    assert_eq!(days_in_hebrew_month(5784, HebrewMonth::Adar), 30);
}

#[test]
fn test_hebrew_month_enum() {
    let month = HebrewMonth::Tishrei;
    assert_eq!(month.he(), "תשרי");
    assert_eq!(format!("{}", month.he()), "תשרי");
}

#[test]
fn test_from_hebrew_date() {
    // Create Rosh Hashana 5784
    let date = HebrewDate::from_hebrew_date(5784, HebrewMonth::Tishrei, 1).unwrap();
    assert_eq!(date.day_of_month(), 1);
    assert_eq!(date.hebrew_month(), HebrewMonth::Tishrei);
    assert_eq!(date.extended_year(), 5784);
}

#[test]
fn test_rosh_hashana_holiday() {
    let date = HebrewDate::from_hebrew_date(5784, HebrewMonth::Tishrei, 1).unwrap();
    let holidays: Vec<Holiday> = date.holidays(false, false);
    assert!(holidays.contains(&Holiday::RoshHashana));
    assert!(date.is_assur_bemelacha(false));
}

#[test]
fn test_yom_kippur() {
    let date = HebrewDate::from_hebrew_date(5784, HebrewMonth::Tishrei, 10).unwrap();
    let holidays: Vec<Holiday> = date.holidays(false, false);
    assert!(holidays.contains(&Holiday::YomKippur));
    assert!(date.is_assur_bemelacha(false));
}

#[test]
fn test_chanukah() {
    // First day of Chanukah
    let date = HebrewDate::from_hebrew_date(5784, HebrewMonth::Kislev, 25).unwrap();
    let holidays: Vec<Holiday> = date.holidays(false, false);
    assert!(holidays.contains(&Holiday::Chanukah));
    assert!(!date.is_assur_bemelacha(false)); // Work is permitted
}

#[test]
fn test_purim() {
    let date = HebrewDate::from_hebrew_date(5784, HebrewMonth::AdarII, 14).unwrap();
    let holidays: Vec<Holiday> = date.holidays(false, false);
    assert!(holidays.contains(&Holiday::Purim));
}

#[test]
fn test_pesach_israel_vs_diaspora() {
    // Second day of Pesach - Yom Tov in diaspora, Chol Hamoed in Israel
    let date = HebrewDate::from_hebrew_date(5784, HebrewMonth::Nissan, 16).unwrap();

    // In diaspora
    let holidays_diaspora: Vec<Holiday> = date.holidays(false, false);
    assert!(holidays_diaspora.contains(&Holiday::Pesach));
    assert!(date.is_assur_bemelacha(false));

    // In Israel
    let holidays_israel: Vec<Holiday> = date.holidays(true, false);
    assert!(holidays_israel.contains(&Holiday::CholHamoed));
    assert!(!date.is_assur_bemelacha(true));
}

#[test]
fn test_candle_lighting() {
    // Erev Shabbat (Friday)
    let date = HebrewDate::from_hebrew_date(5784, HebrewMonth::Tishrei, 6).unwrap();
    if date.day_of_week() == Weekday::Friday {
        assert!(date.has_candle_lighting(false));
    }
}

#[test]
fn test_aseres_yemei_teshuva() {
    let date = HebrewDate::from_hebrew_date(5784, HebrewMonth::Tishrei, 5).unwrap();
    assert!(date.is_aseres_yemei_teshuva());

    let date = HebrewDate::from_hebrew_date(5784, HebrewMonth::Tishrei, 11).unwrap();
    assert!(!date.is_aseres_yemei_teshuva());
}

#[test]
fn test_modern_holidays() {
    let date = HebrewDate::from_hebrew_date(5784, HebrewMonth::Iyar, 28).unwrap();

    // Without modern holidays
    let holidays_traditional: Vec<Holiday> = date.holidays(true, false);
    assert!(!holidays_traditional.iter().any(|h| h.is_modern_holiday()));

    // With modern holidays
    let holidays_modern: Vec<Holiday> = date.holidays(true, true);
    assert!(holidays_modern.contains(&Holiday::YomYerushalayim));
}

#[test]
fn test_fast_days() {
    let date = HebrewDate::from_hebrew_date(5784, HebrewMonth::Teves, 10).unwrap();
    let holidays: Vec<Holiday> = date.holidays(false, false);
    assert!(holidays.iter().any(|h| h.is_fast_day()));
}

#[test]
fn test_rosh_chodesh() {
    // First day of month
    let date = HebrewDate::from_hebrew_date(5784, HebrewMonth::Cheshvan, 1).unwrap();
    let holidays: Vec<Holiday> = date.holidays(false, false);
    assert!(holidays.contains(&Holiday::RoshChodesh));

    // 30th of month (second day of Rosh Chodesh)
    let date = HebrewDate::from_hebrew_date(5784, HebrewMonth::Tishrei, 30).unwrap();
    let holidays: Vec<Holiday> = date.holidays(false, false);
    assert!(holidays.contains(&Holiday::RoshChodesh));
}

#[test]
fn test_kviah_types() {
    let year = 5784;
    let kviah = cheshvan_kislev_kviah(year);

    // Should be one of the three types
    assert!(matches!(
        kviah,
        YearLengthType::Chaserim | YearLengthType::Kesidran | YearLengthType::Shelaimim
    ));

    // Test consistency
    let is_cheshvan_long = is_cheshvan_long(year);
    let is_kislev_short = is_kislev_short(year);

    match kviah {
        YearLengthType::Shelaimim => {
            assert!(is_cheshvan_long && !is_kislev_short);
        }
        YearLengthType::Chaserim => {
            assert!(!is_cheshvan_long && is_kislev_short);
        }
        YearLengthType::Kesidran => {
            assert!(!is_cheshvan_long && !is_kislev_short);
        }
    }
}

#[test]
fn test_next_hebrew_month() {
    // Regular month
    let (year, month) = next_hebrew_month(5784, HebrewMonth::Nissan);
    assert_eq!(year, 5784);
    assert_eq!(month, HebrewMonth::Iyar);

    // End of year
    let (year, month) = next_hebrew_month(5784, HebrewMonth::Elul);
    assert_eq!(year, 5785);
    assert_eq!(month, HebrewMonth::Tishrei);

    // Non-leap year Adar
    let (year, month) = next_hebrew_month(5785, HebrewMonth::Adar);
    assert_eq!(year, 5785);
    assert_eq!(month, HebrewMonth::Nissan);
}

#[test]
fn test_add_days_to_hebrew_date() {
    // Simple addition within month
    let result = add_days_to_hebrew_date(5784, HebrewMonth::Tishrei, 1, 5);
    assert_eq!(result, Some((5784, HebrewMonth::Tishrei, 6)));

    // Addition spanning months
    let result = add_days_to_hebrew_date(5784, HebrewMonth::Tishrei, 28, 5);
    assert!(result.is_some());
    let (_year, month, _day) = result.unwrap();
    assert!(month == HebrewMonth::Tishrei || month == HebrewMonth::Cheshvan);
}

#[test]
fn test_holiday_display() {
    let holiday = Holiday::RoshHashana;
    assert_eq!(format!("{}", holiday.he()), "ראש השנה");
    assert_eq!(holiday.he(), "ראש השנה");
}

#[test]
fn test_parsha_display() {
    let parsha = Parsha::Bereshis;
    assert_eq!(format!("{}", parsha.he()), "בראשית");
    assert_eq!(parsha.he(), "בראשית");
}

#[test]
fn test_hebrew_elapsed_days() {
    // Basic sanity check - should be positive
    let elapsed = get_hebrew_elapsed_days(5784);
    assert!(elapsed > 0);

    // Next year should have more elapsed days
    let next_elapsed = get_hebrew_elapsed_days(5785);
    assert!(next_elapsed > elapsed);

    // Difference should be the number of days in the year
    let year_length = days_in_hebrew_year(5784);
    assert_eq!(next_elapsed - elapsed, year_length);
}

#[test]
fn test_chalakim_calculations() {
    // Test that chalakim are calculated consistently
    let chalakim1 = chalakim_since_molad_tohu(5784, HebrewMonth::Tishrei);
    let chalakim2 = chalakim_since_molad_tohu(5784, HebrewMonth::Cheshvan);

    // Next month should have more chalakim
    assert!(chalakim2 > chalakim1);

    // Difference should be approximately one month
    let diff = chalakim2 - chalakim1;
    assert!((diff - CHALAKIM_PER_MONTH).abs() < 100);
}
