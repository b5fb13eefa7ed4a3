use kosher_calendar::amud_yomi_bavli_dirshu::AmudYomiBavliDirshu;
use kosher_calendar::daf_yomi_bavli::DafYomiBavli;
use kosher_calendar::daf_yomi_yerushalmi::DafYomiYerushalmi;
use kosher_calendar::date::HebrewDate;
use kosher_calendar::limud_calculator::LimudCalculator;
use kosher_calendar::mishna_yomis::MishnaYomis;
use kosher_calendar::month::HebrewMonth;
use kosher_calendar::pirkei_avos::{PirkeiAvos, PirkeiAvosUnit};
use kosher_calendar::tehillim_monthly::{TehillimMonthly, TehillimUnit};
use kosher_calendar::units::{Side, Tractate};

fn from_gregorian_date(year: i32, month: u8, day: u8) -> HebrewDate {
    HebrewDate::from_gregorian_date(year, month, day).expect("valid gregorian date")
}

fn from_hebrew_date(year: i32, month: HebrewMonth, day: u8) -> HebrewDate {
    HebrewDate::from_hebrew_date(year, month, day).expect("valid hebrew date")
}


// daf yomi bavli
#[test]
fn daf_yomi_bavli_simple_date() {
    let test_date = from_gregorian_date(2017, 12, 28);
    let limud = DafYomiBavli::default().limud(test_date).expect("limud exists");
    assert_eq!(limud.page, 30);
    assert_eq!(limud.tractate, Tractate::Shevuos);
}

#[test]
fn daf_yomi_bavli_before_cycle_began() {
    let test_date = from_gregorian_date(1920, 1, 1);
    let limud = DafYomiBavli::default().limud(test_date);
    assert!(limud.is_none());
}

#[test]
fn daf_yomi_bavli_first_day_of_cycle() {
    let test_date = from_gregorian_date(2012, 8, 3);
    let limud = DafYomiBavli::default().limud(test_date).expect("limud exists");
    assert_eq!(limud.page, 2);
    assert_eq!(limud.tractate, Tractate::Berachos);
}

#[test]
fn daf_yomi_bavli_last_day_of_cycle() {
    let test_date = from_gregorian_date(2020, 1, 4);
    let limud = DafYomiBavli::default().limud(test_date).expect("limud exists");
    assert_eq!(limud.page, 73);
    assert_eq!(limud.tractate, Tractate::Niddah);
}

#[test]
fn daf_yomi_bavli_before_shekalim_transition_end_of_shekalim() {
    let test_date = from_gregorian_date(1969, 4, 28);
    let limud = DafYomiBavli::default().limud(test_date).expect("limud exists");
    assert_eq!(limud.page, 13);
    assert_eq!(limud.tractate, Tractate::Shekalim);
}

#[test]
fn daf_yomi_bavli_before_shekalim_transition_beginning_of_yoma() {
    let test_date = from_gregorian_date(1969, 4, 29);
    let limud = DafYomiBavli::default().limud(test_date).expect("limud exists");
    assert_eq!(limud.page, 2);
    assert_eq!(limud.tractate, Tractate::Yoma);
}

#[test]
fn daf_yomi_bavli_end_of_meilah() {
    let test_date = from_gregorian_date(2019, 10, 9);
    let limud = DafYomiBavli::default().limud(test_date).expect("limud exists");
    assert_eq!(limud.page, 22);
    assert_eq!(limud.tractate, Tractate::Meilah);
}

#[test]
fn daf_yomi_bavli_beginning_of_kinnim() {
    let test_date = from_gregorian_date(2019, 10, 10);
    let limud = DafYomiBavli::default().limud(test_date).expect("limud exists");
    assert_eq!(limud.page, 23);
    assert_eq!(limud.tractate, Tractate::Kinnim);
}

#[test]
fn daf_yomi_bavli_beginning_of_tamid() {
    let test_date = from_gregorian_date(2019, 10, 13);
    let limud = DafYomiBavli::default().limud(test_date).expect("limud exists");
    assert_eq!(limud.page, 26);
    assert_eq!(limud.tractate, Tractate::Tamid);
}

#[test]
fn daf_yomi_bavli_second_day_of_midos() {
    // Note: Midos starts at page 34 on 2019-10-21. This tests the second day.
    let test_date = from_gregorian_date(2019, 10, 22);
    let limud = DafYomiBavli::default().limud(test_date).expect("limud exists");
    assert_eq!(limud.page, 35);
    assert_eq!(limud.tractate, Tractate::Midos);
}

#[test]
fn daf_yomi_bavli_after_midos() {
    let test_date = from_gregorian_date(2019, 10, 25);
    let limud = DafYomiBavli::default().limud(test_date).expect("limud exists");
    assert_eq!(limud.page, 2);
    assert_eq!(limud.tractate, Tractate::Niddah);
}


// amud yomi bavli dirshu
#[test]
fn amud_yomi_bavli_dirshu_simple_date() {
    let test_date = from_gregorian_date(2024, 5, 30);
    let limud = AmudYomiBavliDirshu::default().limud(test_date).expect("limud exists");
    assert_eq!(limud.page, 53);
    assert_eq!(limud.side, Side::Aleph);
    assert_eq!(limud.tractate, Tractate::Shabbos);
}

#[test]
fn amud_yomi_bavli_dirshu_before_cycle_began() {
    let test_date = from_gregorian_date(2023, 1, 1);
    let limud = AmudYomiBavliDirshu::default().limud(test_date);
    assert!(limud.is_none());
}

#[test]
fn amud_yomi_bavli_dirshu_first_day_of_cycle() {
    let test_date = from_gregorian_date(2038, 8, 4);
    let limud = AmudYomiBavliDirshu::default().limud(test_date).expect("limud exists");
    assert_eq!(limud.page, 2);
    assert_eq!(limud.side, Side::Aleph);
    assert_eq!(limud.tractate, Tractate::Berachos);
}

#[test]
fn amud_yomi_bavli_dirshu_last_day_of_cycle() {
    let test_date = from_gregorian_date(2038, 8, 3);
    let limud = AmudYomiBavliDirshu::default().limud(test_date).expect("limud exists");
    assert_eq!(limud.page, 73);
    assert_eq!(limud.side, Side::Aleph);
    assert_eq!(limud.tractate, Tractate::Niddah);
}

#[test]
fn amud_yomi_bavli_dirshu_end_of_meilah() {
    let test_date = from_gregorian_date(2038, 2, 10);
    let limud = AmudYomiBavliDirshu::default().limud(test_date).expect("limud exists");
    assert_eq!(limud.page, 22);
    assert_eq!(limud.side, Side::Aleph);
    assert_eq!(limud.tractate, Tractate::Meilah);
}

#[test]
fn amud_yomi_bavli_dirshu_beginning_of_kinnim() {
    let test_date = from_gregorian_date(2038, 2, 11);
    let limud = AmudYomiBavliDirshu::default().limud(test_date).expect("limud exists");
    assert_eq!(limud.page, 22);
    assert_eq!(limud.side, Side::Bet);
    assert_eq!(limud.tractate, Tractate::Kinnim);
}

#[test]
fn amud_yomi_bavli_dirshu_end_of_kinnim() {
    let test_date = from_gregorian_date(2038, 2, 16);
    let limud = AmudYomiBavliDirshu::default().limud(test_date).expect("limud exists");
    assert_eq!(limud.page, 25);
    assert_eq!(limud.side, Side::Aleph);
    assert_eq!(limud.tractate, Tractate::Kinnim);
}

#[test]
fn amud_yomi_bavli_dirshu_beginning_of_tamid() {
    let test_date = from_gregorian_date(2038, 2, 17);
    let limud = AmudYomiBavliDirshu::default().limud(test_date).expect("limud exists");
    assert_eq!(limud.page, 25);
    assert_eq!(limud.side, Side::Bet);
    assert_eq!(limud.tractate, Tractate::Tamid);
}

#[test]
fn amud_yomi_bavli_dirshu_end_of_tamid() {
    let test_date = from_gregorian_date(2038, 3, 5);
    let limud = AmudYomiBavliDirshu::default().limud(test_date).expect("limud exists");
    assert_eq!(limud.page, 33);
    assert_eq!(limud.side, Side::Bet);
    assert_eq!(limud.tractate, Tractate::Tamid);
}

#[test]
fn amud_yomi_bavli_dirshu_beginning_of_midos() {
    let test_date = from_gregorian_date(2038, 3, 6);
    let limud = AmudYomiBavliDirshu::default().limud(test_date).expect("limud exists");
    assert_eq!(limud.page, 34);
    assert_eq!(limud.side, Side::Aleph);
    assert_eq!(limud.tractate, Tractate::Midos);
}

#[test]
fn amud_yomi_bavli_dirshu_end_of_midos() {
    let test_date = from_gregorian_date(2038, 3, 13);
    let limud = AmudYomiBavliDirshu::default().limud(test_date).expect("limud exists");
    assert_eq!(limud.page, 37);
    assert_eq!(limud.side, Side::Bet);
    assert_eq!(limud.tractate, Tractate::Midos);
}

#[test]
fn amud_yomi_bavli_dirshu_after_midos() {
    let test_date = from_gregorian_date(2038, 3, 14);
    let limud = AmudYomiBavliDirshu::default().limud(test_date).expect("limud exists");
    assert_eq!(limud.page, 2);
    assert_eq!(limud.side, Side::Aleph);
    assert_eq!(limud.tractate, Tractate::Niddah);
}


// daf yomi yerushalmi
#[test]
fn daf_yomi_yerushalmi_simple_date() {
    let test_date = from_gregorian_date(2017, 12, 28);
    let limud = DafYomiYerushalmi::default().limud(test_date).expect("limud exists");
    assert_eq!(limud.page, 33);
    assert_eq!(limud.tractate, Tractate::BavaMetzia);
}

#[test]
fn daf_yomi_yerushalmi_before_cycle_began() {
    let test_date = from_gregorian_date(1980, 1, 1);
    let limud = DafYomiYerushalmi::default().limud(test_date);
    assert!(limud.is_none());
}

#[test]
fn daf_yomi_yerushalmi_first_day_of_cycle() {
    let test_date = from_gregorian_date(2005, 10, 3);
    let limud = DafYomiYerushalmi::default().limud(test_date).expect("limud exists");
    assert_eq!(limud.page, 1);
    assert_eq!(limud.tractate, Tractate::Berachos);
}

#[test]
fn daf_yomi_yerushalmi_last_day_of_cycle() {
    let test_date = from_gregorian_date(2010, 1, 12);
    let limud = DafYomiYerushalmi::default().limud(test_date).expect("limud exists");
    assert_eq!(limud.page, 13);
    assert_eq!(limud.tractate, Tractate::Niddah);
}

#[test]
fn daf_yomi_yerushalmi_last_skip_day() {
    // Tishrei 10 (Yom Kippur) - a skip day
    let test_date = HebrewDate::from_hebrew_date(5778, HebrewMonth::Tishrei, 10)
        .expect("valid hebrew date");
    let limud = DafYomiYerushalmi::default().limud(test_date);

    assert!(limud.is_none());
}

#[test]
fn daf_yomi_yerushalmi_1980_02_02() {
    let test_date = from_gregorian_date(1980, 2, 2);
    let limud = DafYomiYerushalmi::default().limud(test_date).expect("limud exists");
    assert_eq!(limud.page, 1);
    assert_eq!(limud.tractate, Tractate::Berachos);
}

#[test]
fn daf_yomi_yerushalmi_1982_05_15() {
    let test_date = from_gregorian_date(1982, 5, 15);
    let limud = DafYomiYerushalmi::default().limud(test_date).expect("limud exists");
    assert_eq!(limud.page, 4);
    assert_eq!(limud.tractate, Tractate::Chagigah);
}

#[test]
fn daf_yomi_yerushalmi_1984_05_12() {
    let test_date = from_gregorian_date(1984, 5, 12);
    let limud = DafYomiYerushalmi::default().limud(test_date).expect("limud exists");
    assert_eq!(limud.page, 13);
    assert_eq!(limud.tractate, Tractate::Niddah);
}

#[test]
fn daf_yomi_yerushalmi_1984_05_13() {
    let test_date = from_gregorian_date(1984, 5, 13);
    let limud = DafYomiYerushalmi::default().limud(test_date).expect("limud exists");
    assert_eq!(limud.page, 1);
    assert_eq!(limud.tractate, Tractate::Berachos);
}

#[test]
fn daf_yomi_yerushalmi_1990_08_01() {
    let test_date = from_gregorian_date(1990, 8, 1);
    let limud = DafYomiYerushalmi::default().limud(test_date).expect("limud exists");
    assert_eq!(limud.page, 40);
    assert_eq!(limud.tractate, Tractate::Yoma);
}

#[test]
fn daf_yomi_yerushalmi_2000_01_01() {
    let test_date = from_gregorian_date(2000, 1, 1);
    let limud = DafYomiYerushalmi::default().limud(test_date).expect("limud exists");
    assert_eq!(limud.page, 66);
    assert_eq!(limud.tractate, Tractate::Kesubos);
}

#[test]
fn daf_yomi_yerushalmi_2005_10_02() {
    let test_date = from_gregorian_date(2005, 10, 2);
    let limud = DafYomiYerushalmi::default().limud(test_date).expect("limud exists");
    assert_eq!(limud.page, 13);
    assert_eq!(limud.tractate, Tractate::Niddah);
}

#[test]
fn daf_yomi_yerushalmi_2007_06_15() {
    let test_date = from_gregorian_date(2007, 6, 15);
    let limud = DafYomiYerushalmi::default().limud(test_date).expect("limud exists");
    assert_eq!(limud.page, 68);
    assert_eq!(limud.tractate, Tractate::Pesachim);
}

#[test]
fn daf_yomi_yerushalmi_2010_01_11() {
    let test_date = from_gregorian_date(2010, 1, 11);
    let limud = DafYomiYerushalmi::default().limud(test_date).expect("limud exists");
    assert_eq!(limud.page, 12);
    assert_eq!(limud.tractate, Tractate::Niddah);
}

#[test]
fn daf_yomi_yerushalmi_2015_04_23() {
    let test_date = from_gregorian_date(2015, 4, 23);
    let limud = DafYomiYerushalmi::default().limud(test_date).expect("limud exists");
    assert_eq!(limud.page, 3);
    assert_eq!(limud.tractate, Tractate::Orlah);
}

#[test]
fn daf_yomi_yerushalmi_2020_01_01() {
    let test_date = from_gregorian_date(2020, 1, 1);
    let limud = DafYomiYerushalmi::default().limud(test_date).expect("limud exists");
    assert_eq!(limud.page, 28);
    assert_eq!(limud.tractate, Tractate::Eruvin);
}

#[test]
fn daf_yomi_yerushalmi_2025_10_02() {
    let test_date = from_gregorian_date(2025, 10, 2);
    let limud = DafYomiYerushalmi::default().limud(test_date);
    assert!(limud.is_none());
}

#[test]
fn daf_yomi_yerushalmi_1980_09_20() {
    let test_date = from_gregorian_date(1980, 9, 20);
    let limud = DafYomiYerushalmi::default().limud(test_date);
    assert!(limud.is_none());
}

#[test]
fn daf_yomi_yerushalmi_1990_09_29() {
    let test_date = from_gregorian_date(1990, 9, 29);
    let limud = DafYomiYerushalmi::default().limud(test_date);
    assert!(limud.is_none());
}

#[test]
fn daf_yomi_yerushalmi_2000_10_09() {
    let test_date = from_gregorian_date(2000, 10, 9);
    let limud = DafYomiYerushalmi::default().limud(test_date);
    assert!(limud.is_none());
}

#[test]
fn daf_yomi_yerushalmi_2010_09_18() {
    let test_date = from_gregorian_date(2010, 9, 18);
    let limud = DafYomiYerushalmi::default().limud(test_date);
    assert!(limud.is_none());
}

#[test]
fn daf_yomi_yerushalmi_1980_07_21() {
    let test_date = from_gregorian_date(1980, 7, 21);
    let limud = DafYomiYerushalmi::default().limud(test_date).expect("limud exists");
    assert_eq!(limud.page, 32);
    assert_eq!(limud.tractate, Tractate::Kilayim);
}

#[test]
fn daf_yomi_yerushalmi_1990_07_31() {
    let test_date = from_gregorian_date(1990, 7, 31);
    let limud = DafYomiYerushalmi::default().limud(test_date);
    assert!(limud.is_none());
}

#[test]
fn daf_yomi_yerushalmi_2000_08_10() {
    let test_date = from_gregorian_date(2000, 8, 10);
    let limud = DafYomiYerushalmi::default().limud(test_date);
    assert!(limud.is_none());
}

#[test]
fn daf_yomi_yerushalmi_2010_07_20() {
    let test_date = from_gregorian_date(2010, 7, 20);
    let limud = DafYomiYerushalmi::default().limud(test_date);
    assert!(limud.is_none());
}

#[test]
fn daf_yomi_yerushalmi_1980_03_01() {
    let test_date = from_gregorian_date(1980, 3, 1);
    let limud = DafYomiYerushalmi::default().limud(test_date).expect("limud exists");
    assert_eq!(limud.page, 29);
    assert_eq!(limud.tractate, Tractate::Berachos);
}

#[test]
fn daf_yomi_yerushalmi_1982_01_01() {
    let test_date = from_gregorian_date(1982, 1, 1);
    let limud = DafYomiYerushalmi::default().limud(test_date).expect("limud exists");
    assert_eq!(limud.page, 31);
    assert_eq!(limud.tractate, Tractate::Yoma);
}

#[test]
fn daf_yomi_yerushalmi_1984_04_01() {
    let test_date = from_gregorian_date(1984, 4, 1);
    let limud = DafYomiYerushalmi::default().limud(test_date).expect("limud exists");
    assert_eq!(limud.page, 28);
    assert_eq!(limud.tractate, Tractate::AvodahZarah);
}


// mishna yomis
#[test]
fn mishna_yomis_simple_date() {
    let test_date = from_gregorian_date(2017, 12, 28);
    let limud = MishnaYomis.limud(test_date).expect("limud exists");
    // Expected: 'megillah 3:4-5'
    assert_eq!(limud.0.tractate, Tractate::Megillah);
    assert_eq!(limud.0.chapter, 3);
    assert_eq!(limud.0.mishna, 4);
    assert_eq!(limud.1.tractate, Tractate::Megillah);
    assert_eq!(limud.1.chapter, 3);
    assert_eq!(limud.1.mishna, 5);
}

#[test]
fn mishna_yomis_before_cycle_began() {
    let test_date = from_gregorian_date(1947, 1, 1);
    let limud = MishnaYomis.limud(test_date);
    assert!(limud.is_none());
}

#[test]
fn mishna_yomis_first_day_of_cycle() {
    let test_date = from_gregorian_date(2016, 3, 30);
    let limud = MishnaYomis.limud(test_date).expect("limud exists");
    // Expected: 'berachos 1:1-2'
    assert_eq!(limud.0.tractate, Tractate::Berachos);
    assert_eq!(limud.0.chapter, 1);
    assert_eq!(limud.0.mishna, 1);
    assert_eq!(limud.1.tractate, Tractate::Berachos);
    assert_eq!(limud.1.chapter, 1);
    assert_eq!(limud.1.mishna, 2);
}

#[test]
fn mishna_yomis_last_day_of_cycle() {
    let test_date = from_gregorian_date(2016, 3, 29);
    let limud = MishnaYomis.limud(test_date).expect("limud exists");
    // Expected: 'uktzin 3:11-12'
    assert_eq!(limud.0.tractate, Tractate::Uktzin);
    assert_eq!(limud.0.chapter, 3);
    assert_eq!(limud.0.mishna, 11);
    assert_eq!(limud.1.tractate, Tractate::Uktzin);
    assert_eq!(limud.1.chapter, 3);
    assert_eq!(limud.1.mishna, 12);
}

#[test]
fn mishna_yomis_span_two_masechtos() {
    let test_date = from_gregorian_date(2016, 4, 27);
    let limud = MishnaYomis.limud(test_date).expect("limud exists");
    // Expected: 'berachos 9:5 - peah 1:1'
    assert_eq!(limud.0.tractate, Tractate::Berachos);
    assert_eq!(limud.0.chapter, 9);
    assert_eq!(limud.0.mishna, 5);
    assert_eq!(limud.1.tractate, Tractate::Peah);
    assert_eq!(limud.1.chapter, 1);
    assert_eq!(limud.1.mishna, 1);
}

#[test]
fn mishna_yomis_span_two_perakim() {
    let test_date = from_gregorian_date(2017, 12, 23);
    let limud = MishnaYomis.limud(test_date).expect("limud exists");
    // Expected: 'megillah 1:11-2:1'
    assert_eq!(limud.0.tractate, Tractate::Megillah);
    assert_eq!(limud.0.chapter, 1);
    assert_eq!(limud.0.mishna, 11);
    assert_eq!(limud.1.tractate, Tractate::Megillah);
    assert_eq!(limud.1.chapter, 2);
    assert_eq!(limud.1.mishna, 1);
}

#[test]
fn mishna_yomis_1947_05_20() {
    let test_date = from_gregorian_date(1947, 5, 20);
    let limud = MishnaYomis.limud(test_date).expect("limud exists");
    assert_eq!(limud.0.tractate, Tractate::Berachos);
    assert_eq!(limud.0.chapter, 1);
    assert_eq!(limud.0.mishna, 1);
    assert_eq!(limud.1.tractate, Tractate::Berachos);
    assert_eq!(limud.1.chapter, 1);
    assert_eq!(limud.1.mishna, 2);
}

#[test]
fn mishna_yomis_1950_01_01() {
    let test_date = from_gregorian_date(1950, 1, 1);
    let limud = MishnaYomis.limud(test_date).expect("limud exists");
    assert_eq!(limud.0.tractate, Tractate::BavaKamma);
    assert_eq!(limud.0.chapter, 1);
    assert_eq!(limud.0.mishna, 1);
    assert_eq!(limud.1.tractate, Tractate::BavaKamma);
    assert_eq!(limud.1.chapter, 1);
    assert_eq!(limud.1.mishna, 2);
}

#[test]
fn mishna_yomis_1960_01_01() {
    let test_date = from_gregorian_date(1960, 1, 1);
    let limud = MishnaYomis.limud(test_date).expect("limud exists");
    assert_eq!(limud.0.tractate, Tractate::Eruvin);
    assert_eq!(limud.0.chapter, 5);
    assert_eq!(limud.0.mishna, 5);
    assert_eq!(limud.1.tractate, Tractate::Eruvin);
    assert_eq!(limud.1.chapter, 5);
    assert_eq!(limud.1.mishna, 6);
}

#[test]
fn mishna_yomis_1970_01_01() {
    let test_date = from_gregorian_date(1970, 1, 1);
    let limud = MishnaYomis.limud(test_date).expect("limud exists");
    assert_eq!(limud.0.tractate, Tractate::Mikvaos);
    assert_eq!(limud.0.chapter, 10);
    assert_eq!(limud.0.mishna, 6);
    assert_eq!(limud.1.tractate, Tractate::Mikvaos);
    assert_eq!(limud.1.chapter, 10);
    assert_eq!(limud.1.mishna, 7);
}

#[test]
fn mishna_yomis_1980_01_01() {
    let test_date = from_gregorian_date(1980, 1, 1);
    let limud = MishnaYomis.limud(test_date).expect("limud exists");
    assert_eq!(limud.0.tractate, Tractate::Bechoros);
    assert_eq!(limud.0.chapter, 1);
    assert_eq!(limud.0.mishna, 2);
    assert_eq!(limud.1.tractate, Tractate::Bechoros);
    assert_eq!(limud.1.chapter, 1);
    assert_eq!(limud.1.mishna, 3);
}

#[test]
fn mishna_yomis_1990_01_01() {
    let test_date = from_gregorian_date(1990, 1, 1);
    let limud = MishnaYomis.limud(test_date).expect("limud exists");
    assert_eq!(limud.0.tractate, Tractate::Sotah);
    assert_eq!(limud.0.chapter, 9);
    assert_eq!(limud.0.mishna, 14);
    assert_eq!(limud.1.tractate, Tractate::Sotah);
    assert_eq!(limud.1.chapter, 9);
    assert_eq!(limud.1.mishna, 15);
}

#[test]
fn mishna_yomis_2000_01_01() {
    let test_date = from_gregorian_date(2000, 1, 1);
    let limud = MishnaYomis.limud(test_date).expect("limud exists");
    assert_eq!(limud.0.tractate, Tractate::Shabbos);
    assert_eq!(limud.0.chapter, 9);
    assert_eq!(limud.0.mishna, 5);
    assert_eq!(limud.1.tractate, Tractate::Shabbos);
    assert_eq!(limud.1.chapter, 9);
    assert_eq!(limud.1.mishna, 6);
}

#[test]
fn mishna_yomis_2010_01_01() {
    let test_date = from_gregorian_date(2010, 1, 1);
    let limud = MishnaYomis.limud(test_date).expect("limud exists");
    assert_eq!(limud.0.tractate, Tractate::Taharos);
    assert_eq!(limud.0.chapter, 4);
    assert_eq!(limud.0.mishna, 12);
    assert_eq!(limud.1.tractate, Tractate::Taharos);
    assert_eq!(limud.1.chapter, 4);
    assert_eq!(limud.1.mishna, 13);
}

#[test]
fn mishna_yomis_2016_04_01() {
    let test_date = from_gregorian_date(2016, 4, 1);
    let limud = MishnaYomis.limud(test_date).expect("limud exists");
    // Expected: 'berachos 1:5-2:1' - spans two chapters
    assert_eq!(limud.0.tractate, Tractate::Berachos);
    assert_eq!(limud.0.chapter, 1);
    assert_eq!(limud.0.mishna, 5);
    assert_eq!(limud.1.tractate, Tractate::Berachos);
    assert_eq!(limud.1.chapter, 2);
    assert_eq!(limud.1.mishna, 1);
}

#[test]
fn mishna_yomis_2016_05_01() {
    let test_date = from_gregorian_date(2016, 5, 1);
    let limud = MishnaYomis.limud(test_date).expect("limud exists");
    assert_eq!(limud.0.tractate, Tractate::Peah);
    assert_eq!(limud.0.chapter, 2);
    assert_eq!(limud.0.mishna, 2);
    assert_eq!(limud.1.tractate, Tractate::Peah);
    assert_eq!(limud.1.chapter, 2);
    assert_eq!(limud.1.mishna, 3);
}

#[test]
fn mishna_yomis_2017_01_01() {
    let test_date = from_gregorian_date(2017, 1, 1);
    let limud = MishnaYomis.limud(test_date).expect("limud exists");
    assert_eq!(limud.0.tractate, Tractate::Chalah);
    assert_eq!(limud.0.chapter, 2);
    assert_eq!(limud.0.mishna, 3);
    assert_eq!(limud.1.tractate, Tractate::Chalah);
    assert_eq!(limud.1.chapter, 2);
    assert_eq!(limud.1.mishna, 4);
}

#[test]
fn mishna_yomis_2017_06_01() {
    let test_date = from_gregorian_date(2017, 6, 1);
    let limud = MishnaYomis.limud(test_date).expect("limud exists");
    assert_eq!(limud.0.tractate, Tractate::Eruvin);
    assert_eq!(limud.0.chapter, 7);
    assert_eq!(limud.0.mishna, 8);
    assert_eq!(limud.1.tractate, Tractate::Eruvin);
    assert_eq!(limud.1.chapter, 7);
    assert_eq!(limud.1.mishna, 9);
}

#[test]
fn mishna_yomis_2017_12_01() {
    let test_date = from_gregorian_date(2017, 12, 1);
    let limud = MishnaYomis.limud(test_date).expect("limud exists");
    assert_eq!(limud.0.tractate, Tractate::Taanis);
    assert_eq!(limud.0.chapter, 1);
    assert_eq!(limud.0.mishna, 1);
    assert_eq!(limud.1.tractate, Tractate::Taanis);
    assert_eq!(limud.1.chapter, 1);
    assert_eq!(limud.1.mishna, 2);
}

#[test]
fn mishna_yomis_2018_01_01() {
    let test_date = from_gregorian_date(2018, 1, 1);
    let limud = MishnaYomis.limud(test_date).expect("limud exists");
    assert_eq!(limud.0.tractate, Tractate::Megillah);
    assert_eq!(limud.0.chapter, 4);
    assert_eq!(limud.0.mishna, 6);
    assert_eq!(limud.1.tractate, Tractate::Megillah);
    assert_eq!(limud.1.chapter, 4);
    assert_eq!(limud.1.mishna, 7);
}

#[test]
fn mishna_yomis_2020_01_01() {
    let test_date = from_gregorian_date(2020, 1, 1);
    let limud = MishnaYomis.limud(test_date).expect("limud exists");
    assert_eq!(limud.0.tractate, Tractate::Menachos);
    assert_eq!(limud.0.chapter, 8);
    assert_eq!(limud.0.mishna, 2);
    assert_eq!(limud.1.tractate, Tractate::Menachos);
    assert_eq!(limud.1.chapter, 8);
    assert_eq!(limud.1.mishna, 3);
}

#[test]
fn mishna_yomis_2016_03_31() {
    let test_date = from_gregorian_date(2016, 3, 31);
    let limud = MishnaYomis.limud(test_date).expect("limud exists");
    assert_eq!(limud.0.tractate, Tractate::Berachos);
    assert_eq!(limud.0.chapter, 1);
    assert_eq!(limud.0.mishna, 3);
    assert_eq!(limud.1.tractate, Tractate::Berachos);
    assert_eq!(limud.1.chapter, 1);
    assert_eq!(limud.1.mishna, 4);
}

#[test]
fn mishna_yomis_2016_04_02() {
    let test_date = from_gregorian_date(2016, 4, 2);
    let limud = MishnaYomis.limud(test_date).expect("limud exists");
    assert_eq!(limud.0.tractate, Tractate::Berachos);
    assert_eq!(limud.0.chapter, 2);
    assert_eq!(limud.0.mishna, 2);
    assert_eq!(limud.1.tractate, Tractate::Berachos);
    assert_eq!(limud.1.chapter, 2);
    assert_eq!(limud.1.mishna, 3);
}

#[test]
fn mishna_yomis_2017_12_24() {
    let test_date = from_gregorian_date(2017, 12, 24);
    let limud = MishnaYomis.limud(test_date).expect("limud exists");
    assert_eq!(limud.0.tractate, Tractate::Megillah);
    assert_eq!(limud.0.chapter, 2);
    assert_eq!(limud.0.mishna, 2);
    assert_eq!(limud.1.tractate, Tractate::Megillah);
    assert_eq!(limud.1.chapter, 2);
    assert_eq!(limud.1.mishna, 3);
}

#[test]
fn mishna_yomis_2017_12_25() {
    let test_date = from_gregorian_date(2017, 12, 25);
    let limud = MishnaYomis.limud(test_date).expect("limud exists");
    assert_eq!(limud.0.tractate, Tractate::Megillah);
    assert_eq!(limud.0.chapter, 2);
    assert_eq!(limud.0.mishna, 4);
    assert_eq!(limud.1.tractate, Tractate::Megillah);
    assert_eq!(limud.1.chapter, 2);
    assert_eq!(limud.1.mishna, 5);
}

#[test]
fn mishna_yomis_2017_12_26() {
    let test_date = from_gregorian_date(2017, 12, 26);
    let limud = MishnaYomis.limud(test_date).expect("limud exists");
    // Expected: 'megillah 2:6-3:1' - spans two chapters
    assert_eq!(limud.0.tractate, Tractate::Megillah);
    assert_eq!(limud.0.chapter, 2);
    assert_eq!(limud.0.mishna, 6);
    assert_eq!(limud.1.tractate, Tractate::Megillah);
    assert_eq!(limud.1.chapter, 3);
    assert_eq!(limud.1.mishna, 1);
}

#[test]
fn mishna_yomis_2017_12_27() {
    let test_date = from_gregorian_date(2017, 12, 27);
    let limud = MishnaYomis.limud(test_date).expect("limud exists");
    assert_eq!(limud.0.tractate, Tractate::Megillah);
    assert_eq!(limud.0.chapter, 3);
    assert_eq!(limud.0.mishna, 2);
    assert_eq!(limud.1.tractate, Tractate::Megillah);
    assert_eq!(limud.1.chapter, 3);
    assert_eq!(limud.1.mishna, 3);
}

#[test]
fn mishna_yomis_2012_02_26_rosh_hashanah_chapter_boundary() {
    // Regression test: Rosh Hashanah chapter 2 has 9 mishnayot, not 8
    // This date crosses from chapter 2 to chapter 3
    let test_date = from_gregorian_date(2012, 2, 26);
    let limud = MishnaYomis.limud(test_date).expect("limud exists");
    assert_eq!(limud.0.tractate, Tractate::RoshHashanah);
    assert_eq!(limud.0.chapter, 2);
    assert_eq!(limud.0.mishna, 9);
    assert_eq!(limud.1.tractate, Tractate::RoshHashanah);
    assert_eq!(limud.1.chapter, 3);
    assert_eq!(limud.1.mishna, 1);
}

#[test]
fn mishna_yomis_2012_02_27_rosh_hashanah_chapter_3() {
    // Regression test: Day after crossing chapter boundary
    let test_date = from_gregorian_date(2012, 2, 27);
    let limud = MishnaYomis.limud(test_date).expect("limud exists");
    assert_eq!(limud.0.tractate, Tractate::RoshHashanah);
    assert_eq!(limud.0.chapter, 3);
    assert_eq!(limud.0.mishna, 2);
    assert_eq!(limud.1.tractate, Tractate::RoshHashanah);
    assert_eq!(limud.1.chapter, 3);
    assert_eq!(limud.1.mishna, 3);
}


// pirkei avos

#[test]
fn test_simple_date() {
    // 1st of Sivan 5778
    let test_date = from_hebrew_date(5778, HebrewMonth::Sivan, 1);
    let calculator = PirkeiAvos::new(false);
    let limud = calculator.limud(test_date).expect("limud exists");
    // Expected reading: '6'
    assert_eq!(limud, PirkeiAvosUnit::Single(6));
}

#[test]
fn test_near_end_of_cycle() {
    // 20th of Elul 5778
    let test_date = from_hebrew_date(5778, HebrewMonth::Elul, 20);
    let calculator = PirkeiAvos::new(false);
    let limud = calculator.limud(test_date).expect("limud exists");
    // Expected reading: '3 - 4'
    assert_eq!(limud, PirkeiAvosUnit::Combined(3, 4));
}

#[test]
fn test_after_cycle_completes() {
    // 29th of Elul 5778
    let test_date = from_hebrew_date(5778, HebrewMonth::Elul, 29);
    let calculator = PirkeiAvos::new(false);
    let limud = calculator.limud(test_date);
    assert!(limud.is_none());
}

#[test]
fn test_before_cycle_starts() {
    // 20th of Nissan 5778
    let test_date = from_hebrew_date(5778, HebrewMonth::Nissan, 20);
    let calculator = PirkeiAvos::new(false);
    let limud = calculator.limud(test_date);
    assert!(limud.is_none());
}

#[test]
fn test_8th_day_pesach_outside_israel() {
    // 22nd of Nissan 5778
    let test_date = from_hebrew_date(5778, HebrewMonth::Nissan, 22);
    let calculator = PirkeiAvos::new(false);
    let limud = calculator.limud(test_date);
    assert!(limud.is_none());
}

#[test]
fn test_day_after_pesach_outside_israel() {
    // 23rd of Nissan 5778
    let test_date = from_hebrew_date(5778, HebrewMonth::Nissan, 23);
    let calculator = PirkeiAvos::new(false);
    let limud = calculator.limud(test_date).expect("limud exists");
    // Expected reading: '1'
    assert_eq!(limud, PirkeiAvosUnit::Single(1));
}

#[test]
fn test_compounding_before_cycle_end_outside_israel() {
    // 14th of Elul 5778
    let test_date = from_hebrew_date(5778, HebrewMonth::Elul, 14);
    let calculator = PirkeiAvos::new(false);
    let limud = calculator.limud(test_date).expect("limud exists");
    assert_eq!(limud, PirkeiAvosUnit::Combined(1, 2));

    // 15th of Elul 5778
    let test_date2 = from_hebrew_date(5778, HebrewMonth::Elul, 15);
    let limud2 = calculator.limud(test_date2).expect("limud exists");
    assert_eq!(limud2, PirkeiAvosUnit::Combined(3, 4));
}

#[test]
fn test_8th_day_pesach_in_israel() {
    // 22nd of Nissan 5778 (Shabbos)
    let test_date = from_hebrew_date(5778, HebrewMonth::Nissan, 22);
    let calculator = PirkeiAvos::new(true);
    let limud = calculator.limud(test_date).expect("limud exists");
    // In Israel, cycle starts on 22nd, and if it's Shabbos, that's the first interval
    assert_eq!(limud, PirkeiAvosUnit::Single(1));
}

#[test]
fn test_day_after_pesach_in_israel() {
    // 23rd of Nissan 5778
    let test_date = from_hebrew_date(5778, HebrewMonth::Nissan, 23);
    let calculator = PirkeiAvos::new(true);
    let limud = calculator.limud(test_date).expect("limud exists");
    // Expected reading: '2'
    assert_eq!(limud, PirkeiAvosUnit::Single(2));
}

#[test]
fn test_compounding_before_cycle_end_in_israel() {
    // 21st of Elul 5778
    let test_date = from_hebrew_date(5778, HebrewMonth::Elul, 21);
    let calculator = PirkeiAvos::new(true);
    let limud = calculator.limud(test_date).expect("limud exists");
    assert_eq!(limud, PirkeiAvosUnit::Combined(3, 4));
}

#[test]
fn test_7_sivan_on_shabbos_outside_israel() {
    // 5769 - Sivan 7 falls on Shabbos outside Israel
    // 3rd of Sivan 5769
    let test_date = from_hebrew_date(5769, HebrewMonth::Sivan, 3);
    let calculator = PirkeiAvos::new(false);
    let limud = calculator.limud(test_date);
    // This week is skipped: no unit is read
    assert!(limud.is_none());
}

#[test]
fn test_iteration_following_7_sivan_on_shabbos_outside_israel() {
    // 8th of Sivan 5769
    let test_date = from_hebrew_date(5769, HebrewMonth::Sivan, 8);
    let calculator = PirkeiAvos::new(false);
    let limud = calculator.limud(test_date).expect("limud exists");
    // Expected reading: '1' (starts new sub-cycle)
    assert_eq!(limud, PirkeiAvosUnit::Single(1));
}

#[test]
fn test_7_sivan_on_shabbos_in_israel() {
    // 3rd of Sivan 5769
    let test_date = from_hebrew_date(5769, HebrewMonth::Sivan, 3);
    let calculator = PirkeiAvos::new(true);
    let limud = calculator.limud(test_date).expect("limud exists");
    // In Israel, no skip - expected reading: '1'
    assert_eq!(limud, PirkeiAvosUnit::Single(1));
}

#[test]
fn test_iteration_following_7_sivan_on_shabbos_in_israel() {
    // 8th of Sivan 5769
    let test_date = from_hebrew_date(5769, HebrewMonth::Sivan, 8);
    let calculator = PirkeiAvos::new(true);
    let limud = calculator.limud(test_date).expect("limud exists");
    // Expected reading: '2'
    assert_eq!(limud, PirkeiAvosUnit::Single(2));
}


// tehillim monthly
#[test]
fn tehillim_monthly_simple_date() {
    // 8th of Teves
    let test_date = from_hebrew_date(5778, HebrewMonth::Teves, 8);
    let limud = TehillimMonthly.limud(test_date).expect("limud exists");
    // Day 8 should be psalms 44-48
    assert_eq!(limud, TehillimUnit::Psalms { start: 44, end: 48 });
}

#[test]
fn tehillim_monthly_beginning_of_month() {
    // 1st of Teves
    let test_date = from_hebrew_date(5778, HebrewMonth::Teves, 1);
    let limud = TehillimMonthly.limud(test_date).expect("limud exists");
    // Day 1 should be psalms 1-9
    assert_eq!(limud, TehillimUnit::Psalms { start: 1, end: 9 });
}

#[test]
fn tehillim_monthly_end_of_short_month() {
    // 29th of Teves (29-day month)
    let test_date = from_hebrew_date(5778, HebrewMonth::Teves, 29);
    let limud = TehillimMonthly.limud(test_date).expect("limud exists");
    // Day 29 of a 29-day month should include day 30's reading: psalms 140-150
    assert_eq!(limud, TehillimUnit::Psalms { start: 140, end: 150 });
}

#[test]
fn tehillim_monthly_end_of_long_month() {
    // 30th of Shevat (30-day month)
    let test_date = from_hebrew_date(5778, HebrewMonth::Shevat, 30);
    let limud = TehillimMonthly.limud(test_date).expect("limud exists");
    // Day 30 should be psalms 145-150
    assert_eq!(limud, TehillimUnit::Psalms { start: 145, end: 150 });
}

#[test]
fn tehillim_monthly_29th_day_of_long_month() {
    // 29th of Shevat (30-day month)
    let test_date = from_hebrew_date(5778, HebrewMonth::Shevat, 29);
    let limud = TehillimMonthly.limud(test_date).expect("limud exists");
    // Day 29 of a 30-day month should be psalms 140-144 only
    assert_eq!(limud, TehillimUnit::Psalms { start: 140, end: 144 });
}

#[test]
fn tehillim_monthly_day_25_special_case() {
    // 25th of Shevat
    let test_date = from_hebrew_date(5778, HebrewMonth::Shevat, 25);
    let limud = TehillimMonthly.limud(test_date).expect("limud exists");
    // Day 25 is Psalm 119 verses 1-96
    assert_eq!(
        limud,
        TehillimUnit::PsalmVerses {
            psalm: 119,
            start_verse: 1,
            end_verse: 96
        }
    );
}

#[test]
fn tehillim_monthly_day_26_special_case() {
    // 26th of Shevat
    let test_date = from_hebrew_date(5778, HebrewMonth::Shevat, 26);
    let limud = TehillimMonthly.limud(test_date).expect("limud exists");
    // Day 26 is Psalm 119 verses 97-176
    assert_eq!(
        limud,
        TehillimUnit::PsalmVerses {
            psalm: 119,
            start_verse: 97,
            end_verse: 176
        }
    );
}
