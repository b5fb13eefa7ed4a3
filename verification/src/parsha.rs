//! The weekly Torah readings and the special Shabbosos.
use vstd::prelude::*;

use crate::arithmetic::{
    get_hebrew_elapsed_days, is_cheshvan_long, is_hebrew_leap_year, is_kislev_short,
    lemma_leap_rules_agree, lemma_year_type, occurring_year_type, spec_days_in_year, spec_elapsed_days,
    spec_is_cheshvan_long, spec_is_kislev_short, spec_is_leap_year, tmod,
};
use crate::date::{HebrewDate, Weekday};
use crate::month::HebrewMonth;

verus! {

/// The weekly Torah readings (parshiyos): the 54 portions of the yearly
/// cycle, the portions read together in some years, and the special
/// Shabbosos (Shekalim, Zachor, Parah, Hachodesh, Shuva, Shira, Hagadol,
/// Chazon and Nachamu).
#[derive(Debug, PartialEq, Eq, Clone, Copy, Structural)]
pub enum Parsha {
    Bereshis,
    Noach,
    LechLecha,
    Vayera,
    ChayeiSara,
    Toldos,
    Vayetzei,
    Vayishlach,
    Vayeshev,
    Miketz,
    Vayigash,
    Vayechi,
    Shemos,
    Vaera,
    Bo,
    Beshalach,
    Yisro,
    Mishpatim,
    Terumah,
    Tetzaveh,
    KiSisa,
    Vayakhel,
    Pekudei,
    Vayikra,
    Tzav,
    Shmini,
    Tazria,
    Metzora,
    AchreiMos,
    Kedoshim,
    Emor,
    Behar,
    Bechukosai,
    Bamidbar,
    Nasso,
    Behaaloscha,
    Shlach,
    Korach,
    Chukas,
    Balak,
    Pinchas,
    Matos,
    Masei,
    Devarim,
    Vaeschanan,
    Eikev,
    Reeh,
    Shoftim,
    KiSeitzei,
    KiSavo,
    Nitzavim,
    Vayeilech,
    HaAzinu,
    VezosHabracha,
    VayakhelPekudei,
    TazriaMetzora,
    AchreiMosKedoshim,
    BeharBechukosai,
    ChukasBalak,
    MatosMasei,
    NitzavimVayeilech,
    Shekalim,
    Zachor,
    Parah,
    Hachodesh,
    Shuva,
    Shira,
    Hagadol,
    Chazon,
    Nachamu,
}

/// The number of a parsha: Bereshis is 0 and Nachamu 69.
pub open spec fn parsha_number(p: Parsha) -> int {
    match p {
        Parsha::Bereshis => 0,
        Parsha::Noach => 1,
        Parsha::LechLecha => 2,
        Parsha::Vayera => 3,
        Parsha::ChayeiSara => 4,
        Parsha::Toldos => 5,
        Parsha::Vayetzei => 6,
        Parsha::Vayishlach => 7,
        Parsha::Vayeshev => 8,
        Parsha::Miketz => 9,
        Parsha::Vayigash => 10,
        Parsha::Vayechi => 11,
        Parsha::Shemos => 12,
        Parsha::Vaera => 13,
        Parsha::Bo => 14,
        Parsha::Beshalach => 15,
        Parsha::Yisro => 16,
        Parsha::Mishpatim => 17,
        Parsha::Terumah => 18,
        Parsha::Tetzaveh => 19,
        Parsha::KiSisa => 20,
        Parsha::Vayakhel => 21,
        Parsha::Pekudei => 22,
        Parsha::Vayikra => 23,
        Parsha::Tzav => 24,
        Parsha::Shmini => 25,
        Parsha::Tazria => 26,
        Parsha::Metzora => 27,
        Parsha::AchreiMos => 28,
        Parsha::Kedoshim => 29,
        Parsha::Emor => 30,
        Parsha::Behar => 31,
        Parsha::Bechukosai => 32,
        Parsha::Bamidbar => 33,
        Parsha::Nasso => 34,
        Parsha::Behaaloscha => 35,
        Parsha::Shlach => 36,
        Parsha::Korach => 37,
        Parsha::Chukas => 38,
        Parsha::Balak => 39,
        Parsha::Pinchas => 40,
        Parsha::Matos => 41,
        Parsha::Masei => 42,
        Parsha::Devarim => 43,
        Parsha::Vaeschanan => 44,
        Parsha::Eikev => 45,
        Parsha::Reeh => 46,
        Parsha::Shoftim => 47,
        Parsha::KiSeitzei => 48,
        Parsha::KiSavo => 49,
        Parsha::Nitzavim => 50,
        Parsha::Vayeilech => 51,
        Parsha::HaAzinu => 52,
        Parsha::VezosHabracha => 53,
        Parsha::VayakhelPekudei => 54,
        Parsha::TazriaMetzora => 55,
        Parsha::AchreiMosKedoshim => 56,
        Parsha::BeharBechukosai => 57,
        Parsha::ChukasBalak => 58,
        Parsha::MatosMasei => 59,
        Parsha::NitzavimVayeilech => 60,
        Parsha::Shekalim => 61,
        Parsha::Zachor => 62,
        Parsha::Parah => 63,
        Parsha::Hachodesh => 64,
        Parsha::Shuva => 65,
        Parsha::Shira => 66,
        Parsha::Hagadol => 67,
        Parsha::Chazon => 68,
        Parsha::Nachamu => 69,
    }
}

/// The Hebrew name of a parsha.
pub open spec fn parsha_name(p: Parsha) -> Seq<char> {
    match p {
        Parsha::Bereshis => "בראשית"@,
        Parsha::Noach => "נח"@,
        Parsha::LechLecha => "לך לך"@,
        Parsha::Vayera => "וירא"@,
        Parsha::ChayeiSara => "חיי שרה"@,
        Parsha::Toldos => "תולדות"@,
        Parsha::Vayetzei => "ויצא"@,
        Parsha::Vayishlach => "וישלח"@,
        Parsha::Vayeshev => "וישב"@,
        Parsha::Miketz => "מקץ"@,
        Parsha::Vayigash => "ויגש"@,
        Parsha::Vayechi => "ויחי"@,
        Parsha::Shemos => "שמות"@,
        Parsha::Vaera => "וארא"@,
        Parsha::Bo => "בא"@,
        Parsha::Beshalach => "בשלח"@,
        Parsha::Yisro => "יתרו"@,
        Parsha::Mishpatim => "משפטים"@,
        Parsha::Terumah => "תרומה"@,
        Parsha::Tetzaveh => "תצוה"@,
        Parsha::KiSisa => "כי תשא"@,
        Parsha::Vayakhel => "ויקהל"@,
        Parsha::Pekudei => "פקודי"@,
        Parsha::Vayikra => "ויקרא"@,
        Parsha::Tzav => "צו"@,
        Parsha::Shmini => "שמיני"@,
        Parsha::Tazria => "תזריע"@,
        Parsha::Metzora => "מצרע"@,
        Parsha::AchreiMos => "אחרי מות"@,
        Parsha::Kedoshim => "קדושים"@,
        Parsha::Emor => "אמור"@,
        Parsha::Behar => "בהר"@,
        Parsha::Bechukosai => "בחקתי"@,
        Parsha::Bamidbar => "במדבר"@,
        Parsha::Nasso => "נשא"@,
        Parsha::Behaaloscha => "בהעלתך"@,
        Parsha::Shlach => "שלח לך"@,
        Parsha::Korach => "קרח"@,
        Parsha::Chukas => "חוקת"@,
        Parsha::Balak => "בלק"@,
        Parsha::Pinchas => "פינחס"@,
        Parsha::Matos => "מטות"@,
        Parsha::Masei => "מסעי"@,
        Parsha::Devarim => "דברים"@,
        Parsha::Vaeschanan => "ואתחנן"@,
        Parsha::Eikev => "עקב"@,
        Parsha::Reeh => "ראה"@,
        Parsha::Shoftim => "שופטים"@,
        Parsha::KiSeitzei => "כי תצא"@,
        Parsha::KiSavo => "כי תבוא"@,
        Parsha::Nitzavim => "נצבים"@,
        Parsha::Vayeilech => "וילך"@,
        Parsha::HaAzinu => "האזינו"@,
        Parsha::VezosHabracha => "וזאת הברכה "@,
        Parsha::VayakhelPekudei => "ויקהל פקודי"@,
        Parsha::TazriaMetzora => "תזריע מצרע"@,
        Parsha::AchreiMosKedoshim => "אחרי מות קדושים"@,
        Parsha::BeharBechukosai => "בהר בחקתי"@,
        Parsha::ChukasBalak => "חוקת בלק"@,
        Parsha::MatosMasei => "מטות מסעי"@,
        Parsha::NitzavimVayeilech => "נצבים וילך"@,
        Parsha::Shekalim => "שקלים"@,
        Parsha::Zachor => "זכור"@,
        Parsha::Parah => "פרה"@,
        Parsha::Hachodesh => "החדש"@,
        Parsha::Shuva => "שובה"@,
        Parsha::Shira => "שירה"@,
        Parsha::Hagadol => "הגדול"@,
        Parsha::Chazon => "חזון"@,
        Parsha::Nachamu => "נחמו"@,
    }
}

impl Parsha {
    /// The Hebrew name of the parsha.
    pub fn he(&self) -> (s: &'static str)
        ensures
            s@ == parsha_name(*self),
    {
        match self {
            Parsha::Bereshis => "בראשית",
            Parsha::Noach => "נח",
            Parsha::LechLecha => "לך לך",
            Parsha::Vayera => "וירא",
            Parsha::ChayeiSara => "חיי שרה",
            Parsha::Toldos => "תולדות",
            Parsha::Vayetzei => "ויצא",
            Parsha::Vayishlach => "וישלח",
            Parsha::Vayeshev => "וישב",
            Parsha::Miketz => "מקץ",
            Parsha::Vayigash => "ויגש",
            Parsha::Vayechi => "ויחי",
            Parsha::Shemos => "שמות",
            Parsha::Vaera => "וארא",
            Parsha::Bo => "בא",
            Parsha::Beshalach => "בשלח",
            Parsha::Yisro => "יתרו",
            Parsha::Mishpatim => "משפטים",
            Parsha::Terumah => "תרומה",
            Parsha::Tetzaveh => "תצוה",
            Parsha::KiSisa => "כי תשא",
            Parsha::Vayakhel => "ויקהל",
            Parsha::Pekudei => "פקודי",
            Parsha::Vayikra => "ויקרא",
            Parsha::Tzav => "צו",
            Parsha::Shmini => "שמיני",
            Parsha::Tazria => "תזריע",
            Parsha::Metzora => "מצרע",
            Parsha::AchreiMos => "אחרי מות",
            Parsha::Kedoshim => "קדושים",
            Parsha::Emor => "אמור",
            Parsha::Behar => "בהר",
            Parsha::Bechukosai => "בחקתי",
            Parsha::Bamidbar => "במדבר",
            Parsha::Nasso => "נשא",
            Parsha::Behaaloscha => "בהעלתך",
            Parsha::Shlach => "שלח לך",
            Parsha::Korach => "קרח",
            Parsha::Chukas => "חוקת",
            Parsha::Balak => "בלק",
            Parsha::Pinchas => "פינחס",
            Parsha::Matos => "מטות",
            Parsha::Masei => "מסעי",
            Parsha::Devarim => "דברים",
            Parsha::Vaeschanan => "ואתחנן",
            Parsha::Eikev => "עקב",
            Parsha::Reeh => "ראה",
            Parsha::Shoftim => "שופטים",
            Parsha::KiSeitzei => "כי תצא",
            Parsha::KiSavo => "כי תבוא",
            Parsha::Nitzavim => "נצבים",
            Parsha::Vayeilech => "וילך",
            Parsha::HaAzinu => "האזינו",
            Parsha::VezosHabracha => "וזאת הברכה ",
            Parsha::VayakhelPekudei => "ויקהל פקודי",
            Parsha::TazriaMetzora => "תזריע מצרע",
            Parsha::AchreiMosKedoshim => "אחרי מות קדושים",
            Parsha::BeharBechukosai => "בהר בחקתי",
            Parsha::ChukasBalak => "חוקת בלק",
            Parsha::MatosMasei => "מטות מסעי",
            Parsha::NitzavimVayeilech => "נצבים וילך",
            Parsha::Shekalim => "שקלים",
            Parsha::Zachor => "זכור",
            Parsha::Parah => "פרה",
            Parsha::Hachodesh => "החדש",
            Parsha::Shuva => "שובה",
            Parsha::Shira => "שירה",
            Parsha::Hagadol => "הגדול",
            Parsha::Chazon => "חזון",
            Parsha::Nachamu => "נחמו",
        }
    }

    /// The parsha's number: Bereshis is 0 and Nachamu 69.
    pub fn number(&self) -> (n: u8)
        ensures
            n == parsha_number(*self),
            n < 70,
    {
        match self {
            Parsha::Bereshis => 0,
            Parsha::Noach => 1,
            Parsha::LechLecha => 2,
            Parsha::Vayera => 3,
            Parsha::ChayeiSara => 4,
            Parsha::Toldos => 5,
            Parsha::Vayetzei => 6,
            Parsha::Vayishlach => 7,
            Parsha::Vayeshev => 8,
            Parsha::Miketz => 9,
            Parsha::Vayigash => 10,
            Parsha::Vayechi => 11,
            Parsha::Shemos => 12,
            Parsha::Vaera => 13,
            Parsha::Bo => 14,
            Parsha::Beshalach => 15,
            Parsha::Yisro => 16,
            Parsha::Mishpatim => 17,
            Parsha::Terumah => 18,
            Parsha::Tetzaveh => 19,
            Parsha::KiSisa => 20,
            Parsha::Vayakhel => 21,
            Parsha::Pekudei => 22,
            Parsha::Vayikra => 23,
            Parsha::Tzav => 24,
            Parsha::Shmini => 25,
            Parsha::Tazria => 26,
            Parsha::Metzora => 27,
            Parsha::AchreiMos => 28,
            Parsha::Kedoshim => 29,
            Parsha::Emor => 30,
            Parsha::Behar => 31,
            Parsha::Bechukosai => 32,
            Parsha::Bamidbar => 33,
            Parsha::Nasso => 34,
            Parsha::Behaaloscha => 35,
            Parsha::Shlach => 36,
            Parsha::Korach => 37,
            Parsha::Chukas => 38,
            Parsha::Balak => 39,
            Parsha::Pinchas => 40,
            Parsha::Matos => 41,
            Parsha::Masei => 42,
            Parsha::Devarim => 43,
            Parsha::Vaeschanan => 44,
            Parsha::Eikev => 45,
            Parsha::Reeh => 46,
            Parsha::Shoftim => 47,
            Parsha::KiSeitzei => 48,
            Parsha::KiSavo => 49,
            Parsha::Nitzavim => 50,
            Parsha::Vayeilech => 51,
            Parsha::HaAzinu => 52,
            Parsha::VezosHabracha => 53,
            Parsha::VayakhelPekudei => 54,
            Parsha::TazriaMetzora => 55,
            Parsha::AchreiMosKedoshim => 56,
            Parsha::BeharBechukosai => 57,
            Parsha::ChukasBalak => 58,
            Parsha::MatosMasei => 59,
            Parsha::NitzavimVayeilech => 60,
            Parsha::Shekalim => 61,
            Parsha::Zachor => 62,
            Parsha::Parah => 63,
            Parsha::Hachodesh => 64,
            Parsha::Shuva => 65,
            Parsha::Shira => 66,
            Parsha::Hagadol => 67,
            Parsha::Chazon => 68,
            Parsha::Nachamu => 69,
        }
    }

    /// The parsha with the given number, or `None` from 70 on.
    pub fn from_number(n: u8) -> (r: Option<Parsha>)
        ensures
            r is Some <==> n < 70,
            r matches Some(p) ==> parsha_number(p) == n,
    {
        match n {
            0 => Some(Parsha::Bereshis),
            1 => Some(Parsha::Noach),
            2 => Some(Parsha::LechLecha),
            3 => Some(Parsha::Vayera),
            4 => Some(Parsha::ChayeiSara),
            5 => Some(Parsha::Toldos),
            6 => Some(Parsha::Vayetzei),
            7 => Some(Parsha::Vayishlach),
            8 => Some(Parsha::Vayeshev),
            9 => Some(Parsha::Miketz),
            10 => Some(Parsha::Vayigash),
            11 => Some(Parsha::Vayechi),
            12 => Some(Parsha::Shemos),
            13 => Some(Parsha::Vaera),
            14 => Some(Parsha::Bo),
            15 => Some(Parsha::Beshalach),
            16 => Some(Parsha::Yisro),
            17 => Some(Parsha::Mishpatim),
            18 => Some(Parsha::Terumah),
            19 => Some(Parsha::Tetzaveh),
            20 => Some(Parsha::KiSisa),
            21 => Some(Parsha::Vayakhel),
            22 => Some(Parsha::Pekudei),
            23 => Some(Parsha::Vayikra),
            24 => Some(Parsha::Tzav),
            25 => Some(Parsha::Shmini),
            26 => Some(Parsha::Tazria),
            27 => Some(Parsha::Metzora),
            28 => Some(Parsha::AchreiMos),
            29 => Some(Parsha::Kedoshim),
            30 => Some(Parsha::Emor),
            31 => Some(Parsha::Behar),
            32 => Some(Parsha::Bechukosai),
            33 => Some(Parsha::Bamidbar),
            34 => Some(Parsha::Nasso),
            35 => Some(Parsha::Behaaloscha),
            36 => Some(Parsha::Shlach),
            37 => Some(Parsha::Korach),
            38 => Some(Parsha::Chukas),
            39 => Some(Parsha::Balak),
            40 => Some(Parsha::Pinchas),
            41 => Some(Parsha::Matos),
            42 => Some(Parsha::Masei),
            43 => Some(Parsha::Devarim),
            44 => Some(Parsha::Vaeschanan),
            45 => Some(Parsha::Eikev),
            46 => Some(Parsha::Reeh),
            47 => Some(Parsha::Shoftim),
            48 => Some(Parsha::KiSeitzei),
            49 => Some(Parsha::KiSavo),
            50 => Some(Parsha::Nitzavim),
            51 => Some(Parsha::Vayeilech),
            52 => Some(Parsha::HaAzinu),
            53 => Some(Parsha::VezosHabracha),
            54 => Some(Parsha::VayakhelPekudei),
            55 => Some(Parsha::TazriaMetzora),
            56 => Some(Parsha::AchreiMosKedoshim),
            57 => Some(Parsha::BeharBechukosai),
            58 => Some(Parsha::ChukasBalak),
            59 => Some(Parsha::MatosMasei),
            60 => Some(Parsha::NitzavimVayeilech),
            61 => Some(Parsha::Shekalim),
            62 => Some(Parsha::Zachor),
            63 => Some(Parsha::Parah),
            64 => Some(Parsha::Hachodesh),
            65 => Some(Parsha::Shuva),
            66 => Some(Parsha::Shira),
            67 => Some(Parsha::Hagadol),
            68 => Some(Parsha::Chazon),
            69 => Some(Parsha::Nachamu),
            _ => None,
        }
    }
}

/// The weekday of Rosh Hashana of a year, from its elapsed days.
pub open spec fn rosh_hashana_weekday(year: int) -> Weekday {
    weekday_of_elapsed(spec_elapsed_days(year))
}

/// The weekday of a day that lies `e` days after the Sunday before the
/// beginning of reckoning, counted as Rosh Hashana is.
pub open spec fn weekday_of_elapsed(e: int) -> Weekday {
    let r = tmod(e + 1, 7);
    if r == 0 {
        Weekday::Saturday
    } else if r == 1 {
        Weekday::Sunday
    } else if r == 2 {
        Weekday::Monday
    } else if r == 3 {
        Weekday::Tuesday
    } else if r == 4 {
        Weekday::Wednesday
    } else if r == 5 {
        Weekday::Thursday
    } else {
        Weekday::Friday
    }
}

/// Which of the seventeen lists of weekly readings a year follows, from the
/// weekday of its Rosh Hashana, whether it is a leap year, the lengths of
/// Cheshvan and Kislev, and whether the customs are those of Israel.
/// `None` for a combination that the calendar does not produce.
pub open spec fn parsha_list_for(year: int, leap: bool, in_israel: bool) -> Option<int> {
    parsha_list_of(
        rosh_hashana_weekday(year),
        spec_is_kislev_short(year),
        spec_is_cheshvan_long(year),
        leap,
        in_israel,
    )
}

/// The list for a year whose Rosh Hashana falls on `w`, with a short Kislev
/// or a long Cheshvan or neither, a leap year or not.
pub open spec fn parsha_list_of(w: Weekday, short: bool, long: bool, leap: bool, in_israel: bool) -> Option<int> {
    if leap {
        if w == Weekday::Monday {
            if short {
                Some(if in_israel { 14int } else { 6int })
            } else if long {
                Some(if in_israel { 15int } else { 7int })
            } else {
                None
            }
        } else if w == Weekday::Tuesday {
            Some(if in_israel { 15int } else { 7int })
        } else if w == Weekday::Thursday {
            if short {
                Some(8int)
            } else if long {
                Some(9int)
            } else {
                None
            }
        } else if w == Weekday::Saturday {
            if short {
                Some(10int)
            } else if long {
                Some(if in_israel { 16int } else { 11int })
            } else {
                None
            }
        } else {
            None
        }
    } else {
        if w == Weekday::Monday {
            if short {
                Some(0int)
            } else if long {
                Some(if in_israel { 12int } else { 1int })
            } else {
                None
            }
        } else if w == Weekday::Tuesday {
            Some(if in_israel { 12int } else { 1int })
        } else if w == Weekday::Thursday {
            if long {
                Some(3int)
            } else if !short {
                Some(if in_israel { 13int } else { 2int })
            } else {
                None
            }
        } else if w == Weekday::Saturday {
            if short {
                Some(4int)
            } else if long {
                Some(5int)
            } else {
                None
            }
        } else {
            None
        }
    }
}

/// Shabbos Hagadol is the Shabbos right before Pesach: whichever Shabbos
/// falls in the seven days before 15 Nissan (8 to 14 Nissan), every year,
/// whatever the week's reading.
pub proof fn lemma_shabbos_hagadol(day: int, leap: bool, weekly: Option<Parsha>)
    requires
        15 - 7 <= day < 15,
    ensures
        special_parsha_on(HebrewMonth::Nissan, day, leap, weekly) == Some(Parsha::Hagadol),
{
}

/// On a Shabbos from 8 to 14 Nissan, `special_parsha` gives Shabbos Hagadol.
pub proof fn lemma_special_parsha_hagadol(date: HebrewDate, weekly: Option<Parsha>)
    requires
        date.spec_weekday() == Weekday::Saturday,
        date.spec_month() == HebrewMonth::Nissan,
        8 <= date.spec_day() <= 14,
    ensures
        special_parsha_on(
            date.spec_month(),
            date.spec_day(),
            spec_is_leap_year(date.spec_year()),
            weekly,
        ) == Some(Parsha::Hagadol),
{
    lemma_shabbos_hagadol(date.spec_day(), spec_is_leap_year(date.spec_year()), weekly);
}

/// Every year from year 1 on follows one of the lists: its type is one of
/// the fourteen that occur, and each of them has a list, in Israel and
/// outside it.
#[verifier::spinoff_prover]
#[verifier::rlimit(60)]
pub proof fn lemma_every_year_has_a_list(year: int, in_israel: bool)
    requires
        year >= 1,
    ensures
        parsha_list_for(year, spec_is_leap_year(year), in_israel) is Some,
{
    lemma_year_type(year);
    let e = spec_elapsed_days(year);
    let len = spec_days_in_year(year);
    lemma_list_of_type(e, len, spec_is_leap_year(year), in_israel);
}

/// Each year type that occurs has a list.
proof fn lemma_list_of_type(e: int, len: int, leap: bool, in_israel: bool)
    requires
        e >= 0,
        occurring_year_type(tmod(e, 7), len, leap),
    ensures
        parsha_list_of(
            weekday_of_elapsed(e),
            tmod(len, 10) == 3,
            tmod(len, 10) == 5,
            leap,
            in_israel,
        ) is Some,
{
    assert(tmod(e, 7) == e % 7);
    assert(tmod(e + 1, 7) == (e + 1) % 7);
    assert(tmod(len, 10) == len % 10);
}

/// The special Shabbos that a Shabbos in the given month and day of a year
/// is, given its weekly reading.
pub open spec fn special_parsha_on(m: HebrewMonth, day: int, leap: bool, weekly: Option<Parsha>) -> Option<Parsha> {
    if ((m == HebrewMonth::Shevat && !leap) || (m == HebrewMonth::Adar && leap)) && (day == 25 || day
        == 27 || day == 29) {
        Some(Parsha::Shekalim)
    } else if ((m == HebrewMonth::Adar && !leap) || m == HebrewMonth::AdarII) && day == 1 {
        Some(Parsha::Shekalim)
    } else if ((m == HebrewMonth::Adar && !leap) || m == HebrewMonth::AdarII) && (day == 8 || day
        == 9 || day == 11 || day == 13) {
        Some(Parsha::Zachor)
    } else if ((m == HebrewMonth::Adar && !leap) || m == HebrewMonth::AdarII) && (day == 18 || day
        == 20 || day == 22 || day == 23) {
        Some(Parsha::Parah)
    } else if ((m == HebrewMonth::Adar && !leap) || m == HebrewMonth::AdarII) && (day == 25 || day
        == 27 || day == 29) {
        Some(Parsha::Hachodesh)
    } else if m == HebrewMonth::Nissan && day == 1 {
        Some(Parsha::Hachodesh)
    } else if m == HebrewMonth::Nissan && 8 <= day <= 14 {
        Some(Parsha::Hagadol)
    } else if m == HebrewMonth::Av && 4 <= day <= 9 {
        Some(Parsha::Chazon)
    } else if m == HebrewMonth::Av && 10 <= day <= 16 {
        Some(Parsha::Nachamu)
    } else if m == HebrewMonth::Tishrei && 3 <= day <= 8 {
        Some(Parsha::Shuva)
    } else if weekly == Some(Parsha::Beshalach) {
        Some(Parsha::Shira)
    } else {
        None
    }
}

impl HebrewDate {
    /// Which of the seventeen lists of weekly readings the date's year
    /// follows (numbered 0 to 16), or `None` where no list fits.
    pub fn parsha_list_number(&self, in_israel: bool) -> (r: Option<u8>)
        ensures
            r matches Some(n) ==> parsha_list_for(self.spec_year(), self.spec_in_leap_year(), in_israel)
                == Some(n as int),
            r is None <==> parsha_list_for(self.spec_year(), self.spec_in_leap_year(), in_israel) is None,
            self.spec_year() >= 1 ==> r is Some,
    {
        let year = self.extended_year();
        proof {
            if year >= 1 {
                lemma_leap_rules_agree(year as int);
                lemma_every_year_has_a_list(year as int, in_israel);
            }
        }
        let rh = (get_hebrew_elapsed_days(year) + 1) % 7;
        let short = is_kislev_short(year);
        let long = is_cheshvan_long(year);
        let w = if rh == 0 {
            Weekday::Saturday
        } else if rh == 1 {
            Weekday::Sunday
        } else if rh == 2 {
            Weekday::Monday
        } else if rh == 3 {
            Weekday::Tuesday
        } else if rh == 4 {
            Weekday::Wednesday
        } else if rh == 5 {
            Weekday::Thursday
        } else {
            Weekday::Friday
        };
        if self.is_in_leap_year() {
            match w {
                Weekday::Monday => {
                    if short {
                        Some(if in_israel { 14 } else { 6 })
                    } else if long {
                        Some(if in_israel { 15 } else { 7 })
                    } else {
                        None
                    }
                },
                Weekday::Tuesday => Some(if in_israel { 15 } else { 7 }),
                Weekday::Thursday => {
                    if short {
                        Some(8)
                    } else if long {
                        Some(9)
                    } else {
                        None
                    }
                },
                Weekday::Saturday => {
                    if short {
                        Some(10)
                    } else if long {
                        Some(if in_israel { 16 } else { 11 })
                    } else {
                        None
                    }
                },
                _ => None,
            }
        } else {
            match w {
                Weekday::Monday => {
                    if short {
                        Some(0)
                    } else if long {
                        Some(if in_israel { 12 } else { 1 })
                    } else {
                        None
                    }
                },
                Weekday::Tuesday => Some(if in_israel { 12 } else { 1 }),
                Weekday::Thursday => {
                    if long {
                        Some(3)
                    } else if !short {
                        Some(if in_israel { 13 } else { 2 })
                    } else {
                        None
                    }
                },
                Weekday::Saturday => {
                    if short {
                        Some(4)
                    } else if long {
                        Some(5)
                    } else {
                        None
                    }
                },
                _ => None,
            }
        }
    }

    /// The special Shabbos (Shekalim, Zachor, Parah, Hachodesh, Hagadol,
    /// Chazon, Nachamu, Shuva or Shira) that this date is, given the weekly
    /// reading of the date; `None` on a weekday or an ordinary Shabbos.
    pub fn special_parsha(&self, todays_parsha: Option<Parsha>) -> (r: Option<Parsha>)
        ensures
            self.spec_weekday() != Weekday::Saturday ==> r is None,
            self.spec_weekday() == Weekday::Saturday ==> r == special_parsha_on(
                self.spec_month(),
                self.spec_day(),
                spec_is_leap_year(self.spec_year()),
                todays_parsha,
            ),
    {
        if self.day_of_week() != Weekday::Saturday {
            return None;
        }
        let month = self.hebrew_month();
        let day = self.day_of_month();
        let year = self.extended_year();
        let is_leap = is_hebrew_leap_year(year);
        let adar = (month == HebrewMonth::Adar && !is_leap) || month == HebrewMonth::AdarII;
        if ((month == HebrewMonth::Shevat && !is_leap) || (month == HebrewMonth::Adar && is_leap))
            && (day == 25 || day == 27 || day == 29) {
            return Some(Parsha::Shekalim);
        }
        if adar {
            if day == 1 {
                return Some(Parsha::Shekalim);
            }
            if day == 8 || day == 9 || day == 11 || day == 13 {
                return Some(Parsha::Zachor);
            }
            if day == 18 || day == 20 || day == 22 || day == 23 {
                return Some(Parsha::Parah);
            }
            if day == 25 || day == 27 || day == 29 {
                return Some(Parsha::Hachodesh);
            }
        }
        if month == HebrewMonth::Nissan {
            if day == 1 {
                return Some(Parsha::Hachodesh);
            }
            if 8 <= day && day <= 14 {
                return Some(Parsha::Hagadol);
            }
        }
        if month == HebrewMonth::Av {
            if 4 <= day && day <= 9 {
                return Some(Parsha::Chazon);
            }
            if 10 <= day && day <= 16 {
                return Some(Parsha::Nachamu);
            }
        }
        if month == HebrewMonth::Tishrei {
            if 3 <= day && day <= 8 {
                return Some(Parsha::Shuva);
            }
        }
        if todays_parsha == Some(Parsha::Beshalach) {
            return Some(Parsha::Shira);
        }
        None
    }
}

} // verus!
