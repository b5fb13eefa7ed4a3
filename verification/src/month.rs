//! The months of the Hebrew calendar.
use vstd::prelude::*;

verus! {

/// The months of the Hebrew calendar, counted from Nissan (1) as in the
/// traditional reckoning. In a leap year there are two Adars: `Adar`
/// (Adar I) and `AdarII`.
#[derive(Debug, PartialEq, Eq, Clone, Copy, Structural)]
pub enum HebrewMonth {
    Nissan,
    Iyar,
    Sivan,
    Tammuz,
    Av,
    Elul,
    Tishrei,
    Cheshvan,
    Kislev,
    Teves,
    Shevat,
    Adar,
    AdarII,
}

/// The traditional number of a month: Nissan is 1 and Adar II is 13.
pub open spec fn month_number(m: HebrewMonth) -> int {
    match m {
        HebrewMonth::Nissan => 1,
        HebrewMonth::Iyar => 2,
        HebrewMonth::Sivan => 3,
        HebrewMonth::Tammuz => 4,
        HebrewMonth::Av => 5,
        HebrewMonth::Elul => 6,
        HebrewMonth::Tishrei => 7,
        HebrewMonth::Cheshvan => 8,
        HebrewMonth::Kislev => 9,
        HebrewMonth::Teves => 10,
        HebrewMonth::Shevat => 11,
        HebrewMonth::Adar => 12,
        HebrewMonth::AdarII => 13,
    }
}

/// The Hebrew name of a month.
pub open spec fn month_name(m: HebrewMonth) -> Seq<char> {
    match m {
        HebrewMonth::Nissan => "ניסן"@,
        HebrewMonth::Iyar => "אייר"@,
        HebrewMonth::Sivan => "סיון"@,
        HebrewMonth::Tammuz => "תמוז"@,
        HebrewMonth::Av => "אב"@,
        HebrewMonth::Elul => "אלול"@,
        HebrewMonth::Tishrei => "תשרי"@,
        HebrewMonth::Cheshvan => "חשון"@,
        HebrewMonth::Kislev => "כסלו"@,
        HebrewMonth::Teves => "טבת"@,
        HebrewMonth::Shevat => "שבט"@,
        HebrewMonth::Adar => "אדר"@,
        HebrewMonth::AdarII => "אדר ב"@,
    }
}

impl HebrewMonth {
    /// The Hebrew name of the month.
    pub fn he(&self) -> (s: &'static str)
        ensures
            s@ == month_name(*self),
    {
        match self {
            HebrewMonth::Nissan => "ניסן",
            HebrewMonth::Iyar => "אייר",
            HebrewMonth::Sivan => "סיון",
            HebrewMonth::Tammuz => "תמוז",
            HebrewMonth::Av => "אב",
            HebrewMonth::Elul => "אלול",
            HebrewMonth::Tishrei => "תשרי",
            HebrewMonth::Cheshvan => "חשון",
            HebrewMonth::Kislev => "כסלו",
            HebrewMonth::Teves => "טבת",
            HebrewMonth::Shevat => "שבט",
            HebrewMonth::Adar => "אדר",
            HebrewMonth::AdarII => "אדר ב",
        }
    }

    /// The month's number, Nissan being 1 and Adar II 13.
    pub fn number(&self) -> (n: u8)
        ensures
            n == month_number(*self),
            1 <= n <= 13,
    {
        match self {
            HebrewMonth::Nissan => 1,
            HebrewMonth::Iyar => 2,
            HebrewMonth::Sivan => 3,
            HebrewMonth::Tammuz => 4,
            HebrewMonth::Av => 5,
            HebrewMonth::Elul => 6,
            HebrewMonth::Tishrei => 7,
            HebrewMonth::Cheshvan => 8,
            HebrewMonth::Kislev => 9,
            HebrewMonth::Teves => 10,
            HebrewMonth::Shevat => 11,
            HebrewMonth::Adar => 12,
            HebrewMonth::AdarII => 13,
        }
    }

    /// The month with the given number, or `None` outside `1..=13`.
    pub fn from_number(n: u8) -> (m: Option<HebrewMonth>)
        ensures
            m is Some <==> 1 <= n <= 13,
            m matches Some(mm) ==> month_number(mm) == n,
    {
        match n {
            1 => Some(HebrewMonth::Nissan),
            2 => Some(HebrewMonth::Iyar),
            3 => Some(HebrewMonth::Sivan),
            4 => Some(HebrewMonth::Tammuz),
            5 => Some(HebrewMonth::Av),
            6 => Some(HebrewMonth::Elul),
            7 => Some(HebrewMonth::Tishrei),
            8 => Some(HebrewMonth::Cheshvan),
            9 => Some(HebrewMonth::Kislev),
            10 => Some(HebrewMonth::Teves),
            11 => Some(HebrewMonth::Shevat),
            12 => Some(HebrewMonth::Adar),
            13 => Some(HebrewMonth::AdarII),
            _ => None,
        }
    }
}

/// How long Cheshvan and Kislev are in a year (the year's _kviah_).
///
/// - `Chaserim`: both are short (Cheshvan and Kislev have 29 days);
/// - `Kesidran`: the regular order (Cheshvan 29 days, Kislev 30 days);
/// - `Shelaimim`: both are long (30 days each).
#[derive(Debug, PartialEq, Eq, Clone, Copy, Structural)]
pub enum YearLengthType {
    Chaserim,
    Kesidran,
    Shelaimim,
}

/// Numbering a month is one to one.
pub proof fn lemma_month_number_injective(a: HebrewMonth, b: HebrewMonth)
    ensures
        month_number(a) == month_number(b) ==> a == b,
{
}

} // verus!
