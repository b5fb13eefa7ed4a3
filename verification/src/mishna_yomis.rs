//! Mishna Yomis: two mishnayos a day, in cycles that began on 20 May 1947.
use vstd::prelude::*;

use crate::limud_calculator::LimudCalculator;
use crate::cycle::{find_cycle_spec, lemma_cycle_walk, Cycle, CycleRule, MISHNA_YOMIS_CYCLE_DAYS};
use crate::daf_yomi_bavli::nth;
use crate::date::{valid_day_number, HebrewDate};
use crate::icu::icu_gregorian_day_number;
use crate::units::{all_tractates, all_tractates_seq, Mishna, Tractate};

verus! {

/// Two mishnayos learned together on a day.
#[derive(Debug, Clone, Copy, PartialEq, Eq, Hash, Structural)]
pub struct Mishnas(pub Mishna, pub Mishna);

/// The number of mishnayos in each chapter of a tractate, in order.
pub open spec fn chapter_lengths(t: Tractate) -> Seq<u16> {
    match t {
        Tractate::Berachos => seq![5u16, 8u16, 6u16, 7u16, 5u16, 8u16, 5u16, 8u16, 5u16],
        Tractate::Peah => seq![6u16, 8u16, 8u16, 11u16, 8u16, 11u16, 8u16, 9u16],
        Tractate::Demai => seq![4u16, 5u16, 6u16, 7u16, 11u16, 12u16, 8u16],
        Tractate::Kilayim => seq![9u16, 11u16, 7u16, 9u16, 8u16, 9u16, 8u16, 6u16, 10u16],
        Tractate::Sheviis => seq![8u16, 10u16, 10u16, 10u16, 9u16, 6u16, 7u16, 11u16, 9u16, 9u16],
        Tractate::Terumos => seq![10u16, 6u16, 9u16, 13u16, 9u16, 6u16, 7u16, 12u16, 7u16, 12u16, 10u16],
        Tractate::Maasros => seq![8u16, 8u16, 10u16, 6u16, 8u16],
        Tractate::MaaserSheni => seq![7u16, 10u16, 13u16, 12u16, 15u16],
        Tractate::Chalah => seq![9u16, 8u16, 10u16, 11u16],
        Tractate::Orlah => seq![9u16, 17u16, 9u16],
        Tractate::Bikurim => seq![11u16, 11u16, 12u16, 5u16],
        Tractate::Shabbos => seq![11u16, 7u16, 6u16, 2u16, 4u16, 10u16, 4u16, 7u16, 7u16, 6u16, 6u16, 6u16, 7u16, 4u16, 3u16, 8u16, 8u16, 3u16, 6u16, 5u16, 3u16, 6u16, 5u16, 5u16],
        Tractate::Eruvin => seq![10u16, 6u16, 9u16, 11u16, 9u16, 10u16, 11u16, 11u16, 4u16, 15u16],
        Tractate::Pesachim => seq![7u16, 8u16, 8u16, 9u16, 10u16, 6u16, 13u16, 8u16, 11u16, 9u16],
        Tractate::Shekalim => seq![7u16, 5u16, 4u16, 9u16, 6u16, 6u16, 7u16, 8u16],
        Tractate::Yoma => seq![8u16, 7u16, 11u16, 6u16, 7u16, 8u16, 5u16, 9u16],
        Tractate::Sukkah => seq![11u16, 9u16, 15u16, 10u16, 8u16],
        Tractate::Beitzah => seq![10u16, 10u16, 8u16, 7u16, 7u16],
        Tractate::RoshHashanah => seq![9u16, 9u16, 8u16, 9u16],
        Tractate::Taanis => seq![7u16, 10u16, 9u16, 8u16],
        Tractate::Megillah => seq![11u16, 6u16, 6u16, 10u16],
        Tractate::MoedKatan => seq![10u16, 5u16, 9u16],
        Tractate::Chagigah => seq![8u16, 7u16, 8u16],
        Tractate::Yevamos => seq![4u16, 10u16, 10u16, 13u16, 6u16, 6u16, 6u16, 6u16, 6u16, 9u16, 7u16, 6u16, 13u16, 9u16, 10u16, 7u16],
        Tractate::Kesubos => seq![10u16, 10u16, 9u16, 12u16, 9u16, 7u16, 10u16, 8u16, 9u16, 6u16, 6u16, 4u16, 11u16],
        Tractate::Nedarim => seq![4u16, 5u16, 11u16, 8u16, 6u16, 10u16, 9u16, 7u16, 10u16, 8u16, 12u16],
        Tractate::Nazir => seq![7u16, 10u16, 7u16, 7u16, 7u16, 11u16, 4u16, 2u16, 5u16],
        Tractate::Sotah => seq![9u16, 6u16, 8u16, 5u16, 5u16, 4u16, 8u16, 7u16, 15u16],
        Tractate::Gitin => seq![6u16, 7u16, 8u16, 9u16, 9u16, 7u16, 9u16, 10u16, 10u16],
        Tractate::Kiddushin => seq![10u16, 10u16, 13u16, 14u16],
        Tractate::BavaKamma => seq![4u16, 6u16, 11u16, 9u16, 7u16, 6u16, 7u16, 7u16, 12u16, 10u16],
        Tractate::BavaMetzia => seq![8u16, 11u16, 12u16, 12u16, 11u16, 8u16, 11u16, 9u16, 13u16, 6u16],
        Tractate::BavaBasra => seq![6u16, 14u16, 8u16, 9u16, 11u16, 8u16, 4u16, 8u16, 10u16, 8u16],
        Tractate::Sanhedrin => seq![6u16, 5u16, 8u16, 5u16, 5u16, 6u16, 11u16, 7u16, 6u16, 6u16, 6u16],
        Tractate::Makkos => seq![10u16, 8u16, 16u16],
        Tractate::Shevuos => seq![7u16, 5u16, 11u16, 13u16, 5u16, 7u16, 8u16, 6u16],
        Tractate::Eduyos => seq![14u16, 10u16, 12u16, 12u16, 7u16, 3u16, 9u16, 7u16],
        Tractate::AvodahZarah => seq![9u16, 7u16, 10u16, 12u16, 12u16],
        Tractate::Avos => seq![18u16, 16u16, 18u16, 22u16, 23u16, 11u16],
        Tractate::Horiyos => seq![5u16, 7u16, 8u16],
        Tractate::Zevachim => seq![4u16, 5u16, 6u16, 6u16, 8u16, 7u16, 6u16, 12u16, 7u16, 8u16, 8u16, 6u16, 8u16, 10u16],
        Tractate::Menachos => seq![4u16, 5u16, 7u16, 5u16, 9u16, 7u16, 6u16, 7u16, 9u16, 9u16, 9u16, 5u16, 11u16],
        Tractate::Chullin => seq![7u16, 10u16, 7u16, 7u16, 5u16, 7u16, 6u16, 6u16, 8u16, 4u16, 2u16, 5u16],
        Tractate::Bechoros => seq![7u16, 9u16, 4u16, 10u16, 6u16, 12u16, 7u16, 10u16, 8u16],
        Tractate::Arachin => seq![4u16, 6u16, 5u16, 4u16, 6u16, 5u16, 5u16, 7u16, 8u16],
        Tractate::Temurah => seq![6u16, 3u16, 5u16, 4u16, 6u16, 5u16, 6u16],
        Tractate::Kerisos => seq![7u16, 6u16, 10u16, 3u16, 8u16, 9u16],
        Tractate::Meilah => seq![4u16, 9u16, 8u16, 6u16, 5u16, 6u16],
        Tractate::Tamid => seq![4u16, 5u16, 9u16, 3u16, 6u16, 3u16, 4u16],
        Tractate::Midos => seq![9u16, 6u16, 8u16, 7u16, 4u16],
        Tractate::Kinnim => seq![4u16, 5u16, 6u16],
        Tractate::Keilim => seq![9u16, 8u16, 8u16, 4u16, 11u16, 4u16, 6u16, 11u16, 8u16, 8u16, 9u16, 8u16, 8u16, 8u16, 6u16, 8u16, 17u16, 9u16, 10u16, 7u16, 3u16, 10u16, 5u16, 17u16, 9u16, 9u16, 12u16, 10u16, 8u16, 4u16],
        Tractate::Ohalos => seq![8u16, 7u16, 7u16, 3u16, 7u16, 7u16, 6u16, 6u16, 16u16, 7u16, 9u16, 8u16, 6u16, 7u16, 10u16, 5u16, 5u16, 10u16],
        Tractate::Negaim => seq![6u16, 5u16, 8u16, 11u16, 5u16, 8u16, 5u16, 10u16, 3u16, 10u16, 12u16, 7u16, 12u16, 13u16],
        Tractate::Parah => seq![4u16, 5u16, 11u16, 4u16, 9u16, 5u16, 12u16, 11u16, 9u16, 6u16, 9u16, 11u16],
        Tractate::Taharos => seq![9u16, 8u16, 8u16, 13u16, 9u16, 10u16, 9u16, 9u16, 9u16, 8u16],
        Tractate::Mikvaos => seq![8u16, 10u16, 4u16, 5u16, 6u16, 11u16, 7u16, 5u16, 7u16, 8u16],
        Tractate::Niddah => seq![7u16, 7u16, 7u16, 7u16, 9u16, 14u16, 5u16, 4u16, 11u16, 8u16],
        Tractate::Machshirin => seq![6u16, 11u16, 8u16, 10u16, 11u16, 8u16],
        Tractate::Zavim => seq![6u16, 4u16, 3u16, 7u16, 12u16],
        Tractate::TevulYom => seq![5u16, 8u16, 6u16, 7u16],
        Tractate::Yadayim => seq![5u16, 4u16, 5u16, 8u16],
        Tractate::Uktzin => seq![6u16, 10u16, 12u16],
    }
}

/// The mishnayos of one chapter of a tractate.
pub open spec fn chapter_mishnayos(t: Tractate, chapter: int, len: int) -> Seq<Mishna> {
    Seq::new(
        if len >= 0 {
            len as nat
        } else {
            0nat
        },
        |m: int| Mishna { tractate: t, chapter: chapter as usize, mishna: (m + 1) as u16 },
    )
}

/// The mishnayos of the first chapters of a tractate, whose lengths are given.
pub open spec fn mishnayos_of_chapters(t: Tractate, lens: Seq<u16>) -> Seq<Mishna>
    decreases lens.len(),
{
    if lens.len() == 0 {
        Seq::empty()
    } else {
        mishnayos_of_chapters(t, lens.drop_last()) + chapter_mishnayos(
            t,
            lens.len() as int,
            lens.last() as int,
        )
    }
}

/// The mishnayos of the given tractates, in order.
pub open spec fn mishnayos_of(ts: Seq<Tractate>) -> Seq<Mishna>
    decreases ts.len(),
{
    if ts.len() == 0 {
        Seq::empty()
    } else {
        mishnayos_of(ts.drop_last()) + mishnayos_of_chapters(ts.last(), chapter_lengths(ts.last()))
    }
}

/// All mishnayos, in order.
pub open spec fn all_mishnayos() -> Seq<Mishna> {
    mishnayos_of(all_tractates_seq())
}

/// The day the first cycle began: 20 May 1947.
pub open spec fn mishna_yomis_first_day() -> Option<i64> {
    icu_gregorian_day_number(1947, 5, 20)
}

/// The two mishnayos learned on day `n` of a cycle (counting from 0).
pub open spec fn mishnas_of_day(n: int) -> Option<Mishnas> {
    match (nth(all_mishnayos(), 2 * n), nth(all_mishnayos(), 2 * n + 1)) {
        (Some(a), Some(b)) => Some(Mishnas(a, b)),
        _ => None,
    }
}

/// The mishnayos learned on day number `d`.
pub open spec fn mishna_yomis_on(d: int) -> Option<Mishnas> {
    match mishna_yomis_first_day() {
        Some(s0) => if valid_day_number(s0 as int) {
            match find_cycle_spec(CycleRule::MishnaYomis, s0 as int, d) {
                Some(c) => mishnas_of_day(d - c.0),
                None => None,
            }
        } else {
            None
        },
        None => None,
    }
}

/// The number of chapters of a tractate.
pub fn chapters(tractate: Tractate) -> (r: usize)
    ensures
        r == chapter_lengths(tractate).len(),
{
    let r: usize = match tractate {
        Tractate::Berachos => 9,
        Tractate::Peah => 8,
        Tractate::Demai => 7,
        Tractate::Kilayim => 9,
        Tractate::Sheviis => 10,
        Tractate::Terumos => 11,
        Tractate::Maasros => 5,
        Tractate::MaaserSheni => 5,
        Tractate::Chalah => 4,
        Tractate::Orlah => 3,
        Tractate::Bikurim => 4,
        Tractate::Shabbos => 24,
        Tractate::Eruvin => 10,
        Tractate::Pesachim => 10,
        Tractate::Shekalim => 8,
        Tractate::Yoma => 8,
        Tractate::Sukkah => 5,
        Tractate::Beitzah => 5,
        Tractate::RoshHashanah => 4,
        Tractate::Taanis => 4,
        Tractate::Megillah => 4,
        Tractate::MoedKatan => 3,
        Tractate::Chagigah => 3,
        Tractate::Yevamos => 16,
        Tractate::Kesubos => 13,
        Tractate::Nedarim => 11,
        Tractate::Nazir => 9,
        Tractate::Sotah => 9,
        Tractate::Gitin => 9,
        Tractate::Kiddushin => 4,
        Tractate::BavaKamma => 10,
        Tractate::BavaMetzia => 10,
        Tractate::BavaBasra => 10,
        Tractate::Sanhedrin => 11,
        Tractate::Makkos => 3,
        Tractate::Shevuos => 8,
        Tractate::Eduyos => 8,
        Tractate::AvodahZarah => 5,
        Tractate::Avos => 6,
        Tractate::Horiyos => 3,
        Tractate::Zevachim => 14,
        Tractate::Menachos => 13,
        Tractate::Chullin => 12,
        Tractate::Bechoros => 9,
        Tractate::Arachin => 9,
        Tractate::Temurah => 7,
        Tractate::Kerisos => 6,
        Tractate::Meilah => 6,
        Tractate::Tamid => 7,
        Tractate::Midos => 5,
        Tractate::Kinnim => 3,
        Tractate::Keilim => 30,
        Tractate::Ohalos => 18,
        Tractate::Negaim => 14,
        Tractate::Parah => 12,
        Tractate::Taharos => 10,
        Tractate::Mikvaos => 10,
        Tractate::Niddah => 10,
        Tractate::Machshirin => 6,
        Tractate::Zavim => 5,
        Tractate::TevulYom => 4,
        Tractate::Yadayim => 4,
        Tractate::Uktzin => 3,
    };
    assert(r == chapter_lengths(tractate).len()) by {
        reveal_with_fuel(chapter_lengths, 1);
    }
    r
}

/// The number of mishnayos in a chapter (counted from 1) of a tractate.
pub fn chapter_length(tractate: Tractate, chapter: usize) -> (r: u16)
    requires
        1 <= chapter <= chapter_lengths(tractate).len(),
    ensures
        r == chapter_lengths(tractate)[chapter - 1],
{
    let chapter_index = chapter - 1;
    let lens: Vec<u16> = match tractate {
        Tractate::Berachos => vec![5, 8, 6, 7, 5, 8, 5, 8, 5],
        Tractate::Peah => vec![6, 8, 8, 11, 8, 11, 8, 9],
        Tractate::Demai => vec![4, 5, 6, 7, 11, 12, 8],
        Tractate::Kilayim => vec![9, 11, 7, 9, 8, 9, 8, 6, 10],
        Tractate::Sheviis => vec![8, 10, 10, 10, 9, 6, 7, 11, 9, 9],
        Tractate::Terumos => vec![10, 6, 9, 13, 9, 6, 7, 12, 7, 12, 10],
        Tractate::Maasros => vec![8, 8, 10, 6, 8],
        Tractate::MaaserSheni => vec![7, 10, 13, 12, 15],
        Tractate::Chalah => vec![9, 8, 10, 11],
        Tractate::Orlah => vec![9, 17, 9],
        Tractate::Bikurim => vec![11, 11, 12, 5],
        Tractate::Shabbos => vec![11, 7, 6, 2, 4, 10, 4, 7, 7, 6, 6, 6, 7, 4, 3, 8, 8, 3, 6, 5, 3, 6, 5, 5],
        Tractate::Eruvin => vec![10, 6, 9, 11, 9, 10, 11, 11, 4, 15],
        Tractate::Pesachim => vec![7, 8, 8, 9, 10, 6, 13, 8, 11, 9],
        Tractate::Shekalim => vec![7, 5, 4, 9, 6, 6, 7, 8],
        Tractate::Yoma => vec![8, 7, 11, 6, 7, 8, 5, 9],
        Tractate::Sukkah => vec![11, 9, 15, 10, 8],
        Tractate::Beitzah => vec![10, 10, 8, 7, 7],
        Tractate::RoshHashanah => vec![9, 9, 8, 9],
        Tractate::Taanis => vec![7, 10, 9, 8],
        Tractate::Megillah => vec![11, 6, 6, 10],
        Tractate::MoedKatan => vec![10, 5, 9],
        Tractate::Chagigah => vec![8, 7, 8],
        Tractate::Yevamos => vec![4, 10, 10, 13, 6, 6, 6, 6, 6, 9, 7, 6, 13, 9, 10, 7],
        Tractate::Kesubos => vec![10, 10, 9, 12, 9, 7, 10, 8, 9, 6, 6, 4, 11],
        Tractate::Nedarim => vec![4, 5, 11, 8, 6, 10, 9, 7, 10, 8, 12],
        Tractate::Nazir => vec![7, 10, 7, 7, 7, 11, 4, 2, 5],
        Tractate::Sotah => vec![9, 6, 8, 5, 5, 4, 8, 7, 15],
        Tractate::Gitin => vec![6, 7, 8, 9, 9, 7, 9, 10, 10],
        Tractate::Kiddushin => vec![10, 10, 13, 14],
        Tractate::BavaKamma => vec![4, 6, 11, 9, 7, 6, 7, 7, 12, 10],
        Tractate::BavaMetzia => vec![8, 11, 12, 12, 11, 8, 11, 9, 13, 6],
        Tractate::BavaBasra => vec![6, 14, 8, 9, 11, 8, 4, 8, 10, 8],
        Tractate::Sanhedrin => vec![6, 5, 8, 5, 5, 6, 11, 7, 6, 6, 6],
        Tractate::Makkos => vec![10, 8, 16],
        Tractate::Shevuos => vec![7, 5, 11, 13, 5, 7, 8, 6],
        Tractate::Eduyos => vec![14, 10, 12, 12, 7, 3, 9, 7],
        Tractate::AvodahZarah => vec![9, 7, 10, 12, 12],
        Tractate::Avos => vec![18, 16, 18, 22, 23, 11],
        Tractate::Horiyos => vec![5, 7, 8],
        Tractate::Zevachim => vec![4, 5, 6, 6, 8, 7, 6, 12, 7, 8, 8, 6, 8, 10],
        Tractate::Menachos => vec![4, 5, 7, 5, 9, 7, 6, 7, 9, 9, 9, 5, 11],
        Tractate::Chullin => vec![7, 10, 7, 7, 5, 7, 6, 6, 8, 4, 2, 5],
        Tractate::Bechoros => vec![7, 9, 4, 10, 6, 12, 7, 10, 8],
        Tractate::Arachin => vec![4, 6, 5, 4, 6, 5, 5, 7, 8],
        Tractate::Temurah => vec![6, 3, 5, 4, 6, 5, 6],
        Tractate::Kerisos => vec![7, 6, 10, 3, 8, 9],
        Tractate::Meilah => vec![4, 9, 8, 6, 5, 6],
        Tractate::Tamid => vec![4, 5, 9, 3, 6, 3, 4],
        Tractate::Midos => vec![9, 6, 8, 7, 4],
        Tractate::Kinnim => vec![4, 5, 6],
        Tractate::Keilim => vec![9, 8, 8, 4, 11, 4, 6, 11, 8, 8, 9, 8, 8, 8, 6, 8, 17, 9, 10, 7, 3, 10, 5, 17, 9, 9, 12, 10, 8, 4],
        Tractate::Ohalos => vec![8, 7, 7, 3, 7, 7, 6, 6, 16, 7, 9, 8, 6, 7, 10, 5, 5, 10],
        Tractate::Negaim => vec![6, 5, 8, 11, 5, 8, 5, 10, 3, 10, 12, 7, 12, 13],
        Tractate::Parah => vec![4, 5, 11, 4, 9, 5, 12, 11, 9, 6, 9, 11],
        Tractate::Taharos => vec![9, 8, 8, 13, 9, 10, 9, 9, 9, 8],
        Tractate::Mikvaos => vec![8, 10, 4, 5, 6, 11, 7, 5, 7, 8],
        Tractate::Niddah => vec![7, 7, 7, 7, 9, 14, 5, 4, 11, 8],
        Tractate::Machshirin => vec![6, 11, 8, 10, 11, 8],
        Tractate::Zavim => vec![6, 4, 3, 7, 12],
        Tractate::TevulYom => vec![5, 8, 6, 7],
        Tractate::Yadayim => vec![5, 4, 5, 8],
        Tractate::Uktzin => vec![6, 10, 12],
    };
    assert(lens@ =~= chapter_lengths(tractate));
    lens[chapter_index]
}

/// The mishna at position `index` of all mishnayos, if there are so many.
pub fn mishna_at(index: usize) -> (r: Option<Mishna>)
    ensures
        r == nth(all_mishnayos(), index as int),
{
    let ts = all_tractates();
    let mut remaining: usize = index;
    let mut i: usize = 0;
    while i < 63
        invariant
            0 <= i <= 63,
            ts@ == all_tractates_seq(),
            index >= mishnayos_of(ts@.take(i as int)).len(),
            remaining == index - mishnayos_of(ts@.take(i as int)).len(),
        decreases 63 - i,
    {
        let t = ts[i];
        let ghost prefix = mishnayos_of(ts@.take(i as int));
        assert(ts@.take(i + 1).drop_last() =~= ts@.take(i as int));
        assert(mishnayos_of(ts@.take(i + 1)) == prefix + mishnayos_of_chapters(t, chapter_lengths(t)));
        let n = chapters(t);
        let mut c: usize = 1;
        while c <= n
            invariant
                1 <= c <= n + 1,
                n == chapter_lengths(t).len(),
                n <= 30,
                ts@ == all_tractates_seq(),
                t == ts@[i as int],
                0 <= i < 63,
                prefix == mishnayos_of(ts@.take(i as int)),
                mishnayos_of(ts@.take(i + 1)) == prefix + mishnayos_of_chapters(t, chapter_lengths(t)),
                index >= prefix.len() + mishnayos_of_chapters(t, chapter_lengths(t).take(c - 1)).len(),
                remaining == index - prefix.len() - mishnayos_of_chapters(
                    t,
                    chapter_lengths(t).take(c - 1),
                ).len(),
            decreases n + 1 - c,
        {
            let len = chapter_length(t, c);
            let ghost lens = chapter_lengths(t);
            let ghost before = mishnayos_of_chapters(t, lens.take(c - 1));
            assert(lens.take(c as int).drop_last() =~= lens.take(c - 1));
            assert(mishnayos_of_chapters(t, lens.take(c as int)) == before + chapter_mishnayos(
                t,
                c as int,
                len as int,
            ));
            if remaining < len as usize {
                let r = Mishna { tractate: t, chapter: c, mishna: remaining as u16 + 1 };
                proof {
                    lemma_chapters_prefix(t, lens, c as int);
                    assert(mishnayos_of_chapters(t, lens.take(c as int))[remaining + before.len()] == r);
                    assert(mishnayos_of_chapters(t, lens)[remaining + before.len()] == r);
                    lemma_mishnayos_prefix(ts@, i as int + 1);
                    assert((prefix + mishnayos_of_chapters(t, lens))[index as int] == r);
                }
                return Some(r);
            }
            remaining = remaining - len as usize;
            c += 1;
        }
        assert(chapter_lengths(t).take(n as int) =~= chapter_lengths(t));
        i += 1;
    }
    assert(ts@.take(63) =~= ts@);
    None
}

/// The mishnayos of a tractate's first chapters are a prefix of those of all
/// its chapters.
pub proof fn lemma_chapters_prefix(t: Tractate, lens: Seq<u16>, k: int)
    requires
        0 <= k <= lens.len(),
    ensures
        mishnayos_of_chapters(t, lens.take(k)).len() <= mishnayos_of_chapters(t, lens).len(),
        forall|j: int|
            0 <= j < mishnayos_of_chapters(t, lens.take(k)).len() ==> #[trigger] mishnayos_of_chapters(
                t,
                lens.take(k),
            )[j] == mishnayos_of_chapters(t, lens)[j],
    decreases lens.len() - k,
{
    if k < lens.len() {
        lemma_chapters_prefix(t, lens, k + 1);
        assert(lens.take(k + 1).drop_last() =~= lens.take(k));
        let short = mishnayos_of_chapters(t, lens.take(k));
        let long = mishnayos_of_chapters(t, lens.take(k + 1));
        assert forall|j: int| 0 <= j < short.len() implies #[trigger] short[j]
            == mishnayos_of_chapters(t, lens)[j] by {
            assert(long[j] == short[j]);
        }
    } else {
        assert(lens.take(k) =~= lens);
    }
}

/// The mishnayos of a prefix of the tractates are a prefix of all mishnayos
/// of the tractates.
pub proof fn lemma_mishnayos_prefix(ts: Seq<Tractate>, k: int)
    requires
        0 <= k <= ts.len(),
    ensures
        mishnayos_of(ts.take(k)).len() <= mishnayos_of(ts).len(),
        forall|j: int|
            0 <= j < mishnayos_of(ts.take(k)).len() ==> #[trigger] mishnayos_of(ts.take(k))[j]
                == mishnayos_of(ts)[j],
    decreases ts.len() - k,
{
    if k < ts.len() {
        lemma_mishnayos_prefix(ts, k + 1);
        assert(ts.take(k + 1).drop_last() =~= ts.take(k));
        let short = mishnayos_of(ts.take(k));
        let long = mishnayos_of(ts.take(k + 1));
        assert forall|j: int| 0 <= j < short.len() implies #[trigger] short[j] == mishnayos_of(ts)[j] by {
            assert(long[j] == short[j]);
        }
    } else {
        assert(ts.take(k) =~= ts);
    }
}

/// The sum of a sequence of chapter lengths.
pub open spec fn seq_sum(s: Seq<u16>) -> int
    decreases s.len(),
{
    if s.len() == 0 {
        0
    } else {
        seq_sum(s.drop_last()) + s.last()
    }
}

/// A tractate has as many mishnayos as its chapters hold together.
pub proof fn lemma_chapters_count(t: Tractate, lens: Seq<u16>)
    ensures
        mishnayos_of_chapters(t, lens).len() == seq_sum(lens),
    decreases lens.len(),
{
    if lens.len() > 0 {
        lemma_chapters_count(t, lens.drop_last());
    }
}

/// The number of mishnayos in a tractate.
pub open spec fn tractate_mishna_count(t: Tractate) -> int {
    match t {
        Tractate::Berachos => 57,
        Tractate::Peah => 69,
        Tractate::Demai => 53,
        Tractate::Kilayim => 77,
        Tractate::Sheviis => 89,
        Tractate::Terumos => 101,
        Tractate::Maasros => 40,
        Tractate::MaaserSheni => 57,
        Tractate::Chalah => 38,
        Tractate::Orlah => 35,
        Tractate::Bikurim => 39,
        Tractate::Shabbos => 139,
        Tractate::Eruvin => 96,
        Tractate::Pesachim => 89,
        Tractate::Shekalim => 52,
        Tractate::Yoma => 61,
        Tractate::Sukkah => 53,
        Tractate::Beitzah => 42,
        Tractate::RoshHashanah => 35,
        Tractate::Taanis => 34,
        Tractate::Megillah => 33,
        Tractate::MoedKatan => 24,
        Tractate::Chagigah => 23,
        Tractate::Yevamos => 128,
        Tractate::Kesubos => 111,
        Tractate::Nedarim => 90,
        Tractate::Nazir => 60,
        Tractate::Sotah => 67,
        Tractate::Gitin => 75,
        Tractate::Kiddushin => 47,
        Tractate::BavaKamma => 79,
        Tractate::BavaMetzia => 101,
        Tractate::BavaBasra => 86,
        Tractate::Sanhedrin => 71,
        Tractate::Makkos => 34,
        Tractate::Shevuos => 62,
        Tractate::Eduyos => 74,
        Tractate::AvodahZarah => 50,
        Tractate::Avos => 108,
        Tractate::Horiyos => 20,
        Tractate::Zevachim => 101,
        Tractate::Menachos => 93,
        Tractate::Chullin => 74,
        Tractate::Bechoros => 73,
        Tractate::Arachin => 50,
        Tractate::Temurah => 35,
        Tractate::Kerisos => 43,
        Tractate::Meilah => 38,
        Tractate::Tamid => 34,
        Tractate::Midos => 34,
        Tractate::Kinnim => 15,
        Tractate::Keilim => 254,
        Tractate::Ohalos => 134,
        Tractate::Negaim => 115,
        Tractate::Parah => 96,
        Tractate::Taharos => 92,
        Tractate::Mikvaos => 71,
        Tractate::Niddah => 79,
        Tractate::Machshirin => 54,
        Tractate::Zavim => 32,
        Tractate::TevulYom => 26,
        Tractate::Yadayim => 22,
        Tractate::Uktzin => 28,
    }
}

/// Counting the mishnayos of each tractate.
pub proof fn lemma_tractate_count(t: Tractate)
    ensures
        mishnayos_of_chapters(t, chapter_lengths(t)).len() == tractate_mishna_count(t),
{
    lemma_chapters_count(t, chapter_lengths(t));
    match t {
        Tractate::Berachos => lemma_sum_group_0(t),
        Tractate::Peah => lemma_sum_group_0(t),
        Tractate::Demai => lemma_sum_group_0(t),
        Tractate::Kilayim => lemma_sum_group_0(t),
        Tractate::Sheviis => lemma_sum_group_1(t),
        Tractate::Terumos => lemma_sum_group_1(t),
        Tractate::Maasros => lemma_sum_group_1(t),
        Tractate::MaaserSheni => lemma_sum_group_1(t),
        Tractate::Chalah => lemma_sum_group_2(t),
        Tractate::Orlah => lemma_sum_group_2(t),
        Tractate::Bikurim => lemma_sum_group_2(t),
        Tractate::Shabbos => lemma_sum_group_2(t),
        Tractate::Eruvin => lemma_sum_group_3(t),
        Tractate::Pesachim => lemma_sum_group_3(t),
        Tractate::Shekalim => lemma_sum_group_3(t),
        Tractate::Yoma => lemma_sum_group_3(t),
        Tractate::Sukkah => lemma_sum_group_4(t),
        Tractate::Beitzah => lemma_sum_group_4(t),
        Tractate::RoshHashanah => lemma_sum_group_4(t),
        Tractate::Taanis => lemma_sum_group_4(t),
        Tractate::Megillah => lemma_sum_group_5(t),
        Tractate::MoedKatan => lemma_sum_group_5(t),
        Tractate::Chagigah => lemma_sum_group_5(t),
        Tractate::Yevamos => lemma_sum_group_5(t),
        Tractate::Kesubos => lemma_sum_group_6(t),
        Tractate::Nedarim => lemma_sum_group_6(t),
        Tractate::Nazir => lemma_sum_group_6(t),
        Tractate::Sotah => lemma_sum_group_6(t),
        Tractate::Gitin => lemma_sum_group_7(t),
        Tractate::Kiddushin => lemma_sum_group_7(t),
        Tractate::BavaKamma => lemma_sum_group_7(t),
        Tractate::BavaMetzia => lemma_sum_group_7(t),
        Tractate::BavaBasra => lemma_sum_group_8(t),
        Tractate::Sanhedrin => lemma_sum_group_8(t),
        Tractate::Makkos => lemma_sum_group_8(t),
        Tractate::Shevuos => lemma_sum_group_8(t),
        Tractate::Eduyos => lemma_sum_group_9(t),
        Tractate::AvodahZarah => lemma_sum_group_9(t),
        Tractate::Avos => lemma_sum_group_9(t),
        Tractate::Horiyos => lemma_sum_group_9(t),
        Tractate::Zevachim => lemma_sum_group_10(t),
        Tractate::Menachos => lemma_sum_group_10(t),
        Tractate::Chullin => lemma_sum_group_10(t),
        Tractate::Bechoros => lemma_sum_group_10(t),
        Tractate::Arachin => lemma_sum_group_11(t),
        Tractate::Temurah => lemma_sum_group_11(t),
        Tractate::Kerisos => lemma_sum_group_11(t),
        Tractate::Meilah => lemma_sum_group_11(t),
        Tractate::Tamid => lemma_sum_group_12(t),
        Tractate::Midos => lemma_sum_group_12(t),
        Tractate::Kinnim => lemma_sum_group_12(t),
        Tractate::Keilim => lemma_sum_group_12(t),
        Tractate::Ohalos => lemma_sum_group_13(t),
        Tractate::Negaim => lemma_sum_group_13(t),
        Tractate::Parah => lemma_sum_group_13(t),
        Tractate::Taharos => lemma_sum_group_13(t),
        Tractate::Mikvaos => lemma_sum_group_14(t),
        Tractate::Niddah => lemma_sum_group_14(t),
        Tractate::Machshirin => lemma_sum_group_14(t),
        Tractate::Zavim => lemma_sum_group_14(t),
        Tractate::TevulYom => lemma_sum_group_15(t),
        Tractate::Yadayim => lemma_sum_group_15(t),
        Tractate::Uktzin => lemma_sum_group_15(t),
    }
}

/// The chapter lengths of some tractates add up to their mishna counts.
#[verifier::rlimit(40)]
proof fn lemma_sum_group_0(t: Tractate)
    requires
        t == Tractate::Berachos || t == Tractate::Peah || t == Tractate::Demai || t == Tractate::Kilayim,
    ensures
        seq_sum(chapter_lengths(t)) == tractate_mishna_count(t),
{
    match t {
        Tractate::Berachos => {
            reveal_with_fuel(seq_sum, 10);
            assert(seq_sum(chapter_lengths(t)) == 57);
        },
        Tractate::Peah => {
            reveal_with_fuel(seq_sum, 9);
            assert(seq_sum(chapter_lengths(t)) == 69);
        },
        Tractate::Demai => {
            reveal_with_fuel(seq_sum, 8);
            assert(seq_sum(chapter_lengths(t)) == 53);
        },
        Tractate::Kilayim => {
            reveal_with_fuel(seq_sum, 10);
            assert(seq_sum(chapter_lengths(t)) == 77);
        },
        _ => {},
    }
}

/// The chapter lengths of some tractates add up to their mishna counts.
#[verifier::rlimit(40)]
proof fn lemma_sum_group_1(t: Tractate)
    requires
        t == Tractate::Sheviis || t == Tractate::Terumos || t == Tractate::Maasros || t == Tractate::MaaserSheni,
    ensures
        seq_sum(chapter_lengths(t)) == tractate_mishna_count(t),
{
    match t {
        Tractate::Sheviis => {
            reveal_with_fuel(seq_sum, 11);
            assert(seq_sum(chapter_lengths(t)) == 89);
        },
        Tractate::Terumos => {
            reveal_with_fuel(seq_sum, 12);
            assert(seq_sum(chapter_lengths(t)) == 101);
        },
        Tractate::Maasros => {
            reveal_with_fuel(seq_sum, 6);
            assert(seq_sum(chapter_lengths(t)) == 40);
        },
        Tractate::MaaserSheni => {
            reveal_with_fuel(seq_sum, 6);
            assert(seq_sum(chapter_lengths(t)) == 57);
        },
        _ => {},
    }
}

/// The chapter lengths of some tractates add up to their mishna counts.
#[verifier::rlimit(40)]
proof fn lemma_sum_group_2(t: Tractate)
    requires
        t == Tractate::Chalah || t == Tractate::Orlah || t == Tractate::Bikurim || t == Tractate::Shabbos,
    ensures
        seq_sum(chapter_lengths(t)) == tractate_mishna_count(t),
{
    match t {
        Tractate::Chalah => {
            reveal_with_fuel(seq_sum, 5);
            assert(seq_sum(chapter_lengths(t)) == 38);
        },
        Tractate::Orlah => {
            reveal_with_fuel(seq_sum, 4);
            assert(seq_sum(chapter_lengths(t)) == 35);
        },
        Tractate::Bikurim => {
            reveal_with_fuel(seq_sum, 5);
            assert(seq_sum(chapter_lengths(t)) == 39);
        },
        Tractate::Shabbos => {
            reveal_with_fuel(seq_sum, 25);
            assert(seq_sum(chapter_lengths(t)) == 139);
        },
        _ => {},
    }
}

/// The chapter lengths of some tractates add up to their mishna counts.
#[verifier::rlimit(40)]
proof fn lemma_sum_group_3(t: Tractate)
    requires
        t == Tractate::Eruvin || t == Tractate::Pesachim || t == Tractate::Shekalim || t == Tractate::Yoma,
    ensures
        seq_sum(chapter_lengths(t)) == tractate_mishna_count(t),
{
    match t {
        Tractate::Eruvin => {
            reveal_with_fuel(seq_sum, 11);
            assert(seq_sum(chapter_lengths(t)) == 96);
        },
        Tractate::Pesachim => {
            reveal_with_fuel(seq_sum, 11);
            assert(seq_sum(chapter_lengths(t)) == 89);
        },
        Tractate::Shekalim => {
            reveal_with_fuel(seq_sum, 9);
            assert(seq_sum(chapter_lengths(t)) == 52);
        },
        Tractate::Yoma => {
            reveal_with_fuel(seq_sum, 9);
            assert(seq_sum(chapter_lengths(t)) == 61);
        },
        _ => {},
    }
}

/// The chapter lengths of some tractates add up to their mishna counts.
#[verifier::rlimit(40)]
proof fn lemma_sum_group_4(t: Tractate)
    requires
        t == Tractate::Sukkah || t == Tractate::Beitzah || t == Tractate::RoshHashanah || t == Tractate::Taanis,
    ensures
        seq_sum(chapter_lengths(t)) == tractate_mishna_count(t),
{
    match t {
        Tractate::Sukkah => {
            reveal_with_fuel(seq_sum, 6);
            assert(seq_sum(chapter_lengths(t)) == 53);
        },
        Tractate::Beitzah => {
            reveal_with_fuel(seq_sum, 6);
            assert(seq_sum(chapter_lengths(t)) == 42);
        },
        Tractate::RoshHashanah => {
            reveal_with_fuel(seq_sum, 5);
            assert(seq_sum(chapter_lengths(t)) == 35);
        },
        Tractate::Taanis => {
            reveal_with_fuel(seq_sum, 5);
            assert(seq_sum(chapter_lengths(t)) == 34);
        },
        _ => {},
    }
}

/// The chapter lengths of some tractates add up to their mishna counts.
#[verifier::rlimit(40)]
proof fn lemma_sum_group_5(t: Tractate)
    requires
        t == Tractate::Megillah || t == Tractate::MoedKatan || t == Tractate::Chagigah || t == Tractate::Yevamos,
    ensures
        seq_sum(chapter_lengths(t)) == tractate_mishna_count(t),
{
    match t {
        Tractate::Megillah => {
            reveal_with_fuel(seq_sum, 5);
            assert(seq_sum(chapter_lengths(t)) == 33);
        },
        Tractate::MoedKatan => {
            reveal_with_fuel(seq_sum, 4);
            assert(seq_sum(chapter_lengths(t)) == 24);
        },
        Tractate::Chagigah => {
            reveal_with_fuel(seq_sum, 4);
            assert(seq_sum(chapter_lengths(t)) == 23);
        },
        Tractate::Yevamos => {
            reveal_with_fuel(seq_sum, 17);
            assert(seq_sum(chapter_lengths(t)) == 128);
        },
        _ => {},
    }
}

/// The chapter lengths of some tractates add up to their mishna counts.
#[verifier::rlimit(40)]
proof fn lemma_sum_group_6(t: Tractate)
    requires
        t == Tractate::Kesubos || t == Tractate::Nedarim || t == Tractate::Nazir || t == Tractate::Sotah,
    ensures
        seq_sum(chapter_lengths(t)) == tractate_mishna_count(t),
{
    match t {
        Tractate::Kesubos => {
            reveal_with_fuel(seq_sum, 14);
            assert(seq_sum(chapter_lengths(t)) == 111);
        },
        Tractate::Nedarim => {
            reveal_with_fuel(seq_sum, 12);
            assert(seq_sum(chapter_lengths(t)) == 90);
        },
        Tractate::Nazir => {
            reveal_with_fuel(seq_sum, 10);
            assert(seq_sum(chapter_lengths(t)) == 60);
        },
        Tractate::Sotah => {
            reveal_with_fuel(seq_sum, 10);
            assert(seq_sum(chapter_lengths(t)) == 67);
        },
        _ => {},
    }
}

/// The chapter lengths of some tractates add up to their mishna counts.
#[verifier::rlimit(40)]
proof fn lemma_sum_group_7(t: Tractate)
    requires
        t == Tractate::Gitin || t == Tractate::Kiddushin || t == Tractate::BavaKamma || t == Tractate::BavaMetzia,
    ensures
        seq_sum(chapter_lengths(t)) == tractate_mishna_count(t),
{
    match t {
        Tractate::Gitin => {
            reveal_with_fuel(seq_sum, 10);
            assert(seq_sum(chapter_lengths(t)) == 75);
        },
        Tractate::Kiddushin => {
            reveal_with_fuel(seq_sum, 5);
            assert(seq_sum(chapter_lengths(t)) == 47);
        },
        Tractate::BavaKamma => {
            reveal_with_fuel(seq_sum, 11);
            assert(seq_sum(chapter_lengths(t)) == 79);
        },
        Tractate::BavaMetzia => {
            reveal_with_fuel(seq_sum, 11);
            assert(seq_sum(chapter_lengths(t)) == 101);
        },
        _ => {},
    }
}

/// The chapter lengths of some tractates add up to their mishna counts.
#[verifier::rlimit(40)]
proof fn lemma_sum_group_8(t: Tractate)
    requires
        t == Tractate::BavaBasra || t == Tractate::Sanhedrin || t == Tractate::Makkos || t == Tractate::Shevuos,
    ensures
        seq_sum(chapter_lengths(t)) == tractate_mishna_count(t),
{
    match t {
        Tractate::BavaBasra => {
            reveal_with_fuel(seq_sum, 11);
            assert(seq_sum(chapter_lengths(t)) == 86);
        },
        Tractate::Sanhedrin => {
            reveal_with_fuel(seq_sum, 12);
            assert(seq_sum(chapter_lengths(t)) == 71);
        },
        Tractate::Makkos => {
            reveal_with_fuel(seq_sum, 4);
            assert(seq_sum(chapter_lengths(t)) == 34);
        },
        Tractate::Shevuos => {
            reveal_with_fuel(seq_sum, 9);
            assert(seq_sum(chapter_lengths(t)) == 62);
        },
        _ => {},
    }
}

/// The chapter lengths of some tractates add up to their mishna counts.
#[verifier::rlimit(40)]
proof fn lemma_sum_group_9(t: Tractate)
    requires
        t == Tractate::Eduyos || t == Tractate::AvodahZarah || t == Tractate::Avos || t == Tractate::Horiyos,
    ensures
        seq_sum(chapter_lengths(t)) == tractate_mishna_count(t),
{
    match t {
        Tractate::Eduyos => {
            reveal_with_fuel(seq_sum, 9);
            assert(seq_sum(chapter_lengths(t)) == 74);
        },
        Tractate::AvodahZarah => {
            reveal_with_fuel(seq_sum, 6);
            assert(seq_sum(chapter_lengths(t)) == 50);
        },
        Tractate::Avos => {
            reveal_with_fuel(seq_sum, 7);
            assert(seq_sum(chapter_lengths(t)) == 108);
        },
        Tractate::Horiyos => {
            reveal_with_fuel(seq_sum, 4);
            assert(seq_sum(chapter_lengths(t)) == 20);
        },
        _ => {},
    }
}

/// The chapter lengths of some tractates add up to their mishna counts.
#[verifier::rlimit(40)]
proof fn lemma_sum_group_10(t: Tractate)
    requires
        t == Tractate::Zevachim || t == Tractate::Menachos || t == Tractate::Chullin || t == Tractate::Bechoros,
    ensures
        seq_sum(chapter_lengths(t)) == tractate_mishna_count(t),
{
    match t {
        Tractate::Zevachim => {
            reveal_with_fuel(seq_sum, 15);
            assert(seq_sum(chapter_lengths(t)) == 101);
        },
        Tractate::Menachos => {
            reveal_with_fuel(seq_sum, 14);
            assert(seq_sum(chapter_lengths(t)) == 93);
        },
        Tractate::Chullin => {
            reveal_with_fuel(seq_sum, 13);
            assert(seq_sum(chapter_lengths(t)) == 74);
        },
        Tractate::Bechoros => {
            reveal_with_fuel(seq_sum, 10);
            assert(seq_sum(chapter_lengths(t)) == 73);
        },
        _ => {},
    }
}

/// The chapter lengths of some tractates add up to their mishna counts.
#[verifier::rlimit(40)]
proof fn lemma_sum_group_11(t: Tractate)
    requires
        t == Tractate::Arachin || t == Tractate::Temurah || t == Tractate::Kerisos || t == Tractate::Meilah,
    ensures
        seq_sum(chapter_lengths(t)) == tractate_mishna_count(t),
{
    match t {
        Tractate::Arachin => {
            reveal_with_fuel(seq_sum, 10);
            assert(seq_sum(chapter_lengths(t)) == 50);
        },
        Tractate::Temurah => {
            reveal_with_fuel(seq_sum, 8);
            assert(seq_sum(chapter_lengths(t)) == 35);
        },
        Tractate::Kerisos => {
            reveal_with_fuel(seq_sum, 7);
            assert(seq_sum(chapter_lengths(t)) == 43);
        },
        Tractate::Meilah => {
            reveal_with_fuel(seq_sum, 7);
            assert(seq_sum(chapter_lengths(t)) == 38);
        },
        _ => {},
    }
}

/// The chapter lengths of some tractates add up to their mishna counts.
#[verifier::rlimit(40)]
proof fn lemma_sum_group_12(t: Tractate)
    requires
        t == Tractate::Tamid || t == Tractate::Midos || t == Tractate::Kinnim || t == Tractate::Keilim,
    ensures
        seq_sum(chapter_lengths(t)) == tractate_mishna_count(t),
{
    match t {
        Tractate::Tamid => {
            reveal_with_fuel(seq_sum, 8);
            assert(seq_sum(chapter_lengths(t)) == 34);
        },
        Tractate::Midos => {
            reveal_with_fuel(seq_sum, 6);
            assert(seq_sum(chapter_lengths(t)) == 34);
        },
        Tractate::Kinnim => {
            reveal_with_fuel(seq_sum, 4);
            assert(seq_sum(chapter_lengths(t)) == 15);
        },
        Tractate::Keilim => {
            reveal_with_fuel(seq_sum, 31);
            assert(seq_sum(chapter_lengths(t)) == 254);
        },
        _ => {},
    }
}

/// The chapter lengths of some tractates add up to their mishna counts.
#[verifier::rlimit(40)]
proof fn lemma_sum_group_13(t: Tractate)
    requires
        t == Tractate::Ohalos || t == Tractate::Negaim || t == Tractate::Parah || t == Tractate::Taharos,
    ensures
        seq_sum(chapter_lengths(t)) == tractate_mishna_count(t),
{
    match t {
        Tractate::Ohalos => {
            reveal_with_fuel(seq_sum, 19);
            assert(seq_sum(chapter_lengths(t)) == 134);
        },
        Tractate::Negaim => {
            reveal_with_fuel(seq_sum, 15);
            assert(seq_sum(chapter_lengths(t)) == 115);
        },
        Tractate::Parah => {
            reveal_with_fuel(seq_sum, 13);
            assert(seq_sum(chapter_lengths(t)) == 96);
        },
        Tractate::Taharos => {
            reveal_with_fuel(seq_sum, 11);
            assert(seq_sum(chapter_lengths(t)) == 92);
        },
        _ => {},
    }
}

/// The chapter lengths of some tractates add up to their mishna counts.
#[verifier::rlimit(40)]
proof fn lemma_sum_group_14(t: Tractate)
    requires
        t == Tractate::Mikvaos || t == Tractate::Niddah || t == Tractate::Machshirin || t == Tractate::Zavim,
    ensures
        seq_sum(chapter_lengths(t)) == tractate_mishna_count(t),
{
    match t {
        Tractate::Mikvaos => {
            reveal_with_fuel(seq_sum, 11);
            assert(seq_sum(chapter_lengths(t)) == 71);
        },
        Tractate::Niddah => {
            reveal_with_fuel(seq_sum, 11);
            assert(seq_sum(chapter_lengths(t)) == 79);
        },
        Tractate::Machshirin => {
            reveal_with_fuel(seq_sum, 7);
            assert(seq_sum(chapter_lengths(t)) == 54);
        },
        Tractate::Zavim => {
            reveal_with_fuel(seq_sum, 6);
            assert(seq_sum(chapter_lengths(t)) == 32);
        },
        _ => {},
    }
}

/// The chapter lengths of some tractates add up to their mishna counts.
#[verifier::rlimit(40)]
proof fn lemma_sum_group_15(t: Tractate)
    requires
        t == Tractate::TevulYom || t == Tractate::Yadayim || t == Tractate::Uktzin,
    ensures
        seq_sum(chapter_lengths(t)) == tractate_mishna_count(t),
{
    match t {
        Tractate::TevulYom => {
            reveal_with_fuel(seq_sum, 5);
            assert(seq_sum(chapter_lengths(t)) == 26);
        },
        Tractate::Yadayim => {
            reveal_with_fuel(seq_sum, 5);
            assert(seq_sum(chapter_lengths(t)) == 22);
        },
        Tractate::Uktzin => {
            reveal_with_fuel(seq_sum, 4);
            assert(seq_sum(chapter_lengths(t)) == 28);
        },
        _ => {},
    }
}
/// The number of mishnayos in the first `k` tractates.
#[verifier::opaque]
pub open spec fn prefix_mishna_count(k: int) -> int {
    mishnayos_of(all_tractates_seq().take(k)).len() as int
}

/// Adding a tractate to a prefix of the tractates adds its mishnayos.
proof fn lemma_mishna_prefix_step(k: int, t: Tractate)
    requires
        1 <= k <= 63,
        all_tractates_seq()[k - 1] == t,
    ensures
        prefix_mishna_count(k) == prefix_mishna_count(k - 1) + tractate_mishna_count(t),
{
    reveal(prefix_mishna_count);
    let ts = all_tractates_seq();
    assert(ts.take(k).drop_last() =~= ts.take(k - 1));
    lemma_tractate_count(t);
}

/// The Mishna has 4192 mishnayos: two for each of the 2096 days of a cycle.
pub proof fn lemma_mishna_count()
    ensures
        all_mishnayos().len() == 2 * (MISHNA_YOMIS_CYCLE_DAYS + 1),
{
    let ts = all_tractates_seq();
    assert(prefix_mishna_count(0) == 0) by {
        reveal(prefix_mishna_count);
        assert(ts.take(0) =~= Seq::<Tractate>::empty());
    }
    lemma_mishna_prefix_step(1, Tractate::Berachos);
    lemma_mishna_prefix_step(2, Tractate::Peah);
    lemma_mishna_prefix_step(3, Tractate::Demai);
    lemma_mishna_prefix_step(4, Tractate::Kilayim);
    lemma_mishna_prefix_step(5, Tractate::Sheviis);
    lemma_mishna_prefix_step(6, Tractate::Terumos);
    lemma_mishna_prefix_step(7, Tractate::Maasros);
    lemma_mishna_prefix_step(8, Tractate::MaaserSheni);
    lemma_mishna_prefix_step(9, Tractate::Chalah);
    lemma_mishna_prefix_step(10, Tractate::Orlah);
    lemma_mishna_prefix_step(11, Tractate::Bikurim);
    lemma_mishna_prefix_step(12, Tractate::Shabbos);
    lemma_mishna_prefix_step(13, Tractate::Eruvin);
    lemma_mishna_prefix_step(14, Tractate::Pesachim);
    lemma_mishna_prefix_step(15, Tractate::Shekalim);
    lemma_mishna_prefix_step(16, Tractate::Yoma);
    lemma_mishna_prefix_step(17, Tractate::Sukkah);
    lemma_mishna_prefix_step(18, Tractate::Beitzah);
    lemma_mishna_prefix_step(19, Tractate::RoshHashanah);
    lemma_mishna_prefix_step(20, Tractate::Taanis);
    lemma_mishna_prefix_step(21, Tractate::Megillah);
    lemma_mishna_prefix_step(22, Tractate::MoedKatan);
    lemma_mishna_prefix_step(23, Tractate::Chagigah);
    lemma_mishna_prefix_step(24, Tractate::Yevamos);
    lemma_mishna_prefix_step(25, Tractate::Kesubos);
    lemma_mishna_prefix_step(26, Tractate::Nedarim);
    lemma_mishna_prefix_step(27, Tractate::Nazir);
    lemma_mishna_prefix_step(28, Tractate::Sotah);
    lemma_mishna_prefix_step(29, Tractate::Gitin);
    lemma_mishna_prefix_step(30, Tractate::Kiddushin);
    lemma_mishna_prefix_step(31, Tractate::BavaKamma);
    lemma_mishna_prefix_step(32, Tractate::BavaMetzia);
    lemma_mishna_prefix_step(33, Tractate::BavaBasra);
    lemma_mishna_prefix_step(34, Tractate::Sanhedrin);
    lemma_mishna_prefix_step(35, Tractate::Makkos);
    lemma_mishna_prefix_step(36, Tractate::Shevuos);
    lemma_mishna_prefix_step(37, Tractate::Eduyos);
    lemma_mishna_prefix_step(38, Tractate::AvodahZarah);
    lemma_mishna_prefix_step(39, Tractate::Avos);
    lemma_mishna_prefix_step(40, Tractate::Horiyos);
    lemma_mishna_prefix_step(41, Tractate::Zevachim);
    lemma_mishna_prefix_step(42, Tractate::Menachos);
    lemma_mishna_prefix_step(43, Tractate::Chullin);
    lemma_mishna_prefix_step(44, Tractate::Bechoros);
    lemma_mishna_prefix_step(45, Tractate::Arachin);
    lemma_mishna_prefix_step(46, Tractate::Temurah);
    lemma_mishna_prefix_step(47, Tractate::Kerisos);
    lemma_mishna_prefix_step(48, Tractate::Meilah);
    lemma_mishna_prefix_step(49, Tractate::Tamid);
    lemma_mishna_prefix_step(50, Tractate::Midos);
    lemma_mishna_prefix_step(51, Tractate::Kinnim);
    lemma_mishna_prefix_step(52, Tractate::Keilim);
    lemma_mishna_prefix_step(53, Tractate::Ohalos);
    lemma_mishna_prefix_step(54, Tractate::Negaim);
    lemma_mishna_prefix_step(55, Tractate::Parah);
    lemma_mishna_prefix_step(56, Tractate::Taharos);
    lemma_mishna_prefix_step(57, Tractate::Mikvaos);
    lemma_mishna_prefix_step(58, Tractate::Niddah);
    lemma_mishna_prefix_step(59, Tractate::Machshirin);
    lemma_mishna_prefix_step(60, Tractate::Zavim);
    lemma_mishna_prefix_step(61, Tractate::TevulYom);
    lemma_mishna_prefix_step(62, Tractate::Yadayim);
    lemma_mishna_prefix_step(63, Tractate::Uktzin);
    assert(prefix_mishna_count(63) == 4192);
    reveal(prefix_mishna_count);
    assert(ts.take(63) =~= ts);
}

/// Whether every chapter length of a sequence is at least 1.
pub open spec fn chapter_lengths_positive(lens: Seq<u16>) -> bool
    decreases lens.len(),
{
    if lens.len() == 0 {
        true
    } else {
        lens.last() >= 1 && chapter_lengths_positive(lens.drop_last())
    }
}

/// The mishnayos of the given tractates, counted by their chapter lengths.
pub open spec fn mishna_total(ts: Seq<Tractate>) -> int
    decreases ts.len(),
{
    if ts.len() == 0 {
        0
    } else {
        mishna_total(ts.drop_last()) + seq_sum(chapter_lengths(ts.last()))
    }
}

proof fn lemma_positive_each(lens: Seq<u16>, i: int)
    requires
        chapter_lengths_positive(lens),
        0 <= i < lens.len(),
    ensures
        lens[i] >= 1,
    decreases lens.len(),
{
    if i < lens.len() - 1 {
        lemma_positive_each(lens.drop_last(), i);
    }
}

#[verifier::spinoff_prover]
#[verifier::rlimit(60)]
proof fn lemma_positive_group_0(t: Tractate)
    requires
        t == Tractate::Berachos || t == Tractate::Peah || t == Tractate::Demai || t == Tractate::Kilayim,
    ensures
        chapter_lengths_positive(chapter_lengths(t)),
{
    reveal_with_fuel(chapter_lengths_positive, 31);
    match t {
        Tractate::Berachos => {},
        Tractate::Peah => {},
        Tractate::Demai => {},
        Tractate::Kilayim => {},
        _ => {},
    }
}

#[verifier::spinoff_prover]
#[verifier::rlimit(60)]
proof fn lemma_positive_group_1(t: Tractate)
    requires
        t == Tractate::Sheviis || t == Tractate::Terumos || t == Tractate::Maasros || t == Tractate::MaaserSheni,
    ensures
        chapter_lengths_positive(chapter_lengths(t)),
{
    reveal_with_fuel(chapter_lengths_positive, 31);
    match t {
        Tractate::Sheviis => {},
        Tractate::Terumos => {},
        Tractate::Maasros => {},
        Tractate::MaaserSheni => {},
        _ => {},
    }
}

#[verifier::spinoff_prover]
#[verifier::rlimit(60)]
proof fn lemma_positive_group_2(t: Tractate)
    requires
        t == Tractate::Chalah || t == Tractate::Orlah || t == Tractate::Bikurim || t == Tractate::Shabbos,
    ensures
        chapter_lengths_positive(chapter_lengths(t)),
{
    reveal_with_fuel(chapter_lengths_positive, 31);
    match t {
        Tractate::Chalah => {},
        Tractate::Orlah => {},
        Tractate::Bikurim => {},
        Tractate::Shabbos => {},
        _ => {},
    }
}

#[verifier::spinoff_prover]
#[verifier::rlimit(60)]
proof fn lemma_positive_group_3(t: Tractate)
    requires
        t == Tractate::Eruvin || t == Tractate::Pesachim || t == Tractate::Shekalim || t == Tractate::Yoma,
    ensures
        chapter_lengths_positive(chapter_lengths(t)),
{
    reveal_with_fuel(chapter_lengths_positive, 31);
    match t {
        Tractate::Eruvin => {},
        Tractate::Pesachim => {},
        Tractate::Shekalim => {},
        Tractate::Yoma => {},
        _ => {},
    }
}

#[verifier::spinoff_prover]
#[verifier::rlimit(60)]
proof fn lemma_positive_group_4(t: Tractate)
    requires
        t == Tractate::Sukkah || t == Tractate::Beitzah || t == Tractate::RoshHashanah || t == Tractate::Taanis,
    ensures
        chapter_lengths_positive(chapter_lengths(t)),
{
    reveal_with_fuel(chapter_lengths_positive, 31);
    match t {
        Tractate::Sukkah => {},
        Tractate::Beitzah => {},
        Tractate::RoshHashanah => {},
        Tractate::Taanis => {},
        _ => {},
    }
}

#[verifier::spinoff_prover]
#[verifier::rlimit(60)]
proof fn lemma_positive_group_5(t: Tractate)
    requires
        t == Tractate::Megillah || t == Tractate::MoedKatan || t == Tractate::Chagigah || t == Tractate::Yevamos,
    ensures
        chapter_lengths_positive(chapter_lengths(t)),
{
    reveal_with_fuel(chapter_lengths_positive, 31);
    match t {
        Tractate::Megillah => {},
        Tractate::MoedKatan => {},
        Tractate::Chagigah => {},
        Tractate::Yevamos => {},
        _ => {},
    }
}

#[verifier::spinoff_prover]
#[verifier::rlimit(60)]
proof fn lemma_positive_group_6(t: Tractate)
    requires
        t == Tractate::Kesubos || t == Tractate::Nedarim || t == Tractate::Nazir || t == Tractate::Sotah,
    ensures
        chapter_lengths_positive(chapter_lengths(t)),
{
    reveal_with_fuel(chapter_lengths_positive, 31);
    match t {
        Tractate::Kesubos => {},
        Tractate::Nedarim => {},
        Tractate::Nazir => {},
        Tractate::Sotah => {},
        _ => {},
    }
}

#[verifier::spinoff_prover]
#[verifier::rlimit(60)]
proof fn lemma_positive_group_7(t: Tractate)
    requires
        t == Tractate::Gitin || t == Tractate::Kiddushin || t == Tractate::BavaKamma || t == Tractate::BavaMetzia,
    ensures
        chapter_lengths_positive(chapter_lengths(t)),
{
    reveal_with_fuel(chapter_lengths_positive, 31);
    match t {
        Tractate::Gitin => {},
        Tractate::Kiddushin => {},
        Tractate::BavaKamma => {},
        Tractate::BavaMetzia => {},
        _ => {},
    }
}

#[verifier::spinoff_prover]
#[verifier::rlimit(60)]
proof fn lemma_positive_group_8(t: Tractate)
    requires
        t == Tractate::BavaBasra || t == Tractate::Sanhedrin || t == Tractate::Makkos || t == Tractate::Shevuos,
    ensures
        chapter_lengths_positive(chapter_lengths(t)),
{
    reveal_with_fuel(chapter_lengths_positive, 31);
    match t {
        Tractate::BavaBasra => {},
        Tractate::Sanhedrin => {},
        Tractate::Makkos => {},
        Tractate::Shevuos => {},
        _ => {},
    }
}

#[verifier::spinoff_prover]
#[verifier::rlimit(60)]
proof fn lemma_positive_group_9(t: Tractate)
    requires
        t == Tractate::Eduyos || t == Tractate::AvodahZarah || t == Tractate::Avos || t == Tractate::Horiyos,
    ensures
        chapter_lengths_positive(chapter_lengths(t)),
{
    reveal_with_fuel(chapter_lengths_positive, 31);
    match t {
        Tractate::Eduyos => {},
        Tractate::AvodahZarah => {},
        Tractate::Avos => {},
        Tractate::Horiyos => {},
        _ => {},
    }
}

#[verifier::spinoff_prover]
#[verifier::rlimit(60)]
proof fn lemma_positive_group_10(t: Tractate)
    requires
        t == Tractate::Zevachim || t == Tractate::Menachos || t == Tractate::Chullin || t == Tractate::Bechoros,
    ensures
        chapter_lengths_positive(chapter_lengths(t)),
{
    reveal_with_fuel(chapter_lengths_positive, 31);
    match t {
        Tractate::Zevachim => {},
        Tractate::Menachos => {},
        Tractate::Chullin => {},
        Tractate::Bechoros => {},
        _ => {},
    }
}

#[verifier::spinoff_prover]
#[verifier::rlimit(60)]
proof fn lemma_positive_group_11(t: Tractate)
    requires
        t == Tractate::Arachin || t == Tractate::Temurah || t == Tractate::Kerisos || t == Tractate::Meilah,
    ensures
        chapter_lengths_positive(chapter_lengths(t)),
{
    reveal_with_fuel(chapter_lengths_positive, 31);
    match t {
        Tractate::Arachin => {},
        Tractate::Temurah => {},
        Tractate::Kerisos => {},
        Tractate::Meilah => {},
        _ => {},
    }
}

#[verifier::spinoff_prover]
#[verifier::rlimit(60)]
proof fn lemma_positive_group_12(t: Tractate)
    requires
        t == Tractate::Tamid || t == Tractate::Midos || t == Tractate::Kinnim,
    ensures
        chapter_lengths_positive(chapter_lengths(t)),
{
    reveal_with_fuel(chapter_lengths_positive, 31);
    match t {
        Tractate::Tamid => {},
        Tractate::Midos => {},
        Tractate::Kinnim => {},
        _ => {},
    }
}

#[verifier::spinoff_prover]
#[verifier::rlimit(60)]
proof fn lemma_positive_group_13(t: Tractate)
    requires
        t == Tractate::Keilim,
    ensures
        chapter_lengths_positive(chapter_lengths(t)),
{
    reveal_with_fuel(chapter_lengths_positive, 31);
    match t {
        Tractate::Keilim => {},
        _ => {},
    }
}

#[verifier::spinoff_prover]
#[verifier::rlimit(60)]
proof fn lemma_positive_group_14(t: Tractate)
    requires
        t == Tractate::Ohalos || t == Tractate::Negaim || t == Tractate::Parah || t == Tractate::Taharos,
    ensures
        chapter_lengths_positive(chapter_lengths(t)),
{
    reveal_with_fuel(chapter_lengths_positive, 31);
    match t {
        Tractate::Ohalos => {},
        Tractate::Negaim => {},
        Tractate::Parah => {},
        Tractate::Taharos => {},
        _ => {},
    }
}

#[verifier::spinoff_prover]
#[verifier::rlimit(60)]
proof fn lemma_positive_group_15(t: Tractate)
    requires
        t == Tractate::Mikvaos || t == Tractate::Niddah || t == Tractate::Machshirin || t == Tractate::Zavim,
    ensures
        chapter_lengths_positive(chapter_lengths(t)),
{
    reveal_with_fuel(chapter_lengths_positive, 31);
    match t {
        Tractate::Mikvaos => {},
        Tractate::Niddah => {},
        Tractate::Machshirin => {},
        Tractate::Zavim => {},
        _ => {},
    }
}

#[verifier::spinoff_prover]
#[verifier::rlimit(60)]
proof fn lemma_positive_group_16(t: Tractate)
    requires
        t == Tractate::TevulYom || t == Tractate::Yadayim || t == Tractate::Uktzin,
    ensures
        chapter_lengths_positive(chapter_lengths(t)),
{
    reveal_with_fuel(chapter_lengths_positive, 31);
    match t {
        Tractate::TevulYom => {},
        Tractate::Yadayim => {},
        Tractate::Uktzin => {},
        _ => {},
    }
}

/// Every tractate's chapters have at least one mishna each.
proof fn lemma_positive_tractate(t: Tractate)
    ensures
        chapter_lengths_positive(chapter_lengths(t)),
{
    match t {
        Tractate::Berachos => lemma_positive_group_0(t),
        Tractate::Peah => lemma_positive_group_0(t),
        Tractate::Demai => lemma_positive_group_0(t),
        Tractate::Kilayim => lemma_positive_group_0(t),
        Tractate::Sheviis => lemma_positive_group_1(t),
        Tractate::Terumos => lemma_positive_group_1(t),
        Tractate::Maasros => lemma_positive_group_1(t),
        Tractate::MaaserSheni => lemma_positive_group_1(t),
        Tractate::Chalah => lemma_positive_group_2(t),
        Tractate::Orlah => lemma_positive_group_2(t),
        Tractate::Bikurim => lemma_positive_group_2(t),
        Tractate::Shabbos => lemma_positive_group_2(t),
        Tractate::Eruvin => lemma_positive_group_3(t),
        Tractate::Pesachim => lemma_positive_group_3(t),
        Tractate::Shekalim => lemma_positive_group_3(t),
        Tractate::Yoma => lemma_positive_group_3(t),
        Tractate::Sukkah => lemma_positive_group_4(t),
        Tractate::Beitzah => lemma_positive_group_4(t),
        Tractate::RoshHashanah => lemma_positive_group_4(t),
        Tractate::Taanis => lemma_positive_group_4(t),
        Tractate::Megillah => lemma_positive_group_5(t),
        Tractate::MoedKatan => lemma_positive_group_5(t),
        Tractate::Chagigah => lemma_positive_group_5(t),
        Tractate::Yevamos => lemma_positive_group_5(t),
        Tractate::Kesubos => lemma_positive_group_6(t),
        Tractate::Nedarim => lemma_positive_group_6(t),
        Tractate::Nazir => lemma_positive_group_6(t),
        Tractate::Sotah => lemma_positive_group_6(t),
        Tractate::Gitin => lemma_positive_group_7(t),
        Tractate::Kiddushin => lemma_positive_group_7(t),
        Tractate::BavaKamma => lemma_positive_group_7(t),
        Tractate::BavaMetzia => lemma_positive_group_7(t),
        Tractate::BavaBasra => lemma_positive_group_8(t),
        Tractate::Sanhedrin => lemma_positive_group_8(t),
        Tractate::Makkos => lemma_positive_group_8(t),
        Tractate::Shevuos => lemma_positive_group_8(t),
        Tractate::Eduyos => lemma_positive_group_9(t),
        Tractate::AvodahZarah => lemma_positive_group_9(t),
        Tractate::Avos => lemma_positive_group_9(t),
        Tractate::Horiyos => lemma_positive_group_9(t),
        Tractate::Zevachim => lemma_positive_group_10(t),
        Tractate::Menachos => lemma_positive_group_10(t),
        Tractate::Chullin => lemma_positive_group_10(t),
        Tractate::Bechoros => lemma_positive_group_10(t),
        Tractate::Arachin => lemma_positive_group_11(t),
        Tractate::Temurah => lemma_positive_group_11(t),
        Tractate::Kerisos => lemma_positive_group_11(t),
        Tractate::Meilah => lemma_positive_group_11(t),
        Tractate::Tamid => lemma_positive_group_12(t),
        Tractate::Midos => lemma_positive_group_12(t),
        Tractate::Kinnim => lemma_positive_group_12(t),
        Tractate::Keilim => lemma_positive_group_13(t),
        Tractate::Ohalos => lemma_positive_group_14(t),
        Tractate::Negaim => lemma_positive_group_14(t),
        Tractate::Parah => lemma_positive_group_14(t),
        Tractate::Taharos => lemma_positive_group_14(t),
        Tractate::Mikvaos => lemma_positive_group_15(t),
        Tractate::Niddah => lemma_positive_group_15(t),
        Tractate::Machshirin => lemma_positive_group_15(t),
        Tractate::Zavim => lemma_positive_group_15(t),
        Tractate::TevulYom => lemma_positive_group_16(t),
        Tractate::Yadayim => lemma_positive_group_16(t),
        Tractate::Uktzin => lemma_positive_group_16(t),
    }
}

/// The number, within its tractate, of the mishna that closes each chapter
/// of the given chapter lengths.
pub open spec fn chapter_ends(lens: Seq<u16>) -> Seq<int>
    decreases lens.len(),
{
    if lens.len() == 0 {
        Seq::empty()
    } else {
        chapter_ends(lens.drop_last()).push(seq_sum(lens))
    }
}

/// The chapters of each tractate as the Mishna text divides them: the
/// number, counted from the tractate's first mishna, of the mishna that
/// closes each chapter (Sukkah: its chapters end at mishnayos 11, 20, 35,
/// 45 and 53, so they hold 11, 9, 15, 10 and 8).
pub open spec fn mishna_text_chapter_ends(t: Tractate) -> Seq<int> {
    match t {
        Tractate::Berachos => seq![5int, 13, 19, 26, 31, 39, 44, 52, 57],
        Tractate::Peah => seq![6int, 14, 22, 33, 41, 52, 60, 69],
        Tractate::Demai => seq![4int, 9, 15, 22, 33, 45, 53],
        Tractate::Kilayim => seq![9int, 20, 27, 36, 44, 53, 61, 67, 77],
        Tractate::Sheviis => seq![8int, 18, 28, 38, 47, 53, 60, 71, 80, 89],
        Tractate::Terumos => seq![10int, 16, 25, 38, 47, 53, 60, 72, 79, 91, 101],
        Tractate::Maasros => seq![8int, 16, 26, 32, 40],
        Tractate::MaaserSheni => seq![7int, 17, 30, 42, 57],
        Tractate::Chalah => seq![9int, 17, 27, 38],
        Tractate::Orlah => seq![9int, 26, 35],
        Tractate::Bikurim => seq![11int, 22, 34, 39],
        Tractate::Shabbos => seq![11int, 18, 24, 26, 30, 40, 44, 51, 58, 64, 70, 76, 83, 87, 90, 98, 106, 109, 115, 120, 123, 129, 134, 139],
        Tractate::Eruvin => seq![10int, 16, 25, 36, 45, 55, 66, 77, 81, 96],
        Tractate::Pesachim => seq![7int, 15, 23, 32, 42, 48, 61, 69, 80, 89],
        Tractate::Shekalim => seq![7int, 12, 16, 25, 31, 37, 44, 52],
        Tractate::Yoma => seq![8int, 15, 26, 32, 39, 47, 52, 61],
        Tractate::Sukkah => seq![11int, 20, 35, 45, 53],
        Tractate::Beitzah => seq![10int, 20, 28, 35, 42],
        Tractate::RoshHashanah => seq![9int, 18, 26, 35],
        Tractate::Taanis => seq![7int, 17, 26, 34],
        Tractate::Megillah => seq![11int, 17, 23, 33],
        Tractate::MoedKatan => seq![10int, 15, 24],
        Tractate::Chagigah => seq![8int, 15, 23],
        Tractate::Yevamos => seq![4int, 14, 24, 37, 43, 49, 55, 61, 67, 76, 83, 89, 102, 111, 121, 128],
        Tractate::Kesubos => seq![10int, 20, 29, 41, 50, 57, 67, 75, 84, 90, 96, 100, 111],
        Tractate::Nedarim => seq![4int, 9, 20, 28, 34, 44, 53, 60, 70, 78, 90],
        Tractate::Nazir => seq![7int, 17, 24, 31, 38, 49, 53, 55, 60],
        Tractate::Sotah => seq![9int, 15, 23, 28, 33, 37, 45, 52, 67],
        Tractate::Gitin => seq![6int, 13, 21, 30, 39, 46, 55, 65, 75],
        Tractate::Kiddushin => seq![10int, 20, 33, 47],
        Tractate::BavaKamma => seq![4int, 10, 21, 30, 37, 43, 50, 57, 69, 79],
        Tractate::BavaMetzia => seq![8int, 19, 31, 43, 54, 62, 73, 82, 95, 101],
        Tractate::BavaBasra => seq![6int, 20, 28, 37, 48, 56, 60, 68, 78, 86],
        Tractate::Sanhedrin => seq![6int, 11, 19, 24, 29, 35, 46, 53, 59, 65, 71],
        Tractate::Makkos => seq![10int, 18, 34],
        Tractate::Shevuos => seq![7int, 12, 23, 36, 41, 48, 56, 62],
        Tractate::Eduyos => seq![14int, 24, 36, 48, 55, 58, 67, 74],
        Tractate::AvodahZarah => seq![9int, 16, 26, 38, 50],
        Tractate::Avos => seq![18int, 34, 52, 74, 97, 108],
        Tractate::Horiyos => seq![5int, 12, 20],
        Tractate::Zevachim => seq![4int, 9, 15, 21, 29, 36, 42, 54, 61, 69, 77, 83, 91, 101],
        Tractate::Menachos => seq![4int, 9, 16, 21, 30, 37, 43, 50, 59, 68, 77, 82, 93],
        Tractate::Chullin => seq![7int, 17, 24, 31, 36, 43, 49, 55, 63, 67, 69, 74],
        Tractate::Bechoros => seq![7int, 16, 20, 30, 36, 48, 55, 65, 73],
        Tractate::Arachin => seq![4int, 10, 15, 19, 25, 30, 35, 42, 50],
        Tractate::Temurah => seq![6int, 9, 14, 18, 24, 29, 35],
        Tractate::Kerisos => seq![7int, 13, 23, 26, 34, 43],
        Tractate::Meilah => seq![4int, 13, 21, 27, 32, 38],
        Tractate::Tamid => seq![4int, 9, 18, 21, 27, 30, 34],
        Tractate::Midos => seq![9int, 15, 23, 30, 34],
        Tractate::Kinnim => seq![4int, 9, 15],
        Tractate::Keilim => seq![9int, 17, 25, 29, 40, 44, 50, 61, 69, 77, 86, 94, 102, 110, 116, 124, 141, 150, 160, 167, 170, 180, 185, 202, 211, 220, 232, 242, 250, 254],
        Tractate::Ohalos => seq![8int, 15, 22, 25, 32, 39, 45, 51, 67, 74, 83, 91, 97, 104, 114, 119, 124, 134],
        Tractate::Negaim => seq![6int, 11, 19, 30, 35, 43, 48, 58, 61, 71, 83, 90, 102, 115],
        Tractate::Parah => seq![4int, 9, 20, 24, 33, 38, 50, 61, 70, 76, 85, 96],
        Tractate::Taharos => seq![9int, 17, 25, 38, 47, 57, 66, 75, 84, 92],
        Tractate::Mikvaos => seq![8int, 18, 22, 27, 33, 44, 51, 56, 63, 71],
        Tractate::Niddah => seq![7int, 14, 21, 28, 37, 51, 56, 60, 71, 79],
        Tractate::Machshirin => seq![6int, 17, 25, 35, 46, 54],
        Tractate::Zavim => seq![6int, 10, 13, 20, 32],
        Tractate::TevulYom => seq![5int, 13, 19, 26],
        Tractate::Yadayim => seq![5int, 9, 14, 22],
        Tractate::Uktzin => seq![6int, 16, 28],
    }
}

#[verifier::spinoff_prover]
#[verifier::rlimit(60)]
proof fn lemma_text_group_0(t: Tractate)
    requires
        t == Tractate::Berachos || t == Tractate::Peah || t == Tractate::Demai || t == Tractate::Kilayim,
    ensures
        chapter_ends(chapter_lengths(t)) == mishna_text_chapter_ends(t),
{
    reveal_with_fuel(chapter_ends, 31);
    reveal_with_fuel(seq_sum, 31);
    match t {
        Tractate::Berachos => {},
        Tractate::Peah => {},
        Tractate::Demai => {},
        Tractate::Kilayim => {},
        _ => {},
    }
}

#[verifier::spinoff_prover]
#[verifier::rlimit(60)]
proof fn lemma_text_group_1(t: Tractate)
    requires
        t == Tractate::Sheviis || t == Tractate::Terumos || t == Tractate::Maasros || t == Tractate::MaaserSheni,
    ensures
        chapter_ends(chapter_lengths(t)) == mishna_text_chapter_ends(t),
{
    reveal_with_fuel(chapter_ends, 31);
    reveal_with_fuel(seq_sum, 31);
    match t {
        Tractate::Sheviis => {},
        Tractate::Terumos => {},
        Tractate::Maasros => {},
        Tractate::MaaserSheni => {},
        _ => {},
    }
}

#[verifier::spinoff_prover]
#[verifier::rlimit(60)]
proof fn lemma_text_group_2(t: Tractate)
    requires
        t == Tractate::Chalah || t == Tractate::Orlah || t == Tractate::Bikurim || t == Tractate::Shabbos,
    ensures
        chapter_ends(chapter_lengths(t)) == mishna_text_chapter_ends(t),
{
    reveal_with_fuel(chapter_ends, 31);
    reveal_with_fuel(seq_sum, 31);
    match t {
        Tractate::Chalah => {},
        Tractate::Orlah => {},
        Tractate::Bikurim => {},
        Tractate::Shabbos => {},
        _ => {},
    }
}

#[verifier::spinoff_prover]
#[verifier::rlimit(60)]
proof fn lemma_text_group_3(t: Tractate)
    requires
        t == Tractate::Eruvin || t == Tractate::Pesachim || t == Tractate::Shekalim || t == Tractate::Yoma,
    ensures
        chapter_ends(chapter_lengths(t)) == mishna_text_chapter_ends(t),
{
    reveal_with_fuel(chapter_ends, 31);
    reveal_with_fuel(seq_sum, 31);
    match t {
        Tractate::Eruvin => {},
        Tractate::Pesachim => {},
        Tractate::Shekalim => {},
        Tractate::Yoma => {},
        _ => {},
    }
}

#[verifier::spinoff_prover]
#[verifier::rlimit(60)]
proof fn lemma_text_group_4(t: Tractate)
    requires
        t == Tractate::Sukkah || t == Tractate::Beitzah || t == Tractate::RoshHashanah || t == Tractate::Taanis,
    ensures
        chapter_ends(chapter_lengths(t)) == mishna_text_chapter_ends(t),
{
    reveal_with_fuel(chapter_ends, 31);
    reveal_with_fuel(seq_sum, 31);
    match t {
        Tractate::Sukkah => {},
        Tractate::Beitzah => {},
        Tractate::RoshHashanah => {},
        Tractate::Taanis => {},
        _ => {},
    }
}

#[verifier::spinoff_prover]
#[verifier::rlimit(60)]
proof fn lemma_text_group_5(t: Tractate)
    requires
        t == Tractate::Megillah || t == Tractate::MoedKatan || t == Tractate::Chagigah || t == Tractate::Yevamos,
    ensures
        chapter_ends(chapter_lengths(t)) == mishna_text_chapter_ends(t),
{
    reveal_with_fuel(chapter_ends, 31);
    reveal_with_fuel(seq_sum, 31);
    match t {
        Tractate::Megillah => {},
        Tractate::MoedKatan => {},
        Tractate::Chagigah => {},
        Tractate::Yevamos => {},
        _ => {},
    }
}

#[verifier::spinoff_prover]
#[verifier::rlimit(60)]
proof fn lemma_text_group_6(t: Tractate)
    requires
        t == Tractate::Kesubos || t == Tractate::Nedarim || t == Tractate::Nazir || t == Tractate::Sotah,
    ensures
        chapter_ends(chapter_lengths(t)) == mishna_text_chapter_ends(t),
{
    reveal_with_fuel(chapter_ends, 31);
    reveal_with_fuel(seq_sum, 31);
    match t {
        Tractate::Kesubos => {},
        Tractate::Nedarim => {},
        Tractate::Nazir => {},
        Tractate::Sotah => {},
        _ => {},
    }
}

#[verifier::spinoff_prover]
#[verifier::rlimit(60)]
proof fn lemma_text_group_7(t: Tractate)
    requires
        t == Tractate::Gitin || t == Tractate::Kiddushin || t == Tractate::BavaKamma || t == Tractate::BavaMetzia,
    ensures
        chapter_ends(chapter_lengths(t)) == mishna_text_chapter_ends(t),
{
    reveal_with_fuel(chapter_ends, 31);
    reveal_with_fuel(seq_sum, 31);
    match t {
        Tractate::Gitin => {},
        Tractate::Kiddushin => {},
        Tractate::BavaKamma => {},
        Tractate::BavaMetzia => {},
        _ => {},
    }
}

#[verifier::spinoff_prover]
#[verifier::rlimit(60)]
proof fn lemma_text_group_8(t: Tractate)
    requires
        t == Tractate::BavaBasra || t == Tractate::Sanhedrin || t == Tractate::Makkos || t == Tractate::Shevuos,
    ensures
        chapter_ends(chapter_lengths(t)) == mishna_text_chapter_ends(t),
{
    reveal_with_fuel(chapter_ends, 31);
    reveal_with_fuel(seq_sum, 31);
    match t {
        Tractate::BavaBasra => {},
        Tractate::Sanhedrin => {},
        Tractate::Makkos => {},
        Tractate::Shevuos => {},
        _ => {},
    }
}

#[verifier::spinoff_prover]
#[verifier::rlimit(60)]
proof fn lemma_text_group_9(t: Tractate)
    requires
        t == Tractate::Eduyos || t == Tractate::AvodahZarah || t == Tractate::Avos || t == Tractate::Horiyos,
    ensures
        chapter_ends(chapter_lengths(t)) == mishna_text_chapter_ends(t),
{
    reveal_with_fuel(chapter_ends, 31);
    reveal_with_fuel(seq_sum, 31);
    match t {
        Tractate::Eduyos => {},
        Tractate::AvodahZarah => {},
        Tractate::Avos => {},
        Tractate::Horiyos => {},
        _ => {},
    }
}

#[verifier::spinoff_prover]
#[verifier::rlimit(60)]
proof fn lemma_text_group_10(t: Tractate)
    requires
        t == Tractate::Zevachim || t == Tractate::Menachos || t == Tractate::Chullin || t == Tractate::Bechoros,
    ensures
        chapter_ends(chapter_lengths(t)) == mishna_text_chapter_ends(t),
{
    reveal_with_fuel(chapter_ends, 31);
    reveal_with_fuel(seq_sum, 31);
    match t {
        Tractate::Zevachim => {},
        Tractate::Menachos => {},
        Tractate::Chullin => {},
        Tractate::Bechoros => {},
        _ => {},
    }
}

#[verifier::spinoff_prover]
#[verifier::rlimit(60)]
proof fn lemma_text_group_11(t: Tractate)
    requires
        t == Tractate::Arachin || t == Tractate::Temurah || t == Tractate::Kerisos || t == Tractate::Meilah,
    ensures
        chapter_ends(chapter_lengths(t)) == mishna_text_chapter_ends(t),
{
    reveal_with_fuel(chapter_ends, 31);
    reveal_with_fuel(seq_sum, 31);
    match t {
        Tractate::Arachin => {},
        Tractate::Temurah => {},
        Tractate::Kerisos => {},
        Tractate::Meilah => {},
        _ => {},
    }
}

#[verifier::spinoff_prover]
#[verifier::rlimit(60)]
proof fn lemma_text_group_12(t: Tractate)
    requires
        t == Tractate::Tamid || t == Tractate::Midos || t == Tractate::Kinnim,
    ensures
        chapter_ends(chapter_lengths(t)) == mishna_text_chapter_ends(t),
{
    reveal_with_fuel(chapter_ends, 31);
    reveal_with_fuel(seq_sum, 31);
    match t {
        Tractate::Tamid => {},
        Tractate::Midos => {},
        Tractate::Kinnim => {},
        _ => {},
    }
}

#[verifier::spinoff_prover]
#[verifier::rlimit(60)]
proof fn lemma_text_group_13(t: Tractate)
    requires
        t == Tractate::Keilim,
    ensures
        chapter_ends(chapter_lengths(t)) == mishna_text_chapter_ends(t),
{
    reveal_with_fuel(chapter_ends, 31);
    reveal_with_fuel(seq_sum, 31);
    match t {
        Tractate::Keilim => {},
        _ => {},
    }
}

#[verifier::spinoff_prover]
#[verifier::rlimit(60)]
proof fn lemma_text_group_14(t: Tractate)
    requires
        t == Tractate::Ohalos || t == Tractate::Negaim || t == Tractate::Parah || t == Tractate::Taharos,
    ensures
        chapter_ends(chapter_lengths(t)) == mishna_text_chapter_ends(t),
{
    reveal_with_fuel(chapter_ends, 31);
    reveal_with_fuel(seq_sum, 31);
    match t {
        Tractate::Ohalos => {},
        Tractate::Negaim => {},
        Tractate::Parah => {},
        Tractate::Taharos => {},
        _ => {},
    }
}

#[verifier::spinoff_prover]
#[verifier::rlimit(60)]
proof fn lemma_text_group_15(t: Tractate)
    requires
        t == Tractate::Mikvaos || t == Tractate::Niddah || t == Tractate::Machshirin || t == Tractate::Zavim,
    ensures
        chapter_ends(chapter_lengths(t)) == mishna_text_chapter_ends(t),
{
    reveal_with_fuel(chapter_ends, 31);
    reveal_with_fuel(seq_sum, 31);
    match t {
        Tractate::Mikvaos => {},
        Tractate::Niddah => {},
        Tractate::Machshirin => {},
        Tractate::Zavim => {},
        _ => {},
    }
}

#[verifier::spinoff_prover]
#[verifier::rlimit(60)]
proof fn lemma_text_group_16(t: Tractate)
    requires
        t == Tractate::TevulYom || t == Tractate::Yadayim || t == Tractate::Uktzin,
    ensures
        chapter_ends(chapter_lengths(t)) == mishna_text_chapter_ends(t),
{
    reveal_with_fuel(chapter_ends, 31);
    reveal_with_fuel(seq_sum, 31);
    match t {
        Tractate::TevulYom => {},
        Tractate::Yadayim => {},
        Tractate::Uktzin => {},
        _ => {},
    }
}

/// The chapter lengths that `chapter_length` gives are those of the Mishna
/// text: chapter by chapter, they close at the mishnayos that
/// `mishna_text_chapter_ends` lists. So chapter `c` of a tractate holds
/// `ends[c - 1] - ends[c - 2]` mishnayos (`ends[0]` for the first).
pub proof fn lemma_chapter_lengths_match_text(t: Tractate)
    ensures
        chapter_ends(chapter_lengths(t)) == mishna_text_chapter_ends(t),
{
    match t {
        Tractate::Berachos => lemma_text_group_0(t),
        Tractate::Peah => lemma_text_group_0(t),
        Tractate::Demai => lemma_text_group_0(t),
        Tractate::Kilayim => lemma_text_group_0(t),
        Tractate::Sheviis => lemma_text_group_1(t),
        Tractate::Terumos => lemma_text_group_1(t),
        Tractate::Maasros => lemma_text_group_1(t),
        Tractate::MaaserSheni => lemma_text_group_1(t),
        Tractate::Chalah => lemma_text_group_2(t),
        Tractate::Orlah => lemma_text_group_2(t),
        Tractate::Bikurim => lemma_text_group_2(t),
        Tractate::Shabbos => lemma_text_group_2(t),
        Tractate::Eruvin => lemma_text_group_3(t),
        Tractate::Pesachim => lemma_text_group_3(t),
        Tractate::Shekalim => lemma_text_group_3(t),
        Tractate::Yoma => lemma_text_group_3(t),
        Tractate::Sukkah => lemma_text_group_4(t),
        Tractate::Beitzah => lemma_text_group_4(t),
        Tractate::RoshHashanah => lemma_text_group_4(t),
        Tractate::Taanis => lemma_text_group_4(t),
        Tractate::Megillah => lemma_text_group_5(t),
        Tractate::MoedKatan => lemma_text_group_5(t),
        Tractate::Chagigah => lemma_text_group_5(t),
        Tractate::Yevamos => lemma_text_group_5(t),
        Tractate::Kesubos => lemma_text_group_6(t),
        Tractate::Nedarim => lemma_text_group_6(t),
        Tractate::Nazir => lemma_text_group_6(t),
        Tractate::Sotah => lemma_text_group_6(t),
        Tractate::Gitin => lemma_text_group_7(t),
        Tractate::Kiddushin => lemma_text_group_7(t),
        Tractate::BavaKamma => lemma_text_group_7(t),
        Tractate::BavaMetzia => lemma_text_group_7(t),
        Tractate::BavaBasra => lemma_text_group_8(t),
        Tractate::Sanhedrin => lemma_text_group_8(t),
        Tractate::Makkos => lemma_text_group_8(t),
        Tractate::Shevuos => lemma_text_group_8(t),
        Tractate::Eduyos => lemma_text_group_9(t),
        Tractate::AvodahZarah => lemma_text_group_9(t),
        Tractate::Avos => lemma_text_group_9(t),
        Tractate::Horiyos => lemma_text_group_9(t),
        Tractate::Zevachim => lemma_text_group_10(t),
        Tractate::Menachos => lemma_text_group_10(t),
        Tractate::Chullin => lemma_text_group_10(t),
        Tractate::Bechoros => lemma_text_group_10(t),
        Tractate::Arachin => lemma_text_group_11(t),
        Tractate::Temurah => lemma_text_group_11(t),
        Tractate::Kerisos => lemma_text_group_11(t),
        Tractate::Meilah => lemma_text_group_11(t),
        Tractate::Tamid => lemma_text_group_12(t),
        Tractate::Midos => lemma_text_group_12(t),
        Tractate::Kinnim => lemma_text_group_12(t),
        Tractate::Keilim => lemma_text_group_13(t),
        Tractate::Ohalos => lemma_text_group_14(t),
        Tractate::Negaim => lemma_text_group_14(t),
        Tractate::Parah => lemma_text_group_14(t),
        Tractate::Taharos => lemma_text_group_14(t),
        Tractate::Mikvaos => lemma_text_group_15(t),
        Tractate::Niddah => lemma_text_group_15(t),
        Tractate::Machshirin => lemma_text_group_15(t),
        Tractate::Zavim => lemma_text_group_15(t),
        Tractate::TevulYom => lemma_text_group_16(t),
        Tractate::Yadayim => lemma_text_group_16(t),
        Tractate::Uktzin => lemma_text_group_16(t),
    }
}

proof fn lemma_chapter_ends_len(lens: Seq<u16>)
    ensures
        chapter_ends(lens).len() == lens.len(),
        lens.len() > 0 ==> chapter_ends(lens)[lens.len() - 1] == seq_sum(lens),
    decreases lens.len(),
{
    if lens.len() > 0 {
        lemma_chapter_ends_len(lens.drop_last());
    }
}

proof fn lemma_chapter_ends_step(lens: Seq<u16>, i: int)
    requires
        0 <= i < lens.len(),
    ensures
        chapter_ends(lens).len() == lens.len(),
        lens[i] == chapter_ends(lens)[i] - if i == 0 {
            0
        } else {
            chapter_ends(lens)[i - 1]
        },
    decreases lens.len(),
{
    let dl = lens.drop_last();
    lemma_chapter_ends_len(lens);
    lemma_chapter_ends_len(dl);
    if i < lens.len() - 1 {
        lemma_chapter_ends_step(dl, i);
        assert(chapter_ends(lens)[i] == chapter_ends(dl)[i]);
        if i > 0 {
            assert(chapter_ends(lens)[i - 1] == chapter_ends(dl)[i - 1]);
        }
    } else {
        assert(seq_sum(lens) == seq_sum(dl) + lens.last());
        if i > 0 {
            assert(chapter_ends(lens)[i - 1] == chapter_ends(dl)[i - 1]);
        } else {
            assert(seq_sum(dl) == 0);
        }
    }
}

/// Chapter `c` of a tractate holds as many mishnayos as the Mishna text
/// gives it: the difference of the numbers of the mishnayos that close it
/// and the chapter before.
pub proof fn lemma_chapter_length_from_text(t: Tractate, chapter: int)
    requires
        1 <= chapter <= chapter_lengths(t).len(),
    ensures
        mishna_text_chapter_ends(t).len() == chapter_lengths(t).len(),
        chapter_lengths(t)[chapter - 1] == mishna_text_chapter_ends(t)[chapter - 1] - if chapter
            == 1 {
            0
        } else {
            mishna_text_chapter_ends(t)[chapter - 2]
        },
{
    lemma_chapter_lengths_match_text(t);
    lemma_chapter_ends_step(chapter_lengths(t), chapter - 1);
}

proof fn lemma_mishna_total(ts: Seq<Tractate>)
    ensures
        mishnayos_of(ts).len() == mishna_total(ts),
    decreases ts.len(),
{
    if ts.len() > 0 {
        lemma_mishna_total(ts.drop_last());
        lemma_chapters_count(ts.last(), chapter_lengths(ts.last()));
    }
}

/// Every chapter has at least one mishna, and the chapter lengths of all
/// tractates add up to 4192: the two mishnayos of each of the 2096 days of a
/// Mishna Yomis cycle.
pub proof fn lemma_chapter_lengths(t: Tractate, chapter: int)
    requires
        1 <= chapter <= chapter_lengths(t).len(),
    ensures
        chapter_lengths(t)[chapter - 1] >= 1,
        mishna_total(all_tractates_seq()) == 2 * (MISHNA_YOMIS_CYCLE_DAYS + 1),
{
    lemma_positive_tractate(t);
    lemma_positive_each(chapter_lengths(t), chapter - 1);
    lemma_mishna_total(all_tractates_seq());
    lemma_mishna_count();
}

/// From the first cycle on, every day has its two mishnayos.
pub proof fn lemma_mishnas_every_day(d: int)
    requires
        mishna_yomis_first_day() matches Some(s0) && valid_day_number(s0 as int) && find_cycle_spec(
            CycleRule::MishnaYomis,
            s0 as int,
            d,
        ) is Some,
    ensures
        mishna_yomis_on(d) is Some,
{
    let s0 = mishna_yomis_first_day().unwrap() as int;
    lemma_cycle_walk(CycleRule::MishnaYomis, s0, 1, d);
    lemma_mishna_count();
}

/// Calculates the Mishna Yomis schedule.
#[derive(Default)]
pub struct MishnaYomis;

impl LimudCalculator<Mishnas> for MishnaYomis {
    open spec fn limud_spec(&self, d: int) -> Option<Mishnas> {
        mishna_yomis_on(d)
    }

    /// The two mishnayos learned on the date, or `None` before the first cycle.
    fn limud(&self, date: HebrewDate) -> (r: Option<Mishnas>) {
        let first = match HebrewDate::from_gregorian_date(1947, 5, 20) {
            Some(d) => d,
            None => return None,
        };
        let first_number = first.day_number();
        let cycle = match Cycle::from_cycle_initiation(&first, CycleRule::MishnaYomis, &date) {
            Some(c) => c,
            None => return None,
        };
        proof {
            lemma_cycle_walk(CycleRule::MishnaYomis, first@, 1, date@);
        }
        if cycle.end_date.is_before(&date) {
            return None;
        }
        let offset = cycle.start_date.days_until(&date);
        if offset < 0 || offset > 1000000 {
            return None;
        }
        let m1 = match mishna_at(2 * offset as usize) {
            Some(m) => m,
            None => return None,
        };
        let m2 = match mishna_at(2 * offset as usize + 1) {
            Some(m) => m,
            None => return None,
        };
        Some(Mishnas(m1, m2))
    }
}

} // verus!
