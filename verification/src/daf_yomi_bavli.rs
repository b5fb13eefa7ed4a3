//! Daf Yomi of the Babylonian Talmud: a daf a day, in cycles that began on
//! 11 September 1923.
use vstd::prelude::*;

use crate::limud_calculator::LimudCalculator;
use core::ops::RangeInclusive;

use crate::cycle::{
    find_cycle_spec, lemma_cycle_walk, Cycle, CycleRule, SHEKALIM_EXPANSION_CYCLE,
};
use crate::date::{valid_day_number, HebrewDate};
use crate::icu::icu_gregorian_day_number;
use crate::units::{bavli_tractates, bavli_tractates_seq, Daf, Tractate};

verus! {

/// The first daf of a tractate.
pub open spec fn bavli_start_daf(tractate: Tractate) -> u16 {
    match tractate {
        Tractate::Kinnim => 23,
        Tractate::Tamid => 26,
        Tractate::Midos => 34,
        _ => 2,
    }
}

/// The last daf of a tractate of the Babylonian Talmud in the given cycle
/// (Shekalim has 13 dafim before cycle 8 and 22 from it on); `None` for a
/// tractate that has no Babylonian Talmud.
pub open spec fn bavli_end_daf(tractate: Tractate, iteration: int) -> Option<u16> {
    match tractate {
        Tractate::Berachos => Some(64u16),
        Tractate::Shabbos => Some(157u16),
        Tractate::Eruvin => Some(105u16),
        Tractate::Pesachim => Some(121u16),
        Tractate::Shekalim => Some(if iteration < SHEKALIM_EXPANSION_CYCLE { 13u16 } else { 22u16 }),
        Tractate::Yoma => Some(88u16),
        Tractate::Sukkah => Some(56u16),
        Tractate::Beitzah => Some(40u16),
        Tractate::RoshHashanah => Some(35u16),
        Tractate::Taanis => Some(31u16),
        Tractate::Megillah => Some(32u16),
        Tractate::MoedKatan => Some(29u16),
        Tractate::Chagigah => Some(27u16),
        Tractate::Yevamos => Some(122u16),
        Tractate::Kesubos => Some(112u16),
        Tractate::Nedarim => Some(91u16),
        Tractate::Nazir => Some(66u16),
        Tractate::Sotah => Some(49u16),
        Tractate::Gitin => Some(90u16),
        Tractate::Kiddushin => Some(82u16),
        Tractate::BavaKamma => Some(119u16),
        Tractate::BavaMetzia => Some(119u16),
        Tractate::BavaBasra => Some(176u16),
        Tractate::Sanhedrin => Some(113u16),
        Tractate::Makkos => Some(24u16),
        Tractate::Shevuos => Some(49u16),
        Tractate::AvodahZarah => Some(76u16),
        Tractate::Horiyos => Some(14u16),
        Tractate::Zevachim => Some(120u16),
        Tractate::Menachos => Some(110u16),
        Tractate::Chullin => Some(142u16),
        Tractate::Bechoros => Some(61u16),
        Tractate::Arachin => Some(34u16),
        Tractate::Temurah => Some(34u16),
        Tractate::Kerisos => Some(28u16),
        Tractate::Meilah => Some(22u16),
        Tractate::Kinnim => Some(25u16),
        Tractate::Tamid => Some(33u16),
        Tractate::Midos => Some(37u16),
        Tractate::Niddah => Some(73u16),
        _ => None,
    }
}

/// The dafim `first` to `last` of a tractate, in order.
pub open spec fn pages(t: Tractate, first: int, last: int) -> Seq<Daf> {
    Seq::new(
        if last >= first {
            (last - first + 1) as nat
        } else {
            0nat
        },
        |i: int| Daf { tractate: t, page: (first + i) as u16 },
    )
}

/// The dafim of a tractate in the given cycle.
pub open spec fn bavli_tractate_dafs(t: Tractate, iteration: int) -> Seq<Daf> {
    match bavli_end_daf(t, iteration) {
        Some(e) => pages(t, bavli_start_daf(t) as int, e as int),
        None => pages(t, 1, 0),
    }
}

/// The dafim of the given tractates in the given cycle, in order.
pub open spec fn bavli_dafs_of(ts: Seq<Tractate>, iteration: int) -> Seq<Daf>
    decreases ts.len(),
{
    if ts.len() == 0 {
        Seq::empty()
    } else {
        bavli_dafs_of(ts.drop_last(), iteration) + bavli_tractate_dafs(ts.last(), iteration)
    }
}

/// All dafim learned in the given cycle of the Daf Yomi, in order.
pub open spec fn bavli_dafs(iteration: int) -> Seq<Daf> {
    bavli_dafs_of(bavli_tractates_seq(), iteration)
}

/// The element at `i` of a sequence, if there is one.
pub open spec fn nth<A>(s: Seq<A>, i: int) -> Option<A> {
    if 0 <= i < s.len() {
        Some(s[i])
    } else {
        None
    }
}

/// The day the first cycle began: 11 September 1923.
pub open spec fn bavli_first_day() -> Option<i64> {
    icu_gregorian_day_number(1923, 9, 11)
}

/// The daf learned on day number `d`.
pub open spec fn daf_yomi_bavli_on(d: int) -> Option<Daf> {
    match bavli_first_day() {
        Some(s0) => if valid_day_number(s0 as int) {
            match find_cycle_spec(CycleRule::DafYomiBavli, s0 as int, d) {
                Some(c) => nth(bavli_dafs(c.2), d - c.0),
                None => None,
            }
        } else {
            None
        },
        None => None,
    }
}

/// The first daf of a tractate.
pub fn start_daf(tractate: Tractate, _iteration: i32) -> (r: u16)
    ensures
        r == bavli_start_daf(tractate),
{
    match tractate {
        Tractate::Kinnim => 23,
        Tractate::Tamid => 26,
        Tractate::Midos => 34,
        _ => 2,
    }
}

/// The last daf of a tractate in the given cycle, or `None` for a tractate
/// that has no Babylonian Talmud.
pub fn end_daf(tractate: Tractate, iteration: i32) -> (r: Option<u16>)
    ensures
        r == bavli_end_daf(tractate, iteration as int),
{
    let daf: u16 = match tractate {
        Tractate::Berachos => 64,
        Tractate::Shabbos => 157,
        Tractate::Eruvin => 105,
        Tractate::Pesachim => 121,
        Tractate::Shekalim => {
            if iteration < SHEKALIM_EXPANSION_CYCLE {
                13
            } else {
                22
            }
        },
        Tractate::Yoma => 88,
        Tractate::Sukkah => 56,
        Tractate::Beitzah => 40,
        Tractate::RoshHashanah => 35,
        Tractate::Taanis => 31,
        Tractate::Megillah => 32,
        Tractate::MoedKatan => 29,
        Tractate::Chagigah => 27,
        Tractate::Yevamos => 122,
        Tractate::Kesubos => 112,
        Tractate::Nedarim => 91,
        Tractate::Nazir => 66,
        Tractate::Sotah => 49,
        Tractate::Gitin => 90,
        Tractate::Kiddushin => 82,
        Tractate::BavaKamma => 119,
        Tractate::BavaMetzia => 119,
        Tractate::BavaBasra => 176,
        Tractate::Sanhedrin => 113,
        Tractate::Makkos => 24,
        Tractate::Shevuos => 49,
        Tractate::AvodahZarah => 76,
        Tractate::Horiyos => 14,
        Tractate::Zevachim => 120,
        Tractate::Menachos => 110,
        Tractate::Chullin => 142,
        Tractate::Bechoros => 61,
        Tractate::Arachin => 34,
        Tractate::Temurah => 34,
        Tractate::Kerisos => 28,
        Tractate::Meilah => 22,
        Tractate::Kinnim => 25,
        Tractate::Tamid => 33,
        Tractate::Midos => 37,
        Tractate::Niddah => 73,
        _ => 0,
    };
    if daf == 0 {
        None
    } else {
        Some(daf)
    }
}

/// The dafim of a tractate in the given cycle, first to last; empty for a
/// tractate that has no Babylonian Talmud.
pub fn iter(tractate: Tractate, iteration: i32) -> (r: RangeInclusive<u16>)
    ensures
        bavli_end_daf(tractate, iteration as int) matches Some(e) ==> r@.start == bavli_start_daf(
            tractate,
        ) && r@.end == e,
        bavli_end_daf(tractate, iteration as int) is None ==> r@.start == 1 && r@.end == 0,
        !r@.exhausted,
{
    match end_daf(tractate, iteration) {
        Some(end) => RangeInclusive::new(start_daf(tractate, iteration), end),
        None => RangeInclusive::new(1, 0),
    }
}

/// The daf at position `offset` of the given cycle, if the cycle has so many.
pub fn nth_daf(iteration: i32, offset: usize) -> (r: Option<Daf>)
    ensures
        r == nth(bavli_dafs(iteration as int), offset as int),
{
    let ts = bavli_tractates();
    let mut remaining: usize = offset;
    let mut i: usize = 0;
    while i < 40
        invariant
            0 <= i <= 40,
            ts@ == bavli_tractates_seq(),
            offset >= bavli_dafs_of(ts@.take(i as int), iteration as int).len(),
            remaining == offset - bavli_dafs_of(ts@.take(i as int), iteration as int).len(),
        decreases 40 - i,
    {
        let t = ts[i];
        let ghost prefix = bavli_dafs_of(ts@.take(i as int), iteration as int);
        assert(ts@.take(i + 1).drop_last() =~= ts@.take(i as int));
        assert(bavli_dafs_of(ts@.take(i + 1), iteration as int) == prefix + bavli_tractate_dafs(
            t,
            iteration as int,
        ));
        match end_daf(t, iteration) {
            Some(e) => {
                let s = start_daf(t, iteration);
                if s <= e {
                    let count: usize = (e - s) as usize + 1;
                    if remaining < count {
                        let page: u16 = s + remaining as u16;
                        let r = Daf { tractate: t, page };
                        assert((prefix + bavli_tractate_dafs(t, iteration as int))[offset as int]
                            == r);
                        proof {
                            lemma_dafs_prefix(ts@, i as int + 1, iteration as int);
                        }
                        return Some(r);
                    }
                    remaining = remaining - count;
                }
            },
            None => {},
        }
        i += 1;
    }
    assert(ts@.take(40) =~= ts@);
    None
}

/// The dafim of a prefix of the tractates are a prefix of the dafim of all of
/// them.
pub proof fn lemma_dafs_prefix(ts: Seq<Tractate>, k: int, iteration: int)
    requires
        0 <= k <= ts.len(),
    ensures
        bavli_dafs_of(ts.take(k), iteration).len() <= bavli_dafs_of(ts, iteration).len(),
        forall|j: int|
            0 <= j < bavli_dafs_of(ts.take(k), iteration).len() ==> #[trigger] bavli_dafs_of(
                ts.take(k),
                iteration,
            )[j] == bavli_dafs_of(ts, iteration)[j],
    decreases ts.len() - k,
{
    if k < ts.len() {
        lemma_dafs_prefix(ts, k + 1, iteration);
        assert(ts.take(k + 1).drop_last() =~= ts.take(k));
        let short = bavli_dafs_of(ts.take(k), iteration);
        let long = bavli_dafs_of(ts.take(k + 1), iteration);
        assert(long == short + bavli_tractate_dafs(ts.take(k + 1).last(), iteration));
        assert forall|j: int| 0 <= j < short.len() implies #[trigger] short[j] == bavli_dafs_of(
            ts,
            iteration,
        )[j] by {
            assert(long[j] == short[j]);
        }
    } else {
        assert(ts.take(k) =~= ts);
    }
}

/// The count of dafim of an early cycle, tractate by tractate.
#[verifier::spinoff_prover]
#[verifier::rlimit(40)]
proof fn lemma_bavli_daf_count_early(iteration: int)
    requires
        iteration < SHEKALIM_EXPANSION_CYCLE,
    ensures
        bavli_dafs(iteration).len() == 2702,
{
    let ts = bavli_tractates_seq();
    assert forall|k: int| 1 <= k <= 40 implies #[trigger] bavli_dafs_of(ts.take(k), iteration).len()
        == bavli_dafs_of(ts.take(k - 1), iteration).len() + bavli_tractate_dafs(ts[k - 1], iteration).len() by {
        assert(ts.take(k).drop_last() =~= ts.take(k - 1));
    }
    assert(ts.take(0) =~= Seq::<Tractate>::empty());
    assert(bavli_dafs_of(ts.take(1), iteration).len() == 63);
    assert(bavli_dafs_of(ts.take(2), iteration).len() == 219);
    assert(bavli_dafs_of(ts.take(3), iteration).len() == 323);
    assert(bavli_dafs_of(ts.take(4), iteration).len() == 443);
    assert(bavli_dafs_of(ts.take(5), iteration).len() == 455);
    assert(bavli_dafs_of(ts.take(6), iteration).len() == 542);
    assert(bavli_dafs_of(ts.take(7), iteration).len() == 597);
    assert(bavli_dafs_of(ts.take(8), iteration).len() == 636);
    assert(bavli_dafs_of(ts.take(9), iteration).len() == 670);
    assert(bavli_dafs_of(ts.take(10), iteration).len() == 700);
    assert(bavli_dafs_of(ts.take(11), iteration).len() == 731);
    assert(bavli_dafs_of(ts.take(12), iteration).len() == 759);
    assert(bavli_dafs_of(ts.take(13), iteration).len() == 785);
    assert(bavli_dafs_of(ts.take(14), iteration).len() == 906);
    assert(bavli_dafs_of(ts.take(15), iteration).len() == 1017);
    assert(bavli_dafs_of(ts.take(16), iteration).len() == 1107);
    assert(bavli_dafs_of(ts.take(17), iteration).len() == 1172);
    assert(bavli_dafs_of(ts.take(18), iteration).len() == 1220);
    assert(bavli_dafs_of(ts.take(19), iteration).len() == 1309);
    assert(bavli_dafs_of(ts.take(20), iteration).len() == 1390);
    assert(bavli_dafs_of(ts.take(21), iteration).len() == 1508);
    assert(bavli_dafs_of(ts.take(22), iteration).len() == 1626);
    assert(bavli_dafs_of(ts.take(23), iteration).len() == 1801);
    assert(bavli_dafs_of(ts.take(24), iteration).len() == 1913);
    assert(bavli_dafs_of(ts.take(25), iteration).len() == 1936);
    assert(bavli_dafs_of(ts.take(26), iteration).len() == 1984);
    assert(bavli_dafs_of(ts.take(27), iteration).len() == 2059);
    assert(bavli_dafs_of(ts.take(28), iteration).len() == 2072);
    assert(bavli_dafs_of(ts.take(29), iteration).len() == 2191);
    assert(bavli_dafs_of(ts.take(30), iteration).len() == 2300);
    assert(bavli_dafs_of(ts.take(31), iteration).len() == 2441);
    assert(bavli_dafs_of(ts.take(32), iteration).len() == 2501);
    assert(bavli_dafs_of(ts.take(33), iteration).len() == 2534);
    assert(bavli_dafs_of(ts.take(34), iteration).len() == 2567);
    assert(bavli_dafs_of(ts.take(35), iteration).len() == 2594);
    assert(bavli_dafs_of(ts.take(36), iteration).len() == 2615);
    assert(bavli_dafs_of(ts.take(37), iteration).len() == 2618);
    assert(bavli_dafs_of(ts.take(38), iteration).len() == 2626);
    assert(bavli_dafs_of(ts.take(39), iteration).len() == 2630);
    assert(bavli_dafs_of(ts.take(40), iteration).len() == 2702);
    assert(ts.take(40) =~= ts);
}

/// The count of dafim of a cycle from cycle 8 on, tractate by tractate.
#[verifier::spinoff_prover]
#[verifier::rlimit(40)]
proof fn lemma_bavli_daf_count_modern(iteration: int)
    requires
        iteration >= SHEKALIM_EXPANSION_CYCLE,
    ensures
        bavli_dafs(iteration).len() == 2711,
{
    let ts = bavli_tractates_seq();
    assert forall|k: int| 1 <= k <= 40 implies #[trigger] bavli_dafs_of(ts.take(k), iteration).len()
        == bavli_dafs_of(ts.take(k - 1), iteration).len() + bavli_tractate_dafs(ts[k - 1], iteration).len() by {
        assert(ts.take(k).drop_last() =~= ts.take(k - 1));
    }
    assert(ts.take(0) =~= Seq::<Tractate>::empty());
    assert(bavli_dafs_of(ts.take(1), iteration).len() == 63);
    assert(bavli_dafs_of(ts.take(2), iteration).len() == 219);
    assert(bavli_dafs_of(ts.take(3), iteration).len() == 323);
    assert(bavli_dafs_of(ts.take(4), iteration).len() == 443);
    assert(bavli_dafs_of(ts.take(5), iteration).len() == 464);
    assert(bavli_dafs_of(ts.take(6), iteration).len() == 551);
    assert(bavli_dafs_of(ts.take(7), iteration).len() == 606);
    assert(bavli_dafs_of(ts.take(8), iteration).len() == 645);
    assert(bavli_dafs_of(ts.take(9), iteration).len() == 679);
    assert(bavli_dafs_of(ts.take(10), iteration).len() == 709);
    assert(bavli_dafs_of(ts.take(11), iteration).len() == 740);
    assert(bavli_dafs_of(ts.take(12), iteration).len() == 768);
    assert(bavli_dafs_of(ts.take(13), iteration).len() == 794);
    assert(bavli_dafs_of(ts.take(14), iteration).len() == 915);
    assert(bavli_dafs_of(ts.take(15), iteration).len() == 1026);
    assert(bavli_dafs_of(ts.take(16), iteration).len() == 1116);
    assert(bavli_dafs_of(ts.take(17), iteration).len() == 1181);
    assert(bavli_dafs_of(ts.take(18), iteration).len() == 1229);
    assert(bavli_dafs_of(ts.take(19), iteration).len() == 1318);
    assert(bavli_dafs_of(ts.take(20), iteration).len() == 1399);
    assert(bavli_dafs_of(ts.take(21), iteration).len() == 1517);
    assert(bavli_dafs_of(ts.take(22), iteration).len() == 1635);
    assert(bavli_dafs_of(ts.take(23), iteration).len() == 1810);
    assert(bavli_dafs_of(ts.take(24), iteration).len() == 1922);
    assert(bavli_dafs_of(ts.take(25), iteration).len() == 1945);
    assert(bavli_dafs_of(ts.take(26), iteration).len() == 1993);
    assert(bavli_dafs_of(ts.take(27), iteration).len() == 2068);
    assert(bavli_dafs_of(ts.take(28), iteration).len() == 2081);
    assert(bavli_dafs_of(ts.take(29), iteration).len() == 2200);
    assert(bavli_dafs_of(ts.take(30), iteration).len() == 2309);
    assert(bavli_dafs_of(ts.take(31), iteration).len() == 2450);
    assert(bavli_dafs_of(ts.take(32), iteration).len() == 2510);
    assert(bavli_dafs_of(ts.take(33), iteration).len() == 2543);
    assert(bavli_dafs_of(ts.take(34), iteration).len() == 2576);
    assert(bavli_dafs_of(ts.take(35), iteration).len() == 2603);
    assert(bavli_dafs_of(ts.take(36), iteration).len() == 2624);
    assert(bavli_dafs_of(ts.take(37), iteration).len() == 2627);
    assert(bavli_dafs_of(ts.take(38), iteration).len() == 2635);
    assert(bavli_dafs_of(ts.take(39), iteration).len() == 2639);
    assert(bavli_dafs_of(ts.take(40), iteration).len() == 2711);
    assert(ts.take(40) =~= ts);
}

/// The number of pages in the range from `start` to `end`, both included.
pub open spec fn range_count(start: int, end: int) -> int {
    if end >= start {
        end - start + 1
    } else {
        0
    }
}

/// The number of dafim that `iter(t, iteration)` yields.
pub open spec fn bavli_iter_count(t: Tractate, iteration: int) -> int {
    match bavli_end_daf(t, iteration) {
        Some(e) => range_count(bavli_start_daf(t) as int, e as int),
        None => range_count(1, 0),
    }
}

/// The dafim that `iter` yields over the given tractates, added up.
pub open spec fn bavli_iter_total(ts: Seq<Tractate>, iteration: int) -> int
    decreases ts.len(),
{
    if ts.len() == 0 {
        0
    } else {
        bavli_iter_total(ts.drop_last(), iteration) + bavli_iter_count(ts.last(), iteration)
    }
}

proof fn lemma_iter_total(ts: Seq<Tractate>, iteration: int)
    ensures
        bavli_dafs_of(ts, iteration).len() == bavli_iter_total(ts, iteration),
    decreases ts.len(),
{
    if ts.len() > 0 {
        lemma_iter_total(ts.drop_last(), iteration);
    }
}

/// Over the tractates of the Babylonian Talmud, the ranges that `iter`
/// gives hold 2702 dafim before cycle 8 and 2711 from it on; a tractate
/// without Babylonian Talmud gives none.
pub proof fn lemma_iter_counts(t: Tractate, iteration: int)
    ensures
        bavli_iter_total(bavli_tractates_seq(), iteration) == if iteration < SHEKALIM_EXPANSION_CYCLE {
            2702int
        } else {
            2711int
        },
        bavli_end_daf(t, iteration) is None ==> bavli_iter_count(t, iteration) == 0,
{
    lemma_iter_total(bavli_tractates_seq(), iteration);
    lemma_bavli_daf_count(iteration);
}

/// From the first cycle on, every day has a daf: whenever the day falls in
/// a cycle, the cycle has a daf for it.
pub proof fn lemma_daf_every_day(d: int)
    requires
        bavli_first_day() matches Some(s0) && valid_day_number(s0 as int) && find_cycle_spec(
            CycleRule::DafYomiBavli,
            s0 as int,
            d,
        ) is Some,
    ensures
        daf_yomi_bavli_on(d) is Some,
{
    let s0 = bavli_first_day().unwrap() as int;
    lemma_cycle_walk(CycleRule::DafYomiBavli, s0, 1, d);
    let c = find_cycle_spec(CycleRule::DafYomiBavli, s0, d).unwrap();
    lemma_bavli_daf_count(c.2);
}

/// Every cycle opens with Berachos 2 and closes with Niddah 73.
pub proof fn lemma_cycle_first_and_last(iteration: int)
    ensures
        bavli_dafs(iteration)[0] == (Daf { tractate: Tractate::Berachos, page: 2 }),
        bavli_dafs(iteration).last() == (Daf { tractate: Tractate::Niddah, page: 73 }),
{
    let ts = bavli_tractates_seq();
    lemma_bavli_daf_count(iteration);
    lemma_dafs_prefix(ts, 1, iteration);
    assert(ts.take(1).drop_last() =~= ts.take(0));
    assert(ts.take(0) =~= Seq::<Tractate>::empty());
    assert(bavli_dafs_of(Seq::<Tractate>::empty(), iteration) =~= Seq::<Daf>::empty());
    assert(ts.take(1).last() == Tractate::Berachos);
    assert(bavli_dafs_of(ts.take(1), iteration) == bavli_dafs_of(ts.take(0), iteration)
        + bavli_tractate_dafs(Tractate::Berachos, iteration));
    assert(bavli_dafs_of(ts.take(1), iteration) =~= bavli_tractate_dafs(Tractate::Berachos, iteration));
    assert(bavli_dafs_of(ts.take(1), iteration)[0] == (Daf { tractate: Tractate::Berachos, page: 2 }));
    assert(ts.last() == Tractate::Niddah);
    assert(ts.drop_last().len() == 39);
}

/// Calculates the Daf Yomi Bavli schedule.
#[derive(Default)]
pub struct DafYomiBavli {}

impl LimudCalculator<Daf> for DafYomiBavli {
    open spec fn limud_spec(&self, d: int) -> Option<Daf> {
        daf_yomi_bavli_on(d)
    }

    /// The daf learned on the date, or `None` before the first cycle.
    fn limud(&self, date: HebrewDate) -> (r: Option<Daf>) {
        let first = match HebrewDate::from_gregorian_date(1923, 9, 11) {
            Some(d) => d,
            None => return None,
        };
        let first_number = first.day_number();
        let cycle = match Cycle::from_cycle_initiation(&first, CycleRule::DafYomiBavli, &date) {
            Some(c) => c,
            None => return None,
        };
        proof {
            lemma_cycle_walk(CycleRule::DafYomiBavli, first@, 1, date@);
        }
        if cycle.end_date.is_before(&date) {
            return None;
        }
        let iteration = match cycle.iteration {
            Some(i) => i,
            None => return None,
        };
        let offset = cycle.start_date.days_until(&date);
        if offset < 0 || offset > 1000000 {
            return None;
        }
        nth_daf(iteration, offset as usize)
    }
}

/// A cycle of the Daf Yomi has 2702 dafim before cycle 8 and 2711 from it
/// on: as many as the days of the cycle.
pub proof fn lemma_bavli_daf_count(iteration: int)
    ensures
        bavli_dafs(iteration).len() == if iteration < SHEKALIM_EXPANSION_CYCLE {
            2702int
        } else {
            2711int
        },
{
    if iteration < SHEKALIM_EXPANSION_CYCLE {
        lemma_bavli_daf_count_early(iteration);
    } else {
        lemma_bavli_daf_count_modern(iteration);
    }
}

} // verus!
