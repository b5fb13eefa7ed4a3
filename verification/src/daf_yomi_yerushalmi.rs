//! Daf Yomi of the Jerusalem Talmud (Vilna edition): a daf a day, except on
//! Yom Kippur and Tisha B'Av, which are skipped.
use vstd::prelude::*;

use crate::limud_calculator::LimudCalculator;
use core::ops::RangeInclusive;

use crate::cycle::{find_cycle_spec, lemma_cycle_walk, Cycle, CycleRule};
use crate::daf_yomi_bavli::{nth, pages};
use crate::date::{valid_day_number, HebrewDate};
use crate::holiday::{fields_at, holiday_is_today, holiday_on, Holiday};
use crate::units::{yerushalmi_tractates, yerushalmi_tractates_seq, Daf, Tractate};

verus! {

/// Number of dafim in the Yerushalmi Talmud.
pub const YERUSHALMI_DAF_COUNT: i32 = 1554;

/// The day of the first cycle's start: 2 February 1980.
pub open spec fn yerushalmi_first_day() -> Option<i64> {
    crate::icu::icu_gregorian_day_number(1980, 2, 2)
}

/// A day on which no daf is learned: Yom Kippur or Tisha B'Av (as kept
/// outside Israel).
pub open spec fn is_skip_day_at(rd: int) -> bool {
    holiday_on(Holiday::TishahBav, fields_at(rd), false) || holiday_on(
        Holiday::YomKippur,
        fields_at(rd),
        false,
    )
}

/// The number of skipped days among the days after `a` up to `b` included.
pub open spec fn skips_between(a: int, b: int) -> int
    decreases b - a,
{
    if b <= a {
        0
    } else {
        skips_between(a, b - 1) + if is_skip_day_at(b) {
            1int
        } else {
            0int
        }
    }
}

/// There are no more skipped days after `a` up to `b` than there are days.
pub proof fn lemma_skips_bounded(a: int, b: int)
    ensures
        0 <= skips_between(a, b),
        b > a ==> skips_between(a, b) <= b - a,
    decreases b - a,
{
    if b > a {
        lemma_skips_bounded(a, b - 1);
    }
}

/// Extending a cycle that ends on `end` by the `found` skipped days that
/// fell in its last stretch, then by those of the extension, until a
/// stretch holds none.
pub open spec fn extend_by_skips(end: int, found: int) -> Option<int>
    decreases found,
{
    if found <= 0 {
        Some(end)
    } else if !valid_day_number(end + 1) || !valid_day_number(end + found) {
        None
    } else {
        proof {
            lemma_skips_bounded(end + 1, end + found);
        }
        extend_by_skips(end + found, skips_between(end + 1, end + found))
    }
}

/// The last day of a cycle that starts on `start`: the 1554 dafim take as
/// many days, and every skipped day adds one.
pub open spec fn yerushalmi_cycle_end(start: int) -> Option<int> {
    if !valid_day_number(start + (YERUSHALMI_DAF_COUNT - 1)) {
        None
    } else {
        extend_by_skips(
            start + (YERUSHALMI_DAF_COUNT - 1),
            skips_between(start, start + (YERUSHALMI_DAF_COUNT - 1)),
        )
    }
}

/// A cycle's end comes at least 1553 days after its start.
pub proof fn lemma_extend_by_skips(end: int, found: int)
    ensures
        extend_by_skips(end, found) matches Some(e) ==> e >= end,
    decreases found,
{
    if found > 0 && valid_day_number(end + 1) && valid_day_number(end + found) {
        lemma_skips_bounded(end + 1, end + found);
        lemma_extend_by_skips(end + found, skips_between(end + 1, end + found));
    }
}

/// Whether no daf is learned on the date.
pub fn is_skip_day(date: &HebrewDate) -> (r: bool)
    ensures
        r == is_skip_day_at(date@),
{
    let f = date.fields();
    holiday_is_today(Holiday::TishahBav, &f, false) || holiday_is_today(Holiday::YomKippur, &f, false)
}

/// The number of skipped days after `a` up to `b` included.
pub fn found_skips_between(a: &HebrewDate, b: &HebrewDate) -> (r: i32)
    requires
        b@ - a@ <= i32::MAX,
    ensures
        r == skips_between(a@, b@),
{
    let mut current = *a;
    let mut skips: i32 = 0;
    proof {
        lemma_skips_bounded(a@, a@);
    }
    while current.is_before(b)
        invariant
            a@ <= current@,
            current@ <= b@ || current@ == a@,
            current@ > a@ ==> current@ <= b@,
            b@ - a@ <= i32::MAX,
            skips == skips_between(a@, current@),
            0 <= skips <= current@ - a@,
        decreases b@ - current@,
    {
        let ghost prev = current@;
        let bn = b.day_number();
        let cn = current.day_number();
        current = current.add_days(1).unwrap();
        if is_skip_day(&current) {
            skips += 1;
        }
        assert(skips_between(a@, current@) == skips_between(a@, prev) + if is_skip_day_at(
            current@,
        ) {
            1int
        } else {
            0int
        });
    }
    skips
}

/// A cycle ends at most 1554 squared days after its nominal end.
pub proof fn lemma_extend_by_skips_bounded(end: int, found: int)
    requires
        found >= 0,
    ensures
        extend_by_skips(end, found) matches Some(e) ==> e <= end + found * found,
    decreases found,
{
    if found > 0 && valid_day_number(end + 1) && valid_day_number(end + found) {
        lemma_skips_bounded(end + 1, end + found);
        let f2 = skips_between(end + 1, end + found);
        lemma_extend_by_skips_bounded(end + found, f2);
        assert(found + f2 * f2 <= found * found) by (nonlinear_arith)
            requires
                0 <= f2 <= found - 1,
        ;
    }
}

/// A Yerushalmi cycle lasts at most 1554 + 1554 * 1554 days.
pub proof fn lemma_yerushalmi_cycle_bounded(start: int)
    ensures
        yerushalmi_cycle_end(start) matches Some(e) ==> e <= start + 1553 + 1554 * 1554,
{
    if valid_day_number(start + (YERUSHALMI_DAF_COUNT - 1)) {
        let f = skips_between(start, start + (YERUSHALMI_DAF_COUNT - 1));
        lemma_skips_bounded(start, start + (YERUSHALMI_DAF_COUNT - 1));
        lemma_extend_by_skips_bounded(start + (YERUSHALMI_DAF_COUNT - 1), f);
        assert(f * f <= 1554 * 1554) by (nonlinear_arith)
            requires
                0 <= f <= 1554,
        ;
    }
}

/// The last daf of a tractate of the Jerusalem Talmud; `None` for a tractate
/// that has none.
pub open spec fn yerushalmi_end_daf(tractate: Tractate) -> Option<u16> {
    match tractate {
        Tractate::Berachos => Some(68u16),
        Tractate::Peah => Some(37u16),
        Tractate::Demai => Some(34u16),
        Tractate::Kilayim => Some(44u16),
        Tractate::Sheviis => Some(31u16),
        Tractate::Terumos => Some(59u16),
        Tractate::Maasros => Some(26u16),
        Tractate::MaaserSheni => Some(33u16),
        Tractate::Chalah => Some(28u16),
        Tractate::Orlah => Some(20u16),
        Tractate::Bikurim => Some(13u16),
        Tractate::Shabbos => Some(92u16),
        Tractate::Eruvin => Some(65u16),
        Tractate::Pesachim => Some(71u16),
        Tractate::Beitzah => Some(22u16),
        Tractate::RoshHashanah => Some(22u16),
        Tractate::Yoma => Some(42u16),
        Tractate::Sukkah => Some(26u16),
        Tractate::Taanis => Some(26u16),
        Tractate::Shekalim => Some(33u16),
        Tractate::Megillah => Some(34u16),
        Tractate::Chagigah => Some(22u16),
        Tractate::MoedKatan => Some(19u16),
        Tractate::Yevamos => Some(85u16),
        Tractate::Kesubos => Some(72u16),
        Tractate::Sotah => Some(47u16),
        Tractate::Nedarim => Some(40u16),
        Tractate::Nazir => Some(47u16),
        Tractate::Gitin => Some(54u16),
        Tractate::Kiddushin => Some(48u16),
        Tractate::BavaKamma => Some(44u16),
        Tractate::BavaMetzia => Some(37u16),
        Tractate::BavaBasra => Some(34u16),
        Tractate::Shevuos => Some(44u16),
        Tractate::Makkos => Some(9u16),
        Tractate::Sanhedrin => Some(57u16),
        Tractate::AvodahZarah => Some(37u16),
        Tractate::Horiyos => Some(19u16),
        Tractate::Niddah => Some(13u16),
        _ => None,
    }
}

/// The dafim of a tractate: 1 to the last; for a tractate without Jerusalem
/// Talmud, the range `0..=0`.
pub open spec fn yerushalmi_tractate_dafs(t: Tractate) -> Seq<Daf> {
    match yerushalmi_end_daf(t) {
        Some(e) => pages(t, 1, e as int),
        None => pages(t, 0, 0),
    }
}

/// The dafim of the given tractates, in order.
pub open spec fn yerushalmi_dafs_of(ts: Seq<Tractate>) -> Seq<Daf>
    decreases ts.len(),
{
    if ts.len() == 0 {
        Seq::empty()
    } else {
        yerushalmi_dafs_of(ts.drop_last()) + yerushalmi_tractate_dafs(ts.last())
    }
}

/// All dafim of a cycle, in order.
pub open spec fn yerushalmi_dafs() -> Seq<Daf> {
    yerushalmi_dafs_of(yerushalmi_tractates_seq())
}

/// The daf learned on day number `d`: none on a skipped day, else the daf
/// as far into the cycle as there were days that were not skipped.
pub open spec fn daf_yomi_yerushalmi_on(d: int) -> Option<Daf> {
    match yerushalmi_first_day() {
        Some(s0) => if valid_day_number(s0 as int) {
            match find_cycle_spec(CycleRule::DafYomiYerushalmi, s0 as int, d) {
                Some(c) => if is_skip_day_at(d) {
                    None
                } else {
                    nth(yerushalmi_dafs(), dafim_done(c.0, d))
                },
                None => None,
            }
        } else {
            None
        },
        None => None,
    }
}

/// The first daf of a tractate.
pub fn start_daf(_tractate: Tractate, _iteration: i32) -> (r: u16)
    ensures
        r == 1,
{
    1
}

/// The last daf of a tractate, or `None` for a tractate that has no
/// Jerusalem Talmud.
pub fn end_daf(tractate: Tractate, _iteration: i32) -> (r: Option<u16>)
    ensures
        r == yerushalmi_end_daf(tractate),
{
    let daf: u16 = match tractate {
        Tractate::Berachos => 68,
        Tractate::Peah => 37,
        Tractate::Demai => 34,
        Tractate::Kilayim => 44,
        Tractate::Sheviis => 31,
        Tractate::Terumos => 59,
        Tractate::Maasros => 26,
        Tractate::MaaserSheni => 33,
        Tractate::Chalah => 28,
        Tractate::Orlah => 20,
        Tractate::Bikurim => 13,
        Tractate::Shabbos => 92,
        Tractate::Eruvin => 65,
        Tractate::Pesachim => 71,
        Tractate::Beitzah => 22,
        Tractate::RoshHashanah => 22,
        Tractate::Yoma => 42,
        Tractate::Sukkah => 26,
        Tractate::Taanis => 26,
        Tractate::Shekalim => 33,
        Tractate::Megillah => 34,
        Tractate::Chagigah => 22,
        Tractate::MoedKatan => 19,
        Tractate::Yevamos => 85,
        Tractate::Kesubos => 72,
        Tractate::Sotah => 47,
        Tractate::Nedarim => 40,
        Tractate::Nazir => 47,
        Tractate::Gitin => 54,
        Tractate::Kiddushin => 48,
        Tractate::BavaKamma => 44,
        Tractate::BavaMetzia => 37,
        Tractate::BavaBasra => 34,
        Tractate::Shevuos => 44,
        Tractate::Makkos => 9,
        Tractate::Sanhedrin => 57,
        Tractate::AvodahZarah => 37,
        Tractate::Horiyos => 19,
        Tractate::Niddah => 13,
        _ => 0,
    };
    if daf == 0 {
        None
    } else {
        Some(daf)
    }
}

/// The dafim of a tractate, first to last; `0..=0` for a tractate without
/// Jerusalem Talmud.
pub fn iter(tractate: Tractate, iteration: i32) -> (r: RangeInclusive<u16>)
    ensures
        yerushalmi_end_daf(tractate) matches Some(e) ==> r@.start == 1 && r@.end == e,
        yerushalmi_end_daf(tractate) is None ==> r@.start == 0 && r@.end == 0,
        !r@.exhausted,
{
    match end_daf(tractate, iteration) {
        Some(end) => RangeInclusive::new(start_daf(tractate, iteration), end),
        None => RangeInclusive::new(0, 0),
    }
}

/// The daf at position `offset` of a cycle, if the cycle has so many.
pub fn nth_daf(offset: usize) -> (r: Option<Daf>)
    ensures
        r == nth(yerushalmi_dafs(), offset as int),
{
    let ts = yerushalmi_tractates();
    let mut remaining: usize = offset;
    let mut i: usize = 0;
    while i < 39
        invariant
            0 <= i <= 39,
            ts@ == yerushalmi_tractates_seq(),
            offset >= yerushalmi_dafs_of(ts@.take(i as int)).len(),
            remaining == offset - yerushalmi_dafs_of(ts@.take(i as int)).len(),
        decreases 39 - i,
    {
        let t = ts[i];
        let ghost prefix = yerushalmi_dafs_of(ts@.take(i as int));
        assert(ts@.take(i + 1).drop_last() =~= ts@.take(i as int));
        assert(yerushalmi_dafs_of(ts@.take(i + 1)) == prefix + yerushalmi_tractate_dafs(t));
        let (first, last): (u16, u16) = match end_daf(t, 1) {
            Some(e) => (1, e),
            None => (0, 0),
        };
        let count: usize = (last - first) as usize + 1;
        if remaining < count {
            let r = Daf { tractate: t, page: first + remaining as u16 };
            assert((prefix + yerushalmi_tractate_dafs(t))[offset as int] == r);
            proof {
                lemma_yerushalmi_prefix(ts@, i as int + 1);
            }
            return Some(r);
        }
        remaining = remaining - count;
        i += 1;
    }
    assert(ts@.take(39) =~= ts@);
    None
}

/// The dafim of a prefix of the tractates are a prefix of the dafim of all
/// of them.
pub proof fn lemma_yerushalmi_prefix(ts: Seq<Tractate>, k: int)
    requires
        0 <= k <= ts.len(),
    ensures
        yerushalmi_dafs_of(ts.take(k)).len() <= yerushalmi_dafs_of(ts).len(),
        forall|j: int|
            0 <= j < yerushalmi_dafs_of(ts.take(k)).len() ==> #[trigger] yerushalmi_dafs_of(
                ts.take(k),
            )[j] == yerushalmi_dafs_of(ts)[j],
    decreases ts.len() - k,
{
    if k < ts.len() {
        lemma_yerushalmi_prefix(ts, k + 1);
        assert(ts.take(k + 1).drop_last() =~= ts.take(k));
        let short = yerushalmi_dafs_of(ts.take(k));
        let long = yerushalmi_dafs_of(ts.take(k + 1));
        assert forall|j: int| 0 <= j < short.len() implies #[trigger] short[j] == yerushalmi_dafs_of(
            ts,
        )[j] by {
            assert(long[j] == short[j]);
        }
    } else {
        assert(ts.take(k) =~= ts);
    }
}

/// The number of dafim in the first `k` tractates.
#[verifier::opaque]
pub open spec fn yerushalmi_prefix_count(k: int) -> int {
    yerushalmi_dafs_of(yerushalmi_tractates_seq().take(k)).len() as int
}

/// Adding a tractate to a prefix of the tractates adds its dafim.
proof fn lemma_yerushalmi_prefix_step(k: int, t: Tractate)
    requires
        1 <= k <= 39,
        yerushalmi_tractates_seq()[k - 1] == t,
    ensures
        yerushalmi_prefix_count(k) == yerushalmi_prefix_count(k - 1) + yerushalmi_tractate_dafs(
            t,
        ).len(),
{
    reveal(yerushalmi_prefix_count);
    let ts = yerushalmi_tractates_seq();
    assert(ts.take(k).drop_last() =~= ts.take(k - 1));
}

/// A cycle of the Yerushalmi Daf Yomi has 1554 dafim.
pub proof fn lemma_yerushalmi_daf_count()
    ensures
        yerushalmi_dafs().len() == YERUSHALMI_DAF_COUNT,
{
    let ts = yerushalmi_tractates_seq();
    assert(yerushalmi_prefix_count(0) == 0) by {
        reveal(yerushalmi_prefix_count);
        assert(ts.take(0) =~= Seq::<Tractate>::empty());
    }
    lemma_yerushalmi_prefix_step(1, Tractate::Berachos);
    lemma_yerushalmi_prefix_step(2, Tractate::Peah);
    lemma_yerushalmi_prefix_step(3, Tractate::Demai);
    lemma_yerushalmi_prefix_step(4, Tractate::Kilayim);
    lemma_yerushalmi_prefix_step(5, Tractate::Sheviis);
    lemma_yerushalmi_prefix_step(6, Tractate::Terumos);
    lemma_yerushalmi_prefix_step(7, Tractate::Maasros);
    lemma_yerushalmi_prefix_step(8, Tractate::MaaserSheni);
    lemma_yerushalmi_prefix_step(9, Tractate::Chalah);
    lemma_yerushalmi_prefix_step(10, Tractate::Orlah);
    lemma_yerushalmi_prefix_step(11, Tractate::Bikurim);
    lemma_yerushalmi_prefix_step(12, Tractate::Shabbos);
    lemma_yerushalmi_prefix_step(13, Tractate::Eruvin);
    lemma_yerushalmi_prefix_step(14, Tractate::Pesachim);
    lemma_yerushalmi_prefix_step(15, Tractate::Beitzah);
    lemma_yerushalmi_prefix_step(16, Tractate::RoshHashanah);
    lemma_yerushalmi_prefix_step(17, Tractate::Yoma);
    lemma_yerushalmi_prefix_step(18, Tractate::Sukkah);
    lemma_yerushalmi_prefix_step(19, Tractate::Taanis);
    lemma_yerushalmi_prefix_step(20, Tractate::Shekalim);
    lemma_yerushalmi_prefix_step(21, Tractate::Megillah);
    lemma_yerushalmi_prefix_step(22, Tractate::Chagigah);
    lemma_yerushalmi_prefix_step(23, Tractate::MoedKatan);
    lemma_yerushalmi_prefix_step(24, Tractate::Yevamos);
    lemma_yerushalmi_prefix_step(25, Tractate::Kesubos);
    lemma_yerushalmi_prefix_step(26, Tractate::Sotah);
    lemma_yerushalmi_prefix_step(27, Tractate::Nedarim);
    lemma_yerushalmi_prefix_step(28, Tractate::Nazir);
    lemma_yerushalmi_prefix_step(29, Tractate::Gitin);
    lemma_yerushalmi_prefix_step(30, Tractate::Kiddushin);
    lemma_yerushalmi_prefix_step(31, Tractate::BavaKamma);
    lemma_yerushalmi_prefix_step(32, Tractate::BavaMetzia);
    lemma_yerushalmi_prefix_step(33, Tractate::BavaBasra);
    lemma_yerushalmi_prefix_step(34, Tractate::Shevuos);
    lemma_yerushalmi_prefix_step(35, Tractate::Makkos);
    lemma_yerushalmi_prefix_step(36, Tractate::Sanhedrin);
    lemma_yerushalmi_prefix_step(37, Tractate::AvodahZarah);
    lemma_yerushalmi_prefix_step(38, Tractate::Horiyos);
    lemma_yerushalmi_prefix_step(39, Tractate::Niddah);
    assert(yerushalmi_prefix_count(39) == 1554);
    reveal(yerushalmi_prefix_count);
    assert(ts.take(39) =~= ts);
}

/// Skipped days after `a` up to `c` are those up to `b` and those after.
proof fn lemma_skips_split(a: int, b: int, c: int)
    requires
        a <= b <= c,
    ensures
        skips_between(a, c) == skips_between(a, b) + skips_between(b, c),
    decreases c - b,
{
    if c > b {
        lemma_skips_split(a, b, c - 1);
    }
}

/// How far into the dafim of a cycle that starts on `start` the learning
/// has come on day `d`: the days since the start that were not skipped.
pub open spec fn dafim_done(start: int, d: int) -> int {
    (d - start) - skips_between(start, d)
}

/// Extending a cycle by its skipped days keeps the count of dafim learned
/// by its last day within the cycle's 1554 dafim.
proof fn lemma_extension_within_cycle(start: int, end: int, found: int)
    requires
        start <= end,
        found >= 0,
        dafim_done(start, end) + found <= YERUSHALMI_DAF_COUNT - 1,
    ensures
        extend_by_skips(end, found) matches Some(e) ==> start <= e && dafim_done(start, e)
            <= YERUSHALMI_DAF_COUNT - 1,
    decreases found,
{
    if found > 0 && valid_day_number(end + 1) && valid_day_number(end + found) {
        lemma_skips_bounded(end + 1, end + found);
        lemma_skips_split(start, end, end + found);
        lemma_skips_split(end, end + 1, end + found);
        lemma_skips_bounded(end, end + 1);
        lemma_extension_within_cycle(start, end + found, skips_between(end + 1, end + found));
    }
}

/// From the first cycle on, every day of a cycle that is not skipped has its
/// daf: the days not skipped never run past the cycle's 1554 dafim.
pub proof fn lemma_yerushalmi_daf_every_day(d: int)
    requires
        yerushalmi_first_day() matches Some(s0) && valid_day_number(s0 as int) && find_cycle_spec(
            CycleRule::DafYomiYerushalmi,
            s0 as int,
            d,
        ) is Some,
        !is_skip_day_at(d),
    ensures
        daf_yomi_yerushalmi_on(d) is Some,
{
    let s0 = yerushalmi_first_day().unwrap() as int;
    lemma_cycle_walk(CycleRule::DafYomiYerushalmi, s0, 1, d);
    let c = find_cycle_spec(CycleRule::DafYomiYerushalmi, s0, d).unwrap();
    let start = c.0;
    let first_end = start + (YERUSHALMI_DAF_COUNT - 1);
    lemma_skips_bounded(start, first_end);
    lemma_extension_within_cycle(start, first_end, skips_between(start, first_end));
    lemma_skips_split(start, d, c.1);
    lemma_skips_bounded(d, c.1);
    lemma_skips_bounded(start, d);
    lemma_yerushalmi_daf_count();
}


/// Calculates the Daf Yomi Yerushalmi schedule.
#[derive(Default)]
pub struct DafYomiYerushalmi {}

impl LimudCalculator<Daf> for DafYomiYerushalmi {
    open spec fn limud_spec(&self, d: int) -> Option<Daf> {
        daf_yomi_yerushalmi_on(d)
    }

    /// The daf learned on the date, or `None` before the first cycle and on
    /// Yom Kippur and Tisha B'Av.
    fn limud(&self, date: HebrewDate) -> (r: Option<Daf>) {
        let first = match HebrewDate::from_gregorian_date(1980, 2, 2) {
            Some(d) => d,
            None => return None,
        };
        let first_number = first.day_number();
        let cycle = match Cycle::from_cycle_initiation(&first, CycleRule::DafYomiYerushalmi, &date) {
            Some(c) => c,
            None => return None,
        };
        proof {
            lemma_cycle_walk(CycleRule::DafYomiYerushalmi, first@, 1, date@);
            lemma_yerushalmi_cycle_bounded(cycle.start_date@);
        }
        if cycle.end_date.is_before(&date) {
            return None;
        }
        if is_skip_day(&date) {
            return None;
        }
        let days_from_start = cycle.start_date.days_until(&date);
        let skip_days_count = found_skips_between(&cycle.start_date, &date);
        let offset = days_from_start - skip_days_count as i64;
        if offset < 0 {
            return None;
        }
        nth_daf(offset as usize)
    }
}

} // verus!
