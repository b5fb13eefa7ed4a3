//! Amud Yomi of the Babylonian Talmud on the Dirshu schedule: an amud a
//! day, in cycles that began on 16 October 2023.
use vstd::prelude::*;

use crate::limud_calculator::LimudCalculator;
use crate::cycle::{find_cycle_spec, lemma_cycle_walk, Cycle, CycleRule, BAVLI_TOTAL_AMUDIM};
use crate::daf_yomi_bavli::nth;
use crate::date::{valid_day_number, HebrewDate};
use crate::icu::icu_gregorian_day_number;
use crate::units::{bavli_tractates, bavli_tractates_seq, Amud, AmudIter, Side, Tractate};

verus! {

/// The first amud of a tractate.
pub open spec fn amud_start(tractate: Tractate) -> Amud {
    match tractate {
        Tractate::Kinnim => Amud { tractate: Tractate::Kinnim, page: 22, side: Side::Bet },
        Tractate::Tamid => Amud { tractate: Tractate::Tamid, page: 25, side: Side::Bet },
        Tractate::Midos => Amud { tractate: Tractate::Midos, page: 34, side: Side::Aleph },
        _ => Amud { tractate, page: 2, side: Side::Aleph },
    }
}

/// The last amud of a tractate of the Babylonian Talmud; `None` for a
/// tractate that has none.
pub open spec fn amud_end(tractate: Tractate) -> Option<Amud> {
    match tractate {
        Tractate::Berachos => Some(Amud { tractate: Tractate::Berachos, page: 64, side: Side::Aleph }),
        Tractate::Shabbos => Some(Amud { tractate: Tractate::Shabbos, page: 157, side: Side::Bet }),
        Tractate::Eruvin => Some(Amud { tractate: Tractate::Eruvin, page: 105, side: Side::Aleph }),
        Tractate::Pesachim => Some(Amud { tractate: Tractate::Pesachim, page: 121, side: Side::Bet }),
        Tractate::Shekalim => Some(Amud { tractate: Tractate::Shekalim, page: 22, side: Side::Bet }),
        Tractate::Yoma => Some(Amud { tractate: Tractate::Yoma, page: 88, side: Side::Aleph }),
        Tractate::Sukkah => Some(Amud { tractate: Tractate::Sukkah, page: 56, side: Side::Bet }),
        Tractate::Beitzah => Some(Amud { tractate: Tractate::Beitzah, page: 40, side: Side::Bet }),
        Tractate::RoshHashanah => Some(Amud { tractate: Tractate::RoshHashanah, page: 35, side: Side::Aleph }),
        Tractate::Taanis => Some(Amud { tractate: Tractate::Taanis, page: 31, side: Side::Aleph }),
        Tractate::Megillah => Some(Amud { tractate: Tractate::Megillah, page: 32, side: Side::Aleph }),
        Tractate::MoedKatan => Some(Amud { tractate: Tractate::MoedKatan, page: 29, side: Side::Aleph }),
        Tractate::Chagigah => Some(Amud { tractate: Tractate::Chagigah, page: 27, side: Side::Aleph }),
        Tractate::Yevamos => Some(Amud { tractate: Tractate::Yevamos, page: 122, side: Side::Bet }),
        Tractate::Kesubos => Some(Amud { tractate: Tractate::Kesubos, page: 112, side: Side::Bet }),
        Tractate::Nedarim => Some(Amud { tractate: Tractate::Nedarim, page: 91, side: Side::Bet }),
        Tractate::Nazir => Some(Amud { tractate: Tractate::Nazir, page: 66, side: Side::Bet }),
        Tractate::Sotah => Some(Amud { tractate: Tractate::Sotah, page: 49, side: Side::Bet }),
        Tractate::Gitin => Some(Amud { tractate: Tractate::Gitin, page: 90, side: Side::Bet }),
        Tractate::Kiddushin => Some(Amud { tractate: Tractate::Kiddushin, page: 82, side: Side::Bet }),
        Tractate::BavaKamma => Some(Amud { tractate: Tractate::BavaKamma, page: 119, side: Side::Bet }),
        Tractate::BavaMetzia => Some(Amud { tractate: Tractate::BavaMetzia, page: 119, side: Side::Aleph }),
        Tractate::BavaBasra => Some(Amud { tractate: Tractate::BavaBasra, page: 176, side: Side::Bet }),
        Tractate::Sanhedrin => Some(Amud { tractate: Tractate::Sanhedrin, page: 113, side: Side::Bet }),
        Tractate::Makkos => Some(Amud { tractate: Tractate::Makkos, page: 24, side: Side::Bet }),
        Tractate::Shevuos => Some(Amud { tractate: Tractate::Shevuos, page: 49, side: Side::Bet }),
        Tractate::AvodahZarah => Some(Amud { tractate: Tractate::AvodahZarah, page: 76, side: Side::Bet }),
        Tractate::Horiyos => Some(Amud { tractate: Tractate::Horiyos, page: 14, side: Side::Aleph }),
        Tractate::Zevachim => Some(Amud { tractate: Tractate::Zevachim, page: 120, side: Side::Bet }),
        Tractate::Menachos => Some(Amud { tractate: Tractate::Menachos, page: 110, side: Side::Aleph }),
        Tractate::Chullin => Some(Amud { tractate: Tractate::Chullin, page: 142, side: Side::Aleph }),
        Tractate::Bechoros => Some(Amud { tractate: Tractate::Bechoros, page: 61, side: Side::Aleph }),
        Tractate::Arachin => Some(Amud { tractate: Tractate::Arachin, page: 34, side: Side::Aleph }),
        Tractate::Temurah => Some(Amud { tractate: Tractate::Temurah, page: 34, side: Side::Aleph }),
        Tractate::Kerisos => Some(Amud { tractate: Tractate::Kerisos, page: 28, side: Side::Bet }),
        Tractate::Meilah => Some(Amud { tractate: Tractate::Meilah, page: 22, side: Side::Aleph }),
        Tractate::Kinnim => Some(Amud { tractate: Tractate::Kinnim, page: 25, side: Side::Aleph }),
        Tractate::Tamid => Some(Amud { tractate: Tractate::Tamid, page: 33, side: Side::Bet }),
        Tractate::Midos => Some(Amud { tractate: Tractate::Midos, page: 37, side: Side::Bet }),
        Tractate::Niddah => Some(Amud { tractate: Tractate::Niddah, page: 73, side: Side::Aleph }),
        _ => None,
    }
}

/// The amud at a position within a tractate (two amudim to a page).
pub open spec fn amud_at(t: Tractate, index: int) -> Amud {
    Amud {
        tractate: t,
        page: (index / 2) as u16,
        side: if index % 2 == 0 {
            Side::Aleph
        } else {
            Side::Bet
        },
    }
}

/// The amudim of a tractate, first to last.
pub open spec fn tractate_amudim(t: Tractate) -> Seq<Amud> {
    match amud_end(t) {
        Some(e) => {
            let first = 2 * amud_start(t).page + if amud_start(t).side == Side::Aleph { 0int } else { 1int };
            let last = 2 * e.page + if e.side == Side::Aleph { 0int } else { 1int };
            Seq::new(
                if last >= first {
                    (last - first + 1) as nat
                } else {
                    0nat
                },
                |i: int| amud_at(t, first + i),
            )
        },
        None => Seq::empty(),
    }
}

/// The amudim of the given tractates, in order.
pub open spec fn amudim_of(ts: Seq<Tractate>) -> Seq<Amud>
    decreases ts.len(),
{
    if ts.len() == 0 {
        Seq::empty()
    } else {
        amudim_of(ts.drop_last()) + tractate_amudim(ts.last())
    }
}

/// All amudim of a cycle, in order.
pub open spec fn all_amudim() -> Seq<Amud> {
    amudim_of(bavli_tractates_seq())
}

/// The day the first cycle began: 16 October 2023.
pub open spec fn dirshu_first_day() -> Option<i64> {
    icu_gregorian_day_number(2023, 10, 16)
}

/// The amud learned on day number `d`.
pub open spec fn amud_yomi_on(d: int) -> Option<Amud> {
    match dirshu_first_day() {
        Some(s0) => if valid_day_number(s0 as int) {
            match find_cycle_spec(CycleRule::AmudYomiBavliDirshu, s0 as int, d) {
                Some(c) => nth(all_amudim(), d - c.0),
                None => None,
            }
        } else {
            None
        },
        None => None,
    }
}

/// The first amud of a tractate.
pub fn start_daf(tractate: Tractate, _iteration: i32) -> (r: Amud)
    ensures
        r == amud_start(tractate),
{
    match tractate {
        Tractate::Kinnim => Amud::new(Tractate::Kinnim, 22, Side::Bet),
        Tractate::Tamid => Amud::new(Tractate::Tamid, 25, Side::Bet),
        Tractate::Midos => Amud::new(Tractate::Midos, 34, Side::Aleph),
        _ => Amud::new(tractate, 2, Side::Aleph),
    }
}

/// The last amud of a tractate, or `None` for a tractate that has no
/// Babylonian Talmud.
pub fn end_daf(tractate: Tractate, _iteration: i32) -> (r: Option<Amud>)
    ensures
        r == amud_end(tractate),
{
    let amud = match tractate {
        Tractate::Berachos => Amud::new(Tractate::Berachos, 64, Side::Aleph),
        Tractate::Shabbos => Amud::new(Tractate::Shabbos, 157, Side::Bet),
        Tractate::Eruvin => Amud::new(Tractate::Eruvin, 105, Side::Aleph),
        Tractate::Pesachim => Amud::new(Tractate::Pesachim, 121, Side::Bet),
        Tractate::Shekalim => Amud::new(Tractate::Shekalim, 22, Side::Bet),
        Tractate::Yoma => Amud::new(Tractate::Yoma, 88, Side::Aleph),
        Tractate::Sukkah => Amud::new(Tractate::Sukkah, 56, Side::Bet),
        Tractate::Beitzah => Amud::new(Tractate::Beitzah, 40, Side::Bet),
        Tractate::RoshHashanah => Amud::new(Tractate::RoshHashanah, 35, Side::Aleph),
        Tractate::Taanis => Amud::new(Tractate::Taanis, 31, Side::Aleph),
        Tractate::Megillah => Amud::new(Tractate::Megillah, 32, Side::Aleph),
        Tractate::MoedKatan => Amud::new(Tractate::MoedKatan, 29, Side::Aleph),
        Tractate::Chagigah => Amud::new(Tractate::Chagigah, 27, Side::Aleph),
        Tractate::Yevamos => Amud::new(Tractate::Yevamos, 122, Side::Bet),
        Tractate::Kesubos => Amud::new(Tractate::Kesubos, 112, Side::Bet),
        Tractate::Nedarim => Amud::new(Tractate::Nedarim, 91, Side::Bet),
        Tractate::Nazir => Amud::new(Tractate::Nazir, 66, Side::Bet),
        Tractate::Sotah => Amud::new(Tractate::Sotah, 49, Side::Bet),
        Tractate::Gitin => Amud::new(Tractate::Gitin, 90, Side::Bet),
        Tractate::Kiddushin => Amud::new(Tractate::Kiddushin, 82, Side::Bet),
        Tractate::BavaKamma => Amud::new(Tractate::BavaKamma, 119, Side::Bet),
        Tractate::BavaMetzia => Amud::new(Tractate::BavaMetzia, 119, Side::Aleph),
        Tractate::BavaBasra => Amud::new(Tractate::BavaBasra, 176, Side::Bet),
        Tractate::Sanhedrin => Amud::new(Tractate::Sanhedrin, 113, Side::Bet),
        Tractate::Makkos => Amud::new(Tractate::Makkos, 24, Side::Bet),
        Tractate::Shevuos => Amud::new(Tractate::Shevuos, 49, Side::Bet),
        Tractate::AvodahZarah => Amud::new(Tractate::AvodahZarah, 76, Side::Bet),
        Tractate::Horiyos => Amud::new(Tractate::Horiyos, 14, Side::Aleph),
        Tractate::Zevachim => Amud::new(Tractate::Zevachim, 120, Side::Bet),
        Tractate::Menachos => Amud::new(Tractate::Menachos, 110, Side::Aleph),
        Tractate::Chullin => Amud::new(Tractate::Chullin, 142, Side::Aleph),
        Tractate::Bechoros => Amud::new(Tractate::Bechoros, 61, Side::Aleph),
        Tractate::Arachin => Amud::new(Tractate::Arachin, 34, Side::Aleph),
        Tractate::Temurah => Amud::new(Tractate::Temurah, 34, Side::Aleph),
        Tractate::Kerisos => Amud::new(Tractate::Kerisos, 28, Side::Bet),
        Tractate::Meilah => Amud::new(Tractate::Meilah, 22, Side::Aleph),
        Tractate::Kinnim => Amud::new(Tractate::Kinnim, 25, Side::Aleph),
        Tractate::Tamid => Amud::new(Tractate::Tamid, 33, Side::Bet),
        Tractate::Midos => Amud::new(Tractate::Midos, 37, Side::Bet),
        Tractate::Niddah => Amud::new(Tractate::Niddah, 73, Side::Aleph),
        _ => Amud::new(Tractate::Bechoros, 0, Side::Aleph),
    };
    if amud.page == 0 {
        None
    } else {
        Some(amud)
    }
}

/// A walk over the amudim of a tractate, first to last; empty for a tractate
/// that has no Babylonian Talmud.
pub fn iter(tractate: Tractate, iteration: i32) -> (r: AmudIter)
    ensures
        amud_end(tractate) matches Some(e) ==> r.spec_current() == Some(amud_start(tractate))
            && r.spec_end() == e,
        amud_end(tractate) is None ==> r.spec_current() is None,
{
    match end_daf(tractate, iteration) {
        Some(end) => AmudIter::new(start_daf(tractate, iteration), end),
        None => AmudIter::empty(),
    }
}

/// The position of an amud within its tractate.
fn index_of(a: Amud) -> (r: u32)
    ensures
        r == 2 * a.page + if a.side == Side::Aleph { 0int } else { 1int },
{
    2 * (a.page as u32) + match a.side {
        Side::Aleph => 0,
        Side::Bet => 1,
    }
}

/// The amud at position `offset` of a cycle, if the cycle has so many.
pub fn nth_amud(offset: usize) -> (r: Option<Amud>)
    ensures
        r == nth(all_amudim(), offset as int),
{
    let ts = bavli_tractates();
    let mut remaining: usize = offset;
    let mut i: usize = 0;
    while i < 40
        invariant
            0 <= i <= 40,
            ts@ == bavli_tractates_seq(),
            offset >= amudim_of(ts@.take(i as int)).len(),
            remaining == offset - amudim_of(ts@.take(i as int)).len(),
        decreases 40 - i,
    {
        let t = ts[i];
        let ghost prefix = amudim_of(ts@.take(i as int));
        assert(ts@.take(i + 1).drop_last() =~= ts@.take(i as int));
        assert(amudim_of(ts@.take(i + 1)) == prefix + tractate_amudim(t));
        match end_daf(t, 1) {
            Some(e) => {
                let first = index_of(start_daf(t, 1));
                let last = index_of(e);
                if first <= last {
                    let count: usize = (last - first) as usize + 1;
                    if remaining < count {
                        let index: u32 = first + remaining as u32;
                        let side = if index % 2 == 0 {
                            Side::Aleph
                        } else {
                            Side::Bet
                        };
                        let r = Amud { tractate: t, page: (index / 2) as u16, side };
                        assert((prefix + tractate_amudim(t))[offset as int] == r);
                        proof {
                            lemma_amudim_prefix(ts@, i as int + 1);
                        }
                        return Some(r);
                    }
                    remaining = remaining - count;
                }
            },
            None => {},
        }
        i += 1;
    }
    assert(ts@.take(40) =~= ts@);
    None
}

/// The amudim of a prefix of the tractates are a prefix of the amudim of all
/// of them.
pub proof fn lemma_amudim_prefix(ts: Seq<Tractate>, k: int)
    requires
        0 <= k <= ts.len(),
    ensures
        amudim_of(ts.take(k)).len() <= amudim_of(ts).len(),
        forall|j: int|
            0 <= j < amudim_of(ts.take(k)).len() ==> #[trigger] amudim_of(ts.take(k))[j]
                == amudim_of(ts)[j],
    decreases ts.len() - k,
{
    if k < ts.len() {
        lemma_amudim_prefix(ts, k + 1);
        assert(ts.take(k + 1).drop_last() =~= ts.take(k));
        let short = amudim_of(ts.take(k));
        let long = amudim_of(ts.take(k + 1));
        assert(long == short + tractate_amudim(ts.take(k + 1).last()));
        assert forall|j: int| 0 <= j < short.len() implies #[trigger] short[j] == amudim_of(ts)[j] by {
            assert(long[j] == short[j]);
        }
    } else {
        assert(ts.take(k) =~= ts);
    }
}

/// A cycle of the Amud Yomi has 5406 amudim: as many as the days of the
/// cycle.
pub proof fn lemma_amud_count()
    ensures
        all_amudim().len() == BAVLI_TOTAL_AMUDIM,
{
    let ts = bavli_tractates_seq();
    assert forall|k: int| 1 <= k <= 40 implies #[trigger] amudim_of(ts.take(k)).len() == amudim_of(
        ts.take(k - 1),
    ).len() + tractate_amudim(ts[k - 1]).len() by {
        assert(ts.take(k).drop_last() =~= ts.take(k - 1));
    }
    assert(ts.take(0) =~= Seq::<Tractate>::empty());
    assert(amudim_of(ts.take(1)).len() == 125);
    assert(amudim_of(ts.take(2)).len() == 437);
    assert(amudim_of(ts.take(3)).len() == 644);
    assert(amudim_of(ts.take(4)).len() == 884);
    assert(amudim_of(ts.take(5)).len() == 926);
    assert(amudim_of(ts.take(6)).len() == 1099);
    assert(amudim_of(ts.take(7)).len() == 1209);
    assert(amudim_of(ts.take(8)).len() == 1287);
    assert(amudim_of(ts.take(9)).len() == 1354);
    assert(amudim_of(ts.take(10)).len() == 1413);
    assert(amudim_of(ts.take(11)).len() == 1474);
    assert(amudim_of(ts.take(12)).len() == 1529);
    assert(amudim_of(ts.take(13)).len() == 1580);
    assert(amudim_of(ts.take(14)).len() == 1822);
    assert(amudim_of(ts.take(15)).len() == 2044);
    assert(amudim_of(ts.take(16)).len() == 2224);
    assert(amudim_of(ts.take(17)).len() == 2354);
    assert(amudim_of(ts.take(18)).len() == 2450);
    assert(amudim_of(ts.take(19)).len() == 2628);
    assert(amudim_of(ts.take(20)).len() == 2790);
    assert(amudim_of(ts.take(21)).len() == 3026);
    assert(amudim_of(ts.take(22)).len() == 3261);
    assert(amudim_of(ts.take(23)).len() == 3611);
    assert(amudim_of(ts.take(24)).len() == 3835);
    assert(amudim_of(ts.take(25)).len() == 3881);
    assert(amudim_of(ts.take(26)).len() == 3977);
    assert(amudim_of(ts.take(27)).len() == 4127);
    assert(amudim_of(ts.take(28)).len() == 4152);
    assert(amudim_of(ts.take(29)).len() == 4390);
    assert(amudim_of(ts.take(30)).len() == 4607);
    assert(amudim_of(ts.take(31)).len() == 4888);
    assert(amudim_of(ts.take(32)).len() == 5007);
    assert(amudim_of(ts.take(33)).len() == 5072);
    assert(amudim_of(ts.take(34)).len() == 5137);
    assert(amudim_of(ts.take(35)).len() == 5191);
    assert(amudim_of(ts.take(36)).len() == 5232);
    assert(amudim_of(ts.take(37)).len() == 5238);
    assert(amudim_of(ts.take(38)).len() == 5255);
    assert(amudim_of(ts.take(39)).len() == 5263);
    assert(amudim_of(ts.take(40)).len() == 5406);
    assert(ts.take(40) =~= ts);
}

/// From the first cycle on, every day has an amud.
pub proof fn lemma_amud_every_day(d: int)
    requires
        dirshu_first_day() matches Some(s0) && valid_day_number(s0 as int) && find_cycle_spec(
            CycleRule::AmudYomiBavliDirshu,
            s0 as int,
            d,
        ) is Some,
    ensures
        amud_yomi_on(d) is Some,
{
    let s0 = dirshu_first_day().unwrap() as int;
    lemma_cycle_walk(CycleRule::AmudYomiBavliDirshu, s0, 1, d);
    lemma_amud_count();
}

/// Calculates the Amud Yomi Bavli Dirshu schedule.
#[derive(Default)]
pub struct AmudYomiBavliDirshu {}

impl LimudCalculator<Amud> for AmudYomiBavliDirshu {
    open spec fn limud_spec(&self, d: int) -> Option<Amud> {
        amud_yomi_on(d)
    }

    /// The amud learned on the date, or `None` before the first cycle.
    fn limud(&self, date: HebrewDate) -> (r: Option<Amud>) {
        let first = match HebrewDate::from_gregorian_date(2023, 10, 16) {
            Some(d) => d,
            None => return None,
        };
        let first_number = first.day_number();
        let cycle = match Cycle::from_cycle_initiation(&first, CycleRule::AmudYomiBavliDirshu, &date) {
            Some(c) => c,
            None => return None,
        };
        proof {
            lemma_cycle_walk(CycleRule::AmudYomiBavliDirshu, first@, 1, date@);
        }
        if cycle.end_date.is_before(&date) {
            return None;
        }
        let offset = cycle.start_date.days_until(&date);
        if offset < 0 || offset > 1000000 {
            return None;
        }
        nth_amud(offset as usize)
    }
}

} // verus!
