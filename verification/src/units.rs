//! The units that the learning schedules assign: tractates, dafim, amudim
//! and mishnayos.
use vstd::prelude::*;

verus! {

/// The tractates of the Mishna and Talmud.
#[derive(Copy, Clone, Debug, Eq, PartialEq, Hash, Ord, PartialOrd, Structural)]
pub enum Tractate {
    Berachos,
    Peah,
    Demai,
    Kilayim,
    Sheviis,
    Terumos,
    Maasros,
    MaaserSheni,
    Chalah,
    Orlah,
    Bikurim,
    Shabbos,
    Eruvin,
    Pesachim,
    Shekalim,
    Yoma,
    Sukkah,
    Beitzah,
    RoshHashanah,
    Taanis,
    Megillah,
    MoedKatan,
    Chagigah,
    Yevamos,
    Kesubos,
    Nedarim,
    Nazir,
    Sotah,
    Gitin,
    Kiddushin,
    BavaKamma,
    BavaMetzia,
    BavaBasra,
    Sanhedrin,
    Makkos,
    Shevuos,
    Eduyos,
    AvodahZarah,
    Avos,
    Horiyos,
    Zevachim,
    Menachos,
    Chullin,
    Bechoros,
    Arachin,
    Temurah,
    Kerisos,
    Meilah,
    Tamid,
    Midos,
    Kinnim,
    Keilim,
    Ohalos,
    Negaim,
    Parah,
    Taharos,
    Mikvaos,
    Niddah,
    Machshirin,
    Zavim,
    TevulYom,
    Yadayim,
    Uktzin,
}

/// All tractates of the Mishna, in order.
pub open spec fn all_tractates_seq() -> Seq<Tractate> {
    seq![Tractate::Berachos, Tractate::Peah, Tractate::Demai, Tractate::Kilayim, Tractate::Sheviis, Tractate::Terumos, Tractate::Maasros, Tractate::MaaserSheni, Tractate::Chalah, Tractate::Orlah, Tractate::Bikurim, Tractate::Shabbos, Tractate::Eruvin, Tractate::Pesachim, Tractate::Shekalim, Tractate::Yoma, Tractate::Sukkah, Tractate::Beitzah, Tractate::RoshHashanah, Tractate::Taanis, Tractate::Megillah, Tractate::MoedKatan, Tractate::Chagigah, Tractate::Yevamos, Tractate::Kesubos, Tractate::Nedarim, Tractate::Nazir, Tractate::Sotah, Tractate::Gitin, Tractate::Kiddushin, Tractate::BavaKamma, Tractate::BavaMetzia, Tractate::BavaBasra, Tractate::Sanhedrin, Tractate::Makkos, Tractate::Shevuos, Tractate::Eduyos, Tractate::AvodahZarah, Tractate::Avos, Tractate::Horiyos, Tractate::Zevachim, Tractate::Menachos, Tractate::Chullin, Tractate::Bechoros, Tractate::Arachin, Tractate::Temurah, Tractate::Kerisos, Tractate::Meilah, Tractate::Tamid, Tractate::Midos, Tractate::Kinnim, Tractate::Keilim, Tractate::Ohalos, Tractate::Negaim, Tractate::Parah, Tractate::Taharos, Tractate::Mikvaos, Tractate::Niddah, Tractate::Machshirin, Tractate::Zavim, Tractate::TevulYom, Tractate::Yadayim, Tractate::Uktzin]
}

/// The tractates of the Babylonian Talmud in the order of the Daf Yomi.
pub open spec fn bavli_tractates_seq() -> Seq<Tractate> {
    seq![Tractate::Berachos, Tractate::Shabbos, Tractate::Eruvin, Tractate::Pesachim, Tractate::Shekalim, Tractate::Yoma, Tractate::Sukkah, Tractate::Beitzah, Tractate::RoshHashanah, Tractate::Taanis, Tractate::Megillah, Tractate::MoedKatan, Tractate::Chagigah, Tractate::Yevamos, Tractate::Kesubos, Tractate::Nedarim, Tractate::Nazir, Tractate::Sotah, Tractate::Gitin, Tractate::Kiddushin, Tractate::BavaKamma, Tractate::BavaMetzia, Tractate::BavaBasra, Tractate::Sanhedrin, Tractate::Makkos, Tractate::Shevuos, Tractate::AvodahZarah, Tractate::Horiyos, Tractate::Zevachim, Tractate::Menachos, Tractate::Chullin, Tractate::Bechoros, Tractate::Arachin, Tractate::Temurah, Tractate::Kerisos, Tractate::Meilah, Tractate::Kinnim, Tractate::Tamid, Tractate::Midos, Tractate::Niddah]
}

/// The tractates of the Jerusalem Talmud in the order of its Daf Yomi.
pub open spec fn yerushalmi_tractates_seq() -> Seq<Tractate> {
    seq![Tractate::Berachos, Tractate::Peah, Tractate::Demai, Tractate::Kilayim, Tractate::Sheviis, Tractate::Terumos, Tractate::Maasros, Tractate::MaaserSheni, Tractate::Chalah, Tractate::Orlah, Tractate::Bikurim, Tractate::Shabbos, Tractate::Eruvin, Tractate::Pesachim, Tractate::Beitzah, Tractate::RoshHashanah, Tractate::Yoma, Tractate::Sukkah, Tractate::Taanis, Tractate::Shekalim, Tractate::Megillah, Tractate::Chagigah, Tractate::MoedKatan, Tractate::Yevamos, Tractate::Kesubos, Tractate::Sotah, Tractate::Nedarim, Tractate::Nazir, Tractate::Gitin, Tractate::Kiddushin, Tractate::BavaKamma, Tractate::BavaMetzia, Tractate::BavaBasra, Tractate::Shevuos, Tractate::Makkos, Tractate::Sanhedrin, Tractate::AvodahZarah, Tractate::Horiyos, Tractate::Niddah]
}

/// All tractates of the Mishna, in order.
pub fn all_tractates() -> (r: [Tractate; 63])
    ensures
        r@ == all_tractates_seq(),
{
    let r = [
            Tractate::Berachos,
            Tractate::Peah,
            Tractate::Demai,
            Tractate::Kilayim,
            Tractate::Sheviis,
            Tractate::Terumos,
            Tractate::Maasros,
            Tractate::MaaserSheni,
            Tractate::Chalah,
            Tractate::Orlah,
            Tractate::Bikurim,
            Tractate::Shabbos,
            Tractate::Eruvin,
            Tractate::Pesachim,
            Tractate::Shekalim,
            Tractate::Yoma,
            Tractate::Sukkah,
            Tractate::Beitzah,
            Tractate::RoshHashanah,
            Tractate::Taanis,
            Tractate::Megillah,
            Tractate::MoedKatan,
            Tractate::Chagigah,
            Tractate::Yevamos,
            Tractate::Kesubos,
            Tractate::Nedarim,
            Tractate::Nazir,
            Tractate::Sotah,
            Tractate::Gitin,
            Tractate::Kiddushin,
            Tractate::BavaKamma,
            Tractate::BavaMetzia,
            Tractate::BavaBasra,
            Tractate::Sanhedrin,
            Tractate::Makkos,
            Tractate::Shevuos,
            Tractate::Eduyos,
            Tractate::AvodahZarah,
            Tractate::Avos,
            Tractate::Horiyos,
            Tractate::Zevachim,
            Tractate::Menachos,
            Tractate::Chullin,
            Tractate::Bechoros,
            Tractate::Arachin,
            Tractate::Temurah,
            Tractate::Kerisos,
            Tractate::Meilah,
            Tractate::Tamid,
            Tractate::Midos,
            Tractate::Kinnim,
            Tractate::Keilim,
            Tractate::Ohalos,
            Tractate::Negaim,
            Tractate::Parah,
            Tractate::Taharos,
            Tractate::Mikvaos,
            Tractate::Niddah,
            Tractate::Machshirin,
            Tractate::Zavim,
            Tractate::TevulYom,
            Tractate::Yadayim,
            Tractate::Uktzin,
    ];
    assert(r@ =~= all_tractates_seq());
    r
}

/// The tractates of the Babylonian Talmud in the order of the Daf Yomi.
pub fn bavli_tractates() -> (r: [Tractate; 40])
    ensures
        r@ == bavli_tractates_seq(),
{
    let r = [
            Tractate::Berachos,
            Tractate::Shabbos,
            Tractate::Eruvin,
            Tractate::Pesachim,
            Tractate::Shekalim,
            Tractate::Yoma,
            Tractate::Sukkah,
            Tractate::Beitzah,
            Tractate::RoshHashanah,
            Tractate::Taanis,
            Tractate::Megillah,
            Tractate::MoedKatan,
            Tractate::Chagigah,
            Tractate::Yevamos,
            Tractate::Kesubos,
            Tractate::Nedarim,
            Tractate::Nazir,
            Tractate::Sotah,
            Tractate::Gitin,
            Tractate::Kiddushin,
            Tractate::BavaKamma,
            Tractate::BavaMetzia,
            Tractate::BavaBasra,
            Tractate::Sanhedrin,
            Tractate::Makkos,
            Tractate::Shevuos,
            Tractate::AvodahZarah,
            Tractate::Horiyos,
            Tractate::Zevachim,
            Tractate::Menachos,
            Tractate::Chullin,
            Tractate::Bechoros,
            Tractate::Arachin,
            Tractate::Temurah,
            Tractate::Kerisos,
            Tractate::Meilah,
            Tractate::Kinnim,
            Tractate::Tamid,
            Tractate::Midos,
            Tractate::Niddah,
    ];
    assert(r@ =~= bavli_tractates_seq());
    r
}

/// The tractates of the Jerusalem Talmud in the order of its Daf Yomi.
pub fn yerushalmi_tractates() -> (r: [Tractate; 39])
    ensures
        r@ == yerushalmi_tractates_seq(),
{
    let r = [
            Tractate::Berachos,
            Tractate::Peah,
            Tractate::Demai,
            Tractate::Kilayim,
            Tractate::Sheviis,
            Tractate::Terumos,
            Tractate::Maasros,
            Tractate::MaaserSheni,
            Tractate::Chalah,
            Tractate::Orlah,
            Tractate::Bikurim,
            Tractate::Shabbos,
            Tractate::Eruvin,
            Tractate::Pesachim,
            Tractate::Beitzah,
            Tractate::RoshHashanah,
            Tractate::Yoma,
            Tractate::Sukkah,
            Tractate::Taanis,
            Tractate::Shekalim,
            Tractate::Megillah,
            Tractate::Chagigah,
            Tractate::MoedKatan,
            Tractate::Yevamos,
            Tractate::Kesubos,
            Tractate::Sotah,
            Tractate::Nedarim,
            Tractate::Nazir,
            Tractate::Gitin,
            Tractate::Kiddushin,
            Tractate::BavaKamma,
            Tractate::BavaMetzia,
            Tractate::BavaBasra,
            Tractate::Shevuos,
            Tractate::Makkos,
            Tractate::Sanhedrin,
            Tractate::AvodahZarah,
            Tractate::Horiyos,
            Tractate::Niddah,
    ];
    assert(r@ =~= yerushalmi_tractates_seq());
    r
}

/// A page (daf) of a tractate.
#[derive(Debug, Clone, Copy, PartialEq, Eq, Hash, PartialOrd, Ord, Structural)]
pub struct Daf {
    pub tractate: Tractate,
    pub page: u16,
}

/// A side of a page.
#[derive(Debug, Clone, Copy, PartialEq, Eq, Hash, PartialOrd, Ord, Structural)]
pub enum Side {
    Aleph,
    Bet,
}

/// One side (amud) of a page of a tractate.
#[derive(Debug, Clone, Copy, PartialEq, Eq, Hash, PartialOrd, Ord, Structural)]
pub struct Amud {
    pub tractate: Tractate,
    pub page: u16,
    pub side: Side,
}

/// The amud after the given one in the same tractate: the other side of the
/// page, or the first side of the next page.
pub open spec fn amud_after(a: Amud) -> Amud {
    if a.side == Side::Aleph {
        Amud { tractate: a.tractate, page: a.page, side: Side::Bet }
    } else {
        Amud { tractate: a.tractate, page: (a.page + 1) as u16, side: Side::Aleph }
    }
}

/// The position of an amud within its tractate, counting two amudim to a page.
pub open spec fn amud_index(a: Amud) -> int {
    2 * a.page + if a.side == Side::Aleph { 0int } else { 1int }
}

impl Amud {
    /// The amud of the given tractate, page and side.
    pub fn new(tractate: Tractate, page: u16, side: Side) -> (r: Self)
        ensures
            r == (Amud { tractate, page, side }),
    {
        Amud { tractate, page, side }
    }

    /// The amud after this one in the same tractate.
    pub fn next(&self) -> (r: Self)
        requires
            self.side == Side::Aleph || self.page < u16::MAX,
        ensures
            r == amud_after(*self),
            amud_index(r) == amud_index(*self) + 1,
    {
        if self.side == Side::Aleph {
            Amud { tractate: self.tractate, page: self.page, side: Side::Bet }
        } else {
            Amud { tractate: self.tractate, page: self.page + 1, side: Side::Aleph }
        }
    }
}

/// The amud `k` places after `s` in its tractate.
pub open spec fn amud_at(s: Amud, k: int) -> Amud {
    let i = amud_index(s) + k;
    Amud {
        tractate: s.tractate,
        page: (i / 2) as u16,
        side: if i % 2 == 0 {
            Side::Aleph
        } else {
            Side::Bet
        },
    }
}

/// The number of amudim from `s` to `e`, both included.
pub open spec fn amud_count(s: Amud, e: Amud) -> int {
    amud_index(e) - amud_index(s) + 1
}

/// One step of a walk that is at `current` and stops after `end`: what it
/// is at next.
pub open spec fn amud_iter_step(current: Option<Amud>, end: Amud) -> Option<Amud> {
    match current {
        Some(c) => if c == end {
            None
        } else {
            Some(amud_after(c))
        },
        None => None,
    }
}

/// Where a walk that is at `current` and stops after `end` is after `k`
/// steps.
pub open spec fn amud_iter_after(current: Option<Amud>, end: Amud, k: nat) -> Option<Amud>
    decreases k,
{
    if k == 0 {
        current
    } else {
        amud_iter_step(amud_iter_after(current, end, (k - 1) as nat), end)
    }
}

/// A walk from `s` to a later amud `e` of the same tractate gives `s`,
/// the amud after it, and so on up to `e`: `amud_count(s, e)` amudim in
/// rising order, each step allowed by `AmudIter::next`, and nothing after.
pub proof fn lemma_amud_walk(s: Amud, e: Amud, k: nat)
    requires
        s.tractate == e.tractate,
        amud_index(s) <= amud_index(e),
    ensures
        amud_iter_after(Some(s), e, k) == if k < amud_count(s, e) {
            Some(amud_at(s, k as int))
        } else {
            None::<Amud>
        },
        k < amud_count(s, e) ==> amud_index(amud_at(s, k as int)) == amud_index(s) + k,
        k + 1 < amud_count(s, e) ==> amud_at(s, k as int) != e && (amud_at(s, k as int).side
            == Side::Aleph || amud_at(s, k as int).page < u16::MAX),
    decreases k,
{
    if k > 0 {
        lemma_amud_walk(s, e, (k - 1) as nat);
        let i = amud_index(s) + k - 1;
        if k - 1 < amud_count(s, e) {
            if k < amud_count(s, e) {
                assert(amud_at(s, k - 1) != e);
                assert(amud_after(amud_at(s, k - 1)) == amud_at(s, k as int));
            } else {
                assert(amud_at(s, k - 1) == e);
            }
        }
    }
    assert(amud_at(s, 0) == s);
}

/// Walks the amudim of a tractate from a first one to a last one, both
/// included.
pub struct AmudIter {
    end: Amud,
    current: Option<Amud>,
}

impl AmudIter {
    /// The amud that the walk stops after.
    pub closed spec fn spec_end(&self) -> Amud {
        self.end
    }

    /// The amud that the walk gives next, if any.
    pub closed spec fn spec_current(&self) -> Option<Amud> {
        self.current
    }

    /// A walk from `start` to `end`, both included.
    pub fn new(start: Amud, end: Amud) -> (r: Self)
        ensures
            r.spec_current() == Some(start),
            r.spec_end() == end,
    {
        AmudIter { end, current: Some(start) }
    }

    /// A walk that gives nothing.
    pub fn empty() -> (r: Self)
        ensures
            r.spec_current() is None,
            r.spec_end() == (Amud { tractate: Tractate::Bechoros, page: 0, side: Side::Aleph }),
    {
        AmudIter { end: Amud::new(Tractate::Bechoros, 0, Side::Aleph), current: None }
    }

    /// The next amud of the walk: the current one, after which the walk
    /// moves on, or stops if it was the last.
    pub fn next(&mut self) -> (r: Option<Amud>)
        requires
            old(self).spec_current() matches Some(c) ==> (c != old(self).spec_end() ==> (c.side
                == Side::Aleph || c.page < u16::MAX)),
        ensures
            r == old(self).spec_current(),
            final(self).spec_end() == old(self).spec_end(),
            final(self).spec_current() == amud_iter_step(old(self).spec_current(), old(self).spec_end()),
    {
        match self.current {
            Some(current) => {
                if current == self.end {
                    self.current = None;
                } else {
                    self.current = Some(current.next());
                }
                Some(current)
            },
            None => None,
        }
    }
}

/// A mishna: its tractate, chapter and number within the chapter.
#[derive(Debug, Clone, Copy, PartialEq, Eq, Hash, Structural)]
pub struct Mishna {
    pub tractate: Tractate,
    pub chapter: usize,
    pub mishna: u16,
}

} // verus!
