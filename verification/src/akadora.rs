use vstd::prelude::*;
use crate::hand::{sequence_start, MentsuType};
use crate::hand_tiles::{lemma_occurrences_prefix, occurrences};
use crate::input::OpenMeld;
use crate::tiles::{hai_from_index, hai_wf, index_from_hai, lemma_tile_index_bijection, tile_at, tile_index, Hai, Suhai};

verus! {

/// The hand as the calculator's front end holds it while the user builds it.
pub struct RiichiGui {
    /// The tiles picked so far.
    pub hand_tiles: Vec<Hai>,
    /// The winning tile, once chosen.
    pub winning_tile: Option<Hai>,
    /// The called melds.
    pub open_melds: Vec<OpenMeld>,
    /// One tile for each concealed kan.
    pub closed_kans: Vec<Hai>,
}

/// The tiles of a called meld: three of a kind for a pon, four for a kan, three
/// consecutive tiles for a chii.
pub open spec fn open_meld_tile_seq(m: OpenMeld) -> Seq<Hai> {
    let t = m.representative_tile;
    let i = tile_index(t);
    match m.mentsu_type {
        MentsuType::Koutsu => seq![t, t, t],
        MentsuType::Kantsu => seq![t, t, t, t],
        MentsuType::Shuntsu => seq![t, tile_at(i + 1), tile_at(i + 2)],
    }
}

/// The tiles of a list of called melds, meld after meld.
pub open spec fn open_melds_tile_seq(ms: Seq<OpenMeld>) -> Seq<Hai>
    decreases ms.len(),
{
    if ms.len() == 0 {
        Seq::empty()
    } else {
        open_melds_tile_seq(ms.drop_last()) + open_meld_tile_seq(ms.last())
    }
}

/// Four copies of each concealed kan's tile.
pub open spec fn closed_kans_tile_seq(kans: Seq<Hai>) -> Seq<Hai>
    decreases kans.len(),
{
    if kans.len() == 0 {
        Seq::empty()
    } else {
        let t = kans.last();
        closed_kans_tile_seq(kans.drop_last()) + seq![t, t, t, t]
    }
}

/// A called meld that the front end can lay out: a well-formed tile, and for a chii a
/// tile from 1 to 7 of a suit.
pub open spec fn open_meld_wf(m: OpenMeld) -> bool {
    hai_wf(m.representative_tile) && (m.mentsu_type == MentsuType::Shuntsu ==> sequence_start(
        tile_index(m.representative_tile),
    ))
}

impl RiichiGui {
    /// Every tile the hand shows: the picked tiles, the winning tile, the called melds'
    /// tiles and four of each concealed kan.
    pub open spec fn shown_tiles(&self) -> Seq<Hai> {
        let w = match self.winning_tile {
            Some(t) => seq![t],
            None => Seq::empty(),
        };
        self.hand_tiles@ + w + open_melds_tile_seq(self.open_melds@) + closed_kans_tile_seq(
            self.closed_kans@,
        )
    }

    /// The fives of a suit that the hand shows.
    pub open spec fn fives(&self, suit: Suhai) -> nat {
        occurrences(self.shown_tiles(), Hai::Suhai(5, suit))
    }

    /// The largest number of red fives the hand can hold: one red five of characters, up
    /// to two of circles, one of bamboo, each bounded by the fives of that suit.
    pub open spec fn max_akadora(&self) -> int {
        let m = self.fives(Suhai::Manzu);
        let p = self.fives(Suhai::Pinzu);
        let s = self.fives(Suhai::Souzu);
        (if m > 0 { 1int } else { 0int }) + (if p >= 2 { 2int } else { p as int }) + (if s > 0 {
            1int
        } else {
            0int
        })
    }

    /// The tiles of a called meld.
    pub fn get_meld_tiles(&self, meld: &OpenMeld) -> (tiles: Vec<Hai>)
        requires
            open_meld_wf(*meld),
        ensures
            tiles@ == open_meld_tile_seq(*meld),
    {
        let t = meld.representative_tile;
        match meld.mentsu_type {
            MentsuType::Koutsu => vec![t, t, t],
            MentsuType::Kantsu => vec![t, t, t, t],
            MentsuType::Shuntsu => {
                proof {
                    lemma_tile_index_bijection(t, 0);
                }
                let i = index_from_hai(t);
                vec![t, hai_from_index(i + 1), hai_from_index(i + 2)]
            },
        }
    }

    /// Every tile the hand shows, in one list.
    fn all_shown_tiles(&self) -> (tiles: Vec<Hai>)
        requires
            forall|k: int| 0 <= k < self.open_melds@.len() ==> #[trigger] open_meld_wf(self.open_melds@[k]),
        ensures
            tiles@ == self.shown_tiles(),
    {
        let mut tiles: Vec<Hai> = Vec::new();
        let nh = self.hand_tiles.len();
        let mut k: usize = 0;
        while k < nh
            invariant
                nh == self.hand_tiles@.len(),
                k <= nh,
                tiles@ == self.hand_tiles@.take(k as int),
            decreases nh - k,
        {
            tiles.push(self.hand_tiles[k]);
            k += 1;
            assert(tiles@ =~= self.hand_tiles@.take(k as int));
        }
        assert(self.hand_tiles@.take(nh as int) =~= self.hand_tiles@);
        if let Some(tile) = self.winning_tile {
            tiles.push(tile);
        }
        let ghost base = tiles@;
        let nm = self.open_melds.len();
        let mut m: usize = 0;
        while m < nm
            invariant
                nm == self.open_melds@.len(),
                m <= nm,
                forall|k: int| 0 <= k < self.open_melds@.len() ==> #[trigger] open_meld_wf(self.open_melds@[k]),
                tiles@ == base + open_melds_tile_seq(self.open_melds@.take(m as int)),
            decreases nm - m,
        {
            assert(self.open_melds@.take(m + 1).drop_last() =~= self.open_melds@.take(m as int));
            assert(open_meld_wf(self.open_melds@[m as int]));
            let mut meld_tiles = self.get_meld_tiles(&self.open_melds[m]);
            tiles.append(&mut meld_tiles);
            m += 1;
            assert(tiles@ =~= base + open_melds_tile_seq(self.open_melds@.take(m as int)));
        }
        assert(self.open_melds@.take(nm as int) =~= self.open_melds@);
        let ghost base2 = tiles@;
        let nk = self.closed_kans.len();
        let mut q: usize = 0;
        while q < nk
            invariant
                nk == self.closed_kans@.len(),
                q <= nk,
                tiles@ == base2 + closed_kans_tile_seq(self.closed_kans@.take(q as int)),
            decreases nk - q,
        {
            assert(self.closed_kans@.take(q + 1).drop_last() =~= self.closed_kans@.take(q as int));
            let tile = self.closed_kans[q];
            tiles.push(tile);
            tiles.push(tile);
            tiles.push(tile);
            tiles.push(tile);
            q += 1;
            assert(tiles@ =~= base2 + closed_kans_tile_seq(self.closed_kans@.take(q as int)));
        }
        assert(self.closed_kans@.take(nk as int) =~= self.closed_kans@);
        assert(tiles@ =~= self.shown_tiles());
        tiles
    }

    /// The largest number of red fives the user may declare: one five of characters,
    /// two of circles, one of bamboo, each as far as the hand shows fives of that suit.
    pub fn get_max_akadora_count(&self) -> (r: u8)
        requires
            forall|k: int| 0 <= k < self.open_melds@.len() ==> #[trigger] open_meld_wf(self.open_melds@[k]),
            self.fives(Suhai::Manzu) <= 255,
            self.fives(Suhai::Pinzu) <= 255,
            self.fives(Suhai::Souzu) <= 255,
        ensures
            r == self.max_akadora(),
    {
        let tiles = self.all_shown_tiles();
        let ghost ts = tiles@;
        let mut count_5m: u8 = 0;
        let mut count_5p: u8 = 0;
        let mut count_5s: u8 = 0;
        let n = tiles.len();
        let mut k: usize = 0;
        while k < n
            invariant
                n == ts.len(),
                ts == tiles@,
                ts == self.shown_tiles(),
                k <= n,
                count_5m == occurrences(ts.take(k as int), Hai::Suhai(5, Suhai::Manzu)),
                count_5p == occurrences(ts.take(k as int), Hai::Suhai(5, Suhai::Pinzu)),
                count_5s == occurrences(ts.take(k as int), Hai::Suhai(5, Suhai::Souzu)),
                self.fives(Suhai::Manzu) <= 255,
                self.fives(Suhai::Pinzu) <= 255,
                self.fives(Suhai::Souzu) <= 255,
            decreases n - k,
        {
            assert(ts.take(k + 1).drop_last() =~= ts.take(k as int));
            proof {
                lemma_occurrences_prefix(ts, Hai::Suhai(5, Suhai::Manzu), k + 1);
                lemma_occurrences_prefix(ts, Hai::Suhai(5, Suhai::Pinzu), k + 1);
                lemma_occurrences_prefix(ts, Hai::Suhai(5, Suhai::Souzu), k + 1);
            }
            if let Hai::Suhai(5, suit) = tiles[k] {
                match suit {
                    Suhai::Manzu => count_5m += 1,
                    Suhai::Pinzu => count_5p += 1,
                    Suhai::Souzu => count_5s += 1,
                }
            }
            k += 1;
        }
        assert(ts.take(n as int) =~= ts);
        // 1 red 5-man, 2 red 5-pin, 1 red 5-sou
        let max_m: u8 = if count_5m > 0 {
            1
        } else {
            0
        };
        let max_p: u8 = if count_5p >= 2 {
            2
        } else {
            count_5p
        };
        let max_s: u8 = if count_5s > 0 {
            1
        } else {
            0
        };
        max_m + max_p + max_s
    }
}

proof fn lemma_occurrences_concat(a: Seq<Hai>, b: Seq<Hai>, d: Hai)
    ensures
        occurrences(a + b, d) == occurrences(a, d) + occurrences(b, d),
    decreases b.len(),
{
    if b.len() == 0 {
        assert(a + b =~= a);
    } else {
        assert((a + b).drop_last() =~= a + b.drop_last());
        lemma_occurrences_concat(a, b.drop_last(), d);
    }
}

/// Picking one more tile never lowers the number of red fives the hand can hold, and
/// raises it by at most one.
pub proof fn lemma_one_more_tile(g: RiichiGui, g2: RiichiGui, t: Hai)
    requires
        g2.hand_tiles@ == g.hand_tiles@.push(t),
        g2.winning_tile == g.winning_tile,
        g2.open_melds@ == g.open_melds@,
        g2.closed_kans@ == g.closed_kans@,
    ensures
        g.max_akadora() <= g2.max_akadora() <= g.max_akadora() + 1,
{
    let w = match g.winning_tile {
        Some(x) => seq![x],
        None => Seq::<Hai>::empty(),
    };
    let rest = w + open_melds_tile_seq(g.open_melds@) + closed_kans_tile_seq(g.closed_kans@);
    let h = g.hand_tiles@;
    let h2 = h.push(t);
    assert(g.shown_tiles() =~= h + rest);
    assert(g2.shown_tiles() =~= h2 + rest);
    assert(h2.drop_last() =~= h);
    assert forall|s: Suhai| #[trigger] g2.fives(s) == g.fives(s) + (if t == Hai::Suhai(5, s) {
        1int
    } else {
        0int
    }) by {
        lemma_occurrences_concat(h, rest, Hai::Suhai(5, s));
        lemma_occurrences_concat(h2, rest, Hai::Suhai(5, s));
    }
    assert(g2.fives(Suhai::Manzu) == g.fives(Suhai::Manzu) + (if t == Hai::Suhai(5, Suhai::Manzu) { 1int } else { 0int }));
    assert(g2.fives(Suhai::Pinzu) == g.fives(Suhai::Pinzu) + (if t == Hai::Suhai(5, Suhai::Pinzu) { 1int } else { 0int }));
    assert(g2.fives(Suhai::Souzu) == g.fives(Suhai::Souzu) + (if t == Hai::Suhai(5, Suhai::Souzu) { 1int } else { 0int }));
}

/// Bounds on the red-five limit: at most one red five of characters, two of circles and
/// one of bamboo, so never more than four, never more than the fives shown, and exactly
/// four when the hand shows a five of characters, two of circles and one of bamboo.
pub proof fn lemma_red_five_bounds(g: RiichiGui)
    ensures
        0 <= g.max_akadora() <= 4,
        g.max_akadora() <= g.fives(Suhai::Manzu) + g.fives(Suhai::Pinzu) + g.fives(Suhai::Souzu),
        g.fives(Suhai::Pinzu) == 0 && g.fives(Suhai::Souzu) == 0 ==> g.max_akadora() <= 1,
        g.fives(Suhai::Manzu) == 0 && g.fives(Suhai::Pinzu) == 0 ==> g.max_akadora() <= 1,
        g.fives(Suhai::Manzu) == 0 && g.fives(Suhai::Souzu) == 0 ==> g.max_akadora() <= 2,
        g.fives(Suhai::Manzu) >= 1 && g.fives(Suhai::Pinzu) >= 2 && g.fives(Suhai::Souzu) >= 1
            ==> g.max_akadora() == 4,
        g.fives(Suhai::Manzu) + g.fives(Suhai::Pinzu) + g.fives(Suhai::Souzu) > 0 ==> g.max_akadora() >= 1,
{
}

} // verus!
