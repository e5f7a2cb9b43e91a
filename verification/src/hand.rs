use vstd::prelude::*;
use crate::tiles::{hai_wf, tile_at, tile_index, Hai};

verus! {

/// The three kinds of meld.
#[derive(Debug, Clone, Copy, PartialEq, Eq, Structural, Hash)]
pub enum MentsuType {
    /// Sequence of three consecutive number tiles.
    Shuntsu,
    /// Triplet.
    Koutsu,
    /// Quad.
    Kantsu,
}

/// A meld. `tiles` holds the tiles in order; a sequence repeats its last tile in the
/// fourth slot and a triplet repeats its tile there.
#[derive(Debug, Clone, Copy, PartialEq, Eq)]
pub struct Mentsu {
    pub mentsu_type: MentsuType,
    /// The meld was called from another player's discard.
    pub is_minchou: bool,
    pub tiles: [Hai; 4],
}

/// The shape of the wait that the winning tile completed.
#[derive(Debug, Clone, Copy, PartialEq, Eq, Structural, Hash)]
pub enum Machi {
    Ryanmen,
    Kanchan,
    Penchan,
    Shanpon,
    Tanki,
    KokushiIchimen,
    KokushiJusanmen,
}

/// A hand of four melds and a pair.
#[derive(Debug, Clone, Copy, PartialEq, Eq)]
pub struct AgariHand {
    pub mentsu: [Mentsu; 4],
    pub atama: (Hai, Hai),
    pub agari_hai: Hai,
    pub machi: Machi,
}

/// What the organizer makes of a raw hand.
#[derive(Debug, Clone, Copy, PartialEq, Eq)]
pub enum HandOrganization {
    /// Four melds and a pair.
    YonmentsuIchiatama(AgariHand),
    /// No four-melds-one-pair reading was found: the tile counts of the whole hand.
    Irregular { counts: [u8; 34], agari_hai: Hai },
}

/// The confirmed structure of a winning hand.
#[derive(Debug, Clone, Copy, PartialEq, Eq)]
pub enum HandStructure {
    YonmentsuIchiatama(AgariHand),
    Chiitoitsu { pairs: [(Hai, Hai); 7], agari_hai: Hai, machi: Machi },
    KokushiMusou { tiles: [Hai; 13], atama: (Hai, Hai), agari_hai: Hai, machi: Machi },
    ChuurenPoutou { hand: AgariHand, is_junsei: bool },
}

/// A concealed triplet of the tile in slot `i`.
pub open spec fn koutsu_at(i: int) -> Mentsu {
    let t = tile_at(i);
    Mentsu { mentsu_type: MentsuType::Koutsu, is_minchou: false, tiles: [t, t, t, t] }
}

/// A concealed sequence starting at slot `i`.
pub open spec fn shuntsu_at(i: int) -> Mentsu {
    let t3 = tile_at(i + 2);
    Mentsu {
        mentsu_type: MentsuType::Shuntsu,
        is_minchou: false,
        tiles: [tile_at(i), tile_at(i + 1), t3, t3],
    }
}

/// A sequence may start at slot `i`: a number tile of rank 1 to 7.
pub open spec fn sequence_start(i: int) -> bool {
    0 <= i < 27 && i % 9 < 7
}

/// A well-formed meld: a triplet or quad of one tile, or a sequence of three consecutive
/// number tiles, laid out as `Mentsu::tiles` describes.
pub open spec fn mentsu_wf(m: Mentsu) -> bool {
    let t = m.tiles[0];
    &&& hai_wf(t)
    &&& match m.mentsu_type {
        MentsuType::Shuntsu => {
            &&& sequence_start(tile_index(t))
            &&& m.tiles[1] == tile_at(tile_index(t) + 1)
            &&& m.tiles[2] == tile_at(tile_index(t) + 2)
            &&& m.tiles[3] == m.tiles[2]
        },
        _ => m.tiles[1] == t && m.tiles[2] == t && m.tiles[3] == t,
    }
}

/// How many tiles of slot `i` a meld holds.
pub open spec fn meld_count(m: Mentsu, i: int) -> int {
    let s = tile_index(m.tiles[0]);
    match m.mentsu_type {
        MentsuType::Koutsu => if s == i { 3 } else { 0 },
        MentsuType::Kantsu => if s == i { 4 } else { 0 },
        MentsuType::Shuntsu => if s <= i <= s + 2 { 1 } else { 0 },
    }
}

/// How many tiles of slot `i` a sequence of melds holds.
pub open spec fn melds_count(ms: Seq<Mentsu>, i: int) -> int
    decreases ms.len(),
{
    if ms.len() == 0 {
        0
    } else {
        melds_count(ms.drop_last(), i) + meld_count(ms.last(), i)
    }
}

/// How many tiles of slot `i` a list of tiles holds.
pub open spec fn tile_count(ts: Seq<Hai>, i: int) -> int
    decreases ts.len(),
{
    if ts.len() == 0 {
        0
    } else {
        tile_count(ts.drop_last(), i) + if tile_index(ts.last()) == i { 1int } else { 0int }
    }
}

/// Every tile slot of a meld holds a well-formed tile.
pub open spec fn mentsu_tiles_wf(m: Mentsu) -> bool {
    hai_wf(m.tiles[0]) && hai_wf(m.tiles[1]) && hai_wf(m.tiles[2]) && hai_wf(m.tiles[3])
}

/// Every tile in the hand is well formed.
pub open spec fn agari_hand_tiles_wf(h: AgariHand) -> bool {
    &&& mentsu_tiles_wf(h.mentsu[0])
    &&& mentsu_tiles_wf(h.mentsu[1])
    &&& mentsu_tiles_wf(h.mentsu[2])
    &&& mentsu_tiles_wf(h.mentsu[3])
    &&& hai_wf(h.atama.0)
    &&& hai_wf(h.atama.1)
    &&& hai_wf(h.agari_hai)
}

pub proof fn lemma_melds_count_nonneg(ms: Seq<Mentsu>, i: int)
    ensures
        melds_count(ms, i) >= 0,
    decreases ms.len(),
{
    if ms.len() > 0 {
        lemma_melds_count_nonneg(ms.drop_last(), i);
    }
}

/// The count of a concatenation is the sum of the counts.
pub proof fn lemma_melds_count_concat(a: Seq<Mentsu>, b: Seq<Mentsu>, i: int)
    ensures
        melds_count(a + b, i) == melds_count(a, i) + melds_count(b, i),
    decreases b.len(),
{
    if b.len() > 0 {
        assert((a + b).drop_last() =~= a + b.drop_last());
        lemma_melds_count_concat(a, b.drop_last(), i);
    } else {
        assert(a + b =~= a);
    }
}

pub proof fn lemma_melds_count_single(m: Mentsu, i: int)
    ensures
        melds_count(seq![m], i) == meld_count(m, i),
{
    assert(seq![m].drop_last() =~= Seq::<Mentsu>::empty());
    assert(melds_count(Seq::<Mentsu>::empty(), i) == 0);
}

/// Removing one meld from a sequence removes its tiles from the count.
pub proof fn lemma_melds_count_remove(ms: Seq<Mentsu>, k: int, i: int)
    requires
        0 <= k < ms.len(),
    ensures
        melds_count(ms, i) == melds_count(ms.remove(k), i) + meld_count(ms[k], i),
{
    let a = ms.take(k);
    let b = ms.skip(k + 1);
    assert(ms =~= a + seq![ms[k]] + b);
    assert(ms.remove(k) =~= a + b);
    lemma_melds_count_concat(a + seq![ms[k]], b, i);
    lemma_melds_count_concat(a, seq![ms[k]], i);
    lemma_melds_count_concat(a, b, i);
    lemma_melds_count_single(ms[k], i);
}

/// A positive count comes from some meld.
pub proof fn lemma_melds_count_witness(ms: Seq<Mentsu>, i: int) -> (k: int)
    requires
        melds_count(ms, i) > 0,
    ensures
        0 <= k < ms.len(),
        meld_count(ms[k], i) > 0,
    decreases ms.len(),
{
    if meld_count(ms.last(), i) > 0 {
        (ms.len() - 1) as int
    } else {
        let k = lemma_melds_count_witness(ms.drop_last(), i);
        k
    }
}

/// The count of a list of tiles split into two parts.
pub proof fn lemma_tile_count_concat(a: Seq<Hai>, b: Seq<Hai>, i: int)
    ensures
        tile_count(a + b, i) == tile_count(a, i) + tile_count(b, i),
    decreases b.len(),
{
    if b.len() > 0 {
        assert((a + b).drop_last() =~= a + b.drop_last());
        lemma_tile_count_concat(a, b.drop_last(), i);
    } else {
        assert(a + b =~= a);
    }
}

pub proof fn lemma_tile_count_nonneg(ts: Seq<Hai>, i: int)
    ensures
        tile_count(ts, i) >= 0,
    decreases ts.len(),
{
    if ts.len() > 0 {
        lemma_tile_count_nonneg(ts.drop_last(), i);
    }
}

/// A list holding a tile counts that tile's slot.
pub proof fn lemma_tile_count_contains(ts: Seq<Hai>, t: Hai)
    requires
        ts.contains(t),
    ensures
        tile_count(ts, tile_index(t)) > 0,
    decreases ts.len(),
{
    lemma_tile_count_nonneg(ts.drop_last(), tile_index(t));
    if ts.last() != t {
        let k = choose|k: int| 0 <= k < ts.len() && ts[k] == t;
        assert(ts.drop_last()[k] == t);
        lemma_tile_count_contains(ts.drop_last(), t);
    }
}

} // verus!
