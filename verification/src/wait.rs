use vstd::prelude::*;
use crate::hand::{mentsu_tiles_wf, Machi, Mentsu, MentsuType};
use crate::tiles::{index_from_hai, tile_index, Hai, Suhai};

verus! {

/// The meld holds the tile: the tile of a triplet or quad, or one of the three tiles
/// of a sequence.
pub open spec fn contains_tile(m: Mentsu, t: Hai) -> bool {
    match m.mentsu_type {
        MentsuType::Koutsu | MentsuType::Kantsu => m.tiles[0] == t,
        MentsuType::Shuntsu => m.tiles[0] == t || m.tiles[1] == t || m.tiles[2] == t,
    }
}

/// The first meld at or after position `k` that holds the tile, or the length.
pub open spec fn first_meld_with(ms: Seq<Mentsu>, t: Hai, k: int) -> int
    decreases ms.len() - k,
{
    if k >= ms.len() {
        ms.len() as int
    } else if contains_tile(ms[k], t) {
        k
    } else {
        first_meld_with(ms, t, k + 1)
    }
}

pub proof fn lemma_first_meld_with(ms: Seq<Mentsu>, t: Hai, k: int)
    requires
        0 <= k <= ms.len(),
    ensures
        k <= first_meld_with(ms, t, k) <= ms.len(),
        first_meld_with(ms, t, k) < ms.len() ==> contains_tile(ms[first_meld_with(ms, t, k)], t),
        forall|j: int| k <= j < first_meld_with(ms, t, k) ==> !contains_tile(ms[j], t),
    decreases ms.len() - k,
{
    if k < ms.len() && !contains_tile(ms[k], t) {
        lemma_first_meld_with(ms, t, k + 1);
    }
}

/// The winning tile completes the pair or lies in some meld.
pub open spec fn wait_completes(ms: Seq<Mentsu>, atama: (Hai, Hai), w: Hai) -> bool {
    w == atama.0 || exists|k: int| 0 <= k < ms.len() && #[trigger] contains_tile(ms[k], w)
}

/// The wait: a single wait on the pair when the winning tile is the pair's tile;
/// otherwise read from the first meld holding it: a triplet means a two-pair wait, a
/// sequence an inside wait on its middle tile, and an edge wait when the tile is at the
/// end of 1-2-3 or 7-8-9 and an open wait otherwise.
pub open spec fn wait_type(ms: Seq<Mentsu>, atama: (Hai, Hai), w: Hai) -> Machi {
    if w == atama.0 {
        Machi::Tanki
    } else {
        let m = ms[first_meld_with(ms, w, 0)];
        match m.mentsu_type {
            MentsuType::Koutsu | MentsuType::Kantsu => Machi::Shanpon,
            MentsuType::Shuntsu => if w == m.tiles[1] {
                Machi::Kanchan
            } else if w == m.tiles[0] {
                if tile_index(m.tiles[2]) % 9 == 8 {
                    Machi::Penchan
                } else {
                    Machi::Ryanmen
                }
            } else if tile_index(m.tiles[0]) % 9 == 0 {
                Machi::Penchan
            } else {
                Machi::Ryanmen
            },
        }
    }
}

fn mentsu_contains_tile(mentsu: &Mentsu, tile: &Hai) -> (res: bool)
    ensures
        res == contains_tile(*mentsu, *tile),
{
    match mentsu.mentsu_type {
        MentsuType::Koutsu | MentsuType::Kantsu => mentsu.tiles[0] == *tile,
        MentsuType::Shuntsu => {
            mentsu.tiles[0] == *tile || mentsu.tiles[1] == *tile || mentsu.tiles[2] == *tile
        },
    }
}

/// Determines how the winning tile completed the hand. The winning tile must be the
/// pair's tile or lie in one of the melds.
pub fn determine_wait_type(mentsu: &[Mentsu; 4], atama: (Hai, Hai), agari_hai: Hai) -> (machi:
    Machi)
    requires
        wait_completes(mentsu@, atama, agari_hai),
        forall|k: int| 0 <= k < 4 ==> #[trigger] mentsu_tiles_wf(mentsu@[k]),
    ensures
        machi == wait_type(mentsu@, atama, agari_hai),
{
    if agari_hai == atama.0 {
        return Machi::Tanki;
    }
    proof {
        lemma_first_meld_with(mentsu@, agari_hai, 0);
    }
    let mut k: usize = 0;
    while k < 4 && !mentsu_contains_tile(&mentsu[k], &agari_hai)
        invariant
            k <= 4,
            forall|j: int| 0 <= j < k ==> !contains_tile(mentsu@[j], agari_hai),
            wait_completes(mentsu@, atama, agari_hai),
            agari_hai != atama.0,
        decreases 4 - k,
    {
        k += 1;
    }
    if k == 4 {
        assert(false);
        return Machi::Tanki;
    }
    assert(first_meld_with(mentsu@, agari_hai, 0) == k) by {
        if first_meld_with(mentsu@, agari_hai, 0) < k {
            assert(!contains_tile(mentsu@[first_meld_with(mentsu@, agari_hai, 0)], agari_hai));
        }
    }
    let winning_meld = mentsu[k];
    assert(mentsu_tiles_wf(mentsu@[k as int]));
    match winning_meld.mentsu_type {
        MentsuType::Koutsu | MentsuType::Kantsu => Machi::Shanpon,
        MentsuType::Shuntsu => {
            let t1 = winning_meld.tiles[0];
            let t2 = winning_meld.tiles[1];
            let t3 = winning_meld.tiles[2];
            if agari_hai == t2 {
                Machi::Kanchan
            } else if agari_hai == t1 {
                if index_from_hai(t3) % 9 == 8 {
                    Machi::Penchan
                } else {
                    Machi::Ryanmen
                }
            } else if index_from_hai(t1) % 9 == 0 {
                Machi::Penchan
            } else {
                Machi::Ryanmen
            }
        },
    }
}

/// How a sequence reads the winning tile, when it is the first meld holding it and the
/// tile is not the pair's: its middle tile is an inside wait; its top tile is an edge wait
/// exactly for 1-2-3 and an open wait otherwise; its bottom tile is an edge wait exactly
/// for 7-8-9 and an open wait otherwise.
pub proof fn lemma_sequence_wait(
    ms: Seq<Mentsu>,
    atama: (Hai, Hai),
    w: Hai,
    k: int,
    r: u8,
    su: Suhai,
)
    requires
        w != atama.0,
        0 <= k < ms.len(),
        k == first_meld_with(ms, w, 0),
        ms[k].mentsu_type == MentsuType::Shuntsu,
        1 <= r <= 7,
        ms[k].tiles[0] == Hai::Suhai(r, su),
        ms[k].tiles[1] == Hai::Suhai((r + 1) as u8, su),
        ms[k].tiles[2] == Hai::Suhai((r + 2) as u8, su),
    ensures
        w == Hai::Suhai((r + 1) as u8, su) ==> wait_type(ms, atama, w) == Machi::Kanchan,
        w == Hai::Suhai((r + 2) as u8, su) ==> wait_type(ms, atama, w) == if r == 1 {
            Machi::Penchan
        } else {
            Machi::Ryanmen
        },
        w == Hai::Suhai(r, su) ==> wait_type(ms, atama, w) == if r == 7 {
            Machi::Penchan
        } else {
            Machi::Ryanmen
        },
{
}

} // verus!
