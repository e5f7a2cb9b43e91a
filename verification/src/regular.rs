use vstd::prelude::*;
use crate::game::{AgariType, GameContext, PlayerContext};
use crate::hand::{AgariHand, Machi, Mentsu, MentsuType};
use crate::hand_tiles::{
    agari_groups, agari_tiles, chanta_groups, check_chanta_junchan, check_chinitsu,
    check_honitsu, chinitsu_tiles, concealed_triplet_count, count_concealed_koutsu,
    count_koutsu_kantsu, get_all_groups, get_all_tiles, honitsu_tiles, is_koutsu_or_kantsu,
    junchan_groups, kind_count, pairs_tiles, tiles_of_pairs, triplet_like,
};
use crate::tiles::{
    is_simple, is_terminal, is_yaochuu, simple_tile, terminal_tile, yaochuu_tile, Hai, Jihai,
    Kaze, Sangenpai, Suhai,
};
use crate::yaku::{push_if, Yaku};
use crate::yakuman::{all_terminals, dragon_triplet_count};
use std::collections::{HashMap, HashSet};

verus! {

// ---------------------------------------------------------------------------
// Tile predicates over lists
// ---------------------------------------------------------------------------

/// Every tile is a simple.
pub open spec fn all_simples(ts: Seq<Hai>) -> bool {
    forall|k: int| 0 <= k < ts.len() ==> #[trigger] simple_tile(ts[k])
}

/// Every tile is a terminal or honor.
pub open spec fn all_yaochuu(ts: Seq<Hai>) -> bool {
    forall|k: int| 0 <= k < ts.len() ==> #[trigger] yaochuu_tile(ts[k])
}

/// Are all tiles simples?
pub fn all_simple_tiles(ts: &Vec<Hai>) -> (r: bool)
    ensures
        r == all_simples(ts@),
{
    let n = ts.len();
    let mut k: usize = 0;
    while k < n
        invariant
            n == ts@.len(),
            k <= n,
            forall|j: int| 0 <= j < k ==> #[trigger] simple_tile(ts@[j]),
        decreases n - k,
    {
        if !is_simple(&ts[k]) {
            return false;
        }
        k += 1;
    }
    true
}

/// Are all tiles terminals or honors?
pub fn all_yaochuu_tiles(ts: &Vec<Hai>) -> (r: bool)
    ensures
        r == all_yaochuu(ts@),
{
    let n = ts.len();
    let mut k: usize = 0;
    while k < n
        invariant
            n == ts@.len(),
            k <= n,
            forall|j: int| 0 <= j < k ==> #[trigger] yaochuu_tile(ts@[j]),
        decreases n - k,
    {
        if !is_yaochuu(&ts[k]) {
            return false;
        }
        k += 1;
    }
    true
}

/// Are all tiles terminals?
pub fn all_terminal_tiles(ts: &Vec<Hai>) -> (r: bool)
    ensures
        r == all_terminals(ts@),
{
    let n = ts.len();
    let mut k: usize = 0;
    while k < n
        invariant
            n == ts@.len(),
            k <= n,
            forall|j: int| 0 <= j < k ==> #[trigger] terminal_tile(ts@[j]),
        decreases n - k,
    {
        if !is_terminal(&ts[k]) {
            return false;
        }
        k += 1;
    }
    true
}

// ---------------------------------------------------------------------------
// Value tiles, pinfu, all simples
// ---------------------------------------------------------------------------

/// Some meld is a triplet or quad of the tile.
pub open spec fn has_triplet_of(ms: Seq<Mentsu>, t: Hai) -> bool {
    exists|k: int| 0 <= k < ms.len() && triplet_like(ms[k]) && #[trigger] ms[k].tiles[0] == t
}

/// The value-tile yaku: prevalent wind, seat wind (both when they are the same wind),
/// then one dragon yaku for each dragon whose triplet the hand holds.
pub open spec fn yakuhai(h: AgariHand, player: PlayerContext, game: GameContext) -> Seq<Yaku> {
    let ms = h.mentsu@;
    let s0 = push_if(
        Seq::empty(),
        has_triplet_of(ms, Hai::Jihai(Jihai::Kaze(game.bakaze))),
        Yaku::YakuhaiBakaze,
    );
    let s1 = push_if(
        s0,
        has_triplet_of(ms, Hai::Jihai(Jihai::Kaze(player.jikaze))),
        Yaku::YakuhaiJikaze,
    );
    let s2 = push_if(
        s1,
        has_triplet_of(ms, Hai::Jihai(Jihai::Sangen(Sangenpai::Haku))),
        Yaku::YakuhaiSangenpai,
    );
    let s3 = push_if(
        s2,
        has_triplet_of(ms, Hai::Jihai(Jihai::Sangen(Sangenpai::Hatsu))),
        Yaku::YakuhaiSangenpai,
    );
    push_if(
        s3,
        has_triplet_of(ms, Hai::Jihai(Jihai::Sangen(Sangenpai::Chun))),
        Yaku::YakuhaiSangenpai,
    )
}

fn has_triplet(hand: &AgariHand, tile: Hai) -> (r: bool)
    ensures
        r == has_triplet_of(hand.mentsu@, tile),
{
    let mut k: usize = 0;
    while k < 4
        invariant
            k <= 4,
            forall|j: int| 0 <= j < k ==> !(triplet_like(hand.mentsu@[j]) && #[trigger] hand.mentsu@[j].tiles[0] == tile),
        decreases 4 - k,
    {
        if is_koutsu_or_kantsu(&hand.mentsu[k]) && hand.mentsu[k].tiles[0] == tile {
            return true;
        }
        k += 1;
    }
    false
}

/// Value-tile yaku: the winds first, then one dragon yaku per dragon triplet.
pub fn check_yakuhai(hand: &AgariHand, player: &PlayerContext, game: &GameContext) -> (r: Vec<
    Yaku,
>)
    ensures
        r@ == yakuhai(*hand, *player, *game),
{
    let mut yaku = Vec::new();
    if has_triplet(hand, Hai::Jihai(Jihai::Kaze(game.bakaze))) {
        yaku.push(Yaku::YakuhaiBakaze);
    }
    if has_triplet(hand, Hai::Jihai(Jihai::Kaze(player.jikaze))) {
        yaku.push(Yaku::YakuhaiJikaze);
    }
    if has_triplet(hand, Hai::Jihai(Jihai::Sangen(Sangenpai::Haku))) {
        yaku.push(Yaku::YakuhaiSangenpai);
    }
    if has_triplet(hand, Hai::Jihai(Jihai::Sangen(Sangenpai::Hatsu))) {
        yaku.push(Yaku::YakuhaiSangenpai);
    }
    if has_triplet(hand, Hai::Jihai(Jihai::Sangen(Sangenpai::Chun))) {
        yaku.push(Yaku::YakuhaiSangenpai);
    }
    yaku
}

/// No-points hand: concealed, four sequences, a pair that is no dragon and neither the
/// prevalent nor the seat wind, and an open wait.
pub open spec fn pinfu(h: AgariHand, player: PlayerContext, game: GameContext) -> bool {
    &&& player.is_menzen
    &&& forall|k: int| 0 <= k < 4 ==> (#[trigger] h.mentsu@[k]).mentsu_type == MentsuType::Shuntsu
    &&& !(h.atama.0 matches Hai::Jihai(Jihai::Sangen(_)))
    &&& !(h.atama.0 matches Hai::Jihai(Jihai::Kaze(k)) && (k == game.bakaze || k == player.jikaze))
    &&& h.machi == Machi::Ryanmen
}

/// Checks for the no-points hand.
pub fn check_pinfu(hand: &AgariHand, player: &PlayerContext, game: &GameContext) -> (r: bool)
    ensures
        r == pinfu(*hand, *player, *game),
{
    if !player.is_menzen {
        return false;
    }
    let mut k: usize = 0;
    while k < 4
        invariant
            k <= 4,
            forall|j: int| 0 <= j < k ==> (#[trigger] hand.mentsu@[j]).mentsu_type == MentsuType::Shuntsu,
        decreases 4 - k,
    {
        if hand.mentsu[k].mentsu_type != MentsuType::Shuntsu {
            return false;
        }
        k += 1;
    }
    if let Hai::Jihai(Jihai::Sangen(_)) = hand.atama.0 {
        return false;
    }
    if let Hai::Jihai(Jihai::Kaze(k)) = hand.atama.0 {
        if k == game.bakaze || k == player.jikaze {
            return false;
        }
    }
    if hand.machi != Machi::Ryanmen {
        return false;
    }
    true
}

/// Checks for all simples.
pub fn check_tanyao(hand: &AgariHand) -> (r: bool)
    ensures
        r == all_simples(agari_tiles(*hand)),
{
    all_simple_tiles(&get_all_tiles(hand))
}


// ---------------------------------------------------------------------------
// Sequence and triplet patterns
// ---------------------------------------------------------------------------

/// The sequences among the melds, in order.
pub open spec fn shuntsu_of(ms: Seq<Mentsu>) -> Seq<Mentsu>
    decreases ms.len(),
{
    if ms.len() == 0 {
        Seq::empty()
    } else {
        let rest = shuntsu_of(ms.drop_last());
        if ms.last().mentsu_type == MentsuType::Shuntsu {
            rest.push(ms.last())
        } else {
            rest
        }
    }
}

/// The triplets and quads among the melds, in order.
pub open spec fn koutsu_of(ms: Seq<Mentsu>) -> Seq<Mentsu>
    decreases ms.len(),
{
    if ms.len() == 0 {
        Seq::empty()
    } else {
        let rest = koutsu_of(ms.drop_last());
        if triplet_like(ms.last()) {
            rest.push(ms.last())
        } else {
            rest
        }
    }
}

proof fn lemma_shuntsu_of_len(ms: Seq<Mentsu>)
    ensures
        shuntsu_of(ms).len() <= ms.len(),
    decreases ms.len(),
{
    if ms.len() > 0 {
        lemma_shuntsu_of_len(ms.drop_last());
    }
}

/// The sequences of a hand.
fn collect_shuntsu(hand: &AgariHand) -> (r: Vec<Mentsu>)
    ensures
        r@ == shuntsu_of(hand.mentsu@),
{
    let mut r: Vec<Mentsu> = Vec::new();
    let mut k: usize = 0;
    while k < 4
        invariant
            k <= 4,
            r@ == shuntsu_of(hand.mentsu@.take(k as int)),
        decreases 4 - k,
    {
        assert(hand.mentsu@.take(k + 1).drop_last() =~= hand.mentsu@.take(k as int));
        if hand.mentsu[k].mentsu_type == MentsuType::Shuntsu {
            r.push(hand.mentsu[k]);
        }
        k += 1;
    }
    assert(hand.mentsu@.take(4) =~= hand.mentsu@);
    r
}

/// The triplets and quads of a hand.
fn collect_koutsu(hand: &AgariHand) -> (r: Vec<Mentsu>)
    ensures
        r@ == koutsu_of(hand.mentsu@),
{
    let mut r: Vec<Mentsu> = Vec::new();
    let mut k: usize = 0;
    while k < 4
        invariant
            k <= 4,
            r@ == koutsu_of(hand.mentsu@.take(k as int)),
        decreases 4 - k,
    {
        assert(hand.mentsu@.take(k + 1).drop_last() =~= hand.mentsu@.take(k as int));
        if is_koutsu_or_kantsu(&hand.mentsu[k]) {
            r.push(hand.mentsu[k]);
        }
        k += 1;
    }
    assert(hand.mentsu@.take(4) =~= hand.mentsu@);
    r
}

/// The first position at or after `k` whose meld starts with the tile, or the length.
pub open spec fn first_with_start(s: Seq<Mentsu>, t: Hai, k: int) -> int
    decreases s.len() - k,
{
    if k >= s.len() {
        s.len() as int
    } else if s[k].tiles[0] == t {
        k
    } else {
        first_with_start(s, t, k + 1)
    }
}

/// Identical sequences paired off greedily: the first sequence with the first later one
/// that starts on the same tile, and so on through the rest.
pub open spec fn peikou_pairs(s: Seq<Mentsu>) -> nat
    decreases s.len(),
{
    if s.len() == 0 {
        0
    } else {
        let rest = s.drop_first();
        let j = first_with_start(rest, s[0].tiles[0], 0);
        if j < rest.len() {
            proof {
                lemma_first_with_start(rest, s[0].tiles[0], 0);
            }
            1 + peikou_pairs(rest.remove(j))
        } else {
            peikou_pairs(rest)
        }
    }
}

pub proof fn lemma_first_with_start(s: Seq<Mentsu>, t: Hai, k: int)
    requires
        0 <= k <= s.len(),
    ensures
        k <= first_with_start(s, t, k) <= s.len(),
        first_with_start(s, t, k) < s.len() ==> s[first_with_start(s, t, k)].tiles[0] == t,
        forall|j: int| k <= j < first_with_start(s, t, k) ==> s[j].tiles[0] != t,
    decreases s.len() - k,
{
    if k < s.len() && s[k].tiles[0] != t {
        lemma_first_with_start(s, t, k + 1);
    }
}

proof fn lemma_peikou_pairs_le(s: Seq<Mentsu>)
    ensures
        2 * peikou_pairs(s) <= s.len(),
    decreases s.len(),
{
    if s.len() > 0 {
        let rest = s.drop_first();
        let j = first_with_start(rest, s[0].tiles[0], 0);
        lemma_first_with_start(rest, s[0].tiles[0], 0);
        if j < rest.len() {
            lemma_peikou_pairs_le(rest.remove(j));
        } else {
            lemma_peikou_pairs_le(rest);
        }
    }
}

/// The melds at the given positions, in order.
pub open spec fn at_positions(s: Seq<Mentsu>, ps: Seq<int>) -> Seq<Mentsu> {
    ps.map_values(|k: int| s[k])
}

/// Pure double sequence (one identical pair of sequences) and twice pure double
/// sequence (two pairs). Each sequence not yet paired is matched with the first other
/// unpaired one that starts on the same tile; the paired positions are kept in a set.
pub fn check_peikou(shuntsu: &Vec<Mentsu>) -> (r: (bool, bool))
    ensures
        r == (peikou_pairs(shuntsu@) == 1, peikou_pairs(shuntsu@) == 2),
{
    broadcast use vstd::std_specs::hash::group_hash_axioms;

    if shuntsu.len() < 2 {
        proof {
            lemma_peikou_pairs_le(shuntsu@);
        }
        return (false, false);
    }
    let ghost s = shuntsu@;
    let n = shuntsu.len();
    let mut identical_pairs: usize = 0;
    let mut seen: HashSet<usize> = HashSet::new();
    // The positions from `i` on that are not paired yet, in order.
    let ghost mut ps: Seq<int> = Seq::new(n as nat, |k: int| k);
    proof {
        lemma_peikou_pairs_le(s);
        assert(at_positions(s, ps) =~= s);
        assert forall|k: usize| 0 <= k < n implies (!#[trigger] seen@.contains(k) <==> ps.contains(
            k as int,
        )) by {
            assert(ps[k as int] == k as int);
        }
    }
    let mut i: usize = 0;
    while i < n
        invariant
            n == s.len(),
            s == shuntsu@,
            i <= n,
            2 * peikou_pairs(s) <= n,
            forall|a: int, b: int| 0 <= a < b < ps.len() ==> ps[a] < ps[b],
            forall|a: int| 0 <= a < ps.len() ==> i <= #[trigger] ps[a] < n,
            forall|k: usize| i <= k < n ==> (!#[trigger] seen@.contains(k) <==> ps.contains(k as int)),
            identical_pairs + peikou_pairs(at_positions(s, ps)) == peikou_pairs(s),
            forall|a: usize, b: usize|
                a < i && b < n && a != b && !#[trigger] seen@.contains(a) && !#[trigger] seen@.contains(b)
                    ==> s[a as int].tiles[0] != s[b as int].tiles[0],
        decreases n - i,
    {
        if seen.contains(&i) {
            proof {
                assert forall|a: int| 0 <= a < ps.len() implies i + 1 <= #[trigger] ps[a] by {
                    if ps[a] == i {
                        assert(ps.contains(i as int));
                    }
                }
            }
            i += 1;
            continue;
        }
        let ghost rest = at_positions(s, ps);
        proof {
            assert(ps.contains(i as int));
            let a0 = choose|a: int| 0 <= a < ps.len() && ps[a] == i;
            if a0 > 0 {
                assert(ps[0] < ps[a0]);
            }
            assert(ps[0] == i);
        }
        let t = shuntsu[i].tiles[0];
        let mut found = false;
        let mut j: usize = 0;
        while j < n
            invariant_except_break
                j <= n,
                !found,
            invariant
                n == s.len(),
                s == shuntsu@,
                i < n,
                t == s[i as int].tiles[0],
                forall|jj: usize|
                    jj < j && jj != i && !#[trigger] seen@.contains(jj) ==> s[jj as int].tiles[0] != t,
            ensures
                found ==> j < n && j != i && !seen@.contains(j) && s[j as int].tiles[0] == t,
                !found ==> j == n,
            decreases n - j,
        {
            if i == j || seen.contains(&j) {
                j += 1;
                continue;
            }
            if shuntsu[j].tiles[0] == t {
                found = true;
                break;
            }
            j += 1;
        }
        let ghost tail = ps.drop_first();
        let ghost rest_tail = at_positions(s, tail);
        assert(rest_tail =~= rest.drop_first());
        assert(rest[0] == s[i as int]);
        proof {
            lemma_first_with_start(rest_tail, t, 0);
        }
        if found {
            let ghost q: int;
            proof {
                if j < i {
                    assert(s[j as int].tiles[0] != s[i as int].tiles[0]);
                }
                assert(ps.contains(j as int));
                q = choose|a: int| 0 <= a < ps.len() && ps[a] == j;
                if q == 0 {
                    assert(ps[0] == i);
                }
                let f = first_with_start(rest_tail, t, 0);
                if f < q - 1 {
                    assert(rest_tail[f] == s[ps[f + 1]]);
                    assert(ps[f + 1] < ps[q]);
                    let pf = ps[f + 1] as usize;
                    assert(ps.contains(pf as int));
                    assert(!seen@.contains(pf));
                }
                if f > q - 1 {
                    assert(rest_tail[q - 1] == s[j as int]);
                }
                assert(f == q - 1);
                assert(peikou_pairs(rest) == 1 + peikou_pairs(rest_tail.remove(q - 1)));
            }
            let ghost old_seen = seen@;
            seen.insert(i);
            seen.insert(j);
            identical_pairs += 1;
            proof {
                let ps2 = tail.remove(q - 1);
                assert(at_positions(s, ps2) =~= rest_tail.remove(q - 1));
                assert forall|a: int, b: int| 0 <= a < b < ps2.len() implies ps2[a] < ps2[b] by {
                    if b < q - 1 {
                        assert(ps2[a] == ps[a + 1] && ps2[b] == ps[b + 1]);
                    } else if a < q - 1 {
                        assert(ps2[a] == ps[a + 1] && ps2[b] == ps[b + 2]);
                    } else {
                        assert(ps2[a] == ps[a + 2] && ps2[b] == ps[b + 2]);
                    }
                }
                assert forall|a: int| 0 <= a < ps2.len() implies i + 1 <= #[trigger] ps2[a] < n by {
                    if a < q - 1 {
                        assert(ps2[a] == ps[a + 1]);
                        assert(ps[0] < ps[a + 1]);
                    } else {
                        assert(ps2[a] == ps[a + 2]);
                        assert(ps[0] < ps[a + 2]);
                    }
                }
                assert forall|k: usize| i + 1 <= k < n implies (!#[trigger] seen@.contains(k)
                    <==> ps2.contains(k as int)) by {
                    assert(!old_seen.contains(k) <==> ps.contains(k as int));
                    if ps2.contains(k as int) {
                        let a = choose|a: int| 0 <= a < ps2.len() && ps2[a] == k;
                        if a < q - 1 {
                            assert(ps2[a] == ps[a + 1]);
                            assert(ps[a + 1] < ps[q]);
                        } else {
                            assert(ps2[a] == ps[a + 2]);
                            assert(ps[q] < ps[a + 2]);
                        }
                        assert(ps.contains(k as int));
                    }
                    if !seen@.contains(k) {
                        assert(ps.contains(k as int));
                        let a = choose|a: int| 0 <= a < ps.len() && ps[a] == k;
                        if a == 0 {
                            assert(ps[0] == i);
                        } else if a < q {
                            assert(ps2[a - 1] == k);
                        } else if a == q {
                            assert(ps[q] == j);
                        } else {
                            assert(ps2[a - 2] == k);
                        }
                    }
                }
                ps = ps2;
            }
        } else {
            proof {
                let f = first_with_start(rest_tail, t, 0);
                if f < rest_tail.len() {
                    assert(rest_tail[f] == s[ps[f + 1]]);
                    assert(ps[0] < ps[f + 1]);
                    let pf = ps[f + 1] as usize;
                    assert(ps.contains(pf as int));
                    assert(!seen@.contains(pf));
                }
                assert(peikou_pairs(rest) == peikou_pairs(rest_tail));
                assert forall|a: int, b: int| 0 <= a < b < tail.len() implies tail[a] < tail[b] by {
                    assert(tail[a] == ps[a + 1] && tail[b] == ps[b + 1]);
                }
                assert forall|a: int| 0 <= a < tail.len() implies i + 1 <= #[trigger] tail[a] < n by {
                    assert(tail[a] == ps[a + 1]);
                    assert(ps[0] < ps[a + 1]);
                }
                assert forall|k: usize| i + 1 <= k < n implies (!#[trigger] seen@.contains(k)
                    <==> tail.contains(k as int)) by {
                    if tail.contains(k as int) {
                        let a = choose|a: int| 0 <= a < tail.len() && tail[a] == k;
                        assert(ps[a + 1] == k);
                    }
                    if !seen@.contains(k) {
                        assert(ps.contains(k as int));
                        let a = choose|a: int| 0 <= a < ps.len() && ps[a] == k;
                        assert(a != 0);
                        assert(tail[a - 1] == k);
                    }
                }
                ps = tail;
            }
        }
        i += 1;
    }
    proof {
        if ps.len() > 0 {
            assert(i <= ps[0] < n);
        }
        assert(at_positions(s, ps) =~= Seq::<Mentsu>::empty());
    }
    (identical_pairs == 1, identical_pairs == 2)
}

/// Some meld of the list starts with the tile.
pub open spec fn has_start(s: Seq<Mentsu>, t: Hai) -> bool {
    exists|k: int| 0 <= k < s.len() && #[trigger] s[k].tiles[0] == t
}

/// The list has melds starting with rank `n` of each of the three suits.
pub open spec fn three_suits_at(s: Seq<Mentsu>, n: u8) -> bool {
    &&& has_start(s, Hai::Suhai(n, Suhai::Manzu))
    &&& has_start(s, Hai::Suhai(n, Suhai::Pinzu))
    &&& has_start(s, Hai::Suhai(n, Suhai::Souzu))
}

/// Three melds of the same rank in the three suits, among at least three melds.
pub open spec fn three_colors(s: Seq<Mentsu>) -> bool {
    s.len() >= 3 && exists|n: u8| #[trigger] three_suits_at(s, n)
}

/// Melds start with 1, 4 and 7 of the suit.
pub open spec fn straight_in(s: Seq<Mentsu>, suit: Suhai) -> bool {
    has_start(s, Hai::Suhai(1, suit)) && has_start(s, Hai::Suhai(4, suit)) && has_start(
        s,
        Hai::Suhai(7, suit),
    )
}

/// A pure straight: sequences 1-2-3, 4-5-6 and 7-8-9 of one suit, among at least three.
pub open spec fn straight(s: Seq<Mentsu>) -> bool {
    s.len() >= 3 && exists|suit: Suhai| #[trigger] straight_in(s, suit)
}

/// Which suits have a meld starting with rank `n`: characters, circles, bamboo.
pub open spec fn suits_at(s: Seq<Mentsu>, n: u8) -> (bool, bool, bool) {
    (
        has_start(s, Hai::Suhai(n, Suhai::Manzu)),
        has_start(s, Hai::Suhai(n, Suhai::Pinzu)),
        has_start(s, Hai::Suhai(n, Suhai::Souzu)),
    )
}

/// The entry of rank `n` in a table of suits seen, none seen when it has no entry.
pub open spec fn seen_at(m: Map<u8, (bool, bool, bool)>, n: u8) -> (bool, bool, bool) {
    if m.contains_key(n) {
        m[n]
    } else {
        (false, false, false)
    }
}

proof fn lemma_has_start_push(s: Seq<Mentsu>, k: int, t: Hai)
    requires
        0 <= k < s.len(),
    ensures
        has_start(s.take(k + 1), t) == (has_start(s.take(k), t) || s[k].tiles[0] == t),
{
    let a = s.take(k);
    let b = s.take(k + 1);
    if has_start(b, t) {
        let j = choose|j: int| 0 <= j < b.len() && #[trigger] b[j].tiles[0] == t;
        if j < k {
            assert(a[j].tiles[0] == t);
        }
    }
    if has_start(a, t) {
        let j = choose|j: int| 0 <= j < a.len() && #[trigger] a[j].tiles[0] == t;
        assert(b[j].tiles[0] == t);
    }
    if s[k].tiles[0] == t {
        assert(b[k].tiles[0] == t);
    }
}

/// Same rank in three suits, among the given melds: the suits seen are gathered per
/// starting rank in a map, and the hand qualifies when some rank has all three.
fn check_three_colors(melds: &Vec<Mentsu>) -> (r: bool)
    ensures
        r == three_colors(melds@),
{
    broadcast use vstd::std_specs::hash::group_hash_axioms;

    if melds.len() < 3 {
        return false;
    }
    let len = melds.len();
    let mut starters: HashMap<u8, (bool, bool, bool)> = HashMap::new();
    let mut k: usize = 0;
    while k < len
        invariant
            len == melds@.len(),
            k <= len,
            forall|n: u8| #[trigger] seen_at(starters@, n) == suits_at(melds@.take(k as int), n),
        decreases len - k,
    {
        let ghost before = starters@;
        let t = melds[k].tiles[0];
        proof {
            assert forall|n: u8, su: Suhai| #[trigger] has_start(melds@.take(k + 1), Hai::Suhai(n, su))
                == (has_start(melds@.take(k as int), Hai::Suhai(n, su)) || t == Hai::Suhai(n, su)) by {
                lemma_has_start_push(melds@, k as int, Hai::Suhai(n, su));
            }
        }
        if let Hai::Suhai(n, s) = t {
            let entry: (bool, bool, bool) = match starters.get(&n) {
                Some(e) => *e,
                None => (false, false, false),
            };
            assert(entry == seen_at(before, n));
            let updated = match s {
                Suhai::Manzu => (true, entry.1, entry.2),
                Suhai::Pinzu => (entry.0, true, entry.2),
                Suhai::Souzu => (entry.0, entry.1, true),
            };
            starters.insert(n, updated);
            assert forall|n2: u8| #[trigger] seen_at(starters@, n2) == suits_at(melds@.take(k + 1), n2) by {
                assert(suits_at(melds@.take(k as int), n2) == seen_at(before, n2));
                if n2 != n {
                    assert(seen_at(starters@, n2) == seen_at(before, n2));
                }
            }
        } else {
            assert forall|n2: u8| #[trigger] seen_at(starters@, n2) == suits_at(melds@.take(k + 1), n2) by {
                assert(suits_at(melds@.take(k as int), n2) == seen_at(before, n2));
            }
        }
        k += 1;
    }
    assert(melds@.take(len as int) =~= melds@);
    // Look up the entry of every starting rank that occurs.
    let mut j: usize = 0;
    while j < len
        invariant
            len == melds@.len(),
            j <= len,
            forall|n: u8| #[trigger] seen_at(starters@, n) == suits_at(melds@, n),
            forall|i: int| 0 <= i < j ==> !(#[trigger] melds@[i].tiles[0] matches Hai::Suhai(n, _)
                && three_suits_at(melds@, n)),
        decreases len - j,
    {
        if let Hai::Suhai(n, _) = melds[j].tiles[0] {
            let found = starters.get(&n);
            assert(seen_at(starters@, n) == suits_at(melds@, n));
            if let Some(e) = found {
                assert(*e == seen_at(starters@, n));
                if e.0 && e.1 && e.2 {
                    assert(three_suits_at(melds@, n));
                    return true;
                }
            } else {
                assert(!starters@.contains_key(n));
            }
            assert(!three_suits_at(melds@, n));
        }
        j += 1;
    }
    assert(!exists|n: u8| #[trigger] three_suits_at(melds@, n)) by {
        if exists|n: u8| #[trigger] three_suits_at(melds@, n) {
            let n = choose|n: u8| #[trigger] three_suits_at(melds@, n);
            let i = choose|i: int| 0 <= i < melds@.len() && #[trigger] melds@[i].tiles[0] == Hai::Suhai(n, Suhai::Manzu);
            assert(melds@[i].tiles[0] matches Hai::Suhai(n2, _) && three_suits_at(melds@, n2));
        }
    }
    false
}

/// Mixed triple sequence: sequences of the same ranks in the three suits.
pub fn check_sanshoku_doujun(shuntsu: &Vec<Mentsu>) -> (r: bool)
    ensures
        r == three_colors(shuntsu@),
{
    check_three_colors(shuntsu)
}

/// The suit of an index: 0 characters, 1 circles, 2 bamboo.
pub open spec fn suit_of(si: u8) -> Suhai {
    if si == 0 {
        Suhai::Manzu
    } else if si == 1 {
        Suhai::Pinzu
    } else {
        Suhai::Souzu
    }
}

fn suit_index(s: Suhai) -> (si: u8)
    ensures
        si < 3,
        suit_of(si) == s,
{
    match s {
        Suhai::Manzu => 0,
        Suhai::Pinzu => 1,
        Suhai::Souzu => 2,
    }
}

/// The table of starting ranks per suit holds rank `r` for suit index `si`.
pub open spec fn rank_seen(m: Map<u8, HashSet<u8>>, si: u8, r: u8) -> bool {
    m.contains_key(si) && m[si]@.contains(r)
}

/// Pure straight: 1-2-3, 4-5-6 and 7-8-9 of one suit. The starting ranks are gathered
/// per suit in a map of sets.
pub fn check_ittsu(shuntsu: &Vec<Mentsu>) -> (r: bool)
    ensures
        r == straight(shuntsu@),
{
    broadcast use vstd::std_specs::hash::group_hash_axioms;

    if shuntsu.len() < 3 {
        return false;
    }
    let len = shuntsu.len();
    let mut suits: HashMap<u8, HashSet<u8>> = HashMap::new();
    let mut k: usize = 0;
    while k < len
        invariant
            len == shuntsu@.len(),
            k <= len,
            forall|si: u8, r: u8|
                #[trigger] rank_seen(suits@, si, r) == (si < 3 && has_start(
                    shuntsu@.take(k as int),
                    Hai::Suhai(r, suit_of(si)),
                )),
        decreases len - k,
    {
        let ghost before = suits@;
        let t = shuntsu[k].tiles[0];
        proof {
            assert forall|r: u8, su: Suhai| #[trigger] has_start(shuntsu@.take(k + 1), Hai::Suhai(r, su))
                == (has_start(shuntsu@.take(k as int), Hai::Suhai(r, su)) || t == Hai::Suhai(r, su)) by {
                lemma_has_start_push(shuntsu@, k as int, Hai::Suhai(r, su));
            }
        }
        if let Hai::Suhai(n, s) = t {
            let si = suit_index(s);
            let mut set: HashSet<u8> = match suits.remove(&si) {
                Some(x) => x,
                None => HashSet::new(),
            };
            assert(forall|r: u8| set@.contains(r) == rank_seen(before, si, r));
            set.insert(n);
            suits.insert(si, set);
            assert forall|si2: u8, r: u8| #[trigger] rank_seen(suits@, si2, r) == (si2 < 3 && has_start(
                shuntsu@.take(k + 1),
                Hai::Suhai(r, suit_of(si2)),
            )) by {
                assert(rank_seen(before, si2, r) == (si2 < 3 && has_start(
                    shuntsu@.take(k as int),
                    Hai::Suhai(r, suit_of(si2)),
                )));
                if si2 != si {
                    assert(rank_seen(suits@, si2, r) == rank_seen(before, si2, r));
                    if si2 < 3 {
                        assert(suit_of(si2) != s);
                    }
                }
            }
        } else {
            assert forall|si2: u8, r: u8| #[trigger] rank_seen(suits@, si2, r) == (si2 < 3 && has_start(
                shuntsu@.take(k + 1),
                Hai::Suhai(r, suit_of(si2)),
            )) by {
                assert(rank_seen(before, si2, r) == (si2 < 3 && has_start(
                    shuntsu@.take(k as int),
                    Hai::Suhai(r, suit_of(si2)),
                )));
            }
        }
        k += 1;
    }
    assert(shuntsu@.take(len as int) =~= shuntsu@);
    let mut si: u8 = 0;
    while si < 3
        invariant
            len == shuntsu@.len(),
            si <= 3,
            forall|s2: u8, r: u8|
                #[trigger] rank_seen(suits@, s2, r) == (s2 < 3 && has_start(
                    shuntsu@,
                    Hai::Suhai(r, suit_of(s2)),
                )),
            forall|s2: u8| s2 < si ==> !straight_in(shuntsu@, #[trigger] suit_of(s2)),
        decreases 3 - si,
    {
        let entry = suits.get(&si);
        assert(rank_seen(suits@, si, 1) && rank_seen(suits@, si, 4) && rank_seen(suits@, si, 7)
            <==> straight_in(shuntsu@, suit_of(si)));
        if let Some(set) = entry {
            if set.contains(&1) && set.contains(&4) && set.contains(&7) {
                assert(straight_in(shuntsu@, suit_of(si)));
                return true;
            }
        } else {
            assert(!rank_seen(suits@, si, 1));
        }
        si += 1;
    }
    assert(!exists|suit: Suhai| #[trigger] straight_in(shuntsu@, suit)) by {
        if exists|suit: Suhai| #[trigger] straight_in(shuntsu@, suit) {
            let suit = choose|suit: Suhai| #[trigger] straight_in(shuntsu@, suit);
            match suit {
                Suhai::Manzu => assert(suit_of(0) == suit),
                Suhai::Pinzu => assert(suit_of(1) == suit),
                Suhai::Souzu => assert(suit_of(2) == suit),
            }
        }
    }
    false
}

/// Triple triplets: triplets or quads of the same rank in the three suits.
pub fn check_sanshoku_doukou(hand: &AgariHand) -> (r: bool)
    ensures
        r == three_colors(koutsu_of(hand.mentsu@)),
{
    let koutsu = collect_koutsu(hand);
    check_three_colors(&koutsu)
}

/// Little three dragons: two dragon triplets or quads and a dragon pair.
pub open spec fn shousangen(h: AgariHand) -> bool {
    dragon_triplet_count(h.mentsu@) == 2 && h.atama.0 matches Hai::Jihai(Jihai::Sangen(_))
}

/// Checks for little three dragons.
pub fn check_shousangen(hand: &AgariHand) -> (r: bool)
    ensures
        r == shousangen(*hand),
{
    let mut dragon_koutsu: u8 = 0;
    let mut m: usize = 0;
    while m < 4
        invariant
            m <= 4,
            dragon_koutsu == dragon_triplet_count(hand.mentsu@.take(m as int)),
            dragon_koutsu <= m,
        decreases 4 - m,
    {
        assert(hand.mentsu@.take(m + 1).drop_last() =~= hand.mentsu@.take(m as int));
        if is_koutsu_or_kantsu(&hand.mentsu[m]) {
            if let Hai::Jihai(Jihai::Sangen(_)) = hand.mentsu[m].tiles[0] {
                dragon_koutsu += 1;
            }
        }
        m += 1;
    }
    assert(hand.mentsu@.take(4) =~= hand.mentsu@);
    let mut dragon_atama = false;
    if let Hai::Jihai(Jihai::Sangen(_)) = hand.atama.0 {
        dragon_atama = true;
    }
    dragon_koutsu == 2 && dragon_atama
}


// ---------------------------------------------------------------------------
// All regular yaku
// ---------------------------------------------------------------------------

/// The yaku of the winning situation appended to `s`: riichi or double riichi, ippatsu,
/// concealed self-draw, last draw, last discard, kan draw, robbing a kan.
pub open spec fn state_yaku_onto(
    s: Seq<Yaku>,
    player: PlayerContext,
    game: GameContext,
    agari_type: AgariType,
) -> Seq<Yaku> {
    let tsumo = agari_type == AgariType::Tsumo;
    let ron = agari_type == AgariType::Ron;
    let s0 = push_if(s, player.is_daburu_riichi, Yaku::DaburuRiichi);
    let s1 = push_if(s0, !player.is_daburu_riichi && player.is_riichi, Yaku::Riichi);
    let s2 = push_if(s1, player.is_ippatsu, Yaku::Ippatsu);
    let s3 = push_if(s2, player.is_menzen && tsumo, Yaku::MenzenTsumo);
    let s4 = push_if(s3, game.is_haitei && tsumo, Yaku::HaiteiRaoyue);
    let s5 = push_if(s4, game.is_houtei && ron, Yaku::HouteiRaoyui);
    let s6 = push_if(s5, game.is_rinshan, Yaku::RinshanKaihou);
    push_if(s6, game.is_chankan, Yaku::Chankan)
}

/// Pinfu (dropped beside a kan draw or a robbed kan), all simples, the double sequences
/// (concealed hands only), three colors and straight, appended to `s`.
pub open spec fn sequence_yaku_onto(
    s: Seq<Yaku>,
    h: AgariHand,
    player: PlayerContext,
    game: GameContext,
) -> Seq<Yaku> {
    let sh = shuntsu_of(h.mentsu@);
    let pk = peikou_pairs(sh);
    let s9 = push_if(
        s,
        pinfu(h, player, game) && !game.is_rinshan && !game.is_chankan,
        Yaku::Pinfu,
    );
    let s10 = push_if(s9, all_simples(agari_tiles(h)), Yaku::Tanyao);
    let s11 = push_if(s10, player.is_menzen && pk == 2, Yaku::Ryanpeikou);
    let s12 = push_if(s11, player.is_menzen && pk != 2 && pk == 1, Yaku::Iipeikou);
    let s13 = push_if(s12, three_colors(sh), Yaku::SanshokuDoujun);
    push_if(s13, straight(sh), Yaku::Ittsu)
}

/// All triplets or three concealed triplets, three quads, triple triplets and little
/// three dragons, appended to `s`.
pub open spec fn triplet_yaku_onto(s: Seq<Yaku>, h: AgariHand, agari_type: AgariType) -> Seq<
    Yaku,
> {
    let ms = h.mentsu@;
    let kou = kind_count(ms, MentsuType::Koutsu);
    let kan = kind_count(ms, MentsuType::Kantsu);
    let s15 = push_if(s, kou + kan == 4, Yaku::Toitoi);
    let s16 = push_if(
        s15,
        kou + kan != 4 && concealed_triplet_count(ms, h.agari_hai, agari_type) == 3,
        Yaku::Sanankou,
    );
    let s17 = push_if(s16, kan == 3, Yaku::Sankantsu);
    let s18 = push_if(s17, three_colors(koutsu_of(ms)), Yaku::SanshokuDoukou);
    push_if(s18, shousangen(h), Yaku::Shousangen)
}

/// All terminals and honors, or else pure or half outside hand; then full or half flush;
/// appended to `s`.
pub open spec fn outside_and_color_yaku_onto(s: Seq<Yaku>, h: AgariHand) -> Seq<Yaku> {
    let ts = agari_tiles(h);
    let gs = agari_groups(h);
    let honro = all_yaochuu(ts) && !all_terminals(ts);
    let s20 = push_if(s, honro, Yaku::Honroutou);
    let s21 = push_if(s20, !honro && junchan_groups(gs), Yaku::Junchan);
    let s22 = push_if(s21, !honro && !junchan_groups(gs) && chanta_groups(gs), Yaku::Chanta);
    let s23 = push_if(s22, chinitsu_tiles(ts), Yaku::Chinitsu);
    push_if(s23, !chinitsu_tiles(ts) && honitsu_tiles(ts), Yaku::Honitsu)
}

/// The regular yaku of a four-melds-one-pair hand, in the order they are listed: the
/// situation yaku, the value tiles, the sequence yaku, the triplet yaku, then the
/// outside-hand and flush yaku.
pub open spec fn standard_yaku(
    h: AgariHand,
    player: PlayerContext,
    game: GameContext,
    agari_type: AgariType,
) -> Seq<Yaku> {
    let s8 = state_yaku_onto(Seq::empty(), player, game, agari_type) + yakuhai(h, player, game);
    outside_and_color_yaku_onto(
        triplet_yaku_onto(sequence_yaku_onto(s8, h, player, game), h, agari_type),
        h,
    )
}

fn push_state_yaku(
    yaku_list: &mut Vec<Yaku>,
    player: &PlayerContext,
    game: &GameContext,
    agari_type: AgariType,
)
    ensures
        final(yaku_list)@ == state_yaku_onto(old(yaku_list)@, *player, *game, agari_type),
{
    if player.is_daburu_riichi {
        yaku_list.push(Yaku::DaburuRiichi);
    } else if player.is_riichi {
        yaku_list.push(Yaku::Riichi);
    }
    if player.is_ippatsu {
        yaku_list.push(Yaku::Ippatsu);
    }
    if player.is_menzen && agari_type == AgariType::Tsumo {
        yaku_list.push(Yaku::MenzenTsumo);
    }
    if game.is_haitei && agari_type == AgariType::Tsumo {
        yaku_list.push(Yaku::HaiteiRaoyue);
    }
    if game.is_houtei && agari_type == AgariType::Ron {
        yaku_list.push(Yaku::HouteiRaoyui);
    }
    if game.is_rinshan {
        yaku_list.push(Yaku::RinshanKaihou);
    }
    if game.is_chankan {
        yaku_list.push(Yaku::Chankan);
    }
}

fn push_sequence_yaku(
    yaku_list: &mut Vec<Yaku>,
    hand: &AgariHand,
    player: &PlayerContext,
    game: &GameContext,
)
    ensures
        final(yaku_list)@ == sequence_yaku_onto(old(yaku_list)@, *hand, *player, *game),
{
    // Pinfu does not stand beside a kan draw or a robbed kan.
    if check_pinfu(hand, player, game) && !(game.is_rinshan || game.is_chankan) {
        yaku_list.push(Yaku::Pinfu);
    }
    if check_tanyao(hand) {
        yaku_list.push(Yaku::Tanyao);
    }
    let shuntsu = collect_shuntsu(hand);
    if player.is_menzen {
        let (iipeikou, ryanpeikou) = check_peikou(&shuntsu);
        if ryanpeikou {
            yaku_list.push(Yaku::Ryanpeikou);
        } else if iipeikou {
            yaku_list.push(Yaku::Iipeikou);
        }
    }
    if check_sanshoku_doujun(&shuntsu) {
        yaku_list.push(Yaku::SanshokuDoujun);
    }
    if check_ittsu(&shuntsu) {
        yaku_list.push(Yaku::Ittsu);
    }
}

fn push_triplet_yaku(yaku_list: &mut Vec<Yaku>, hand: &AgariHand, agari_type: AgariType)
    ensures
        final(yaku_list)@ == triplet_yaku_onto(old(yaku_list)@, *hand, agari_type),
{
    let (koutsu, kantsu) = count_koutsu_kantsu(hand);
    if koutsu + kantsu == 4 {
        yaku_list.push(Yaku::Toitoi);
    } else {
        let concealed_koutsu = count_concealed_koutsu(hand, agari_type);
        if concealed_koutsu == 3 {
            yaku_list.push(Yaku::Sanankou);
        }
    }
    if kantsu == 3 {
        yaku_list.push(Yaku::Sankantsu);
    }
    if check_sanshoku_doukou(hand) {
        yaku_list.push(Yaku::SanshokuDoukou);
    }
    if check_shousangen(hand) {
        yaku_list.push(Yaku::Shousangen);
    }
}

fn push_outside_and_color_yaku(yaku_list: &mut Vec<Yaku>, hand: &AgariHand)
    ensures
        final(yaku_list)@ == outside_and_color_yaku_onto(old(yaku_list)@, *hand),
{
    let all_tiles = get_all_tiles(hand);
    let all_groups = get_all_groups(hand);
    assert(all_groups@.map_values(|g: Vec<Hai>| g@) =~= agari_groups(*hand));
    let is_honroutou = all_yaochuu_tiles(&all_tiles) && !all_terminal_tiles(&all_tiles);
    if is_honroutou {
        yaku_list.push(Yaku::Honroutou);
    } else {
        let (is_chanta, is_junchan) = check_chanta_junchan(&all_groups);
        if is_junchan {
            yaku_list.push(Yaku::Junchan);
        } else if is_chanta {
            yaku_list.push(Yaku::Chanta);
        }
    }
    let (is_chinitsu, _) = check_chinitsu(&all_tiles);
    if is_chinitsu {
        yaku_list.push(Yaku::Chinitsu);
    } else {
        let (is_honitsu, _) = check_honitsu(&all_tiles);
        if is_honitsu {
            yaku_list.push(Yaku::Honitsu);
        }
    }
}

/// Finds every regular yaku of a four-melds-one-pair hand.
pub fn find_standard_yaku(
    hand: &AgariHand,
    player: &PlayerContext,
    game: &GameContext,
    agari_type: AgariType,
) -> (r: Vec<Yaku>)
    ensures
        r@ == standard_yaku(*hand, *player, *game, agari_type),
{
    let mut yaku_list = Vec::new();
    push_state_yaku(&mut yaku_list, player, game, agari_type);
    let mut yakuhai_list = check_yakuhai(hand, player, game);
    yaku_list.append(&mut yakuhai_list);
    push_sequence_yaku(&mut yaku_list, hand, player, game);
    push_triplet_yaku(&mut yaku_list, hand, agari_type);
    push_outside_and_color_yaku(&mut yaku_list, hand);
    yaku_list
}

/// The yaku of a seven-pairs hand: seven pairs, riichi or double riichi, ippatsu,
/// self-draw, last draw, last discard, all simples, all terminals and honors, full or
/// half flush.
pub open spec fn chiitoitsu_yaku(
    pairs: Seq<(Hai, Hai)>,
    player: PlayerContext,
    game: GameContext,
    agari_type: AgariType,
) -> Seq<Yaku> {
    let tsumo = agari_type == AgariType::Tsumo;
    let ron = agari_type == AgariType::Ron;
    let ts = pairs_tiles(pairs);
    let s0 = seq![Yaku::Chiitoitsu];
    let s1 = push_if(s0, player.is_daburu_riichi, Yaku::DaburuRiichi);
    let s2 = push_if(s1, !player.is_daburu_riichi && player.is_riichi, Yaku::Riichi);
    let s3 = push_if(s2, player.is_ippatsu, Yaku::Ippatsu);
    let s4 = push_if(s3, tsumo, Yaku::MenzenTsumo);
    let s5 = push_if(s4, game.is_haitei && tsumo, Yaku::HaiteiRaoyue);
    let s6 = push_if(s5, game.is_houtei && ron, Yaku::HouteiRaoyui);
    let s7 = push_if(s6, all_simples(ts), Yaku::Tanyao);
    let s8 = push_if(s7, all_yaochuu(ts), Yaku::Honroutou);
    let s9 = push_if(s8, chinitsu_tiles(ts), Yaku::Chinitsu);
    push_if(s9, !chinitsu_tiles(ts) && honitsu_tiles(ts), Yaku::Honitsu)
}

/// Finds every yaku of a seven-pairs hand.
pub fn find_chiitoitsu_yaku(
    pairs: &[(Hai, Hai); 7],
    agari_hai: &Hai,
    machi: &Machi,
    player: &PlayerContext,
    game: &GameContext,
    agari_type: AgariType,
) -> (r: Vec<Yaku>)
    ensures
        r@ == chiitoitsu_yaku(pairs@, *player, *game, agari_type),
{
    let mut yaku_list = Vec::new();
    yaku_list.push(Yaku::Chiitoitsu);
    if player.is_daburu_riichi {
        yaku_list.push(Yaku::DaburuRiichi);
    } else if player.is_riichi {
        yaku_list.push(Yaku::Riichi);
    }
    if player.is_ippatsu {
        yaku_list.push(Yaku::Ippatsu);
    }
    if agari_type == AgariType::Tsumo {
        yaku_list.push(Yaku::MenzenTsumo);
    }
    if game.is_haitei && agari_type == AgariType::Tsumo {
        yaku_list.push(Yaku::HaiteiRaoyue);
    }
    if game.is_houtei && agari_type == AgariType::Ron {
        yaku_list.push(Yaku::HouteiRaoyui);
    }
    let all_tiles = tiles_of_pairs(pairs);
    if all_simple_tiles(&all_tiles) {
        yaku_list.push(Yaku::Tanyao);
    }
    if all_yaochuu_tiles(&all_tiles) {
        yaku_list.push(Yaku::Honroutou);
    }
    let (is_chinitsu, _) = check_chinitsu(&all_tiles);
    if is_chinitsu {
        yaku_list.push(Yaku::Chinitsu);
    } else {
        let (is_honitsu, _) = check_honitsu(&all_tiles);
        if is_honitsu {
            yaku_list.push(Yaku::Honitsu);
        }
    }
    yaku_list
}

} // verus!
