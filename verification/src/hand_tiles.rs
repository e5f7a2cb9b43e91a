use vstd::prelude::*;
use crate::game::AgariType;
use crate::hand::{AgariHand, HandStructure, Mentsu, MentsuType};
use crate::tiles::{
    dora_of, get_dora_tile, hai_wf, honor_tile, is_jihai, is_terminal, terminal_tile, Hai, Suhai,
};

verus! {

// ---------------------------------------------------------------------------
// The tiles of a hand
// ---------------------------------------------------------------------------

/// The tiles of a meld: four for a quad, three otherwise.
pub open spec fn meld_tiles(m: Mentsu) -> Seq<Hai> {
    if m.mentsu_type == MentsuType::Kantsu {
        m.tiles@
    } else {
        m.tiles@.take(3)
    }
}

/// The tiles of a sequence of melds, meld after meld.
pub open spec fn melds_tiles(ms: Seq<Mentsu>) -> Seq<Hai>
    decreases ms.len(),
{
    if ms.len() == 0 {
        Seq::empty()
    } else {
        melds_tiles(ms.drop_last()) + meld_tiles(ms.last())
    }
}

/// The tiles of a four-melds-one-pair hand: the pair, then the melds in order.
pub open spec fn agari_tiles(h: AgariHand) -> Seq<Hai> {
    seq![h.atama.0, h.atama.1] + melds_tiles(h.mentsu@)
}

/// The five groups of a four-melds-one-pair hand: the pair, then each meld's tiles.
pub open spec fn agari_groups(h: AgariHand) -> Seq<Seq<Hai>> {
    seq![seq![h.atama.0, h.atama.1]] + Seq::new(4, |k: int| meld_tiles(h.mentsu@[k]))
}

/// The tiles of a list of pairs, pair after pair.
pub open spec fn pairs_tiles(pairs: Seq<(Hai, Hai)>) -> Seq<Hai>
    decreases pairs.len(),
{
    if pairs.len() == 0 {
        Seq::empty()
    } else {
        pairs_tiles(pairs.drop_last()) + seq![pairs.last().0, pairs.last().1]
    }
}

/// The tiles of any hand structure. A thirteen-orphans hand lists its thirteen kinds
/// and then the pair's tile once more.
pub open spec fn structure_tiles(hs: HandStructure) -> Seq<Hai> {
    match hs {
        HandStructure::YonmentsuIchiatama(h) => agari_tiles(h),
        HandStructure::Chiitoitsu { pairs, .. } => pairs_tiles(pairs@),
        HandStructure::KokushiMusou { tiles, atama, .. } => tiles@.push(atama.0),
        HandStructure::ChuurenPoutou { hand, .. } => agari_tiles(hand),
    }
}

proof fn lemma_melds_tiles_len(ms: Seq<Mentsu>)
    ensures
        melds_tiles(ms).len() <= 4 * ms.len(),
    decreases ms.len(),
{
    if ms.len() > 0 {
        lemma_melds_tiles_len(ms.drop_last());
    }
}

/// A four-melds-one-pair hand has at most eighteen tiles.
pub proof fn lemma_agari_tiles_len(h: AgariHand)
    ensures
        agari_tiles(h).len() <= 18,
{
    lemma_melds_tiles_len(h.mentsu@);
}

fn push_meld_tiles(tiles: &mut Vec<Hai>, m: &Mentsu)
    ensures
        final(tiles)@ == old(tiles)@ + meld_tiles(*m),
{
    tiles.push(m.tiles[0]);
    tiles.push(m.tiles[1]);
    tiles.push(m.tiles[2]);
    if m.mentsu_type == MentsuType::Kantsu {
        tiles.push(m.tiles[3]);
    }
    assert(tiles@ =~= old(tiles)@ + meld_tiles(*m));
}

/// All tiles of a four-melds-one-pair hand.
pub fn get_all_tiles(hand: &AgariHand) -> (tiles: Vec<Hai>)
    ensures
        tiles@ == agari_tiles(*hand),
{
    let mut tiles = Vec::with_capacity(14);
    tiles.push(hand.atama.0);
    tiles.push(hand.atama.1);
    let mut k: usize = 0;
    while k < 4
        invariant
            k <= 4,
            tiles@ == seq![hand.atama.0, hand.atama.1] + melds_tiles(hand.mentsu@.take(k as int)),
        decreases 4 - k,
    {
        assert(hand.mentsu@.take(k + 1).drop_last() =~= hand.mentsu@.take(k as int));
        push_meld_tiles(&mut tiles, &hand.mentsu[k]);
        k += 1;
        assert(tiles@ =~= seq![hand.atama.0, hand.atama.1] + melds_tiles(hand.mentsu@.take(k as int)));
    }
    assert(hand.mentsu@.take(4) =~= hand.mentsu@);
    tiles
}

/// All tiles of a list of pairs.
pub fn tiles_of_pairs(pairs: &[(Hai, Hai); 7]) -> (tiles: Vec<Hai>)
    ensures
        tiles@ == pairs_tiles(pairs@),
{
    let mut tiles: Vec<Hai> = Vec::new();
    let mut k: usize = 0;
    while k < 7
        invariant
            k <= 7,
            tiles@ == pairs_tiles(pairs@.take(k as int)),
        decreases 7 - k,
    {
        assert(pairs@.take(k + 1).drop_last() =~= pairs@.take(k as int));
        let (t1, t2) = pairs[k];
        tiles.push(t1);
        tiles.push(t2);
        k += 1;
        assert(tiles@ =~= pairs_tiles(pairs@.take(k as int)));
    }
    assert(pairs@.take(7) =~= pairs@);
    tiles
}

/// All tiles of any hand structure.
pub fn get_all_tiles_from_structure(structure: &HandStructure) -> (tiles: Vec<Hai>)
    ensures
        tiles@ == structure_tiles(*structure),
{
    match structure {
        HandStructure::YonmentsuIchiatama(hand) => get_all_tiles(hand),
        HandStructure::Chiitoitsu { pairs, .. } => tiles_of_pairs(pairs),
        HandStructure::KokushiMusou { tiles, atama, .. } => {
            let mut v: Vec<Hai> = Vec::new();
            let mut k: usize = 0;
            while k < 13
                invariant
                    k <= 13,
                    v@ == tiles@.take(k as int),
                decreases 13 - k,
            {
                v.push(tiles[k]);
                k += 1;
                assert(v@ =~= tiles@.take(k as int));
            }
            assert(tiles@.take(13) =~= tiles@);
            v.push(atama.0);
            v
        },
        HandStructure::ChuurenPoutou { hand, .. } => get_all_tiles(hand),
    }
}

/// The five groups of a hand: the pair, then each meld's tiles.
pub fn get_all_groups(hand: &AgariHand) -> (groups: Vec<Vec<Hai>>)
    ensures
        groups@.len() == 5,
        forall|k: int| 0 <= k < 5 ==> #[trigger] groups@[k]@ == agari_groups(*hand)[k],
{
    let mut groups: Vec<Vec<Hai>> = Vec::with_capacity(5);
    groups.push(vec![hand.atama.0, hand.atama.1]);
    let mut k: usize = 0;
    while k < 4
        invariant
            k <= 4,
            groups@.len() == k + 1,
            forall|j: int| 0 <= j <= k ==> #[trigger] groups@[j]@ == agari_groups(*hand)[j],
        decreases 4 - k,
    {
        let mut g: Vec<Hai> = Vec::new();
        push_meld_tiles(&mut g, &hand.mentsu[k]);
        groups.push(g);
        k += 1;
    }
    groups
}

// ---------------------------------------------------------------------------
// Counting melds
// ---------------------------------------------------------------------------

/// A triplet or a quad.
pub open spec fn triplet_like(m: Mentsu) -> bool {
    m.mentsu_type == MentsuType::Koutsu || m.mentsu_type == MentsuType::Kantsu
}

/// How many melds are of the given kind.
pub open spec fn kind_count(ms: Seq<Mentsu>, kind: MentsuType) -> nat
    decreases ms.len(),
{
    if ms.len() == 0 {
        0
    } else {
        kind_count(ms.drop_last(), kind) + if ms.last().mentsu_type == kind {
            1nat
        } else {
            0nat
        }
    }
}

/// A concealed triplet or quad: not called, and, for a triplet, not completed by a
/// winning tile taken by Ron.
pub open spec fn concealed_triplet(m: Mentsu, agari_hai: Hai, agari_type: AgariType) -> bool {
    !m.is_minchou && (m.mentsu_type == MentsuType::Kantsu || (m.mentsu_type == MentsuType::Koutsu
        && !(agari_type == AgariType::Ron && (m.tiles[0] == agari_hai || m.tiles[1] == agari_hai
        || m.tiles[2] == agari_hai))))
}

/// How many concealed triplets and quads the melds hold.
pub open spec fn concealed_triplet_count(ms: Seq<Mentsu>, agari_hai: Hai, agari_type: AgariType) -> nat
    decreases ms.len(),
{
    if ms.len() == 0 {
        0
    } else {
        concealed_triplet_count(ms.drop_last(), agari_hai, agari_type) + if concealed_triplet(
            ms.last(),
            agari_hai,
            agari_type,
        ) {
            1nat
        } else {
            0nat
        }
    }
}

proof fn lemma_kind_count_le(ms: Seq<Mentsu>, kind: MentsuType)
    ensures
        kind_count(ms, kind) <= ms.len(),
    decreases ms.len(),
{
    if ms.len() > 0 {
        lemma_kind_count_le(ms.drop_last(), kind);
    }
}

/// Is the meld a triplet or a quad?
pub fn is_koutsu_or_kantsu(mentsu: &Mentsu) -> (r: bool)
    ensures
        r == triplet_like(*mentsu),
{
    mentsu.mentsu_type == MentsuType::Koutsu || mentsu.mentsu_type == MentsuType::Kantsu
}

/// The numbers of triplets and of quads.
pub fn count_koutsu_kantsu(hand: &AgariHand) -> (r: (u8, u8))
    ensures
        r.0 == kind_count(hand.mentsu@, MentsuType::Koutsu),
        r.1 == kind_count(hand.mentsu@, MentsuType::Kantsu),
        r.0 + r.1 <= 4,
{
    let mut koutsu: u8 = 0;
    let mut kantsu: u8 = 0;
    let mut k: usize = 0;
    while k < 4
        invariant
            k <= 4,
            koutsu == kind_count(hand.mentsu@.take(k as int), MentsuType::Koutsu),
            kantsu == kind_count(hand.mentsu@.take(k as int), MentsuType::Kantsu),
            koutsu + kantsu <= k,
        decreases 4 - k,
    {
        assert(hand.mentsu@.take(k + 1).drop_last() =~= hand.mentsu@.take(k as int));
        proof {
            lemma_kind_count_le(hand.mentsu@.take(k as int), MentsuType::Koutsu);
            lemma_kind_count_le(hand.mentsu@.take(k as int), MentsuType::Kantsu);
        }
        match hand.mentsu[k].mentsu_type {
            MentsuType::Koutsu => koutsu += 1,
            MentsuType::Kantsu => kantsu += 1,
            _ => (),
        }
        k += 1;
    }
    assert(hand.mentsu@.take(4) =~= hand.mentsu@);
    (koutsu, kantsu)
}

/// The number of concealed triplets and quads (for Sanankou and Suuankou).
pub fn count_concealed_koutsu(hand: &AgariHand, agari_type: AgariType) -> (r: u8)
    ensures
        r == concealed_triplet_count(hand.mentsu@, hand.agari_hai, agari_type),
{
    let mut count: u8 = 0;
    let mut k: usize = 0;
    while k < 4
        invariant
            k <= 4,
            count == concealed_triplet_count(hand.mentsu@.take(k as int), hand.agari_hai, agari_type),
            count <= k,
        decreases 4 - k,
    {
        assert(hand.mentsu@.take(k + 1).drop_last() =~= hand.mentsu@.take(k as int));
        let m = hand.mentsu[k];
        k += 1;
        if m.is_minchou {
            continue;
        }
        if m.mentsu_type == MentsuType::Koutsu {
            if agari_type == AgariType::Ron {
                if m.tiles[0] == hand.agari_hai || m.tiles[1] == hand.agari_hai || m.tiles[2]
                    == hand.agari_hai {
                    continue;
                }
            }
            count += 1;
        } else if m.mentsu_type == MentsuType::Kantsu {
            count += 1;
        }
    }
    assert(hand.mentsu@.take(4) =~= hand.mentsu@);
    count
}

// ---------------------------------------------------------------------------
// Suits and outside groups
// ---------------------------------------------------------------------------

/// The suit of the first number tile, if any.
pub open spec fn first_suit(ts: Seq<Hai>) -> Option<Suhai>
    decreases ts.len(),
{
    if ts.len() == 0 {
        None
    } else {
        match first_suit(ts.drop_last()) {
            Some(s) => Some(s),
            None => match ts.last() {
                Hai::Suhai(_, s) => Some(s),
                Hai::Jihai(_) => None,
            },
        }
    }
}

/// A number tile of another suit than `first`.
pub open spec fn off_suit(t: Hai, first: Option<Suhai>) -> bool {
    match t {
        Hai::Suhai(_, s) => Some(s) != first,
        Hai::Jihai(_) => false,
    }
}

/// Some number tile is of another suit than the first one.
pub open spec fn mixed_suits(ts: Seq<Hai>) -> bool {
    exists|k: int| 0 <= k < ts.len() && #[trigger] off_suit(ts[k], first_suit(ts))
}

/// Some tile is an honor.
pub open spec fn has_honor(ts: Seq<Hai>) -> bool {
    exists|k: int| 0 <= k < ts.len() && #[trigger] honor_tile(ts[k])
}

/// Half flush: number tiles of one suit, at least one of them, and some honors. A hand
/// of honors alone is neither flush.
pub open spec fn honitsu_tiles(ts: Seq<Hai>) -> bool {
    !mixed_suits(ts) && has_honor(ts) && first_suit(ts) is Some
}

/// Full flush: number tiles of one suit only, at least one of them.
pub open spec fn chinitsu_tiles(ts: Seq<Hai>) -> bool {
    !mixed_suits(ts) && !has_honor(ts) && first_suit(ts) is Some
}

proof fn lemma_first_suit_none(ts: Seq<Hai>, k: int)
    requires
        first_suit(ts) is None,
        0 <= k < ts.len(),
    ensures
        honor_tile(ts[k]),
    decreases ts.len(),
{
    if k < ts.len() - 1 {
        assert(ts.drop_last()[k] == ts[k]);
        lemma_first_suit_none(ts.drop_last(), k);
    }
}

proof fn lemma_first_suit_prefix(ts: Seq<Hai>, i: int)
    requires
        0 <= i <= ts.len(),
        first_suit(ts.take(i)) is Some,
    ensures
        first_suit(ts) == first_suit(ts.take(i)),
    decreases ts.len(),
{
    if i < ts.len() {
        assert(ts.drop_last().take(i) =~= ts.take(i));
        lemma_first_suit_prefix(ts.drop_last(), i);
    } else {
        assert(ts.take(i) =~= ts);
    }
}

/// Half flush, full flush and the first suit, in one pass.
pub fn check_color(all_tiles: &Vec<Hai>) -> (r: (bool, bool, Option<Suhai>))
    ensures
        r == (honitsu_tiles(all_tiles@), chinitsu_tiles(all_tiles@), first_suit(all_tiles@)),
{
    let ghost ts = all_tiles@;
    let mut suit: Option<Suhai> = None;
    let mut has_jihai = false;
    let mut is_honitsu = true;
    let mut is_chinitsu = true;
    let n = all_tiles.len();
    let mut k: usize = 0;
    while k < n
        invariant
            n == ts.len(),
            ts == all_tiles@,
            k <= n,
            suit == first_suit(ts.take(k as int)),
            has_jihai == has_honor(ts.take(k as int)),
            !mixed_suits(ts.take(k as int)),
            is_chinitsu == !has_jihai,
            is_honitsu,
        decreases n - k,
    {
        let ghost pre = ts.take(k as int);
        let ghost post = ts.take(k + 1);
        assert(post.drop_last() =~= pre);
        assert(post.last() == ts[k as int]);
        match all_tiles[k] {
            Hai::Suhai(_, s) => {
                match suit {
                    None => {
                        suit = Some(s);
                    },
                    Some(s0) => {
                        if s0 != s {
                            proof {
                                lemma_first_suit_prefix(ts, k as int);
                                assert(off_suit(ts[k as int], first_suit(ts)));
                            }
                            return (false, false, suit);
                        }
                    },
                }
            },
            Hai::Jihai(_) => {
                has_jihai = true;
                is_chinitsu = false;
            },
        }
        proof {
            assert forall|j: int| 0 <= j < post.len() implies !#[trigger] off_suit(post[j], first_suit(post)) by {
                if j < pre.len() {
                    assert(post[j] == pre[j]);
                    if first_suit(pre) is None {
                        lemma_first_suit_none(pre, j);
                    }
                }
            }
            if honor_tile(ts[k as int]) {
                assert(honor_tile(post[k as int]));
            }
            if has_honor(post) && !has_honor(pre) {
                let j = choose|j: int| 0 <= j < post.len() && #[trigger] honor_tile(post[j]);
                if j < pre.len() {
                    assert(post[j] == pre[j]);
                }
            }
            if has_honor(pre) {
                let j = choose|j: int| 0 <= j < pre.len() && #[trigger] honor_tile(pre[j]);
                assert(post[j] == pre[j]);
            }
        }
        k += 1;
    }
    assert(ts.take(n as int) =~= ts);
    // Honors alone (or no tile at all): neither flush.
    if suit.is_none() {
        is_honitsu = false;
        is_chinitsu = false;
    }
    if !has_jihai {
        is_honitsu = false;
    }
    (is_honitsu, is_chinitsu, suit)
}

/// Half flush, with the first suit.
pub fn check_honitsu(all_tiles: &Vec<Hai>) -> (r: (bool, Option<Suhai>))
    ensures
        r == (honitsu_tiles(all_tiles@), first_suit(all_tiles@)),
{
    let (hon, _chin, suit) = check_color(all_tiles);
    (hon, suit)
}

/// Full flush, with the first suit.
pub fn check_chinitsu(all_tiles: &Vec<Hai>) -> (r: (bool, Option<Suhai>))
    ensures
        r == (chinitsu_tiles(all_tiles@), first_suit(all_tiles@)),
{
    let (_hon, chin, suit) = check_color(all_tiles);
    (chin, suit)
}

/// Some tile of the group is a terminal.
pub open spec fn has_terminal(g: Seq<Hai>) -> bool {
    exists|k: int| 0 <= k < g.len() && #[trigger] terminal_tile(g[k])
}

/// Every group holds a terminal or an honor.
pub open spec fn chanta_groups(gs: Seq<Seq<Hai>>) -> bool {
    forall|k: int| 0 <= k < gs.len() ==> has_terminal(#[trigger] gs[k]) || has_honor(gs[k])
}

/// Every group holds a terminal and none holds an honor.
pub open spec fn junchan_groups(gs: Seq<Seq<Hai>>) -> bool {
    chanta_groups(gs) && forall|k: int| 0 <= k < gs.len() ==> !has_honor(#[trigger] gs[k])
}

/// Outside hand (every group holds a terminal or honor) and pure outside hand (every
/// group holds a terminal, no honors).
pub fn check_chanta_junchan(groups: &Vec<Vec<Hai>>) -> (r: (bool, bool))
    ensures
        r == (
            chanta_groups(groups@.map_values(|g: Vec<Hai>| g@)),
            junchan_groups(groups@.map_values(|g: Vec<Hai>| g@)),
        ),
{
    let ghost gs = groups@.map_values(|g: Vec<Hai>| g@);
    let mut is_chanta = true;
    let mut is_junchan = true;
    let n = groups.len();
    let mut i: usize = 0;
    while i < n
        invariant
            n == groups@.len(),
            gs == groups@.map_values(|g: Vec<Hai>| g@),
            i <= n,
            is_chanta,
            forall|k: int| 0 <= k < i ==> has_terminal(#[trigger] gs[k]) || has_honor(gs[k]),
            is_junchan == forall|k: int| 0 <= k < i ==> !has_honor(#[trigger] gs[k]),
        decreases n - i,
    {
        let group = &groups[i];
        let ghost g = group@;
        assert(gs[i as int] == g);
        let mut has_term = false;
        let mut has_jihai = false;
        let m = group.len();
        let mut j: usize = 0;
        while j < m
            invariant
                m == g.len(),
                g == group@,
                j <= m,
                has_term == exists|t: int| 0 <= t < j && #[trigger] terminal_tile(g[t]),
                has_jihai == exists|t: int| 0 <= t < j && #[trigger] honor_tile(g[t]),
            decreases m - j,
        {
            if is_jihai(&group[j]) {
                has_jihai = true;
            }
            if is_terminal(&group[j]) {
                has_term = true;
            }
            j += 1;
        }
        if !has_term && !has_jihai {
            return (false, false);
        }
        if has_jihai {
            is_junchan = false;
        }
        i += 1;
    }
    (is_chanta, is_junchan && is_chanta)
}

// ---------------------------------------------------------------------------
// Dora
// ---------------------------------------------------------------------------

/// How many of the tiles equal `d`.
pub open spec fn occurrences(ts: Seq<Hai>, d: Hai) -> nat
    decreases ts.len(),
{
    if ts.len() == 0 {
        0
    } else {
        occurrences(ts.drop_last(), d) + if ts.last() == d {
            1nat
        } else {
            0nat
        }
    }
}

/// The dora that the indicators point at among the tiles: each indicator counts every
/// tile equal to the dora it names.
pub open spec fn dora_count(ts: Seq<Hai>, indicators: Seq<Hai>) -> nat
    decreases indicators.len(),
{
    if indicators.len() == 0 {
        0
    } else {
        dora_count(ts, indicators.drop_last()) + occurrences(ts, dora_of(indicators.last()))
    }
}

/// A prefix holds a tile no more often than the whole sequence.
pub proof fn lemma_occurrences_prefix(ts: Seq<Hai>, d: Hai, k: int)
    requires
        0 <= k <= ts.len(),
    ensures
        occurrences(ts.take(k), d) <= occurrences(ts, d),
    decreases ts.len(),
{
    if k < ts.len() {
        assert(ts.drop_last().take(k) =~= ts.take(k));
        lemma_occurrences_prefix(ts.drop_last(), d, k);
    } else {
        assert(ts.take(k) =~= ts);
    }
}

proof fn lemma_dora_count_prefix(ts: Seq<Hai>, inds: Seq<Hai>, k: int)
    requires
        0 <= k <= inds.len(),
    ensures
        dora_count(ts, inds.take(k)) <= dora_count(ts, inds),
    decreases inds.len(),
{
    if k < inds.len() {
        assert(inds.drop_last().take(k) =~= inds.take(k));
        lemma_dora_count_prefix(ts, inds.drop_last(), k);
    } else {
        assert(inds.take(k) =~= inds);
    }
}

/// The number of dora among the tiles. The count must fit a `u8`.
pub fn count_dora(all_tiles: &Vec<Hai>, indicators: &Vec<Hai>) -> (count: u8)
    requires
        dora_count(all_tiles@, indicators@) <= 255,
        forall|k: int| 0 <= k < indicators@.len() ==> #[trigger] hai_wf(indicators@[k]),
    ensures
        count == dora_count(all_tiles@, indicators@),
{
    let mut count: u8 = 0;
    let ni = indicators.len();
    let nt = all_tiles.len();
    let mut i: usize = 0;
    while i < ni
        invariant
            ni == indicators@.len(),
            nt == all_tiles@.len(),
            i <= ni,
            count == dora_count(all_tiles@, indicators@.take(i as int)),
            dora_count(all_tiles@, indicators@) <= 255,
            forall|k: int| 0 <= k < indicators@.len() ==> #[trigger] hai_wf(indicators@[k]),
        decreases ni - i,
    {
        let ghost before = count as nat;
        assert(indicators@.take(i + 1).drop_last() =~= indicators@.take(i as int));
        assert(hai_wf(indicators@[i as int]));
        let dora_tile = get_dora_tile(&indicators[i]);
        proof {
            lemma_dora_count_prefix(all_tiles@, indicators@, i + 1);
        }
        let mut t: usize = 0;
        while t < nt
            invariant
                nt == all_tiles@.len(),
                t <= nt,
                count == before + occurrences(all_tiles@.take(t as int), dora_tile),
                before + occurrences(all_tiles@, dora_tile) <= 255,
            decreases nt - t,
        {
            assert(all_tiles@.take(t + 1).drop_last() =~= all_tiles@.take(t as int));
            proof {
                lemma_occurrences_prefix(all_tiles@, dora_tile, t + 1);
            }
            if all_tiles[t] == dora_tile {
                count += 1;
            }
            t += 1;
        }
        assert(all_tiles@.take(nt as int) =~= all_tiles@);
        i += 1;
    }
    assert(indicators@.take(ni as int) =~= indicators@);
    count
}

} // verus!
