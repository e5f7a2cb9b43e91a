use vstd::prelude::*;
use crate::game::{AgariType, GameContext, PlayerContext};
use crate::hand::{
    agari_hand_tiles_wf, AgariHand, HandOrganization, HandStructure, Machi, Mentsu, MentsuType,
};
use crate::hand_tiles::{
    agari_tiles, melds_tiles, check_chinitsu, chinitsu_tiles, concealed_triplet_count, count_concealed_koutsu,
    count_koutsu_kantsu, first_suit, get_all_tiles, is_koutsu_or_kantsu, kind_count, occurrences,
    triplet_like,
};
use crate::tiles::{
    green_tile, hai_from_index, hai_wf, honor_tile, index_from_hai, is_green_tile, is_jihai,
    is_terminal, is_yaochuu, terminal_tile, tile_at, tile_index, yaochuu_tile, Hai, Jihai, Suhai,
};
use crate::yaku::{has_yaku, push_if, Yaku};

verus! {

// ---------------------------------------------------------------------------
// Tile-based predicates
// ---------------------------------------------------------------------------

/// Every tile is an honor.
pub open spec fn all_honors(ts: Seq<Hai>) -> bool {
    forall|k: int| 0 <= k < ts.len() ==> #[trigger] honor_tile(ts[k])
}

/// Every tile is a terminal.
pub open spec fn all_terminals(ts: Seq<Hai>) -> bool {
    forall|k: int| 0 <= k < ts.len() ==> #[trigger] terminal_tile(ts[k])
}

/// Every tile is green.
pub open spec fn all_green(ts: Seq<Hai>) -> bool {
    forall|k: int| 0 <= k < ts.len() ==> #[trigger] green_tile(ts[k])
}

/// A dragon triplet or quad.
pub open spec fn dragon_triplet(m: Mentsu) -> bool {
    triplet_like(m) && m.tiles[0] matches Hai::Jihai(Jihai::Sangen(_))
}

/// A wind triplet or quad.
pub open spec fn wind_triplet(m: Mentsu) -> bool {
    triplet_like(m) && m.tiles[0] matches Hai::Jihai(Jihai::Kaze(_))
}

/// How many melds are dragon triplets or quads.
pub open spec fn dragon_triplet_count(ms: Seq<Mentsu>) -> nat
    decreases ms.len(),
{
    if ms.len() == 0 {
        0
    } else {
        dragon_triplet_count(ms.drop_last()) + if dragon_triplet(ms.last()) {
            1nat
        } else {
            0nat
        }
    }
}

/// How many melds are wind triplets or quads.
pub open spec fn wind_triplet_count(ms: Seq<Mentsu>) -> nat
    decreases ms.len(),
{
    if ms.len() == 0 {
        0
    } else {
        wind_triplet_count(ms.drop_last()) + if wind_triplet(ms.last()) {
            1nat
        } else {
            0nat
        }
    }
}

// ---------------------------------------------------------------------------
// Nine gates
// ---------------------------------------------------------------------------

/// How many tiles of each rank 1..9 of the suit the list holds.
pub open spec fn suit_counts(ts: Seq<Hai>, suit: Suhai) -> Seq<int> {
    Seq::new(9, |k: int| occurrences(ts, Hai::Suhai((k + 1) as u8, suit)) as int)
}

/// The count of rank `k + 1` fits the nine-gates shape 1112345678999 plus one: at least
/// three 1s and 9s, one or two of each other rank.
pub open spec fn chuuren_slot_ok(c: Seq<int>, k: int) -> bool {
    if k == 0 || k == 8 {
        c[k] >= 3
    } else {
        1 <= c[k] <= 2
    }
}

/// Rank `k + 1` holds the extra tile: a fourth 1 or 9, a second of another rank.
pub open spec fn chuuren_extra_at(c: Seq<int>, k: int) -> bool {
    if k == 0 || k == 8 {
        c[k] == 4
    } else {
        c[k] == 2
    }
}

/// How many ranks below `n + 1` hold an extra tile.
pub open spec fn chuuren_extras(c: Seq<int>, n: int) -> nat
    decreases n,
{
    if n <= 0 {
        0
    } else {
        chuuren_extras(c, n - 1) + if chuuren_extra_at(c, n - 1) {
            1nat
        } else {
            0nat
        }
    }
}

/// The last rank below `n + 1` that holds an extra tile, as an index, or -1.
pub open spec fn chuuren_extra_index(c: Seq<int>, n: int) -> int
    decreases n,
{
    if n <= 0 {
        -1
    } else if chuuren_extra_at(c, n - 1) {
        n - 1
    } else {
        chuuren_extra_index(c, n - 1)
    }
}

/// The index of the rank holding the extra tile, when the counts have the nine-gates
/// shape with exactly one extra tile.
pub open spec fn chuuren_form(c: Seq<int>) -> Option<int> {
    if (forall|k: int| 0 <= k < 9 ==> #[trigger] chuuren_slot_ok(c, k)) && chuuren_extras(c, 9)
        == 1 {
        Some(chuuren_extra_index(c, 9))
    } else {
        None
    }
}

/// Nine gates: a concealed full flush in the shape 1112345678999 plus one tile; `Some`
/// with whether the winning tile is the extra one (the pure nine-sided form).
pub open spec fn chuuren(h: AgariHand) -> Option<bool> {
    let ts = agari_tiles(h);
    if !chinitsu_tiles(ts) {
        None
    } else if exists|k: int| 0 <= k < 4 && (#[trigger] h.mentsu@[k]).is_minchou {
        None
    } else {
        let suit = first_suit(ts).unwrap();
        match chuuren_form(suit_counts(ts, suit)) {
            None => None,
            Some(e) => Some(h.agari_hai == Hai::Suhai((e + 1) as u8, suit)),
        }
    }
}

proof fn lemma_occurrences_le(ts: Seq<Hai>, d: Hai)
    ensures
        occurrences(ts, d) <= ts.len(),
    decreases ts.len(),
{
    if ts.len() > 0 {
        lemma_occurrences_le(ts.drop_last(), d);
    }
}

/// Checks for nine gates; `Some(true)` for the pure nine-sided form.
pub fn check_chuuren(hand: &AgariHand) -> (r: Option<bool>)
    requires
        agari_hand_tiles_wf(*hand),
    ensures
        r == chuuren(*hand),
{
    let all_tiles = get_all_tiles(hand);
    let ghost ts = all_tiles@;
    // One suit only
    let (is_chinitsu, suit) = check_chinitsu(&all_tiles);
    if !is_chinitsu {
        return None;
    }
    let suit = suit.unwrap();
    // Concealed
    let mut m: usize = 0;
    while m < 4
        invariant
            m <= 4,
            forall|j: int| 0 <= j < m ==> !(#[trigger] hand.mentsu@[j]).is_minchou,
        decreases 4 - m,
    {
        if hand.mentsu[m].is_minchou {
            return None;
        }
        m += 1;
    }
    // Counts of 1 to 9
    proof {
        crate::hand_tiles::lemma_agari_tiles_len(*hand);
        lemma_agari_tiles_wf(*hand);
    }
    let mut counts = [0u8; 9];
    let nt = all_tiles.len();
    let mut t: usize = 0;
    while t < nt
        invariant
            nt == ts.len(),
            ts == all_tiles@,
            nt <= 18,
            t <= nt,
            forall|k: int| 0 <= k < ts.len() ==> #[trigger] hai_wf(ts[k]),
            forall|k: int| 0 <= k < 9 ==> #[trigger] counts@[k] == occurrences(ts.take(t as int), Hai::Suhai((k + 1) as u8, suit)),
        decreases nt - t,
    {
        assert(ts.take(t + 1).drop_last() =~= ts.take(t as int));
        proof {
            assert forall|k: int| 0 <= k < 9 implies #[trigger] counts@[k] <= t by {
                lemma_occurrences_le(ts.take(t as int), Hai::Suhai((k + 1) as u8, suit));
            }
            assert(hai_wf(ts[t as int]));
        }
        if let Hai::Suhai(n, s) = all_tiles[t] {
            if s == suit {
                counts[(n - 1) as usize] += 1;
            }
        }
        t += 1;
        assert forall|k: int| 0 <= k < 9 implies #[trigger] counts@[k] == occurrences(ts.take(t as int), Hai::Suhai((k + 1) as u8, suit)) by {}
    }
    assert(ts.take(nt as int) =~= ts);
    let ghost c = suit_counts(ts, suit);
    assert forall|k: int| 0 <= k < 9 implies #[trigger] c[k] == counts@[k] by {}
    assert(!exists|k: int| 0 <= k < 4 && (#[trigger] hand.mentsu@[k]).is_minchou);
    if counts[0] < 3 {
        assert(!chuuren_slot_ok(c, 0));
        return None;
    }
    if counts[8] < 3 {
        assert(!chuuren_slot_ok(c, 8));
        return None;
    }
    let mut has_extra = false;
    let mut extra_tile_num: usize = 0;
    let mut i: usize = 0;
    while i < 9
        invariant
            i <= 9,
            ts == agari_tiles(*hand),
            chinitsu_tiles(ts),
            first_suit(ts) == Some(suit),
            c == suit_counts(ts, suit),
            !exists|k: int| 0 <= k < 4 && (#[trigger] hand.mentsu@[k]).is_minchou,
            forall|k: int| 0 <= k < 9 ==> #[trigger] c[k] == counts@[k],
            forall|k: int| 0 <= k < i ==> #[trigger] chuuren_slot_ok(c, k),
            chuuren_extras(c, i as int) <= 1,
            has_extra == (chuuren_extras(c, i as int) == 1),
            has_extra ==> extra_tile_num == chuuren_extra_index(c, i as int) + 1,
        decreases 9 - i,
    {
        let count = counts[i];
        let num = i + 1;
        if num == 1 || num == 9 {
            if count < 3 {
                assert(!chuuren_slot_ok(c, i as int));
                return None;
            }
            if count == 4 {
                if has_extra {
                    proof {
                        assert(chuuren_extra_at(c, i as int));
                        assert(chuuren_extras(c, i as int + 1) == 2);
                        lemma_chuuren_extras_mono(c, i as int + 1, 9);
                    }
                    return None;
                }
                has_extra = true;
                extra_tile_num = num;
            }
        } else {
            if count < 1 {
                assert(!chuuren_slot_ok(c, i as int));
                return None;
            }
            if count == 2 {
                if has_extra {
                    proof {
                        assert(chuuren_extra_at(c, i as int));
                        assert(chuuren_extras(c, i as int + 1) == 2);
                        lemma_chuuren_extras_mono(c, i as int + 1, 9);
                    }
                    return None;
                }
                has_extra = true;
                extra_tile_num = num;
            }
            if count > 2 {
                assert(!chuuren_slot_ok(c, i as int));
                return None;
            }
        }
        i += 1;
    }
    if !has_extra {
        return None;
    }
    proof {
        lemma_chuuren_extra_index(c, 9);
        assert(forall|k: int| 0 <= k < 9 ==> #[trigger] chuuren_slot_ok(c, k));
    }
    // Pure nine gates: the winning tile is the extra one.

    if let Hai::Suhai(n, s) = hand.agari_hai {
        if s == suit && n as usize == extra_tile_num {
            return Some(true);
        }
    }
    Some(false)
}

proof fn lemma_chuuren_extra_index(c: Seq<int>, n: int)
    requires
        chuuren_extras(c, n) > 0,
    ensures
        0 <= chuuren_extra_index(c, n) < n,
    decreases n,
{
    if n > 0 && !chuuren_extra_at(c, n - 1) {
        lemma_chuuren_extra_index(c, n - 1);
    }
}

proof fn lemma_chuuren_extras_mono(c: Seq<int>, a: int, b: int)
    requires
        0 <= a <= b,
    ensures
        chuuren_extras(c, a) <= chuuren_extras(c, b),
    decreases b - a,
{
    if a < b {
        lemma_chuuren_extras_mono(c, a, b - 1);
    }
}

proof fn lemma_melds_tiles_wf(ms: Seq<Mentsu>)
    requires
        forall|k: int| 0 <= k < ms.len() ==> #[trigger] crate::hand::mentsu_tiles_wf(ms[k]),
    ensures
        forall|k: int| 0 <= k < melds_tiles(ms).len() ==> #[trigger] hai_wf(melds_tiles(ms)[k]),
    decreases ms.len(),
{
    if ms.len() > 0 {
        let md = ms.drop_last();
        assert forall|k: int| 0 <= k < md.len() implies #[trigger] crate::hand::mentsu_tiles_wf(md[k]) by {
            assert(md[k] == ms[k]);
        }
        lemma_melds_tiles_wf(md);
        let prev = melds_tiles(md);
        let m = ms.last();
        assert(crate::hand::mentsu_tiles_wf(ms[ms.len() - 1]));
        let cur = melds_tiles(ms);
        assert forall|k: int| 0 <= k < cur.len() implies #[trigger] hai_wf(cur[k]) by {
            if k >= prev.len() {
                assert(cur[k] == m.tiles@[k - prev.len()]);
            } else {
                assert(cur[k] == prev[k]);
            }
        }
    }
}

proof fn lemma_agari_tiles_wf(h: AgariHand)
    requires
        agari_hand_tiles_wf(h),
    ensures
        forall|k: int| 0 <= k < agari_tiles(h).len() ==> #[trigger] hai_wf(agari_tiles(h)[k]),
{
    let ms = h.mentsu@;
    assert forall|k: int| 0 <= k < ms.len() implies #[trigger] crate::hand::mentsu_tiles_wf(ms[k]) by {}
    lemma_melds_tiles_wf(ms);
    let ts = agari_tiles(h);
    let mt = melds_tiles(ms);
    assert forall|k: int| 0 <= k < ts.len() implies #[trigger] hai_wf(ts[k]) by {
        if k >= 2 {
            assert(ts[k] == mt[k - 2]);
        }
    }
}


// ---------------------------------------------------------------------------
// Yakuman of a four-melds-one-pair hand
// ---------------------------------------------------------------------------

/// The yakuman of a four-melds-one-pair hand, in the order they are checked: all honors,
/// all terminals, all green, four quads, four concealed triplets (single wait or not),
/// big three dragons, big or little four winds, nine gates (pure or not).
pub open spec fn standard_yakuman(h: AgariHand, agari_type: AgariType) -> Seq<Yaku> {
    let ts = agari_tiles(h);
    let ms = h.mentsu@;
    let suuankou = concealed_triplet_count(ms, h.agari_hai, agari_type) == 4;
    let winds = wind_triplet_count(ms);
    let s0 = push_if(Seq::empty(), all_honors(ts), Yaku::Tsuuiisou);
    let s1 = push_if(s0, all_terminals(ts), Yaku::Chinroutou);
    let s2 = push_if(s1, all_green(ts), Yaku::Ryuuiisou);
    let s3 = push_if(s2, kind_count(ms, MentsuType::Kantsu) == 4, Yaku::Suukantsu);
    let s4 = push_if(s3, suuankou && h.machi == Machi::Tanki, Yaku::SuuankouTanki);
    let s5 = push_if(s4, suuankou && h.machi != Machi::Tanki, Yaku::Suuankou);
    let s6 = push_if(s5, dragon_triplet_count(ms) == 3, Yaku::Daisangen);
    let s7 = push_if(s6, winds == 4, Yaku::Daisuushi);
    let s8 = push_if(
        s7,
        winds != 4 && winds == 3 && h.atama.0 matches Hai::Jihai(Jihai::Kaze(_)),
        Yaku::Shousuushi,
    );
    let s9 = push_if(s8, chuuren(h) == Some(true), Yaku::JunseiChuurenPoutou);
    push_if(s9, chuuren(h) == Some(false), Yaku::ChuurenPoutou)
}

/// Checks a four-melds-one-pair hand for every yakuman; returns them with the nine-gates
/// flag (`Some(pure)` when the hand is nine gates).
pub fn check_standard_yakuman(
    hand: &AgariHand,
    player: &PlayerContext,
    game: &GameContext,
    agari_type: AgariType,
) -> (r: (Vec<Yaku>, Option<bool>))
    requires
        agari_hand_tiles_wf(*hand),
    ensures
        r.0@ == standard_yakuman(*hand, agari_type),
        r.1 == chuuren(*hand),
{
    let mut yakuman: Vec<Yaku> = Vec::new();
    let all_tiles = get_all_tiles(hand);
    let ghost ts = all_tiles@;
    // Tile-based yakuman
    let mut is_tsuuiisou = true;
    let mut is_chinroutou = true;
    let mut is_ryuuiisou = true;
    let n = all_tiles.len();
    let mut k: usize = 0;
    while k < n
        invariant
            n == ts.len(),
            ts == all_tiles@,
            k <= n,
            is_tsuuiisou == forall|j: int| 0 <= j < k ==> #[trigger] honor_tile(ts[j]),
            is_chinroutou == forall|j: int| 0 <= j < k ==> #[trigger] terminal_tile(ts[j]),
            is_ryuuiisou == forall|j: int| 0 <= j < k ==> #[trigger] green_tile(ts[j]),
        decreases n - k,
    {
        let tile = &all_tiles[k];
        if !is_jihai(tile) {
            is_tsuuiisou = false;
        }
        if !is_terminal(tile) {
            is_chinroutou = false;
        }
        if !is_green_tile(tile) {
            is_ryuuiisou = false;
        }
        k += 1;
    }
    if is_tsuuiisou {
        yakuman.push(Yaku::Tsuuiisou);
    }
    if is_chinroutou {
        yakuman.push(Yaku::Chinroutou);
    }
    if is_ryuuiisou {
        yakuman.push(Yaku::Ryuuiisou);
    }
    // Meld-based yakuman

    let (_koutsu, kantsu) = count_koutsu_kantsu(hand);
    let concealed_koutsu = count_concealed_koutsu(hand, agari_type);
    if kantsu == 4 {
        yakuman.push(Yaku::Suukantsu);
    }
    if concealed_koutsu == 4 {
        if hand.machi == Machi::Tanki {
            yakuman.push(Yaku::SuuankouTanki);
        } else {
            yakuman.push(Yaku::Suuankou);
        }
    }
    // Big three dragons

    let mut dragon_koutsu: u8 = 0;
    let mut wind_koutsu: u8 = 0;
    let mut m: usize = 0;
    while m < 4
        invariant
            m <= 4,
            dragon_koutsu == dragon_triplet_count(hand.mentsu@.take(m as int)),
            wind_koutsu == wind_triplet_count(hand.mentsu@.take(m as int)),
            dragon_koutsu <= m,
            wind_koutsu <= m,
        decreases 4 - m,
    {
        assert(hand.mentsu@.take(m + 1).drop_last() =~= hand.mentsu@.take(m as int));
        let mentsu = &hand.mentsu[m];
        if is_koutsu_or_kantsu(mentsu) {
            if let Hai::Jihai(Jihai::Sangen(_)) = mentsu.tiles[0] {
                dragon_koutsu += 1;
            }
            if let Hai::Jihai(Jihai::Kaze(_)) = mentsu.tiles[0] {
                wind_koutsu += 1;
            }
        }
        m += 1;
    }
    assert(hand.mentsu@.take(4) =~= hand.mentsu@);
    if dragon_koutsu == 3 {
        yakuman.push(Yaku::Daisangen);
    }
    // Big and little four winds

    let mut wind_atama = false;
    if let Hai::Jihai(Jihai::Kaze(_)) = hand.atama.0 {
        wind_atama = true;
    }
    if wind_koutsu == 4 {
        yakuman.push(Yaku::Daisuushi);
    } else if wind_koutsu == 3 && wind_atama {
        yakuman.push(Yaku::Shousuushi);
    }
    // Nine gates

    let chuuren_flag = check_chuuren(hand);
    if let Some(is_junsei) = chuuren_flag {
        if is_junsei {
            yakuman.push(Yaku::JunseiChuurenPoutou);
        } else {
            yakuman.push(Yaku::ChuurenPoutou);
        }
    }
    (yakuman, chuuren_flag)
}

// ---------------------------------------------------------------------------
// Irregular hands
// ---------------------------------------------------------------------------

/// A slot of a terminal or honor tile: the 1 and 9 of each suit, the winds and dragons.
pub open spec fn yaochuu_slot(j: int) -> bool {
    j == 0 || j == 8 || j == 9 || j == 17 || j == 18 || j == 26 || 27 <= j < 34
}

/// The table of a thirteen-orphans hand whose pair is on slot `p`: each terminal and
/// honor once, the one of slot `p` twice, nothing else.
pub open spec fn kokushi_table(c: Seq<u8>, p: int) -> bool {
    &&& 0 <= p < 34
    &&& yaochuu_slot(p)
    &&& forall|j: int|
        0 <= j < 34 ==> #[trigger] c[j] == (if j == p {
            2u8
        } else if yaochuu_slot(j) {
            1u8
        } else {
            0u8
        })
}

/// Thirteen orphans: the table is one of each terminal and honor with one of them
/// doubled, and the winning tile is in the hand.
pub open spec fn is_kokushi(c: Seq<u8>, agari: Hai) -> bool {
    (exists|p: int| #[trigger] kokushi_table(c, p)) && c[tile_index(agari)] > 0
}

/// The slot of the pair of a thirteen-orphans table.
pub open spec fn kokushi_pair_slot(c: Seq<u8>) -> int {
    choose|p: int| #[trigger] kokushi_table(c, p)
}

/// The thirteen terminal and honor tiles in slot order.
pub open spec fn kokushi_tiles() -> Seq<Hai> {
    seq![
        tile_at(0),
        tile_at(8),
        tile_at(9),
        tile_at(17),
        tile_at(18),
        tile_at(26),
        tile_at(27),
        tile_at(28),
        tile_at(29),
        tile_at(30),
        tile_at(31),
        tile_at(32),
        tile_at(33),
    ]
}

/// The thirteen-sided wait: the winning tile is the doubled one.
pub open spec fn kokushi_jusanmen(c: Seq<u8>, agari: Hai) -> bool {
    agari == tile_at(kokushi_pair_slot(c))
}

/// The yakuman of a thirteen-orphans hand: the double form on the thirteen-sided wait.
pub open spec fn kokushi_yaku(c: Seq<u8>, agari: Hai) -> Yaku {
    if kokushi_jusanmen(c, agari) {
        Yaku::KokushiMusouJusanmen
    } else {
        Yaku::KokushiMusou
    }
}

/// The structure of a thirteen-orphans hand: the thirteen tiles in slot order, the
/// doubled tile as the pair, and the thirteen-sided or the single wait.
pub open spec fn kokushi_structure(c: Seq<u8>, agari: Hai, hs: HandStructure) -> bool {
    let t = tile_at(kokushi_pair_slot(c));
    match hs {
        HandStructure::KokushiMusou { tiles, atama, agari_hai, machi } => {
            &&& tiles@ == kokushi_tiles()
            &&& atama == (t, t)
            &&& agari_hai == agari
            &&& machi == if kokushi_jusanmen(c, agari) {
                Machi::KokushiJusanmen
            } else {
                Machi::KokushiIchimen
            }
        },
        _ => false,
    }
}

proof fn lemma_kokushi_table_unique(c: Seq<u8>, p: int, q: int)
    requires
        kokushi_table(c, p),
        kokushi_table(c, q),
    ensures
        p == q,
{
    assert(c[q] == 2u8);
}

proof fn lemma_yaochuu_slot(i: int)
    requires
        0 <= i < 34,
    ensures
        yaochuu_tile(tile_at(i)) <==> yaochuu_slot(i),
{
}

/// Checks for thirteen orphans: one of each terminal and honor with one of them doubled,
/// nothing else, and the winning tile among them. The result is the structure, with the
/// thirteen-sided wait and the double yakuman when the winning tile is the doubled one.
pub fn check_kokushi(counts: &[u8; 34], agari_hai: Hai) -> (r: Option<(HandStructure, Yaku)>)
    requires
        hai_wf(agari_hai),
    ensures
        r is Some <==> is_kokushi(counts@, agari_hai),
        r matches Some((hs, y)) ==> kokushi_structure(counts@, agari_hai, hs) && y == kokushi_yaku(
            counts@,
            agari_hai,
        ),
{
    let ghost c = counts@;
    let mut has_pair = false;
    let mut pair_idx: usize = 0;
    let mut idx: usize = 0;
    while idx < 34
        invariant
            c == counts@,
            idx <= 34,
            has_pair ==> pair_idx < idx && yaochuu_slot(pair_idx as int),
            forall|j: int|
                0 <= j < idx ==> #[trigger] c[j] == (if has_pair && j == pair_idx {
                    2u8
                } else if yaochuu_slot(j) {
                    1u8
                } else {
                    0u8
                }),
        decreases 34 - idx,
    {
        let count = counts[idx];
        let tile = hai_from_index(idx);
        proof {
            lemma_yaochuu_slot(idx as int);
        }
        if !is_yaochuu(&tile) {
            if count > 0 {
                assert forall|p: int| !kokushi_table(c, p) by {
                    if kokushi_table(c, p) {
                        assert(c[idx as int] == 0u8);
                    }
                }
                return None;
            }
        } else if count == 1 {
        } else if count == 2 {
            if has_pair {
                assert forall|p: int| !kokushi_table(c, p) by {
                    if kokushi_table(c, p) {
                        assert(c[pair_idx as int] == 2u8);
                        assert(c[idx as int] == 2u8);
                    }
                }
                return None;
            }
            has_pair = true;
            pair_idx = idx;
        } else {
            assert forall|p: int| !kokushi_table(c, p) by {
                if kokushi_table(c, p) {
                    assert(c[idx as int] == count);
                }
            }
            return None;
        }
        idx += 1;
    }
    if !has_pair {
        assert forall|p: int| !kokushi_table(c, p) by {
            if kokushi_table(c, p) {
                assert(c[p] == 2u8);
            }
        }
        return None;
    }
    assert(kokushi_table(c, pair_idx as int));
    proof {
        crate::tiles::lemma_tile_index_bijection(agari_hai, 0);
    }
    let a = index_from_hai(agari_hai);
    if counts[a] == 0 {
        return None;
    }
    proof {
        let q = kokushi_pair_slot(c);
        lemma_kokushi_table_unique(c, pair_idx as int, q);
    }
    let atama_t = hai_from_index(pair_idx);
    let jusanmen = atama_t == agari_hai;
    let machi = if jusanmen {
        Machi::KokushiJusanmen
    } else {
        Machi::KokushiIchimen
    };
    let yaku = if jusanmen {
        Yaku::KokushiMusouJusanmen
    } else {
        Yaku::KokushiMusou
    };
    let tiles = [
        hai_from_index(0),
        hai_from_index(8),
        hai_from_index(9),
        hai_from_index(17),
        hai_from_index(18),
        hai_from_index(26),
        hai_from_index(27),
        hai_from_index(28),
        hai_from_index(29),
        hai_from_index(30),
        hai_from_index(31),
        hai_from_index(32),
        hai_from_index(33),
    ];
    assert(tiles@ =~= kokushi_tiles());
    Some((HandStructure::KokushiMusou { tiles, atama: (atama_t, atama_t), agari_hai, machi }, yaku))
}

/// The pairs of the slots below `n`: one pair for a count of 2, two for a count of 4.
pub open spec fn chiitoi_pairs(c: Seq<u8>, n: int) -> Seq<(Hai, Hai)>
    decreases n,
{
    if n <= 0 {
        Seq::empty()
    } else {
        let t = tile_at(n - 1);
        chiitoi_pairs(c, n - 1) + if c[n - 1] == 2 {
            seq![(t, t)]
        } else if c[n - 1] == 4 {
            seq![(t, t), (t, t)]
        } else {
            Seq::empty()
        }
    }
}

/// Seven pairs: every slot holds 0, 2 or 4 tiles and they make seven pairs (four of a
/// kind counting as two). `Some` with the pairs in slot order.
pub open spec fn chiitoitsu_pairs(c: Seq<u8>) -> Option<Seq<(Hai, Hai)>> {
    if (forall|j: int| 0 <= j < 34 ==> #[trigger] c[j] == 0 || c[j] == 2 || c[j] == 4)
        && chiitoi_pairs(c, 34).len() == 7 {
        Some(chiitoi_pairs(c, 34))
    } else {
        None
    }
}

proof fn lemma_chiitoi_pairs_len(c: Seq<u8>, n: int)
    requires
        0 <= n,
    ensures
        chiitoi_pairs(c, n).len() <= 2 * n,
    decreases n,
{
    if n > 0 {
        lemma_chiitoi_pairs_len(c, n - 1);
    }
}

/// Checks for seven pairs.
pub fn check_chiitoitsu(counts: &[u8; 34], agari_hai: Hai) -> (r: Option<HandStructure>)
    ensures
        match r {
            Some(HandStructure::Chiitoitsu { pairs, agari_hai: a, machi }) => {
                &&& chiitoitsu_pairs(counts@) == Some(pairs@)
                &&& a == agari_hai
                &&& machi == Machi::Tanki
            },
            Some(_) => false,
            None => chiitoitsu_pairs(counts@) is None,
        },
{
    let mut pair_count: u8 = 0;
    let mut pairs: Vec<(Hai, Hai)> = Vec::new();
    let mut idx: usize = 0;
    while idx < 34
        invariant
            idx <= 34,
            pairs@ == chiitoi_pairs(counts@, idx as int),
            pair_count == pairs@.len(),
            pair_count <= 2 * idx,
            forall|j: int| 0 <= j < idx ==> #[trigger] counts@[j] == 0 || counts@[j] == 2 || counts@[j] == 4,
        decreases 34 - idx,
    {
        let count = counts[idx];
        if count > 0 {
            if count == 2 {
                pair_count += 1;
                let tile = hai_from_index(idx);
                pairs.push((tile, tile));
            } else if count == 4 {
                pair_count += 2;
                let tile = hai_from_index(idx);
                pairs.push((tile, tile));
                pairs.push((tile, tile));
            } else {
                assert(!(counts@[idx as int] == 0 || counts@[idx as int] == 2 || counts@[idx as int] == 4));
                return None;
            }
        }
        idx += 1;
        assert(pairs@ =~= chiitoi_pairs(counts@, idx as int));
    }
    if pair_count == 7 {
        let arr = [pairs[0], pairs[1], pairs[2], pairs[3], pairs[4], pairs[5], pairs[6]];
        assert(arr@ =~= pairs@);
        Some(HandStructure::Chiitoitsu { pairs: arr, agari_hai, machi: Machi::Tanki })
    } else {
        None
    }
}

/// Seven pairs of honors only is the all-honors yakuman.
pub open spec fn chiitoi_yakuman(pairs: Seq<(Hai, Hai)>) -> Seq<Yaku> {
    if forall|k: int| 0 <= k < pairs.len() ==> #[trigger] honor_tile(pairs[k].0) {
        seq![Yaku::Tsuuiisou]
    } else {
        Seq::empty()
    }
}

/// Checks whether a seven-pairs hand is also all honors.
pub fn check_chiitoitsu_yakuman(hand: &HandStructure) -> (r: Vec<Yaku>)
    ensures
        r@ == match *hand {
            HandStructure::Chiitoitsu { pairs, .. } => chiitoi_yakuman(pairs@),
            _ => Seq::empty(),
        },
{
    if let HandStructure::Chiitoitsu { pairs, .. } = hand {
        let mut is_tsuuiisou = true;
        let mut k: usize = 0;
        while k < 7
            invariant_except_break
                k <= 7,
                is_tsuuiisou,
                forall|j: int| 0 <= j < k ==> #[trigger] honor_tile(pairs@[j].0),
            ensures
                is_tsuuiisou == forall|j: int| 0 <= j < 7 ==> #[trigger] honor_tile(pairs@[j].0),
            decreases 7 - k,
        {
            if !is_jihai(&pairs[k].0) {
                is_tsuuiisou = false;
                break;
            }
            k += 1;
        }
        if is_tsuuiisou {
            return vec![Yaku::Tsuuiisou];
        }
    }
    vec![]
}


// ---------------------------------------------------------------------------
// Game-state yakuman, double-yakuman overrides, structure
// ---------------------------------------------------------------------------

/// The yakuman that the game state alone gives: blessings of heaven, earth and man.
pub open spec fn game_state_yakuman(game: GameContext) -> Seq<Yaku> {
    let s0 = push_if(Seq::empty(), game.is_tenhou, Yaku::Tenhou);
    let s1 = push_if(s0, game.is_chiihou, Yaku::Chiihou);
    push_if(s1, game.is_renhou, Yaku::Renhou)
}

/// Checks for the blessings of heaven, earth and man.
pub fn check_game_state_yakuman(player: &PlayerContext, game: &GameContext) -> (r: Vec<Yaku>)
    ensures
        r@ == game_state_yakuman(*game),
{
    let mut yaku = Vec::new();
    if game.is_tenhou {
        yaku.push(Yaku::Tenhou);
    }
    if game.is_chiihou {
        yaku.push(Yaku::Chiihou);
    }
    if game.is_renhou {
        yaku.push(Yaku::Renhou);
    }
    yaku
}

/// A yakuman that stays: a plain form gives way to its double form when both are listed.
pub open spec fn keeps_yakuman(y: Yaku, list: Seq<Yaku>) -> bool {
    &&& (y != Yaku::Suuankou || !list.contains(Yaku::SuuankouTanki))
    &&& (y != Yaku::KokushiMusou || !list.contains(Yaku::KokushiMusouJusanmen))
    &&& (y != Yaku::ChuurenPoutou || !list.contains(Yaku::JunseiChuurenPoutou))
}

/// The yakuman list with each plain form dropped when its double form is listed.
pub open spec fn post_process(list: Seq<Yaku>) -> Seq<Yaku> {
    list.filter(|y: Yaku| keeps_yakuman(y, list))
}

/// Drops a yakuman's plain form when its double form is present.
pub fn post_process_yakuman(yakuman: Vec<Yaku>) -> (r: Vec<Yaku>)
    ensures
        r@ == post_process(yakuman@),
{
    let has_suuankou_tanki = has_yaku(&yakuman, Yaku::SuuankouTanki);
    let has_kokushi_jusanmen = has_yaku(&yakuman, Yaku::KokushiMusouJusanmen);
    let has_junsei_chuuren = has_yaku(&yakuman, Yaku::JunseiChuurenPoutou);
    let ghost list = yakuman@;
    let ghost pred = |y: Yaku| keeps_yakuman(y, list);
    let mut kept: Vec<Yaku> = Vec::new();
    let n = yakuman.len();
    let mut k: usize = 0;
    while k < n
        invariant
            n == list.len(),
            list == yakuman@,
            pred == (|y: Yaku| keeps_yakuman(y, list)),
            has_suuankou_tanki == list.contains(Yaku::SuuankouTanki),
            has_kokushi_jusanmen == list.contains(Yaku::KokushiMusouJusanmen),
            has_junsei_chuuren == list.contains(Yaku::JunseiChuurenPoutou),
            k <= n,
            kept@ == list.take(k as int).filter(pred),
        decreases n - k,
    {
        let ghost pre = list.take(k as int);
        let ghost post = list.take(k + 1);
        assert(post.drop_last() =~= pre);
        let y = yakuman[k];
        assert(post.last() == y);
        reveal_with_fuel(Seq::<Yaku>::filter, 1);
        assert(post.filter(pred) == if pred(y) {
            pre.filter(pred).push(y)
        } else {
            pre.filter(pred)
        });
        assert(pred(y) == keeps_yakuman(y, list));
        if (y != Yaku::Suuankou || !has_suuankou_tanki) && (y != Yaku::KokushiMusou
            || !has_kokushi_jusanmen) && (y != Yaku::ChuurenPoutou || !has_junsei_chuuren) {
            kept.push(y);
        }
        k += 1;
    }
    assert(list.take(n as int) =~= list);
    kept
}

/// The yakuman that the hand itself gives, before the game-state ones.
pub open spec fn hand_yakuman(org: HandOrganization, agari_type: AgariType) -> Seq<Yaku> {
    match org {
        HandOrganization::YonmentsuIchiatama(h) => standard_yakuman(h, agari_type),
        HandOrganization::Irregular { counts, agari_hai } => if is_kokushi(counts@, agari_hai) {
            seq![kokushi_yaku(counts@, agari_hai)]
        } else {
            chiitoi_yakuman(chiitoitsu_pairs(counts@).unwrap())
        },
    }
}

/// The organization can be confirmed as a winning structure: four melds and a pair, or
/// an irregular hand of thirteen orphans or seven pairs.
pub open spec fn resolvable(org: HandOrganization) -> bool {
    match org {
        HandOrganization::YonmentsuIchiatama(_) => true,
        HandOrganization::Irregular { counts, agari_hai } => is_kokushi(counts@, agari_hai)
            || chiitoitsu_pairs(counts@) is Some,
    }
}

/// The confirmed structure of a resolvable organization: nine gates when the hand has
/// that shape, the four melds and pair otherwise; thirteen orphans, or else seven pairs,
/// for an irregular hand.
pub open spec fn resolves_to(org: HandOrganization, hs: HandStructure) -> bool {
    match org {
        HandOrganization::YonmentsuIchiatama(h) => match chuuren(h) {
            Some(j) => hs == HandStructure::ChuurenPoutou { hand: h, is_junsei: j },
            None => hs == HandStructure::YonmentsuIchiatama(h),
        },
        HandOrganization::Irregular { counts, agari_hai } => if is_kokushi(counts@, agari_hai) {
            kokushi_structure(counts@, agari_hai, hs)
        } else {
            match hs {
                HandStructure::Chiitoitsu { pairs, agari_hai: a, machi } => {
                    &&& Some(pairs@) == chiitoitsu_pairs(counts@)
                    &&& a == agari_hai
                    &&& machi == Machi::Tanki
                },
                _ => false,
            }
        },
    }
}

/// The tiles of the organization are well formed.
pub open spec fn organization_wf(org: HandOrganization) -> bool {
    match org {
        HandOrganization::YonmentsuIchiatama(h) => agari_hand_tiles_wf(h),
        HandOrganization::Irregular { agari_hai, .. } => hai_wf(agari_hai),
    }
}

/// Confirms the structure of the hand and finds the yakuman that the hand itself gives.
/// An irregular hand that is neither thirteen orphans nor seven pairs is an error.
pub fn resolve_hand_structure(
    org: HandOrganization,
    player: &PlayerContext,
    game: &GameContext,
    agari_type: AgariType,
) -> (r: Result<(HandStructure, Vec<Yaku>), &'static str>)
    requires
        organization_wf(org),
    ensures
        r is Ok <==> resolvable(org),
        r matches Ok((hs, ym)) ==> resolves_to(org, hs) && ym@ == hand_yakuman(org, agari_type),
        r matches Err(e) ==> e == "Invalid irregular hand. Not Kokushi or Chiitoitsu.",
{
    match org {
        HandOrganization::YonmentsuIchiatama(agari_hand) => {
            let (yakuman_list, chuuren_flag) = check_standard_yakuman(
                &agari_hand,
                player,
                game,
                agari_type,
            );
            let structure = if let Some(is_junsei) = chuuren_flag {
                HandStructure::ChuurenPoutou { hand: agari_hand, is_junsei }
            } else {
                HandStructure::YonmentsuIchiatama(agari_hand)
            };
            Ok((structure, yakuman_list))
        },
        HandOrganization::Irregular { counts, agari_hai } => {
            if let Some((kokushi_structure, kokushi_yaku)) = check_kokushi(&counts, agari_hai) {
                Ok((kokushi_structure, vec![kokushi_yaku]))
            } else if let Some(chiitoitsu_structure) = check_chiitoitsu(&counts, agari_hai) {
                let yakuman = check_chiitoitsu_yakuman(&chiitoitsu_structure);
                Ok((chiitoitsu_structure, yakuman))
            } else {
                Err("Invalid irregular hand. Not Kokushi or Chiitoitsu.")
            }
        },
    }
}

} // verus!
