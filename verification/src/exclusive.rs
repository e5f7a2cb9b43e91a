use vstd::prelude::*;
use crate::game::{AgariType, GameContext, PlayerContext};
use crate::hand::{AgariHand, HandOrganization, MentsuType};
use crate::hand_tiles::{
    agari_groups, agari_tiles, chanta_groups, chinitsu_tiles, concealed_triplet_count,
    dora_count, honitsu_tiles, junchan_groups, kind_count, pairs_tiles,
};
use crate::regular::{
    all_simples, all_yaochuu, chiitoitsu_yaku, has_triplet_of, koutsu_of,
    outside_and_color_yaku_onto, peikou_pairs, pinfu, sequence_yaku_onto, shousangen, shuntsu_of,
    standard_yaku, state_yaku_onto, straight, three_colors, triplet_yaku_onto, yakuhai,
};
use crate::tiles::{Hai, Jihai, Kaze, Sangenpai};
use crate::yaku::{push_if, Yaku};
use crate::yaku_checker::{
    all_yakuman, counts_dora, counts_uradora, final_yaku, lemma_yakuman_stand_alone, org_tiles,
    regular_yaku, repeat,
};
use crate::yakuman::{all_terminals, chiitoitsu_pairs, chuuren};

verus! {

/// The list does not hold both yaku.
pub open spec fn not_both(s: Seq<Yaku>, a: Yaku, b: Yaku) -> bool {
    !(s.contains(a) && s.contains(b))
}

/// The yaku that exclude each other: a full flush and a half flush; a pure and a half
/// outside hand; all terminals and honors and either outside hand; riichi and double
/// riichi; one and two double sequences; a win on the last draw and on the last discard.
pub open spec fn exclusive_yaku(s: Seq<Yaku>) -> bool {
    &&& not_both(s, Yaku::Chinitsu, Yaku::Honitsu)
    &&& not_both(s, Yaku::Junchan, Yaku::Chanta)
    &&& not_both(s, Yaku::Honroutou, Yaku::Chanta)
    &&& not_both(s, Yaku::Honroutou, Yaku::Junchan)
    &&& not_both(s, Yaku::Riichi, Yaku::DaburuRiichi)
    &&& not_both(s, Yaku::Iipeikou, Yaku::Ryanpeikou)
    &&& not_both(s, Yaku::HaiteiRaoyue, Yaku::HouteiRaoyui)
}

proof fn lemma_push_if_contains(s: Seq<Yaku>, b: bool, y: Yaku)
    ensures
        forall|x: Yaku| #[trigger]
            push_if(s, b, y).contains(x) <==> (s.contains(x) || (b && x == y)),
{
    assert forall|x: Yaku| #[trigger]
        push_if(s, b, y).contains(x) <==> (s.contains(x) || (b && x == y)) by {
        if b {
            let t = s.push(y);
            if t.contains(x) {
                let k = choose|k: int| 0 <= k < t.len() && t[k] == x;
                if k < s.len() {
                    assert(s[k] == x);
                }
            }
            if s.contains(x) {
                let k = choose|k: int| 0 <= k < s.len() && s[k] == x;
                assert(t[k] == x);
            }
            if x == y {
                assert(t[s.len() as int] == y);
            }
        }
    }
}

proof fn lemma_concat_contains(a: Seq<Yaku>, b: Seq<Yaku>)
    ensures
        forall|x: Yaku| #[trigger] (a + b).contains(x) <==> (a.contains(x) || b.contains(x)),
{
    assert forall|x: Yaku| #[trigger] (a + b).contains(x) <==> (a.contains(x) || b.contains(x)) by {
        let c = a + b;
        if c.contains(x) {
            let k = choose|k: int| 0 <= k < c.len() && c[k] == x;
            if k < a.len() {
                assert(a[k] == x);
            } else {
                assert(b[k - a.len()] == x);
            }
        }
        if a.contains(x) {
            let k = choose|k: int| 0 <= k < a.len() && a[k] == x;
            assert(c[k] == x);
        }
        if b.contains(x) {
            let k = choose|k: int| 0 <= k < b.len() && b[k] == x;
            assert(c[k + a.len()] == x);
        }
    }
}

proof fn lemma_repeat_contains(y: Yaku, n: nat)
    ensures
        forall|x: Yaku| #[trigger] repeat(y, n).contains(x) ==> x == y,
{
}

/// A flush or outside-hand yaku.
spec fn flush_or_outside(x: Yaku) -> bool {
    x == Yaku::Chinitsu || x == Yaku::Honitsu || x == Yaku::Junchan || x == Yaku::Chanta
        || x == Yaku::Honroutou
}

/// One or two double sequences.
spec fn peikou_kind(x: Yaku) -> bool {
    x == Yaku::Iipeikou || x == Yaku::Ryanpeikou
}

/// Riichi, double riichi, last draw, last discard.
spec fn situation_kind(x: Yaku) -> bool {
    x == Yaku::Riichi || x == Yaku::DaburuRiichi || x == Yaku::HaiteiRaoyue
        || x == Yaku::HouteiRaoyui
}

proof fn lemma_state_yaku_exclusive(player: PlayerContext, game: GameContext, agari_type: AgariType)
    ensures
        forall|x: Yaku|
            (flush_or_outside(x) || peikou_kind(x)) ==> !#[trigger] state_yaku_onto(
                Seq::empty(),
                player,
                game,
                agari_type,
            ).contains(x),
        not_both(state_yaku_onto(Seq::empty(), player, game, agari_type), Yaku::Riichi, Yaku::DaburuRiichi),
        not_both(state_yaku_onto(Seq::empty(), player, game, agari_type), Yaku::HaiteiRaoyue, Yaku::HouteiRaoyui),
        !state_yaku_onto(Seq::empty(), player, game, agari_type).contains(Yaku::Pinfu),
{
    let tsumo = agari_type == AgariType::Tsumo;
    let ron = agari_type == AgariType::Ron;
    let e = Seq::<Yaku>::empty();
    let s0 = push_if(e, player.is_daburu_riichi, Yaku::DaburuRiichi);
    lemma_push_if_contains(e, player.is_daburu_riichi, Yaku::DaburuRiichi);
    let s1 = push_if(s0, !player.is_daburu_riichi && player.is_riichi, Yaku::Riichi);
    lemma_push_if_contains(s0, !player.is_daburu_riichi && player.is_riichi, Yaku::Riichi);
    let s2 = push_if(s1, player.is_ippatsu, Yaku::Ippatsu);
    lemma_push_if_contains(s1, player.is_ippatsu, Yaku::Ippatsu);
    let s3 = push_if(s2, player.is_menzen && tsumo, Yaku::MenzenTsumo);
    lemma_push_if_contains(s2, player.is_menzen && tsumo, Yaku::MenzenTsumo);
    let s4 = push_if(s3, game.is_haitei && tsumo, Yaku::HaiteiRaoyue);
    lemma_push_if_contains(s3, game.is_haitei && tsumo, Yaku::HaiteiRaoyue);
    let s5 = push_if(s4, game.is_houtei && ron, Yaku::HouteiRaoyui);
    lemma_push_if_contains(s4, game.is_houtei && ron, Yaku::HouteiRaoyui);
    let s6 = push_if(s5, game.is_rinshan, Yaku::RinshanKaihou);
    lemma_push_if_contains(s5, game.is_rinshan, Yaku::RinshanKaihou);
    lemma_push_if_contains(s6, game.is_chankan, Yaku::Chankan);
}

proof fn lemma_yakuhai_exclusive(h: AgariHand, player: PlayerContext, game: GameContext)
    ensures
        forall|x: Yaku|
            (flush_or_outside(x) || peikou_kind(x) || situation_kind(x)) ==> !#[trigger] yakuhai(
                h,
                player,
                game,
            ).contains(x),
        !yakuhai(h, player, game).contains(Yaku::Pinfu),
{
    let e = Seq::<Yaku>::empty();
    let ms = h.mentsu@;
    let b2 = has_triplet_of(ms, Hai::Jihai(Jihai::Sangen(Sangenpai::Haku)));
    let b3 = has_triplet_of(ms, Hai::Jihai(Jihai::Sangen(Sangenpai::Hatsu)));
    let b4 = has_triplet_of(ms, Hai::Jihai(Jihai::Sangen(Sangenpai::Chun)));
    let b0 = has_triplet_of(ms, Hai::Jihai(Jihai::Kaze(game.bakaze)));
    let b1 = has_triplet_of(ms, Hai::Jihai(Jihai::Kaze(player.jikaze)));
    let y0 = push_if(e, b0, Yaku::YakuhaiBakaze);
    lemma_push_if_contains(e, b0, Yaku::YakuhaiBakaze);
    let y1 = push_if(y0, b1, Yaku::YakuhaiJikaze);
    lemma_push_if_contains(y0, b1, Yaku::YakuhaiJikaze);
    let y2 = push_if(y1, b2, Yaku::YakuhaiSangenpai);
    lemma_push_if_contains(y1, b2, Yaku::YakuhaiSangenpai);
    let y3 = push_if(y2, b3, Yaku::YakuhaiSangenpai);
    lemma_push_if_contains(y2, b3, Yaku::YakuhaiSangenpai);
    lemma_push_if_contains(y3, b4, Yaku::YakuhaiSangenpai);
}

proof fn lemma_sequence_yaku_exclusive(
    s: Seq<Yaku>,
    h: AgariHand,
    player: PlayerContext,
    game: GameContext,
)
    requires
        !s.contains(Yaku::Iipeikou),
        !s.contains(Yaku::Ryanpeikou),
    ensures
        forall|x: Yaku|
            !peikou_kind(x) && (flush_or_outside(x) || situation_kind(x)) ==> (
            #[trigger] sequence_yaku_onto(s, h, player, game).contains(x) <==> s.contains(x)),
        not_both(sequence_yaku_onto(s, h, player, game), Yaku::Iipeikou, Yaku::Ryanpeikou),
        sequence_yaku_onto(s, h, player, game).contains(Yaku::Pinfu) ==> s.contains(Yaku::Pinfu)
            || pinfu(h, player, game),
{
    let ms = h.mentsu@;
    let sh = shuntsu_of(ms);
    let pk = peikou_pairs(sh);
    let c9 = pinfu(h, player, game) && !game.is_rinshan && !game.is_chankan;
    let s9 = push_if(s, c9, Yaku::Pinfu);
    lemma_push_if_contains(s, c9, Yaku::Pinfu);
    let c10 = all_simples(agari_tiles(h));
    let s10 = push_if(s9, c10, Yaku::Tanyao);
    lemma_push_if_contains(s9, c10, Yaku::Tanyao);
    let s11 = push_if(s10, player.is_menzen && pk == 2, Yaku::Ryanpeikou);
    lemma_push_if_contains(s10, player.is_menzen && pk == 2, Yaku::Ryanpeikou);
    let s12 = push_if(s11, player.is_menzen && pk != 2 && pk == 1, Yaku::Iipeikou);
    lemma_push_if_contains(s11, player.is_menzen && pk != 2 && pk == 1, Yaku::Iipeikou);
    let s13 = push_if(s12, three_colors(sh), Yaku::SanshokuDoujun);
    lemma_push_if_contains(s12, three_colors(sh), Yaku::SanshokuDoujun);
    lemma_push_if_contains(s13, straight(sh), Yaku::Ittsu);
}

proof fn lemma_triplet_yaku_exclusive(s: Seq<Yaku>, h: AgariHand, agari_type: AgariType)
    ensures
        forall|x: Yaku|
            (flush_or_outside(x) || peikou_kind(x) || situation_kind(x) || x == Yaku::Pinfu) ==> (
            #[trigger] triplet_yaku_onto(s, h, agari_type).contains(x) <==> s.contains(x)),
{
    let ms = h.mentsu@;
    let kou = kind_count(ms, MentsuType::Koutsu);
    let kan = kind_count(ms, MentsuType::Kantsu);
    let s15 = push_if(s, kou + kan == 4, Yaku::Toitoi);
    lemma_push_if_contains(s, kou + kan == 4, Yaku::Toitoi);
    let c16 = kou + kan != 4 && concealed_triplet_count(ms, h.agari_hai, agari_type) == 3;
    let s16 = push_if(s15, c16, Yaku::Sanankou);
    lemma_push_if_contains(s15, c16, Yaku::Sanankou);
    let s17 = push_if(s16, kan == 3, Yaku::Sankantsu);
    lemma_push_if_contains(s16, kan == 3, Yaku::Sankantsu);
    let c18 = three_colors(koutsu_of(ms));
    let s18 = push_if(s17, c18, Yaku::SanshokuDoukou);
    lemma_push_if_contains(s17, c18, Yaku::SanshokuDoukou);
    lemma_push_if_contains(s18, shousangen(h), Yaku::Shousangen);
}

proof fn lemma_outside_and_color_yaku_exclusive(s: Seq<Yaku>, h: AgariHand)
    requires
        forall|x: Yaku| flush_or_outside(x) ==> !#[trigger] s.contains(x),
    ensures
        forall|x: Yaku|
            !flush_or_outside(x) ==> (#[trigger] outside_and_color_yaku_onto(s, h).contains(x)
                <==> s.contains(x)),
        not_both(outside_and_color_yaku_onto(s, h), Yaku::Chinitsu, Yaku::Honitsu),
        not_both(outside_and_color_yaku_onto(s, h), Yaku::Junchan, Yaku::Chanta),
        not_both(outside_and_color_yaku_onto(s, h), Yaku::Honroutou, Yaku::Chanta),
        not_both(outside_and_color_yaku_onto(s, h), Yaku::Honroutou, Yaku::Junchan),
{
    let ts = agari_tiles(h);
    let gs = agari_groups(h);
    let honro = all_yaochuu(ts) && !all_terminals(ts);
    let s20 = push_if(s, honro, Yaku::Honroutou);
    lemma_push_if_contains(s, honro, Yaku::Honroutou);
    let c21 = !honro && junchan_groups(gs);
    let s21 = push_if(s20, c21, Yaku::Junchan);
    lemma_push_if_contains(s20, c21, Yaku::Junchan);
    let c22 = !honro && !junchan_groups(gs) && chanta_groups(gs);
    let s22 = push_if(s21, c22, Yaku::Chanta);
    lemma_push_if_contains(s21, c22, Yaku::Chanta);
    let c23 = chinitsu_tiles(ts);
    let s23 = push_if(s22, c23, Yaku::Chinitsu);
    lemma_push_if_contains(s22, c23, Yaku::Chinitsu);
    lemma_push_if_contains(s23, !c23 && honitsu_tiles(ts), Yaku::Honitsu);
    assert(!s.contains(Yaku::Chinitsu) && !s.contains(Yaku::Honitsu) && !s.contains(Yaku::Junchan)
        && !s.contains(Yaku::Chanta) && !s.contains(Yaku::Honroutou));
}

proof fn lemma_standard_yaku_exclusive(
    h: AgariHand,
    player: PlayerContext,
    game: GameContext,
    agari_type: AgariType,
)
    ensures
        exclusive_yaku(standard_yaku(h, player, game, agari_type)),
{
    let st = state_yaku_onto(Seq::empty(), player, game, agari_type);
    let y = yakuhai(h, player, game);
    let s8 = st + y;
    lemma_state_yaku_exclusive(player, game, agari_type);
    lemma_yakuhai_exclusive(h, player, game);
    lemma_concat_contains(st, y);
    assert(!s8.contains(Yaku::Iipeikou) && !s8.contains(Yaku::Ryanpeikou));
    let q = sequence_yaku_onto(s8, h, player, game);
    lemma_sequence_yaku_exclusive(s8, h, player, game);
    let t = triplet_yaku_onto(q, h, agari_type);
    lemma_triplet_yaku_exclusive(q, h, agari_type);
    assert forall|x: Yaku| flush_or_outside(x) implies !#[trigger] t.contains(x) by {
        assert(!st.contains(x) && !y.contains(x));
        assert(!s8.contains(x));
        assert(!q.contains(x));
    }
    lemma_outside_and_color_yaku_exclusive(t, h);
    let f = outside_and_color_yaku_onto(t, h);
    assert(f == standard_yaku(h, player, game, agari_type));
    assert(f.contains(Yaku::Riichi) == st.contains(Yaku::Riichi)) by {
        assert(!y.contains(Yaku::Riichi));
        assert(q.contains(Yaku::Riichi) == s8.contains(Yaku::Riichi));
        assert(t.contains(Yaku::Riichi) == q.contains(Yaku::Riichi));
    }
    assert(f.contains(Yaku::DaburuRiichi) == st.contains(Yaku::DaburuRiichi)) by {
        assert(!y.contains(Yaku::DaburuRiichi));
        assert(q.contains(Yaku::DaburuRiichi) == s8.contains(Yaku::DaburuRiichi));
        assert(t.contains(Yaku::DaburuRiichi) == q.contains(Yaku::DaburuRiichi));
    }
    assert(f.contains(Yaku::HaiteiRaoyue) == st.contains(Yaku::HaiteiRaoyue)) by {
        assert(!y.contains(Yaku::HaiteiRaoyue));
        assert(q.contains(Yaku::HaiteiRaoyue) == s8.contains(Yaku::HaiteiRaoyue));
        assert(t.contains(Yaku::HaiteiRaoyue) == q.contains(Yaku::HaiteiRaoyue));
    }
    assert(f.contains(Yaku::HouteiRaoyui) == st.contains(Yaku::HouteiRaoyui)) by {
        assert(!y.contains(Yaku::HouteiRaoyui));
        assert(q.contains(Yaku::HouteiRaoyui) == s8.contains(Yaku::HouteiRaoyui));
        assert(t.contains(Yaku::HouteiRaoyui) == q.contains(Yaku::HouteiRaoyui));
    }
    assert(f.contains(Yaku::Iipeikou) == q.contains(Yaku::Iipeikou));
    assert(f.contains(Yaku::Ryanpeikou) == q.contains(Yaku::Ryanpeikou));
}

proof fn lemma_chiitoitsu_yaku_exclusive(
    pairs: Seq<(Hai, Hai)>,
    player: PlayerContext,
    game: GameContext,
    agari_type: AgariType,
)
    ensures
        exclusive_yaku(chiitoitsu_yaku(pairs, player, game, agari_type)),
{
    let tsumo = agari_type == AgariType::Tsumo;
    let ron = agari_type == AgariType::Ron;
    let ts = pairs_tiles(pairs);
    let s0 = seq![Yaku::Chiitoitsu];
    assert(forall|x: Yaku| #[trigger] s0.contains(x) ==> x == Yaku::Chiitoitsu);
    let s1 = push_if(s0, player.is_daburu_riichi, Yaku::DaburuRiichi);
    lemma_push_if_contains(s0, player.is_daburu_riichi, Yaku::DaburuRiichi);
    let s2 = push_if(s1, !player.is_daburu_riichi && player.is_riichi, Yaku::Riichi);
    lemma_push_if_contains(s1, !player.is_daburu_riichi && player.is_riichi, Yaku::Riichi);
    let s3 = push_if(s2, player.is_ippatsu, Yaku::Ippatsu);
    lemma_push_if_contains(s2, player.is_ippatsu, Yaku::Ippatsu);
    let s4 = push_if(s3, tsumo, Yaku::MenzenTsumo);
    lemma_push_if_contains(s3, tsumo, Yaku::MenzenTsumo);
    let s5 = push_if(s4, game.is_haitei && tsumo, Yaku::HaiteiRaoyue);
    lemma_push_if_contains(s4, game.is_haitei && tsumo, Yaku::HaiteiRaoyue);
    let s6 = push_if(s5, game.is_houtei && ron, Yaku::HouteiRaoyui);
    lemma_push_if_contains(s5, game.is_houtei && ron, Yaku::HouteiRaoyui);
    let s7 = push_if(s6, all_simples(ts), Yaku::Tanyao);
    lemma_push_if_contains(s6, all_simples(ts), Yaku::Tanyao);
    let s8 = push_if(s7, all_yaochuu(ts), Yaku::Honroutou);
    lemma_push_if_contains(s7, all_yaochuu(ts), Yaku::Honroutou);
    let s9 = push_if(s8, chinitsu_tiles(ts), Yaku::Chinitsu);
    lemma_push_if_contains(s8, chinitsu_tiles(ts), Yaku::Chinitsu);
    let f = push_if(s9, !chinitsu_tiles(ts) && honitsu_tiles(ts), Yaku::Honitsu);
    lemma_push_if_contains(s9, !chinitsu_tiles(ts) && honitsu_tiles(ts), Yaku::Honitsu);
    assert(f == chiitoitsu_yaku(pairs, player, game, agari_type));
}

/// The checker never lists two yaku that exclude each other: a full flush beside a half
/// flush, a pure outside hand beside a half outside hand, all terminals and honors beside
/// either outside hand, riichi beside double riichi, one double sequence beside two, or a
/// win on the last draw beside a win on the last discard.
pub proof fn lemma_exclusive_yaku(
    org: HandOrganization,
    player: PlayerContext,
    game: GameContext,
    agari_type: AgariType,
)
    ensures
        exclusive_yaku(final_yaku(org, player, game, agari_type)),
{
    let f = final_yaku(org, player, game, agari_type);
    let ym = all_yakuman(org, game, agari_type);
    let reg = regular_yaku(org, player, game, agari_type);
    lemma_yakuman_stand_alone(org, player, game, agari_type);
    if ym.len() > 0 {
        assert forall|x: Yaku| #[trigger] f.contains(x) implies crate::points::yakuman_value(x) > 0 by {
            let k = choose|k: int| 0 <= k < f.len() && f[k] == x;
            assert(crate::points::yakuman_value(f[k]) > 0);
        }
    } else {
        assert(exclusive_yaku(reg)) by {
            match org {
                HandOrganization::YonmentsuIchiatama(h) => {
                    if chuuren(h) is None {
                        lemma_standard_yaku_exclusive(h, player, game, agari_type);
                    }
                },
                HandOrganization::Irregular { counts, .. } => {
                    lemma_chiitoitsu_yaku_exclusive(
                        chiitoitsu_pairs(counts@).unwrap(),
                        player,
                        game,
                        agari_type,
                    );
                },
            }
        }
        if counts_dora(org, player, game, agari_type) {
            let ts = org_tiles(org);
            let d = repeat(Yaku::Dora, dora_count(ts, game.dora_indicators@));
            let u = repeat(Yaku::UraDora, dora_count(ts, game.uradora_indicators@));
            lemma_concat_contains(reg, d);
            lemma_concat_contains(reg + d, u);
            lemma_repeat_contains(Yaku::Dora, dora_count(ts, game.dora_indicators@));
            lemma_repeat_contains(Yaku::UraDora, dora_count(ts, game.uradora_indicators@));
            if counts_uradora(player, game) {
                assert(f == reg + d + u);
            } else {
                assert(f == reg + d);
            }
        }
    }
}

proof fn lemma_standard_yaku_pinfu(
    h: AgariHand,
    player: PlayerContext,
    game: GameContext,
    agari_type: AgariType,
)
    ensures
        standard_yaku(h, player, game, agari_type).contains(Yaku::Pinfu) ==> pinfu(h, player, game),
{
    let st = state_yaku_onto(Seq::empty(), player, game, agari_type);
    let y = yakuhai(h, player, game);
    let s8 = st + y;
    lemma_state_yaku_exclusive(player, game, agari_type);
    lemma_yakuhai_exclusive(h, player, game);
    lemma_concat_contains(st, y);
    assert(!s8.contains(Yaku::Pinfu));
    assert(!s8.contains(Yaku::Iipeikou) && !s8.contains(Yaku::Ryanpeikou));
    let q = sequence_yaku_onto(s8, h, player, game);
    lemma_sequence_yaku_exclusive(s8, h, player, game);
    let t = triplet_yaku_onto(q, h, agari_type);
    lemma_triplet_yaku_exclusive(q, h, agari_type);
    assert(t.contains(Yaku::Pinfu) == q.contains(Yaku::Pinfu));
    assert forall|x: Yaku| flush_or_outside(x) implies !#[trigger] t.contains(x) by {
        assert(!st.contains(x) && !y.contains(x));
        assert(!s8.contains(x));
        assert(!q.contains(x));
    }
    lemma_outside_and_color_yaku_exclusive(t, h);
    let f = outside_and_color_yaku_onto(t, h);
    assert(f == standard_yaku(h, player, game, agari_type));
    assert(f.contains(Yaku::Pinfu) == t.contains(Yaku::Pinfu));
}

/// The no-points hand needs a pair that is no value tile: when the pair of a
/// four-melds-one-pair hand is a dragon, the seat wind or the prevalent wind, Pinfu is
/// not listed. It also needs a concealed hand, four sequences and an open wait.
pub proof fn lemma_pinfu_needs_plain_hand(
    h: AgariHand,
    player: PlayerContext,
    game: GameContext,
    agari_type: AgariType,
)
    ensures
        ({
            let f = final_yaku(HandOrganization::YonmentsuIchiatama(h), player, game, agari_type);
            f.contains(Yaku::Pinfu) ==> {
                &&& !(h.atama.0 matches Hai::Jihai(Jihai::Sangen(_)))
                &&& h.atama.0 != Hai::Jihai(Jihai::Kaze(player.jikaze))
                &&& h.atama.0 != Hai::Jihai(Jihai::Kaze(game.bakaze))
                &&& player.is_menzen
                &&& h.machi == crate::hand::Machi::Ryanmen
                &&& forall|k: int| 0 <= k < 4 ==> (#[trigger] h.mentsu@[k]).mentsu_type
                    == MentsuType::Shuntsu
            }
        }),
{
    let org = HandOrganization::YonmentsuIchiatama(h);
    let f = final_yaku(org, player, game, agari_type);
    let ym = all_yakuman(org, game, agari_type);
    let reg = regular_yaku(org, player, game, agari_type);
    lemma_yakuman_stand_alone(org, player, game, agari_type);
    lemma_standard_yaku_pinfu(h, player, game, agari_type);
    if f.contains(Yaku::Pinfu) {
        let k = choose|k: int| 0 <= k < f.len() && f[k] == Yaku::Pinfu;
        if ym.len() > 0 {
            assert(crate::points::yakuman_value(f[k]) > 0);
        } else {
            if counts_dora(org, player, game, agari_type) {
                let ts = org_tiles(org);
                let d = repeat(Yaku::Dora, dora_count(ts, game.dora_indicators@));
                let u = repeat(Yaku::UraDora, dora_count(ts, game.uradora_indicators@));
                lemma_concat_contains(reg, d);
                lemma_concat_contains(reg + d, u);
                lemma_repeat_contains(Yaku::Dora, dora_count(ts, game.dora_indicators@));
                lemma_repeat_contains(Yaku::UraDora, dora_count(ts, game.uradora_indicators@));
                if counts_uradora(player, game) {
                    assert(f == reg + d + u);
                } else {
                    assert(f == reg + d);
                }
            }
            assert(reg.contains(Yaku::Pinfu));
            assert(reg.len() > 0);
            assert(chuuren(h) is None);
        }
    }
}

} // verus!
