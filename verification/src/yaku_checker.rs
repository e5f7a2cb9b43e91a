use vstd::prelude::*;
use crate::game::{AgariType, GameContext, PlayerContext};
use crate::hand::{HandOrganization, HandStructure};
use crate::hand_tiles::{
    agari_tiles, count_dora, dora_count, get_all_tiles_from_structure, pairs_tiles,
    structure_tiles,
};
use crate::regular::{chiitoitsu_yaku, find_chiitoitsu_yaku, find_standard_yaku, standard_yaku};
use crate::yakuman::chiitoi_yakuman;
use crate::tiles::{hai_wf, Hai};
use crate::points::yakuman_value;
use crate::regular::{
    koutsu_of, outside_and_color_yaku_onto, sequence_yaku_onto, state_yaku_onto,
    triplet_yaku_onto, yakuhai,
};
use crate::yaku::{push_if, Yaku};
use crate::yakuman::standard_yakuman;
use crate::yakuman::{
    check_game_state_yakuman, chiitoitsu_pairs, chuuren, game_state_yakuman, hand_yakuman,
    organization_wf, post_process, post_process_yakuman, resolvable, resolve_hand_structure,
    resolves_to,
};

verus! {

/// The result of the yaku checker, handed on to the score calculation.
#[derive(Debug, Clone)]
pub struct YakuResult {
    /// The confirmed structure of the winning hand.
    pub hand_structure: HandStructure,
    /// Every yaku achieved, dora included.
    pub yaku_list: Vec<Yaku>,
}

/// Every yakuman: the game-state ones, then the hand's own.
pub open spec fn all_yakuman(org: HandOrganization, game: GameContext, agari_type: AgariType) -> Seq<
    Yaku,
> {
    game_state_yakuman(game) + hand_yakuman(org, agari_type)
}

/// The regular yaku of the confirmed structure (none for nine gates).
pub open spec fn regular_yaku(
    org: HandOrganization,
    player: PlayerContext,
    game: GameContext,
    agari_type: AgariType,
) -> Seq<Yaku> {
    match org {
        HandOrganization::YonmentsuIchiatama(h) => if chuuren(h) is Some {
            Seq::empty()
        } else {
            standard_yaku(h, player, game, agari_type)
        },
        HandOrganization::Irregular { counts, .. } => chiitoitsu_yaku(
            chiitoitsu_pairs(counts@).unwrap(),
            player,
            game,
            agari_type,
        ),
    }
}

/// The tiles of the confirmed structure.
pub open spec fn org_tiles(org: HandOrganization) -> Seq<Hai> {
    match org {
        HandOrganization::YonmentsuIchiatama(h) => agari_tiles(h),
        HandOrganization::Irregular { counts, .. } => pairs_tiles(
            chiitoitsu_pairs(counts@).unwrap(),
        ),
    }
}

/// Riichi or double riichi was declared.
pub open spec fn in_riichi(player: PlayerContext) -> bool {
    player.is_riichi || player.is_daburu_riichi
}

/// The dora are counted: no yakuman, and some regular yaku or riichi.
pub open spec fn counts_dora(
    org: HandOrganization,
    player: PlayerContext,
    game: GameContext,
    agari_type: AgariType,
) -> bool {
    all_yakuman(org, game, agari_type).len() == 0 && (regular_yaku(org, player, game, agari_type).len()
        > 0 || in_riichi(player))
}

/// The ura dora are counted too: riichi and some ura dora indicator.
pub open spec fn counts_uradora(player: PlayerContext, game: GameContext) -> bool {
    in_riichi(player) && game.uradora_indicators@.len() > 0
}

/// A list of `n` copies of a yaku.
pub open spec fn repeat(y: Yaku, n: nat) -> Seq<Yaku> {
    Seq::new(n, |_i: int| y)
}

/// The list of yaku that the checker gives: the yakuman, with each plain form dropped
/// beside its double form, when there is any; otherwise the regular yaku, followed,
/// when there is a yaku or riichi, by one Dora per dora and, in riichi with ura dora
/// indicators, one UraDora per ura dora.
pub open spec fn final_yaku(
    org: HandOrganization,
    player: PlayerContext,
    game: GameContext,
    agari_type: AgariType,
) -> Seq<Yaku> {
    let ym = all_yakuman(org, game, agari_type);
    let reg = regular_yaku(org, player, game, agari_type);
    let ts = org_tiles(org);
    if ym.len() > 0 {
        post_process(ym)
    } else if counts_dora(org, player, game, agari_type) {
        let with_dora = reg + repeat(Yaku::Dora, dora_count(ts, game.dora_indicators@));
        if counts_uradora(player, game) {
            with_dora + repeat(Yaku::UraDora, dora_count(ts, game.uradora_indicators@))
        } else {
            with_dora
        }
    } else {
        reg
    }
}

/// The dora counts that the checker computes fit a `u8`.
pub open spec fn dora_fits(
    org: HandOrganization,
    player: PlayerContext,
    game: GameContext,
    agari_type: AgariType,
) -> bool {
    resolvable(org) && counts_dora(org, player, game, agari_type) ==> {
        &&& dora_count(org_tiles(org), game.dora_indicators@) <= 255
        &&& counts_uradora(player, game) ==> dora_count(
            org_tiles(org),
            game.uradora_indicators@,
        ) <= 255
    }
}

/// Every dora indicator is a well-formed tile.
pub open spec fn indicators_wf(game: GameContext) -> bool {
    &&& forall|k: int|
        0 <= k < game.dora_indicators@.len() ==> #[trigger] hai_wf(game.dora_indicators@[k])
    &&& forall|k: int|
        0 <= k < game.uradora_indicators@.len() ==> #[trigger] hai_wf(game.uradora_indicators@[k])
}

fn push_repeated(list: &mut Vec<Yaku>, y: Yaku, n: u8)
    ensures
        final(list)@ == old(list)@ + repeat(y, n as nat),
{
    let mut k: u8 = 0;
    while k < n
        invariant
            k <= n,
            list@ == old(list)@ + repeat(y, k as nat),
        decreases n - k,
    {
        list.push(y);
        k += 1;
        assert(list@ =~= old(list)@ + repeat(y, k as nat));
    }
}

/// Checks a hand for every yaku: the yakuman first (the game state's, then the hand's);
/// when there is none, the regular yaku of the confirmed structure and, when the hand
/// has a yaku or is in riichi, its dora and (in riichi) ura dora. An irregular hand that
/// is neither thirteen orphans nor seven pairs is an error.
pub fn check_all_yaku(
    organization: HandOrganization,
    player: &PlayerContext,
    game: &GameContext,
    agari_type: AgariType,
) -> (res: Result<YakuResult, &'static str>)
    requires
        organization_wf(organization),
        indicators_wf(*game),
        dora_fits(organization, *player, *game, agari_type),
    ensures
        res is Ok <==> resolvable(organization),
        res matches Err(e) ==> e == "Invalid irregular hand. Not Kokushi or Chiitoitsu.",
        res matches Ok(r) ==> {
            &&& resolves_to(organization, r.hand_structure)
            &&& r.yaku_list@ == final_yaku(organization, *player, *game, agari_type)
        },
{
    // Game-state yakuman first
    let mut yakuman_list = check_game_state_yakuman(player, game);
    // The structure and the hand's own yakuman
    let (hand_structure, hand_yakuman) = match resolve_hand_structure(
        organization,
        player,
        game,
        agari_type,
    ) {
        Ok((structure, yakuman)) => (structure, yakuman),
        Err(e) => return Err(e),
    };
    let mut hand_yakuman = hand_yakuman;
    yakuman_list.append(&mut hand_yakuman);
    if !yakuman_list.is_empty() {
        let final_yakuman = post_process_yakuman(yakuman_list);
        return Ok(YakuResult { hand_structure, yaku_list: final_yakuman });
    }
    // No yakuman: the regular yaku

    let mut regular_yaku: Vec<Yaku> = match &hand_structure {
        HandStructure::YonmentsuIchiatama(agari_hand) => {
            find_standard_yaku(agari_hand, player, game, agari_type)
        },
        HandStructure::Chiitoitsu { pairs, agari_hai, machi } => {
            find_chiitoitsu_yaku(pairs, agari_hai, machi, player, game, agari_type)
        },
        _ => vec![],
    };
    // Dora count only for a hand with a yaku or in riichi.

    let has_yaku = !regular_yaku.is_empty() || player.is_riichi || player.is_daburu_riichi;
    if has_yaku {
        let all_tiles = get_all_tiles_from_structure(&hand_structure);
        assert(all_tiles@ == org_tiles(organization));
        let dora_count = count_dora(&all_tiles, &game.dora_indicators);
        push_repeated(&mut regular_yaku, Yaku::Dora, dora_count);
        if (player.is_riichi || player.is_daburu_riichi) && !game.uradora_indicators.is_empty() {
            let uradora_count = count_dora(&all_tiles, &game.uradora_indicators);
            push_repeated(&mut regular_yaku, Yaku::UraDora, uradora_count);
        }
    }
    Ok(YakuResult { hand_structure, yaku_list: regular_yaku })
}


// ---------------------------------------------------------------------------
// Laws of the yaku list
// ---------------------------------------------------------------------------

/// A regular yaku: no yakuman and no dora.
pub open spec fn regular_kind(y: Yaku) -> bool {
    yakuman_value(y) == 0 && y != Yaku::Dora && y != Yaku::UraDora && y != Yaku::AkaDora
}

/// Every listed yaku is a yakuman.
pub open spec fn only_yakuman(s: Seq<Yaku>) -> bool {
    forall|k: int| 0 <= k < s.len() ==> yakuman_value(#[trigger] s[k]) > 0
}

/// Every listed yaku is a regular yaku.
pub open spec fn only_regular(s: Seq<Yaku>) -> bool {
    forall|k: int| 0 <= k < s.len() ==> regular_kind(#[trigger] s[k])
}

proof fn lemma_push_if_yakuman(s: Seq<Yaku>, b: bool, y: Yaku)
    requires
        only_yakuman(s),
        yakuman_value(y) > 0,
    ensures
        only_yakuman(push_if(s, b, y)),
{
    if b {
        assert forall|k: int| 0 <= k < push_if(s, b, y).len() implies yakuman_value(
            #[trigger] push_if(s, b, y)[k],
        ) > 0 by {
            if k < s.len() {
                assert(push_if(s, b, y)[k] == s[k]);
            }
        }
    }
}

proof fn lemma_push_if_regular(s: Seq<Yaku>, b: bool, y: Yaku)
    requires
        only_regular(s),
        regular_kind(y),
    ensures
        only_regular(push_if(s, b, y)),
{
    if b {
        assert forall|k: int| 0 <= k < push_if(s, b, y).len() implies regular_kind(
            #[trigger] push_if(s, b, y)[k],
        ) by {
            if k < s.len() {
                assert(push_if(s, b, y)[k] == s[k]);
            }
        }
    }
}

proof fn lemma_concat_only_yakuman(a: Seq<Yaku>, b: Seq<Yaku>)
    requires
        only_yakuman(a),
        only_yakuman(b),
    ensures
        only_yakuman(a + b),
{
    assert forall|k: int| 0 <= k < (a + b).len() implies yakuman_value(#[trigger] (a + b)[k]) > 0 by {
        if k >= a.len() {
            assert((a + b)[k] == b[k - a.len()]);
        }
    }
}

proof fn lemma_concat_only_regular(a: Seq<Yaku>, b: Seq<Yaku>)
    requires
        only_regular(a),
        only_regular(b),
    ensures
        only_regular(a + b),
{
    assert forall|k: int| 0 <= k < (a + b).len() implies regular_kind(#[trigger] (a + b)[k]) by {
        if k >= a.len() {
            assert((a + b)[k] == b[k - a.len()]);
        }
    }
}

proof fn lemma_hand_yakuman_only_yakuman(org: HandOrganization, agari_type: AgariType)
    ensures
        only_yakuman(hand_yakuman(org, agari_type)),
{
    match org {
        HandOrganization::YonmentsuIchiatama(h) => {
            let e = Seq::<Yaku>::empty();
            lemma_push_if_yakuman(e, true, Yaku::Tsuuiisou);
            let ts = agari_tiles(h);
            let s0 = push_if(e, crate::yakuman::all_honors(ts), Yaku::Tsuuiisou);
            lemma_push_if_yakuman(e, crate::yakuman::all_honors(ts), Yaku::Tsuuiisou);
            let s1 = push_if(s0, crate::yakuman::all_terminals(ts), Yaku::Chinroutou);
            lemma_push_if_yakuman(s0, crate::yakuman::all_terminals(ts), Yaku::Chinroutou);
            let s2 = push_if(s1, crate::yakuman::all_green(ts), Yaku::Ryuuiisou);
            lemma_push_if_yakuman(s1, crate::yakuman::all_green(ts), Yaku::Ryuuiisou);
            let ms = h.mentsu@;
            let suuankou = crate::hand_tiles::concealed_triplet_count(ms, h.agari_hai, agari_type) == 4;
            let winds = crate::yakuman::wind_triplet_count(ms);
            let c3 = crate::hand_tiles::kind_count(ms, crate::hand::MentsuType::Kantsu) == 4;
            let s3 = push_if(s2, c3, Yaku::Suukantsu);
            lemma_push_if_yakuman(s2, c3, Yaku::Suukantsu);
            let c4 = suuankou && h.machi == crate::hand::Machi::Tanki;
            let s4 = push_if(s3, c4, Yaku::SuuankouTanki);
            lemma_push_if_yakuman(s3, c4, Yaku::SuuankouTanki);
            let c5 = suuankou && h.machi != crate::hand::Machi::Tanki;
            let s5 = push_if(s4, c5, Yaku::Suuankou);
            lemma_push_if_yakuman(s4, c5, Yaku::Suuankou);
            let c6 = crate::yakuman::dragon_triplet_count(ms) == 3;
            let s6 = push_if(s5, c6, Yaku::Daisangen);
            lemma_push_if_yakuman(s5, c6, Yaku::Daisangen);
            let s7 = push_if(s6, winds == 4, Yaku::Daisuushi);
            lemma_push_if_yakuman(s6, winds == 4, Yaku::Daisuushi);
            let c8 = winds != 4 && winds == 3 && h.atama.0 matches Hai::Jihai(crate::tiles::Jihai::Kaze(_));
            let s8 = push_if(s7, c8, Yaku::Shousuushi);
            lemma_push_if_yakuman(s7, c8, Yaku::Shousuushi);
            let c9 = chuuren(h) == Some(true);
            let s9 = push_if(s8, c9, Yaku::JunseiChuurenPoutou);
            lemma_push_if_yakuman(s8, c9, Yaku::JunseiChuurenPoutou);
            lemma_push_if_yakuman(s9, chuuren(h) == Some(false), Yaku::ChuurenPoutou);
        },
        HandOrganization::Irregular { .. } => {},
    }
}

proof fn lemma_state_yaku_regular(s: Seq<Yaku>, player: PlayerContext, game: GameContext, agari_type: AgariType)
    requires
        only_regular(s),
    ensures
        only_regular(state_yaku_onto(s, player, game, agari_type)),
{
    let tsumo = agari_type == AgariType::Tsumo;
    let ron = agari_type == AgariType::Ron;
    let s0 = push_if(s, player.is_daburu_riichi, Yaku::DaburuRiichi);
    lemma_push_if_regular(s, player.is_daburu_riichi, Yaku::DaburuRiichi);
    let s1 = push_if(s0, !player.is_daburu_riichi && player.is_riichi, Yaku::Riichi);
    lemma_push_if_regular(s0, !player.is_daburu_riichi && player.is_riichi, Yaku::Riichi);
    let s2 = push_if(s1, player.is_ippatsu, Yaku::Ippatsu);
    lemma_push_if_regular(s1, player.is_ippatsu, Yaku::Ippatsu);
    let s3 = push_if(s2, player.is_menzen && tsumo, Yaku::MenzenTsumo);
    lemma_push_if_regular(s2, player.is_menzen && tsumo, Yaku::MenzenTsumo);
    let s4 = push_if(s3, game.is_haitei && tsumo, Yaku::HaiteiRaoyue);
    lemma_push_if_regular(s3, game.is_haitei && tsumo, Yaku::HaiteiRaoyue);
    let s5 = push_if(s4, game.is_houtei && ron, Yaku::HouteiRaoyui);
    lemma_push_if_regular(s4, game.is_houtei && ron, Yaku::HouteiRaoyui);
    let s6 = push_if(s5, game.is_rinshan, Yaku::RinshanKaihou);
    lemma_push_if_regular(s5, game.is_rinshan, Yaku::RinshanKaihou);
    lemma_push_if_regular(s6, game.is_chankan, Yaku::Chankan);
}

proof fn lemma_standard_yaku_regular(h: crate::hand::AgariHand, player: PlayerContext, game: GameContext, agari_type: AgariType)
    ensures
        only_regular(standard_yaku(h, player, game, agari_type)),
{
    let e = Seq::<Yaku>::empty();
    lemma_state_yaku_regular(e, player, game, agari_type);
    // value tiles
    let ms = h.mentsu@;
    let y = yakuhai(h, player, game);
    assert(only_regular(y)) by {
        let b0 = crate::regular::has_triplet_of(ms, Hai::Jihai(crate::tiles::Jihai::Kaze(game.bakaze)));
        let b1 = crate::regular::has_triplet_of(ms, Hai::Jihai(crate::tiles::Jihai::Kaze(player.jikaze)));
        let y0 = push_if(e, b0, Yaku::YakuhaiBakaze);
        lemma_push_if_regular(e, b0, Yaku::YakuhaiBakaze);
        let y1 = push_if(y0, b1, Yaku::YakuhaiJikaze);
        lemma_push_if_regular(y0, b1, Yaku::YakuhaiJikaze);
        let haku = Hai::Jihai(crate::tiles::Jihai::Sangen(crate::tiles::Sangenpai::Haku));
        let hatsu = Hai::Jihai(crate::tiles::Jihai::Sangen(crate::tiles::Sangenpai::Hatsu));
        let b2 = crate::regular::has_triplet_of(ms, haku);
        let b3 = crate::regular::has_triplet_of(ms, hatsu);
        let b4 = crate::regular::has_triplet_of(
            ms,
            Hai::Jihai(crate::tiles::Jihai::Sangen(crate::tiles::Sangenpai::Chun)),
        );
        let y2 = push_if(y1, b2, Yaku::YakuhaiSangenpai);
        lemma_push_if_regular(y1, b2, Yaku::YakuhaiSangenpai);
        let y3 = push_if(y2, b3, Yaku::YakuhaiSangenpai);
        lemma_push_if_regular(y2, b3, Yaku::YakuhaiSangenpai);
        lemma_push_if_regular(y3, b4, Yaku::YakuhaiSangenpai);
    }
    let s8 = state_yaku_onto(e, player, game, agari_type) + y;
    lemma_concat_only_regular(state_yaku_onto(e, player, game, agari_type), y);
    // sequence yaku
    let sh = crate::regular::shuntsu_of(ms);
    let pk = crate::regular::peikou_pairs(sh);
    let c9 = crate::regular::pinfu(h, player, game) && !game.is_rinshan && !game.is_chankan;
    let s9 = push_if(s8, c9, Yaku::Pinfu);
    lemma_push_if_regular(s8, c9, Yaku::Pinfu);
    let c10 = crate::regular::all_simples(agari_tiles(h));
    let s10 = push_if(s9, c10, Yaku::Tanyao);
    lemma_push_if_regular(s9, c10, Yaku::Tanyao);
    let s11 = push_if(s10, player.is_menzen && pk == 2, Yaku::Ryanpeikou);
    lemma_push_if_regular(s10, player.is_menzen && pk == 2, Yaku::Ryanpeikou);
    let s12 = push_if(s11, player.is_menzen && pk != 2 && pk == 1, Yaku::Iipeikou);
    lemma_push_if_regular(s11, player.is_menzen && pk != 2 && pk == 1, Yaku::Iipeikou);
    let s13 = push_if(s12, crate::regular::three_colors(sh), Yaku::SanshokuDoujun);
    lemma_push_if_regular(s12, crate::regular::three_colors(sh), Yaku::SanshokuDoujun);
    lemma_push_if_regular(s13, crate::regular::straight(sh), Yaku::Ittsu);
    let q = sequence_yaku_onto(s8, h, player, game);
    // triplet yaku
    let kou = crate::hand_tiles::kind_count(ms, crate::hand::MentsuType::Koutsu);
    let kan = crate::hand_tiles::kind_count(ms, crate::hand::MentsuType::Kantsu);
    let s15 = push_if(q, kou + kan == 4, Yaku::Toitoi);
    lemma_push_if_regular(q, kou + kan == 4, Yaku::Toitoi);
    let c16 = kou + kan != 4 && crate::hand_tiles::concealed_triplet_count(ms, h.agari_hai, agari_type) == 3;
    let s16 = push_if(s15, c16, Yaku::Sanankou);
    lemma_push_if_regular(s15, c16, Yaku::Sanankou);
    let s17 = push_if(s16, kan == 3, Yaku::Sankantsu);
    lemma_push_if_regular(s16, kan == 3, Yaku::Sankantsu);
    let c18 = crate::regular::three_colors(koutsu_of(ms));
    let s18 = push_if(s17, c18, Yaku::SanshokuDoukou);
    lemma_push_if_regular(s17, c18, Yaku::SanshokuDoukou);
    lemma_push_if_regular(s18, crate::regular::shousangen(h), Yaku::Shousangen);
    let t = triplet_yaku_onto(q, h, agari_type);
    // outside and color yaku
    let ts = agari_tiles(h);
    let gs = crate::hand_tiles::agari_groups(h);
    let honro = crate::regular::all_yaochuu(ts) && !crate::yakuman::all_terminals(ts);
    let s20 = push_if(t, honro, Yaku::Honroutou);
    lemma_push_if_regular(t, honro, Yaku::Honroutou);
    let c21 = !honro && crate::hand_tiles::junchan_groups(gs);
    let s21 = push_if(s20, c21, Yaku::Junchan);
    lemma_push_if_regular(s20, c21, Yaku::Junchan);
    let c22 = !honro && !crate::hand_tiles::junchan_groups(gs) && crate::hand_tiles::chanta_groups(gs);
    let s22 = push_if(s21, c22, Yaku::Chanta);
    lemma_push_if_regular(s21, c22, Yaku::Chanta);
    let c23 = crate::hand_tiles::chinitsu_tiles(ts);
    let s23 = push_if(s22, c23, Yaku::Chinitsu);
    lemma_push_if_regular(s22, c23, Yaku::Chinitsu);
    lemma_push_if_regular(s23, !c23 && crate::hand_tiles::honitsu_tiles(ts), Yaku::Honitsu);
}

proof fn lemma_chiitoitsu_yaku_regular(pairs: Seq<(Hai, Hai)>, player: PlayerContext, game: GameContext, agari_type: AgariType)
    ensures
        only_regular(chiitoitsu_yaku(pairs, player, game, agari_type)),
{
    let tsumo = agari_type == AgariType::Tsumo;
    let ron = agari_type == AgariType::Ron;
    let ts = pairs_tiles(pairs);
    let s0 = seq![Yaku::Chiitoitsu];
    assert(only_regular(s0));
    let s1 = push_if(s0, player.is_daburu_riichi, Yaku::DaburuRiichi);
    lemma_push_if_regular(s0, player.is_daburu_riichi, Yaku::DaburuRiichi);
    let s2 = push_if(s1, !player.is_daburu_riichi && player.is_riichi, Yaku::Riichi);
    lemma_push_if_regular(s1, !player.is_daburu_riichi && player.is_riichi, Yaku::Riichi);
    let s3 = push_if(s2, player.is_ippatsu, Yaku::Ippatsu);
    lemma_push_if_regular(s2, player.is_ippatsu, Yaku::Ippatsu);
    let s4 = push_if(s3, tsumo, Yaku::MenzenTsumo);
    lemma_push_if_regular(s3, tsumo, Yaku::MenzenTsumo);
    let s5 = push_if(s4, game.is_haitei && tsumo, Yaku::HaiteiRaoyue);
    lemma_push_if_regular(s4, game.is_haitei && tsumo, Yaku::HaiteiRaoyue);
    let s6 = push_if(s5, game.is_houtei && ron, Yaku::HouteiRaoyui);
    lemma_push_if_regular(s5, game.is_houtei && ron, Yaku::HouteiRaoyui);
    let c7 = crate::regular::all_simples(ts);
    let s7 = push_if(s6, c7, Yaku::Tanyao);
    lemma_push_if_regular(s6, c7, Yaku::Tanyao);
    let c8 = crate::regular::all_yaochuu(ts);
    let s8 = push_if(s7, c8, Yaku::Honroutou);
    lemma_push_if_regular(s7, c8, Yaku::Honroutou);
    let c9 = crate::hand_tiles::chinitsu_tiles(ts);
    let s9 = push_if(s8, c9, Yaku::Chinitsu);
    lemma_push_if_regular(s8, c9, Yaku::Chinitsu);
    lemma_push_if_regular(s9, !c9 && crate::hand_tiles::honitsu_tiles(ts), Yaku::Honitsu);
}

/// Yakuman and regular yaku never mix: when the hand has a yakuman, only yakuman are
/// listed (no regular yaku, no dora); otherwise no yakuman is listed. The plain form of a
/// yakuman is never listed beside its double form.
pub proof fn lemma_yakuman_stand_alone(
    org: HandOrganization,
    player: PlayerContext,
    game: GameContext,
    agari_type: AgariType,
)
    ensures
        all_yakuman(org, game, agari_type).len() > 0 ==> only_yakuman(
            final_yaku(org, player, game, agari_type),
        ),
        all_yakuman(org, game, agari_type).len() == 0 ==> forall|k: int|
            0 <= k < final_yaku(org, player, game, agari_type).len() ==> yakuman_value(
                #[trigger] final_yaku(org, player, game, agari_type)[k],
            ) == 0,
        !(final_yaku(org, player, game, agari_type).contains(Yaku::Suuankou) && final_yaku(
            org,
            player,
            game,
            agari_type,
        ).contains(Yaku::SuuankouTanki)),
        !(final_yaku(org, player, game, agari_type).contains(Yaku::KokushiMusou) && final_yaku(
            org,
            player,
            game,
            agari_type,
        ).contains(Yaku::KokushiMusouJusanmen)),
        !(final_yaku(org, player, game, agari_type).contains(Yaku::ChuurenPoutou) && final_yaku(
            org,
            player,
            game,
            agari_type,
        ).contains(Yaku::JunseiChuurenPoutou)),
{
    let ym = all_yakuman(org, game, agari_type);
    let f = final_yaku(org, player, game, agari_type);
    lemma_hand_yakuman_only_yakuman(org, agari_type);
    let gs = game_state_yakuman(game);
    let e = Seq::<Yaku>::empty();
    lemma_push_if_yakuman(e, game.is_tenhou, Yaku::Tenhou);
    lemma_push_if_yakuman(push_if(e, game.is_tenhou, Yaku::Tenhou), game.is_chiihou, Yaku::Chiihou);
    lemma_push_if_yakuman(
        push_if(push_if(e, game.is_tenhou, Yaku::Tenhou), game.is_chiihou, Yaku::Chiihou),
        game.is_renhou,
        Yaku::Renhou,
    );
    lemma_concat_only_yakuman(gs, hand_yakuman(org, agari_type));
    let pred = |y: Yaku| crate::yakuman::keeps_yakuman(y, ym);
    if ym.len() > 0 {
        assert(f == ym.filter(pred));
        assert forall|k: int| 0 <= k < f.len() implies yakuman_value(#[trigger] f[k]) > 0 by {
            assert(f.contains(f[k]));
            ym.lemma_filter_contains_rev(pred, f[k]);
        }
        if f.contains(Yaku::Suuankou) && f.contains(Yaku::SuuankouTanki) {
            let k = choose|k: int| 0 <= k < f.len() && f[k] == Yaku::Suuankou;
            ym.lemma_filter_pred(pred, k);
            ym.lemma_filter_contains_rev(pred, Yaku::SuuankouTanki);
        }
        if f.contains(Yaku::KokushiMusou) && f.contains(Yaku::KokushiMusouJusanmen) {
            let k = choose|k: int| 0 <= k < f.len() && f[k] == Yaku::KokushiMusou;
            ym.lemma_filter_pred(pred, k);
            ym.lemma_filter_contains_rev(pred, Yaku::KokushiMusouJusanmen);
        }
        if f.contains(Yaku::ChuurenPoutou) && f.contains(Yaku::JunseiChuurenPoutou) {
            let k = choose|k: int| 0 <= k < f.len() && f[k] == Yaku::ChuurenPoutou;
            ym.lemma_filter_pred(pred, k);
            ym.lemma_filter_contains_rev(pred, Yaku::JunseiChuurenPoutou);
        }
    } else {
        let reg = regular_yaku(org, player, game, agari_type);
        assert(only_regular(reg)) by {
            match org {
                HandOrganization::YonmentsuIchiatama(h) => {
                    lemma_standard_yaku_regular(h, player, game, agari_type);
                },
                HandOrganization::Irregular { counts, .. } => {
                    lemma_chiitoitsu_yaku_regular(chiitoitsu_pairs(counts@).unwrap(), player, game, agari_type);
                },
            }
        }
        let ts = org_tiles(org);
        let d = repeat(Yaku::Dora, dora_count(ts, game.dora_indicators@));
        let u = repeat(Yaku::UraDora, dora_count(ts, game.uradora_indicators@));
        assert forall|k: int| 0 <= k < f.len() implies yakuman_value(#[trigger] f[k]) == 0 by {
            if counts_dora(org, player, game, agari_type) {
                if k < reg.len() {
                    assert(f[k] == reg[k]);
                } else if k < reg.len() + d.len() {
                    assert(f[k] == Yaku::Dora);
                } else {
                    assert(f[k] == Yaku::UraDora);
                }
            } else {
                assert(f[k] == reg[k]);
            }
        }
    }
}

/// Dora and ura dora are listed only for a hand with a yaku or in riichi, and ura dora
/// only in riichi; a hand without yaku and without riichi lists nothing.
pub proof fn lemma_dora_need_a_yaku(
    org: HandOrganization,
    player: PlayerContext,
    game: GameContext,
    agari_type: AgariType,
)
    ensures
        final_yaku(org, player, game, agari_type).contains(Yaku::Dora) ==> all_yakuman(org, game, agari_type).len() == 0
            && (regular_yaku(org, player, game, agari_type).len() > 0 || in_riichi(player)),
        final_yaku(org, player, game, agari_type).contains(Yaku::UraDora) ==> in_riichi(player),
        all_yakuman(org, game, agari_type).len() == 0 && regular_yaku(org, player, game, agari_type).len() == 0
            && !in_riichi(player) ==> final_yaku(org, player, game, agari_type).len() == 0,
{
    let f = final_yaku(org, player, game, agari_type);
    let ym = all_yakuman(org, game, agari_type);
    let reg = regular_yaku(org, player, game, agari_type);
    lemma_yakuman_stand_alone(org, player, game, agari_type);
    assert(only_regular(reg)) by {
        match org {
            HandOrganization::YonmentsuIchiatama(h) => {
                lemma_standard_yaku_regular(h, player, game, agari_type);
            },
            HandOrganization::Irregular { counts, .. } => {
                lemma_chiitoitsu_yaku_regular(chiitoitsu_pairs(counts@).unwrap(), player, game, agari_type);
            },
        }
    }
    if f.contains(Yaku::Dora) {
        let k = choose|k: int| 0 <= k < f.len() && f[k] == Yaku::Dora;
        if ym.len() > 0 {
            assert(yakuman_value(f[k]) > 0);
        } else if !counts_dora(org, player, game, agari_type) {
            assert(f[k] == reg[k]);
        }
    }
    if f.contains(Yaku::UraDora) {
        let k = choose|k: int| 0 <= k < f.len() && f[k] == Yaku::UraDora;
        if ym.len() > 0 {
            assert(yakuman_value(f[k]) > 0);
        } else if counts_dora(org, player, game, agari_type) {
            let ts = org_tiles(org);
            let d = repeat(Yaku::Dora, dora_count(ts, game.dora_indicators@));
            if !counts_uradora(player, game) {
                if k < reg.len() {
                    assert(f[k] == reg[k]);
                } else {
                    assert(f[k] == d[k - reg.len()]);
                }
            }
        } else {
            assert(f[k] == reg[k]);
        }
    }
}

} // verus!
