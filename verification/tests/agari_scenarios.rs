use riichi_calc::agari::calculate_agari;
use riichi_calc::example::create_example_hand_input;
use riichi_calc::game::{AgariType, GameContext, PlayerContext};
use riichi_calc::hand::{HandOrganization, HandStructure, Machi, MentsuType};
use riichi_calc::input::{OpenMeld, UserInput};
use riichi_calc::organize::organize_hand;
use riichi_calc::tiles::{Hai, Jihai, Kaze, Sangenpai, Suhai};
use riichi_calc::yaku::Yaku;

fn m(n: u8) -> Hai {
    Hai::Suhai(n, Suhai::Manzu)
}

fn p(n: u8) -> Hai {
    Hai::Suhai(n, Suhai::Pinzu)
}

fn s(n: u8) -> Hai {
    Hai::Suhai(n, Suhai::Souzu)
}

fn wind(k: Kaze) -> Hai {
    Hai::Jihai(Jihai::Kaze(k))
}

fn dragon(d: Sangenpai) -> Hai {
    Hai::Jihai(Jihai::Sangen(d))
}

fn player(menzen: bool) -> PlayerContext {
    PlayerContext {
        jikaze: Kaze::Shaa,
        is_oya: false,
        is_riichi: false,
        is_daburu_riichi: false,
        is_ippatsu: false,
        is_menzen: menzen,
    }
}

fn game() -> GameContext {
    GameContext {
        bakaze: Kaze::Ton,
        honba: 0,
        dora_indicators: vec![],
        uradora_indicators: vec![],
        num_akadora: 0,
        is_tenhou: false,
        is_chiihou: false,
        is_renhou: false,
        is_haitei: false,
        is_houtei: false,
        is_rinshan: false,
        is_chankan: false,
    }
}

fn input(tiles: Vec<Hai>, win: Hai, agari_type: AgariType) -> UserInput {
    UserInput {
        hand_tiles: tiles,
        winning_tile: win,
        open_melds: vec![],
        closed_kans: vec![],
        player_context: player(true),
        game_context: game(),
        agari_type,
    }
}

fn yaku_of(inp: &UserInput) -> Vec<Yaku> {
    calculate_agari(inp).expect("the hand should be accepted").yaku_list
}

#[test]
fn example_hand_is_riichi_tsumo_pinfu_tanyao_with_dora() {
    let inp = create_example_hand_input();
    assert_eq!(inp.hand_tiles.len(), 14);
    let res = calculate_agari(&inp).unwrap();
    assert_eq!(
        res.yaku_list,
        vec![Yaku::Riichi, Yaku::MenzenTsumo, Yaku::Pinfu, Yaku::Tanyao, Yaku::Dora, Yaku::UraDora]
    );
    match res.hand_structure {
        HandStructure::YonmentsuIchiatama(h) => {
            assert_eq!(h.atama, (s(4), s(4)));
            assert_eq!(h.agari_hai, p(8));
            assert_eq!(h.machi, Machi::Ryanmen);
            assert_eq!(h.mentsu[0].tiles[0], m(2));
            assert_eq!(h.mentsu[1].tiles[0], m(5));
            assert_eq!(h.mentsu[2].tiles[0], p(3));
            assert_eq!(h.mentsu[3].tiles[0], p(6));
        }
        _ => panic!("expected a four-melds-one-pair hand"),
    }
}

#[test]
fn seven_pairs_with_dora() {
    let tiles = vec![
        m(1), m(1), m(3), m(3), p(5), p(5), p(7), p(7), s(9), s(9),
        wind(Kaze::Ton), wind(Kaze::Ton), dragon(Sangenpai::Haku), dragon(Sangenpai::Haku),
    ];
    let mut inp = input(tiles, dragon(Sangenpai::Haku), AgariType::Ron);
    inp.game_context.dora_indicators = vec![s(8)];
    let res = calculate_agari(&inp).unwrap();
    assert_eq!(res.yaku_list, vec![Yaku::Chiitoitsu, Yaku::Dora, Yaku::Dora]);
    match res.hand_structure {
        HandStructure::Chiitoitsu { pairs, agari_hai, machi } => {
            assert_eq!(pairs[0], (m(1), m(1)));
            assert_eq!(pairs[6], (dragon(Sangenpai::Haku), dragon(Sangenpai::Haku)));
            assert_eq!(agari_hai, dragon(Sangenpai::Haku));
            assert_eq!(machi, Machi::Tanki);
        }
        _ => panic!("expected seven pairs"),
    }
}

#[test]
fn seven_pairs_of_honors_is_all_honors() {
    let tiles = vec![
        wind(Kaze::Ton), wind(Kaze::Ton), wind(Kaze::Nan), wind(Kaze::Nan),
        wind(Kaze::Shaa), wind(Kaze::Shaa), wind(Kaze::Pei), wind(Kaze::Pei),
        dragon(Sangenpai::Haku), dragon(Sangenpai::Haku), dragon(Sangenpai::Hatsu),
        dragon(Sangenpai::Hatsu), dragon(Sangenpai::Chun), dragon(Sangenpai::Chun),
    ];
    let inp = input(tiles, dragon(Sangenpai::Chun), AgariType::Tsumo);
    assert_eq!(yaku_of(&inp), vec![Yaku::Tsuuiisou]);
}

#[test]
fn pure_nine_gates() {
    let tiles = vec![
        m(1), m(1), m(1), m(2), m(3), m(4), m(5), m(5), m(6), m(7), m(8), m(9), m(9), m(9),
    ];
    let inp = input(tiles, m(5), AgariType::Tsumo);
    let res = calculate_agari(&inp).unwrap();
    assert_eq!(res.yaku_list, vec![Yaku::JunseiChuurenPoutou]);
    match res.hand_structure {
        HandStructure::ChuurenPoutou { hand, is_junsei } => {
            assert!(is_junsei);
            assert_eq!(hand.atama, (m(5), m(5)));
            assert_eq!(hand.machi, Machi::Tanki);
        }
        _ => panic!("expected nine gates"),
    }
}

#[test]
fn plain_nine_gates() {
    let tiles = vec![
        m(1), m(1), m(1), m(2), m(3), m(4), m(5), m(5), m(6), m(7), m(8), m(9), m(9), m(9),
    ];
    let inp = input(tiles, m(9), AgariType::Tsumo);
    let res = calculate_agari(&inp).unwrap();
    assert_eq!(res.yaku_list, vec![Yaku::ChuurenPoutou]);
}

#[test]
fn four_concealed_triplets_on_a_single_wait() {
    let tiles = vec![
        m(1), m(1), m(1), p(3), p(3), p(3), s(5), s(5), s(5), s(7), s(7), s(7), m(9), m(9),
    ];
    let inp = input(tiles, m(9), AgariType::Tsumo);
    assert_eq!(yaku_of(&inp), vec![Yaku::SuuankouTanki]);
}

#[test]
fn blessing_of_heaven_replaces_regular_yaku() {
    let mut inp = create_example_hand_input();
    inp.player_context.is_oya = true;
    inp.game_context.is_tenhou = true;
    assert_eq!(yaku_of(&inp), vec![Yaku::Tenhou]);
}

#[test]
fn full_flush() {
    let tiles = vec![
        m(1), m(1), m(1), m(2), m(3), m(4), m(5), m(6), m(7), m(8), m(8), m(8), m(9), m(9),
    ];
    let inp = input(tiles, m(9), AgariType::Ron);
    assert_eq!(yaku_of(&inp), vec![Yaku::Chinitsu]);
}

#[test]
fn half_flush_with_straight() {
    let tiles = vec![
        m(1), m(2), m(3), m(4), m(5), m(6), m(7), m(8), m(9),
        wind(Kaze::Nan), wind(Kaze::Nan), wind(Kaze::Nan),
        dragon(Sangenpai::Haku), dragon(Sangenpai::Haku),
    ];
    let inp = input(tiles, dragon(Sangenpai::Haku), AgariType::Ron);
    assert_eq!(yaku_of(&inp), vec![Yaku::Ittsu, Yaku::Honitsu]);
}

#[test]
fn value_triplets_of_prevalent_and_seat_wind_and_dragon() {
    let tiles = vec![
        wind(Kaze::Ton), wind(Kaze::Ton), wind(Kaze::Ton),
        wind(Kaze::Shaa), wind(Kaze::Shaa), wind(Kaze::Shaa),
        dragon(Sangenpai::Chun), dragon(Sangenpai::Chun), dragon(Sangenpai::Chun),
        m(2), m(3), m(4), p(9), p(9),
    ];
    let mut inp = input(tiles, m(4), AgariType::Ron);
    inp.player_context.is_menzen = false;
    let list = yaku_of(&inp);
    assert_eq!(list[0], Yaku::YakuhaiBakaze);
    assert_eq!(list[1], Yaku::YakuhaiJikaze);
    assert_eq!(list[2], Yaku::YakuhaiSangenpai);
    assert!(!list.contains(&Yaku::Honitsu));
}

#[test]
fn hand_without_yaku_lists_no_dora() {
    let tiles = vec![
        m(1), m(2), m(3), p(4), p(5), p(6), s(7), s(8), s(9), s(2), s(3), s(4), p(9), p(9),
    ];
    let mut inp = input(tiles, s(4), AgariType::Ron);
    inp.player_context.is_menzen = false;
    inp.game_context.dora_indicators = vec![p(8)];
    assert_eq!(yaku_of(&inp), Vec::<Yaku>::new());
}

#[test]
fn riichi_alone_counts_dora() {
    let tiles = vec![
        m(1), m(2), m(3), p(4), p(5), p(6), s(7), s(8), s(9), s(2), s(3), s(4), p(9), p(9),
    ];
    let mut inp = input(tiles, s(3), AgariType::Ron);
    inp.player_context.is_riichi = true;
    inp.game_context.dora_indicators = vec![p(8)];
    inp.game_context.uradora_indicators = vec![m(9)];
    assert_eq!(yaku_of(&inp), vec![Yaku::Riichi, Yaku::Dora, Yaku::Dora, Yaku::UraDora]);
}

fn orphans_hand(extra: Hai) -> Vec<Hai> {
    vec![
        m(1), m(9), p(1), p(9), s(1), s(9),
        wind(Kaze::Ton), wind(Kaze::Nan), wind(Kaze::Shaa), wind(Kaze::Pei),
        dragon(Sangenpai::Haku), dragon(Sangenpai::Hatsu), dragon(Sangenpai::Chun),
        extra,
    ]
}

#[test]
fn thirteen_orphans() {
    let inp = input(orphans_hand(dragon(Sangenpai::Chun)), m(1), AgariType::Tsumo);
    let res = calculate_agari(&inp).unwrap();
    assert_eq!(res.yaku_list, vec![Yaku::KokushiMusou]);
    match res.hand_structure {
        HandStructure::KokushiMusou { atama, agari_hai, machi, .. } => {
            assert_eq!(atama, (dragon(Sangenpai::Chun), dragon(Sangenpai::Chun)));
            assert_eq!(agari_hai, m(1));
            assert_eq!(machi, Machi::KokushiIchimen);
        }
        _ => panic!("expected thirteen orphans"),
    }
}

#[test]
fn thirteen_orphans_on_the_thirteen_sided_wait() {
    let inp = input(orphans_hand(p(9)), p(9), AgariType::Ron);
    assert_eq!(yaku_of(&inp), vec![Yaku::KokushiMusouJusanmen]);
}

#[test]
fn irregular_hand_that_is_neither_orphans_nor_pairs() {
    let mut tiles = orphans_hand(dragon(Sangenpai::Chun));
    tiles[1] = m(2);
    let inp = input(tiles, m(1), AgariType::Ron);
    assert_eq!(
        calculate_agari(&inp).unwrap_err(),
        "Invalid irregular hand. Not Kokushi or Chiitoitsu."
    );
}

#[test]
fn two_dragon_triplets_count_twice() {
    let tiles = vec![
        dragon(Sangenpai::Haku), dragon(Sangenpai::Haku), dragon(Sangenpai::Haku),
        dragon(Sangenpai::Chun), dragon(Sangenpai::Chun), dragon(Sangenpai::Chun),
        m(2), m(3), m(4), p(6), p(7), p(8), s(9), s(9),
    ];
    let mut inp = input(tiles, m(4), AgariType::Ron);
    inp.player_context.is_menzen = false;
    let list = yaku_of(&inp);
    assert_eq!(list, vec![Yaku::YakuhaiSangenpai, Yaku::YakuhaiSangenpai]);
}

#[test]
fn closed_kan_hand() {
    let tiles = vec![
        m(1), m(1), m(1), m(1), p(2), p(3), p(4), p(5), p(6), p(7), s(3), s(4), s(5), s(6), s(6),
    ];
    let mut inp = input(tiles, s(4), AgariType::Ron);
    inp.closed_kans = vec![m(1)];
    match organize_hand(&inp).unwrap() {
        HandOrganization::YonmentsuIchiatama(h) => {
            assert_eq!(h.mentsu[0].mentsu_type, MentsuType::Kantsu);
            assert!(!h.mentsu[0].is_minchou);
            assert_eq!(h.atama, (s(6), s(6)));
            assert_eq!(h.machi, Machi::Kanchan);
        }
        _ => panic!("expected a four-melds-one-pair hand"),
    }
}

#[test]
fn called_pon_and_chii() {
    let tiles = vec![
        m(5), m(5), m(5), p(2), p(3), p(4), s(1), s(2), s(3), s(7), s(8), s(9), p(9), p(9),
    ];
    let mut inp = input(tiles, s(7), AgariType::Ron);
    inp.player_context.is_menzen = false;
    inp.open_melds = vec![
        OpenMeld { mentsu_type: MentsuType::Koutsu, representative_tile: m(5) },
        OpenMeld { mentsu_type: MentsuType::Shuntsu, representative_tile: p(2) },
    ];
    match organize_hand(&inp).unwrap() {
        HandOrganization::YonmentsuIchiatama(h) => {
            assert_eq!(h.mentsu[0].mentsu_type, MentsuType::Koutsu);
            assert!(h.mentsu[0].is_minchou);
            assert_eq!(h.mentsu[1].tiles, [p(2), p(3), p(4), p(4)]);
            assert!(h.mentsu[1].is_minchou);
            assert_eq!(h.machi, Machi::Penchan);
        }
        _ => panic!("expected a four-melds-one-pair hand"),
    }
}

#[test]
fn irregular_hand_keeps_the_counts() {
    let tiles = vec![
        m(1), m(1), m(3), m(3), p(5), p(5), p(7), p(7), s(9), s(9),
        wind(Kaze::Ton), wind(Kaze::Ton), dragon(Sangenpai::Haku), dragon(Sangenpai::Haku),
    ];
    let inp = input(tiles, m(3), AgariType::Ron);
    match organize_hand(&inp).unwrap() {
        HandOrganization::Irregular { counts, agari_hai } => {
            assert_eq!(counts[0], 2);
            assert_eq!(counts[2], 2);
            assert_eq!(counts[1], 0);
            assert_eq!(counts[31], 2);
            assert_eq!(agari_hai, m(3));
        }
        _ => panic!("expected an irregular hand"),
    }
}
