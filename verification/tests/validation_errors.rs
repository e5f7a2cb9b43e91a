use riichi_calc::game::{AgariType, GameContext, PlayerContext};
use riichi_calc::hand::MentsuType;
use riichi_calc::input::{OpenMeld, UserInput};
use riichi_calc::organize::organize_hand;
use riichi_calc::tiles::{index_from_hai, Hai, Kaze, Suhai};
use riichi_calc::validate::validate_input;

fn m(n: u8) -> Hai {
    Hai::Suhai(n, Suhai::Manzu)
}

fn p(n: u8) -> Hai {
    Hai::Suhai(n, Suhai::Pinzu)
}

fn s(n: u8) -> Hai {
    Hai::Suhai(n, Suhai::Souzu)
}

fn base() -> UserInput {
    UserInput {
        hand_tiles: vec![
            m(2), m(3), m(4), m(5), m(6), m(7), p(3), p(4), p(5), p(6), p(7), p(8), s(4), s(4),
        ],
        winning_tile: p(8),
        open_melds: vec![],
        closed_kans: vec![],
        player_context: PlayerContext {
            jikaze: Kaze::Nan,
            is_oya: false,
            is_riichi: false,
            is_daburu_riichi: false,
            is_ippatsu: false,
            is_menzen: true,
        },
        game_context: GameContext {
            bakaze: Kaze::Ton,
            honba: 0,
            dora_indicators: vec![],
            uradora_indicators: vec![],
            num_akadora: 0,
            is_tenhou: false,
            is_chiihou: false,
            is_renhou: false,
            is_haitei: false,
            is_houtei: false,
            is_rinshan: false,
            is_chankan: false,
        },
        agari_type: AgariType::Ron,
    }
}

fn counts(inp: &UserInput) -> [u8; 34] {
    let mut c = [0u8; 34];
    for t in &inp.hand_tiles {
        c[index_from_hai(*t)] += 1;
    }
    c
}

fn organize_err(inp: &UserInput) -> &'static str {
    organize_hand(inp).unwrap_err()
}

#[test]
fn valid_input_passes() {
    let inp = base();
    assert_eq!(validate_input(&inp, &counts(&inp)), Ok(()));
    assert!(organize_hand(&inp).is_ok());
}

#[test]
fn riichi_and_double_riichi() {
    let mut inp = base();
    inp.player_context.is_riichi = true;
    inp.player_context.is_daburu_riichi = true;
    assert_eq!(
        validate_input(&inp, &counts(&inp)),
        Err("Invalid state: Cannot be both Riichi and Daburu Riichi.")
    );
    assert_eq!(organize_err(&inp), "Invalid state: Cannot be both Riichi and Daburu Riichi.");
}

#[test]
fn ippatsu_without_riichi() {
    let mut inp = base();
    inp.player_context.is_ippatsu = true;
    assert_eq!(organize_err(&inp), "Invalid state: Ippatsu requires Riichi or Daburu Riichi.");
}

#[test]
fn menzen_with_open_melds() {
    let mut inp = base();
    inp.open_melds = vec![OpenMeld { mentsu_type: MentsuType::Shuntsu, representative_tile: m(2) }];
    assert_eq!(organize_err(&inp), "Invalid state: Hand is declared menzen but has open melds.");
}

#[test]
fn last_draw_by_ron() {
    let mut inp = base();
    inp.game_context.is_haitei = true;
    assert_eq!(organize_err(&inp), "Invalid state: Haitei (last draw) cannot be a Ron win.");
}

#[test]
fn last_discard_by_tsumo() {
    let mut inp = base();
    inp.agari_type = AgariType::Tsumo;
    inp.game_context.is_houtei = true;
    assert_eq!(organize_err(&inp), "Invalid state: Houtei (last discard) cannot be a Tsumo win.");
}

#[test]
fn kan_draw_by_ron() {
    let mut inp = base();
    inp.game_context.is_rinshan = true;
    assert_eq!(organize_err(&inp), "Invalid state: Rinshan (kan draw) cannot be a Ron win.");
}

#[test]
fn robbed_kan_by_tsumo() {
    let mut inp = base();
    inp.agari_type = AgariType::Tsumo;
    inp.game_context.is_chankan = true;
    assert_eq!(organize_err(&inp), "Invalid state: Chankan (robbing kan) cannot be a Tsumo win.");
}

#[test]
fn blessing_of_heaven_conflicts() {
    let mut inp = base();
    inp.agari_type = AgariType::Tsumo;
    inp.game_context.is_tenhou = true;
    assert_eq!(organize_err(&inp), "Invalid state: Tenhou requires player to be Oya (dealer).");
    inp.player_context.is_oya = true;
    inp.agari_type = AgariType::Ron;
    assert_eq!(organize_err(&inp), "Invalid state: Tenhou must be a Tsumo win.");
    inp.agari_type = AgariType::Tsumo;
    inp.player_context.is_menzen = false;
    inp.open_melds = vec![OpenMeld { mentsu_type: MentsuType::Shuntsu, representative_tile: m(2) }];
    assert_eq!(
        organize_err(&inp),
        "Invalid state: Tenhou cannot have any calls (no open melds or kans)."
    );
}

#[test]
fn blessing_of_earth_conflicts() {
    let mut inp = base();
    inp.game_context.is_chiihou = true;
    inp.player_context.is_oya = true;
    assert_eq!(organize_err(&inp), "Invalid state: Chiihou requires player to be non-Oya.");
    inp.player_context.is_oya = false;
    assert_eq!(organize_err(&inp), "Invalid state: Chiihou must be a Tsumo win.");
    inp.agari_type = AgariType::Tsumo;
    inp.closed_kans = vec![m(2)];
    assert_eq!(
        organize_err(&inp),
        "Invalid state: Chiihou cannot have any calls (no open melds or kans)."
    );
}

#[test]
fn blessing_of_man_by_tsumo() {
    let mut inp = base();
    inp.agari_type = AgariType::Tsumo;
    inp.game_context.is_renhou = true;
    assert_eq!(organize_err(&inp), "Invalid state: Renhou must be a Ron win.");
}

#[test]
fn too_many_melds() {
    let mut inp = base();
    inp.closed_kans = vec![m(2), m(3), m(4), m(5), m(6)];
    assert_eq!(
        organize_err(&inp),
        "Invalid hand: More than 4 total melds (kans + open melds) declared."
    );
}

#[test]
fn tile_count_does_not_match_kans() {
    let mut inp = base();
    inp.hand_tiles.pop();
    assert_eq!(
        organize_err(&inp),
        "Invalid hand: Tile count does not match declared kans. (Expected 14 for 0 kans, 15 for 1 kan, 16 for 2, 17 for 3, 18 for 4)."
    );
}

#[test]
fn winning_tile_missing() {
    let mut inp = base();
    inp.winning_tile = s(9);
    assert_eq!(
        organize_err(&inp),
        "Invalid input: Winning tile is not present in the list of hand tiles."
    );
}

#[test]
fn five_of_a_tile() {
    let mut inp = base();
    inp.hand_tiles = vec![
        m(1), m(1), m(1), m(1), m(1), m(2), m(3), p(4), p(5), p(6), s(7), s(8), s(9), s(9),
    ];
    inp.winning_tile = m(2);
    assert_eq!(organize_err(&inp), "Invalid hand: Contains 5 or more of a single tile type.");
}

#[test]
fn more_red_fives_than_fives() {
    let mut inp = base();
    inp.game_context.num_akadora = 3;
    assert_eq!(
        organize_err(&inp),
        "Invalid input: Number of akadora exceeds the total number of '5' tiles in the hand."
    );
}

#[test]
fn more_than_four_red_fives() {
    let mut inp = base();
    inp.hand_tiles = vec![
        m(5), m(5), m(5), p(5), p(5), p(5), s(5), s(5), s(5), m(1), m(2), m(3), s(9), s(9),
    ];
    inp.winning_tile = m(1);
    inp.game_context.num_akadora = 5;
    assert_eq!(organize_err(&inp), "Invalid input: Number of akadora cannot be greater than 4.");
}

#[test]
fn closed_kan_not_in_hand() {
    let mut inp = base();
    inp.hand_tiles.push(p(9));
    inp.closed_kans = vec![p(9)];
    assert_eq!(organize_err(&inp), "Invalid input: declared closed kan not present in hand tiles.");
}

#[test]
fn pon_not_in_hand() {
    let mut inp = base();
    inp.player_context.is_menzen = false;
    inp.open_melds = vec![OpenMeld { mentsu_type: MentsuType::Koutsu, representative_tile: m(9) }];
    assert_eq!(organize_err(&inp), "Invalid input: declared Pon not present in hand tiles.");
}

#[test]
fn open_kan_not_in_hand() {
    let mut inp = base();
    inp.hand_tiles.push(m(9));
    inp.player_context.is_menzen = false;
    inp.open_melds = vec![OpenMeld { mentsu_type: MentsuType::Kantsu, representative_tile: m(9) }];
    assert_eq!(organize_err(&inp), "Invalid input: declared open Kan not present in hand tiles.");
}

#[test]
fn chii_from_a_bad_tile() {
    let mut inp = base();
    inp.player_context.is_menzen = false;
    inp.open_melds = vec![OpenMeld { mentsu_type: MentsuType::Shuntsu, representative_tile: p(8) }];
    assert_eq!(
        organize_err(&inp),
        "Invalid representative tile for Chi (must be 1-7 of a suit)."
    );
}

#[test]
fn chii_not_in_hand() {
    let mut inp = base();
    inp.player_context.is_menzen = false;
    inp.open_melds = vec![OpenMeld { mentsu_type: MentsuType::Shuntsu, representative_tile: s(1) }];
    assert_eq!(organize_err(&inp), "Invalid input: declared Chi not present in hand tiles.");
}

#[test]
fn four_calls_without_a_pair() {
    let mut inp = base();
    inp.hand_tiles = vec![
        m(1), m(1), m(1), m(1), p(1), p(1), p(1), p(1), s(1), s(1), s(1), s(1),
        m(9), m(9), m(9), m(9), s(8), s(9),
    ];
    inp.winning_tile = s(9);
    inp.closed_kans = vec![m(1), p(1), s(1), m(9)];
    assert_eq!(organize_err(&inp), "Invalid hand: 4 open melds but no pair found.");
}
