use vstd::prelude::*;
use crate::game::{AgariType, GameContext, PlayerContext};
use crate::input::UserInput;
use crate::tiles::{Hai, Kaze, Suhai};

verus! {

/// The closed hand of the sample win: 234567m 345678p 44s.
pub open spec fn example_hand() -> Seq<Hai> {
    seq![
        Hai::Suhai(2, Suhai::Manzu),
        Hai::Suhai(3, Suhai::Manzu),
        Hai::Suhai(4, Suhai::Manzu),
        Hai::Suhai(5, Suhai::Manzu),
        Hai::Suhai(6, Suhai::Manzu),
        Hai::Suhai(7, Suhai::Manzu),
        Hai::Suhai(3, Suhai::Pinzu),
        Hai::Suhai(4, Suhai::Pinzu),
        Hai::Suhai(5, Suhai::Pinzu),
        Hai::Suhai(6, Suhai::Pinzu),
        Hai::Suhai(7, Suhai::Pinzu),
        Hai::Suhai(8, Suhai::Pinzu),
        Hai::Suhai(4, Suhai::Souzu),
        Hai::Suhai(4, Suhai::Souzu),
    ]
}

/// A sample win: the South seat, not the dealer, in riichi and concealed, wins by
/// tsumo on the 8 of circles in an East round, with dora indicator 2p, ura dora
/// indicator 6m, one red five and one honba.
pub fn create_example_hand_input() -> (input: UserInput)
    ensures
        input.hand_tiles@ == example_hand(),
        input.winning_tile == Hai::Suhai(8, Suhai::Pinzu),
        input.open_melds@.len() == 0,
        input.closed_kans@.len() == 0,
        input.player_context == (PlayerContext {
            jikaze: Kaze::Nan,
            is_oya: false,
            is_riichi: true,
            is_daburu_riichi: false,
            is_ippatsu: false,
            is_menzen: true,
        }),
        input.game_context.bakaze == Kaze::Ton,
        input.game_context.honba == 1,
        input.game_context.dora_indicators@ == seq![Hai::Suhai(2, Suhai::Pinzu)],
        input.game_context.uradora_indicators@ == seq![Hai::Suhai(6, Suhai::Manzu)],
        input.game_context.num_akadora == 1,
        !input.game_context.is_tenhou,
        !input.game_context.is_chiihou,
        !input.game_context.is_renhou,
        !input.game_context.is_haitei,
        !input.game_context.is_houtei,
        !input.game_context.is_rinshan,
        !input.game_context.is_chankan,
        input.agari_type == AgariType::Tsumo,
{
    let mut hand_tiles: Vec<Hai> = Vec::new();
    hand_tiles.push(Hai::Suhai(2, Suhai::Manzu));
    hand_tiles.push(Hai::Suhai(3, Suhai::Manzu));
    hand_tiles.push(Hai::Suhai(4, Suhai::Manzu));
    hand_tiles.push(Hai::Suhai(5, Suhai::Manzu));
    hand_tiles.push(Hai::Suhai(6, Suhai::Manzu));
    hand_tiles.push(Hai::Suhai(7, Suhai::Manzu));
    hand_tiles.push(Hai::Suhai(3, Suhai::Pinzu));
    hand_tiles.push(Hai::Suhai(4, Suhai::Pinzu));
    hand_tiles.push(Hai::Suhai(5, Suhai::Pinzu));
    hand_tiles.push(Hai::Suhai(6, Suhai::Pinzu));
    hand_tiles.push(Hai::Suhai(7, Suhai::Pinzu));
    hand_tiles.push(Hai::Suhai(8, Suhai::Pinzu));
    hand_tiles.push(Hai::Suhai(4, Suhai::Souzu));
    hand_tiles.push(Hai::Suhai(4, Suhai::Souzu));
    assert(hand_tiles@ == example_hand());

    let mut dora_indicators: Vec<Hai> = Vec::new();
    dora_indicators.push(Hai::Suhai(2, Suhai::Pinzu));
    let mut uradora_indicators: Vec<Hai> = Vec::new();
    uradora_indicators.push(Hai::Suhai(6, Suhai::Manzu));

    let player_context = PlayerContext {
        jikaze: Kaze::Nan,
        is_oya: false,
        is_riichi: true,
        is_daburu_riichi: false,
        is_ippatsu: false,
        is_menzen: true,
    };
    let game_context = GameContext {
        bakaze: Kaze::Ton,
        honba: 1,
        dora_indicators,
        uradora_indicators,
        num_akadora: 1,
        is_tenhou: false,
        is_chiihou: false,
        is_renhou: false,
        is_haitei: false,
        is_houtei: false,
        is_rinshan: false,
        is_chankan: false,
    };
    UserInput {
        hand_tiles,
        winning_tile: Hai::Suhai(8, Suhai::Pinzu),
        open_melds: Vec::new(),
        closed_kans: Vec::new(),
        player_context,
        game_context,
        agari_type: AgariType::Tsumo,
    }
}

} // verus!
