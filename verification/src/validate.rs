use vstd::prelude::*;
use crate::game::{AgariType, GameContext, PlayerContext};
use crate::hand::MentsuType;
use crate::input::{OpenMeld, UserInput};
use crate::tiles::{Hai, Suhai};

verus! {

/// The first conflict among the declared game-state flags, in the order the checks
/// are made; `None` when the flags agree with each other and with the hand's calls.
pub open spec fn game_state_error(
    p: PlayerContext,
    g: GameContext,
    a: AgariType,
    input: UserInput,
) -> Option<&'static str> {
    let no_calls = input.open_melds@.len() == 0 && input.closed_kans@.len() == 0;
    if p.is_daburu_riichi && p.is_riichi {
        Some("Invalid state: Cannot be both Riichi and Daburu Riichi.")
    } else if p.is_ippatsu && !(p.is_riichi || p.is_daburu_riichi) {
        Some("Invalid state: Ippatsu requires Riichi or Daburu Riichi.")
    } else if p.is_menzen && input.open_melds@.len() != 0 {
        Some("Invalid state: Hand is declared menzen but has open melds.")
    } else if g.is_haitei && a == AgariType::Ron {
        Some("Invalid state: Haitei (last draw) cannot be a Ron win.")
    } else if g.is_houtei && a == AgariType::Tsumo {
        Some("Invalid state: Houtei (last discard) cannot be a Tsumo win.")
    } else if g.is_haitei && g.is_houtei {
        Some("Invalid state: Cannot be both Haitei and Houtei.")
    } else if g.is_rinshan && a == AgariType::Ron {
        Some("Invalid state: Rinshan (kan draw) cannot be a Ron win.")
    } else if g.is_chankan && a == AgariType::Tsumo {
        Some("Invalid state: Chankan (robbing kan) cannot be a Tsumo win.")
    } else if g.is_tenhou && !p.is_oya {
        Some("Invalid state: Tenhou requires player to be Oya (dealer).")
    } else if g.is_tenhou && a != AgariType::Tsumo {
        Some("Invalid state: Tenhou must be a Tsumo win.")
    } else if g.is_tenhou && !no_calls {
        Some("Invalid state: Tenhou cannot have any calls (no open melds or kans).")
    } else if g.is_chiihou && p.is_oya {
        Some("Invalid state: Chiihou requires player to be non-Oya.")
    } else if g.is_chiihou && a != AgariType::Tsumo {
        Some("Invalid state: Chiihou must be a Tsumo win.")
    } else if g.is_chiihou && !no_calls {
        Some("Invalid state: Chiihou cannot have any calls (no open melds or kans).")
    } else if g.is_renhou && a != AgariType::Ron {
        Some("Invalid state: Renhou must be a Ron win.")
    } else {
        None
    }
}

/// How many of the called melds are quads.
pub open spec fn open_kan_count(melds: Seq<OpenMeld>) -> nat
    decreases melds.len(),
{
    if melds.len() == 0 {
        0
    } else {
        open_kan_count(melds.drop_last()) + if melds.last().mentsu_type == MentsuType::Kantsu {
            1nat
        } else {
            0nat
        }
    }
}

/// Quads of the hand: concealed kans and called kans.
pub open spec fn kan_total(input: UserInput) -> nat {
    input.closed_kans@.len() + open_kan_count(input.open_melds@)
}

/// Slot of the 5 of each suit.
pub open spec fn five_slots_total(master: Seq<u8>) -> int {
    master[4] + master[13] + master[22]
}

/// The first problem with the composition of the hand, given the slot counts of its
/// tiles; `None` when there is none.
pub open spec fn hand_composition_error(input: UserInput, master: Seq<u8>) -> Option<&'static str> {
    if input.closed_kans@.len() + input.open_melds@.len() > 4 {
        Some("Invalid hand: More than 4 total melds (kans + open melds) declared.")
    } else if input.hand_tiles@.len() != 14 + kan_total(input) {
        Some(
            "Invalid hand: Tile count does not match declared kans. (Expected 14 for 0 kans, 15 for 1 kan, 16 for 2, 17 for 3, 18 for 4).",
        )
    } else if !input.hand_tiles@.contains(input.winning_tile) {
        Some("Invalid input: Winning tile is not present in the list of hand tiles.")
    } else if exists|j: int| 0 <= j < 34 && master[j] > 4 {
        Some("Invalid hand: Contains 5 or more of a single tile type.")
    } else if input.game_context.num_akadora > five_slots_total(master) {
        Some("Invalid input: Number of akadora exceeds the total number of '5' tiles in the hand.")
    } else if input.game_context.num_akadora > 4 {
        Some("Invalid input: Number of akadora cannot be greater than 4.")
    } else {
        None
    }
}

/// The first problem with the input: game state first, then composition.
pub open spec fn input_error(input: UserInput, master: Seq<u8>) -> Option<&'static str> {
    match game_state_error(input.player_context, input.game_context, input.agari_type, input) {
        Some(e) => Some(e),
        None => hand_composition_error(input, master),
    }
}

/// `Ok` exactly when `err` is `None`, otherwise the error it names.
pub open spec fn as_result(err: Option<&'static str>) -> Result<(), &'static str> {
    match err {
        Some(e) => Err(e),
        None => Ok(()),
    }
}

/// Checks the declared flags for logical conflicts.
fn validate_game_state(
    p: &PlayerContext,
    g: &GameContext,
    a: AgariType,
    input: &UserInput,
) -> (res: Result<(), &'static str>)
    ensures
        res == as_result(game_state_error(*p, *g, a, *input)),
{
    if p.is_daburu_riichi && p.is_riichi {
        return Err("Invalid state: Cannot be both Riichi and Daburu Riichi.");
    }
    if p.is_ippatsu && !(p.is_riichi || p.is_daburu_riichi) {
        return Err("Invalid state: Ippatsu requires Riichi or Daburu Riichi.");
    }
    if p.is_menzen && !input.open_melds.is_empty() {
        return Err("Invalid state: Hand is declared menzen but has open melds.");
    }
    if g.is_haitei && a == AgariType::Ron {
        return Err("Invalid state: Haitei (last draw) cannot be a Ron win.");
    }
    if g.is_houtei && a == AgariType::Tsumo {
        return Err("Invalid state: Houtei (last discard) cannot be a Tsumo win.");
    }
    if g.is_haitei && g.is_houtei {
        return Err("Invalid state: Cannot be both Haitei and Houtei.");
    }
    if g.is_rinshan && a == AgariType::Ron {
        return Err("Invalid state: Rinshan (kan draw) cannot be a Ron win.");
    }
    if g.is_chankan && a == AgariType::Tsumo {
        return Err("Invalid state: Chankan (robbing kan) cannot be a Tsumo win.");
    }
    if g.is_tenhou {
        if !p.is_oya {
            return Err("Invalid state: Tenhou requires player to be Oya (dealer).");
        }
        if a != AgariType::Tsumo {
            return Err("Invalid state: Tenhou must be a Tsumo win.");
        }
        if !input.open_melds.is_empty() || !input.closed_kans.is_empty() {
            return Err("Invalid state: Tenhou cannot have any calls (no open melds or kans).");
        }
    }
    if g.is_chiihou {
        if p.is_oya {
            return Err("Invalid state: Chiihou requires player to be non-Oya.");
        }
        if a != AgariType::Tsumo {
            return Err("Invalid state: Chiihou must be a Tsumo win.");
        }
        if !input.open_melds.is_empty() || !input.closed_kans.is_empty() {
            return Err("Invalid state: Chiihou cannot have any calls (no open melds or kans).");
        }
    }
    if g.is_renhou && a != AgariType::Ron {
        return Err("Invalid state: Renhou must be a Ron win.");
    }
    Ok(())
}

/// Checks the tile count against the declared melds, the presence of the winning
/// tile, the limit of four copies per tile and the number of red fives.
fn validate_hand_composition(input: &UserInput, master_counts: &[u8; 34]) -> (res: Result<
    (),
    &'static str,
>)
    ensures
        res == as_result(hand_composition_error(*input, master_counts@)),
{
    let n_closed = input.closed_kans.len();
    let n_open = input.open_melds.len();
    // Total meld count
    if n_closed > 4 || n_open > 4 || n_closed + n_open > 4 {
        return Err("Invalid hand: More than 4 total melds (kans + open melds) declared.");
    }
    // Total tile count based on the declared kans

    let mut open_kans: usize = 0;
    let mut k: usize = 0;
    while k < n_open
        invariant
            n_open == input.open_melds@.len(),
            n_open <= 4,
            k <= n_open,
            open_kans == open_kan_count(input.open_melds@.take(k as int)),
            open_kans <= k,
        decreases n_open - k,
    {
        assert(input.open_melds@.take(k + 1).drop_last() =~= input.open_melds@.take(k as int));
        if input.open_melds[k].mentsu_type == MentsuType::Kantsu {
            open_kans += 1;
        }
        k += 1;
    }
    assert(input.open_melds@.take(n_open as int) =~= input.open_melds@);
    let total_kans = n_closed + open_kans;
    let expected_tiles = (total_kans * 4) + ((4 - total_kans) * 3) + 2;
    let hand_len = input.hand_tiles.len();
    if hand_len == 14 && total_kans == 0 {
    } else if hand_len != expected_tiles {
        let err_msg =
            "Invalid hand: Tile count does not match declared kans. (Expected 14 for 0 kans, 15 for 1 kan, 16 for 2, 17 for 3, 18 for 4).";
        return Err(err_msg);
    }
    // Winning tile presence

    let mut found = false;
    let mut t: usize = 0;
    while t < hand_len
        invariant
            hand_len == input.hand_tiles@.len(),
            t <= hand_len,
            found <==> exists|j: int| 0 <= j < t && input.hand_tiles@[j] == input.winning_tile,
        decreases hand_len - t,
    {
        if input.hand_tiles[t] == input.winning_tile {
            found = true;
        }
        t += 1;
    }
    if !found {
        return Err("Invalid input: Winning tile is not present in the list of hand tiles.");
    }
    assert(input.hand_tiles@.len() == 14 + kan_total(*input));
    // At most four copies of any tile

    let mut s: usize = 0;
    while s < 34
        invariant
            s <= 34,
            forall|j: int| 0 <= j < s ==> master_counts@[j] <= 4,
            input.closed_kans@.len() + input.open_melds@.len() <= 4,
            input.hand_tiles@.len() == 14 + kan_total(*input),
            input.hand_tiles@.contains(input.winning_tile),
        decreases 34 - s,
    {
        if master_counts[s] > 4 {
            assert(master_counts@[s as int] > 4);
            return Err("Invalid hand: Contains 5 or more of a single tile type.");
        }
        s += 1;
    }
    // Red fives

    let num_5m = master_counts[crate::tiles::index_from_hai(Hai::Suhai(5, Suhai::Manzu))];
    let num_5p = master_counts[crate::tiles::index_from_hai(Hai::Suhai(5, Suhai::Pinzu))];
    let num_5s = master_counts[crate::tiles::index_from_hai(Hai::Suhai(5, Suhai::Souzu))];
    let total_fives = num_5m + num_5p + num_5s;
    if input.game_context.num_akadora > total_fives {
        return Err(
            "Invalid input: Number of akadora exceeds the total number of '5' tiles in the hand.",
        );
    }
    if input.game_context.num_akadora > 4 {
        return Err("Invalid input: Number of akadora cannot be greater than 4.");
    }
    Ok(())
}

/// Checks the input for conflicting flags and for an impossible hand composition,
/// given the slot counts of the hand's tiles.
pub fn validate_input(input: &UserInput, master_counts: &[u8; 34]) -> (res: Result<
    (),
    &'static str,
>)
    ensures
        res == as_result(input_error(*input, master_counts@)),
{
    validate_game_state(&input.player_context, &input.game_context, input.agari_type, input)?;
    validate_hand_composition(input, master_counts)?;
    Ok(())
}

} // verus!
