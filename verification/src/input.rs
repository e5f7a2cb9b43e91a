use vstd::prelude::*;
use crate::game::{AgariType, GameContext, PlayerContext};
use crate::hand::MentsuType;
use crate::tiles::Hai;

verus! {

/// A called meld (pon, chii or open kan), given by its kind and its lowest tile.
#[derive(Debug, Clone, Copy, PartialEq, Eq, Structural)]
pub struct OpenMeld {
    pub mentsu_type: MentsuType,
    pub representative_tile: Hai,
}

/// Everything the calculator is told about a win.
#[derive(Debug, Clone)]
pub struct UserInput {
    /// Every tile of the hand, called melds and kans included, the winning tile too.
    pub hand_tiles: Vec<Hai>,
    pub winning_tile: Hai,
    pub open_melds: Vec<OpenMeld>,
    /// One tile for each concealed kan.
    pub closed_kans: Vec<Hai>,
    pub player_context: PlayerContext,
    pub game_context: GameContext,
    pub agari_type: AgariType,
}

} // verus!
