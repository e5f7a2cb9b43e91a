use vstd::prelude::*;
use crate::tiles::{Hai, Kaze};

verus! {

/// How the hand was won.
#[derive(Debug, Clone, Copy, PartialEq, Eq, Structural)]
pub enum AgariType {
    /// Self-draw.
    Tsumo,
    /// Win off a discard.
    Ron,
}

impl Default for AgariType {
    /// A win is taken to be by Ron unless said otherwise.
    fn default() -> (a: Self)
        ensures
            a == AgariType::Ron,
    {
        AgariType::Ron
    }
}

/// The winning player's situation.
#[derive(Debug, Clone, Copy, PartialEq, Eq, Structural)]
pub struct PlayerContext {
    /// Seat wind.
    pub jikaze: Kaze,
    /// Dealer.
    pub is_oya: bool,
    /// Riichi declared.
    pub is_riichi: bool,
    /// Double riichi declared.
    pub is_daburu_riichi: bool,
    /// Won within one go-around after riichi.
    pub is_ippatsu: bool,
    /// The hand is fully concealed.
    pub is_menzen: bool,
}

/// The state of the current round.
#[derive(Debug, Clone)]
pub struct GameContext {
    /// Prevalent wind.
    pub bakaze: Kaze,
    /// Honba counter.
    pub honba: u8,
    /// Dora indicators.
    pub dora_indicators: Vec<Hai>,
    /// Ura dora indicators.
    pub uradora_indicators: Vec<Hai>,
    /// Number of red fives.
    pub num_akadora: u8,
    /// Blessing of heaven.
    pub is_tenhou: bool,
    /// Blessing of earth.
    pub is_chiihou: bool,
    /// Blessing of man.
    pub is_renhou: bool,
    /// Won on the last draw.
    pub is_haitei: bool,
    /// Won on the last discard.
    pub is_houtei: bool,
    /// Won on the replacement draw after a kan.
    pub is_rinshan: bool,
    /// Won by robbing a kan.
    pub is_chankan: bool,
}

} // verus!
