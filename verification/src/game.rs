//! Game-state context: how the hand was won and the table situation,
//! needed to validate win-condition flags and to score the hand.

use vstd::prelude::*;
use crate::tiles::{Hai, Kaze};

verus! {

/// How the hand was won.
#[derive(Debug, Clone, Copy, PartialEq, Eq, Structural)]
pub enum AgariType {
    /// Self-draw.
    Tsumo,
    /// Win off another player's discard.
    Ron,
}

/// Context of the winning player.
#[derive(Debug, Clone, Copy, PartialEq, Eq, Structural)]
pub struct PlayerContext {
    /// Seat wind.
    pub jikaze: Kaze,
    /// Whether the player is the dealer.
    pub is_oya: bool,
    pub is_riichi: bool,
    pub is_daburu_riichi: bool,
    pub is_ippatsu: bool,
    /// Whether the hand is fully concealed.
    pub is_menzen: bool,
}

/// Context of the current round of play.
#[derive(Debug, Clone)]
pub struct GameContext {
    /// Prevalent (round) wind.
    pub bakaze: Kaze,
    /// Round number.
    pub kyoku: u8,
    /// Repeat-round counter.
    pub honba: u8,
    /// Riichi sticks on the table.
    pub riichi_bou: u8,
    /// Dora indicator tiles.
    pub dora_indicators: Vec<Hai>,
    /// Hidden dora indicator tiles.
    pub uradora_indicators: Vec<Hai>,
    /// Declared count of red-five bonus tiles held.
    pub num_akadora: u8,
    /// Blessing of Heaven: dealer wins on the very first draw.
    pub is_tenhou: bool,
    /// Blessing of Earth: non-dealer wins on the first self-draw.
    pub is_chiihou: bool,
    /// Blessing of Man: win off a discard in the first go-around.
    pub is_renhou: bool,
    /// Win on the last draw of the round.
    pub is_haitei: bool,
    /// Win on the last discard of the round.
    pub is_houtei: bool,
    /// Win on the replacement draw after a quad.
    pub is_rinshan: bool,
    /// Win by robbing a quad.
    pub is_chankan: bool,
}

} // verus!
