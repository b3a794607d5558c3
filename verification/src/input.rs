//! The raw scoring request: every tile the player holds at the moment of
//! winning, the declared calls, and the full table context.

use vstd::prelude::*;
use crate::tiles::{Hai, wf_hai};
use crate::hand::MentsuType;
use crate::game::{AgariType, GameContext, PlayerContext};

verus! {

/// A declared open call: its meld kind and its representative tile (the
/// repeated tile of a triplet or quad, the lowest tile of a sequence).
#[derive(Debug, Clone, Copy, PartialEq, Eq, Structural)]
pub struct OpenMeld {
    pub mentsu_type: MentsuType,
    pub representative_tile: Hai,
}

/// The full declared hand and context handed to the scoring pipeline.
///
/// `hand_tiles` lists every physical tile the player holds, including the
/// tiles of open melds and declared quads and the winning tile itself.
#[derive(Debug, Clone)]
pub struct UserInput {
    pub hand_tiles: Vec<Hai>,
    pub winning_tile: Hai,
    pub open_melds: Vec<OpenMeld>,
    /// Concealed quads, one representative tile per quad.
    pub closed_kans: Vec<Hai>,
    pub player_context: PlayerContext,
    pub game_context: GameContext,
    pub agari_type: AgariType,
}

impl UserInput {
    /// Every tile mentioned by the request is a valid tile (rank 1..=9 for
    /// numbered tiles).
    pub open spec fn wf(self) -> bool {
        &&& forall|k: int| 0 <= k < self.hand_tiles@.len() ==> wf_hai(#[trigger] self.hand_tiles@[k])
        &&& wf_hai(self.winning_tile)
        &&& forall|k: int| 0 <= k < self.open_melds@.len() ==> wf_hai(
            (#[trigger] self.open_melds@[k]).representative_tile,
        )
        &&& forall|k: int| 0 <= k < self.closed_kans@.len() ==> wf_hai(#[trigger] self.closed_kans@[k])
    }
}

} // verus!
