//! The interface to the external pattern (yaku) recognizer.
//!
//! Recognizing which yaku a decomposed hand scores is outside this library:
//! callers supply an implementation of [`YakuChecker`]. The score
//! calculator depends only on the shape of its output.

use vstd::prelude::*;
use crate::error::AgariError;
use crate::game::{AgariType, GameContext, PlayerContext};
use crate::hand::{HandOrganization, HandStructure};
use crate::score::{spec_count_yakuman, spec_total_han, structure_wf};
use crate::yaku::Yaku;

verus! {

/// What the recognizer reports for a winning hand: the recognized pattern
/// list (one entry per occurrence), the red-five count, and the hand
/// structure the patterns were read from.
#[derive(Debug, Clone)]
pub struct YakuResult {
    pub yaku_list: Vec<Yaku>,
    pub num_akadora: u8,
    pub hand_structure: HandStructure,
}

/// A pattern recognizer, implemented outside this library.
///
/// On success it reports at least one pattern — a winning hand with zero
/// recognized patterns is illegal and must be reported as a failure — and
/// its output stays within the scorer's arithmetic range: at most nineteen
/// yakuman, a total han that fits one byte, and four melds recorded in a
/// standard structure.
pub trait YakuChecker {
    /// Recognizes the scoring patterns of a decomposed hand.
    fn check_all_yaku(
        &self,
        organization: HandOrganization,
        player: &PlayerContext,
        game: &GameContext,
        agari_type: AgariType,
    ) -> (r: Result<YakuResult, AgariError>)
        ensures
            r matches Ok(res) ==> {
                &&& res.yaku_list@.len() >= 1
                &&& res.yaku_list@.len() <= 0xFFFF
                &&& spec_count_yakuman(res.yaku_list@) <= 19
                &&& spec_total_han(res.yaku_list@, player.is_menzen) <= 255
                &&& structure_wf(res.hand_structure)
            },
    ;
}

} // verus!
