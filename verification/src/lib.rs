//! Riichi mahjong hand scoring: hand decomposition, wait classification and
//! score calculation, with machine-checked contracts.
//!
//! The pipeline is strictly linear: a raw [`input::UserInput`] is validated,
//! decomposed into four melds and a pair (or flagged irregular), handed to a
//! caller-supplied yaku recognizer, and finally scored.

#![verifier::loop_isolation(false)]

pub mod tiles;
pub mod hand;
pub mod game;
pub mod input;
pub mod yaku;
pub mod error;
pub mod validator;
pub mod organizer;
pub mod score;
pub mod recognizer;

use vstd::prelude::*;
use crate::error::AgariError;
use crate::input::UserInput;
use crate::organizer::{
    first_exact_pair, organize_hand, spec_declared_melds, spec_prepare,
};
use crate::recognizer::{YakuChecker, YakuResult};
use crate::score::{calculate_score, spec_calculate_score, AgariResult};

verus! {

/// Scores a complete hand end to end: validation and decomposition, the
/// caller-supplied yaku recognizer, and the score calculator, in a strict
/// linear pipeline. A rejected request returns the first failing check's
/// reason; an accepted one is scored exactly as the score calculator's
/// function of whatever the recognizer reported.
pub fn calculate_agari<C: YakuChecker>(checker: &C, input: &UserInput) -> (r: Result<
    AgariResult,
    AgariError,
>)
    requires
        input.wf(),
    ensures
        (spec_prepare(*input) matches Err(e) ==> r == Err::<AgariResult, AgariError>(e)),
        (spec_prepare(*input) matches Ok(cc) ==> ((spec_declared_melds(*input).len() == 4
            && first_exact_pair(cc, 0) < 0 && input.hand_tiles@.len() != 14) ==> r == Err::<
            AgariResult,
            AgariError,
        >(AgariError::NoPairFound))),
        (r matches Ok(res) ==> spec_prepare(*input) is Ok && exists|yr: YakuResult|
            res == #[trigger] spec_calculate_score(
                yr,
                input.player_context,
                input.game_context,
                input.agari_type,
            )),
{
    let player = &input.player_context;
    let game = &input.game_context;
    let agari_type = input.agari_type;

    let organization = match organize_hand(input) {
        Ok(o) => o,
        Err(e) => {
            return Err(e);
        }
    };

    let yaku_result = match checker.check_all_yaku(organization, player, game, agari_type) {
        Ok(y) => y,
        Err(e) => {
            return Err(e);
        }
    };

    let ghost yr = yaku_result;
    let final_score = calculate_score(yaku_result, player, game, agari_type);
    proof {
        assert(final_score == spec_calculate_score(
            yr,
            input.player_context,
            input.game_context,
            input.agari_type,
        ));
    }
    Ok(final_score)
}

} // verus!
