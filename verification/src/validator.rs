//! Input validation: rejects structurally or logically impossible requests
//! before decomposition runs. Each check is independent, runs in a fixed
//! order, and the first failure short-circuits the whole pipeline.

use vstd::prelude::*;
use crate::error::AgariError;
use crate::game::{AgariType, GameContext, PlayerContext};
use crate::hand::MentsuType;
use crate::input::{OpenMeld, UserInput};

verus! {

/// The outcome of the declared-game-state conflict checks, in order.
pub open spec fn spec_validate_game_state(
    p: PlayerContext,
    g: GameContext,
    a: AgariType,
    input: UserInput,
) -> Result<(), AgariError> {
    if p.is_daburu_riichi && p.is_riichi {
        Err(AgariError::RiichiConflict)
    } else if p.is_ippatsu && !(p.is_riichi || p.is_daburu_riichi) {
        Err(AgariError::IppatsuWithoutRiichi)
    } else if p.is_menzen && input.open_melds@.len() != 0 {
        Err(AgariError::MenzenWithOpenMelds)
    } else if g.is_haitei && a is Ron {
        Err(AgariError::HaiteiOnRon)
    } else if g.is_houtei && a is Tsumo {
        Err(AgariError::HouteiOnTsumo)
    } else if g.is_haitei && g.is_houtei {
        Err(AgariError::HaiteiHouteiConflict)
    } else if g.is_rinshan && a is Ron {
        Err(AgariError::RinshanOnRon)
    } else if g.is_chankan && a is Tsumo {
        Err(AgariError::ChankanOnTsumo)
    } else if g.is_tenhou && !p.is_oya {
        Err(AgariError::TenhouNotOya)
    } else if g.is_tenhou && a != AgariType::Tsumo {
        Err(AgariError::TenhouNotTsumo)
    } else if g.is_tenhou && (input.open_melds@.len() != 0 || input.closed_kans@.len() != 0) {
        Err(AgariError::TenhouWithCalls)
    } else if g.is_chiihou && p.is_oya {
        Err(AgariError::ChiihouIsOya)
    } else if g.is_chiihou && a != AgariType::Tsumo {
        Err(AgariError::ChiihouNotTsumo)
    } else if g.is_chiihou && (input.open_melds@.len() != 0 || input.closed_kans@.len() != 0) {
        Err(AgariError::ChiihouWithCalls)
    } else if g.is_renhou && a != AgariType::Ron {
        Err(AgariError::RenhouNotRon)
    } else {
        Ok(())
    }
}

/// Number of quads among the declared open melds.
pub open spec fn spec_count_kantsu(ms: Seq<OpenMeld>) -> nat
    decreases ms.len(),
{
    if ms.len() == 0 {
        0nat
    } else {
        spec_count_kantsu(ms.drop_last()) + (if ms.last().mentsu_type is Kantsu {
            1nat
        } else {
            0nat
        })
    }
}

/// There are never more declared quads than declared melds.
pub proof fn lemma_count_kantsu_le_len(ms: Seq<OpenMeld>)
    ensures
        spec_count_kantsu(ms) <= ms.len(),
    decreases ms.len(),
{
    if ms.len() > 0 {
        lemma_count_kantsu_le_len(ms.drop_last());
    }
}

/// Total quads declared by the request: concealed quads plus open quads.
pub open spec fn spec_total_kans(input: UserInput) -> nat {
    input.closed_kans@.len() + spec_count_kantsu(input.open_melds@)
}

/// The outcome of the hand-composition checks, in order. `counts` is the
/// 34-entry per-kind count vector derived from the held tiles.
pub open spec fn spec_validate_hand_composition(
    input: UserInput,
    counts: Seq<usize>,
) -> Result<(), AgariError> {
    let k = spec_total_kans(input);
    let hand_len = input.hand_tiles@.len();
    if input.closed_kans@.len() + input.open_melds@.len() > 4 {
        Err(AgariError::TooManyMelds)
    } else if !(hand_len == 14 && k == 0) && hand_len != 4 * k + 3 * (4 - k) + 2 {
        Err(AgariError::TileCountMismatch)
    } else if !input.hand_tiles@.contains(input.winning_tile) {
        Err(AgariError::WinningTileMissing)
    } else if exists|j: int| 0 <= j < 34 && counts[j] > 4 {
        Err(AgariError::TooManyOfOneTile)
    } else if input.game_context.num_akadora > counts[4] + counts[13] + counts[22] {
        Err(AgariError::AkadoraExceedsFives)
    } else if input.game_context.num_akadora > 4 {
        Err(AgariError::AkadoraOverMaximum)
    } else {
        Ok(())
    }
}

/// The outcome of the whole validation gate: game-state conflicts first,
/// then hand composition.
pub open spec fn spec_validate_input(input: UserInput, counts: Seq<usize>) -> Result<
    (),
    AgariError,
> {
    if spec_validate_game_state(input.player_context, input.game_context, input.agari_type, input)
        is Err {
        spec_validate_game_state(input.player_context, input.game_context, input.agari_type, input)
    } else {
        spec_validate_hand_composition(input, counts)
    }
}

/// Checks for logical conflicts in the declared game state.
pub fn validate_game_state(
    p: &PlayerContext,
    g: &GameContext,
    a: AgariType,
    input: &UserInput,
) -> (r: Result<(), AgariError>)
    ensures
        r == spec_validate_game_state(*p, *g, a, *input),
{
    if p.is_daburu_riichi && p.is_riichi {
        return Err(AgariError::RiichiConflict);
    }
    if p.is_ippatsu && !(p.is_riichi || p.is_daburu_riichi) {
        return Err(AgariError::IppatsuWithoutRiichi);
    }
    if p.is_menzen && input.open_melds.len() != 0 {
        return Err(AgariError::MenzenWithOpenMelds);
    }
    if g.is_haitei && a == AgariType::Ron {
        return Err(AgariError::HaiteiOnRon);
    }
    if g.is_houtei && a == AgariType::Tsumo {
        return Err(AgariError::HouteiOnTsumo);
    }
    if g.is_haitei && g.is_houtei {
        return Err(AgariError::HaiteiHouteiConflict);
    }
    if g.is_rinshan && a == AgariType::Ron {
        return Err(AgariError::RinshanOnRon);
    }
    if g.is_chankan && a == AgariType::Tsumo {
        return Err(AgariError::ChankanOnTsumo);
    }
    if g.is_tenhou {
        if !p.is_oya {
            return Err(AgariError::TenhouNotOya);
        }
        if a != AgariType::Tsumo {
            return Err(AgariError::TenhouNotTsumo);
        }
        if input.open_melds.len() != 0 || input.closed_kans.len() != 0 {
            return Err(AgariError::TenhouWithCalls);
        }
    }
    if g.is_chiihou {
        if p.is_oya {
            return Err(AgariError::ChiihouIsOya);
        }
        if a != AgariType::Tsumo {
            return Err(AgariError::ChiihouNotTsumo);
        }
        if input.open_melds.len() != 0 || input.closed_kans.len() != 0 {
            return Err(AgariError::ChiihouWithCalls);
        }
    }
    if g.is_renhou && a != AgariType::Ron {
        return Err(AgariError::RenhouNotRon);
    }
    Ok(())
}

/// Checks for invalid hand composition: meld counts, tile totals, winning
/// tile presence, per-kind limits and red-five limits.
pub fn validate_hand_composition(input: &UserInput, master_counts: &Vec<usize>) -> (r: Result<
    (),
    AgariError,
>)
    requires
        master_counts@.len() == 34,
    ensures
        r == spec_validate_hand_composition(*input, master_counts@),
{
    if input.closed_kans.len() > 4 || input.open_melds.len() > 4 - input.closed_kans.len() {
        return Err(AgariError::TooManyMelds);
    }

    let mut open_kans: usize = 0;
    let mut m: usize = 0;
    while m < input.open_melds.len()
        invariant
            m <= input.open_melds@.len(),
            open_kans == spec_count_kantsu(input.open_melds@.subrange(0, m as int)),
            open_kans <= m,
        decreases input.open_melds@.len() - m,
    {
        if input.open_melds[m].mentsu_type == MentsuType::Kantsu {
            open_kans = open_kans + 1;
        }
        m = m + 1;
        proof {
            assert(input.open_melds@.subrange(0, m as int).drop_last() =~= input.open_melds@
                .subrange(0, m - 1));
        }
    }
    proof {
        assert(input.open_melds@.subrange(0, input.open_melds@.len() as int) =~= input
            .open_melds@);
    }
    let total_kans: usize = input.closed_kans.len() + open_kans;
    let expected_tiles: usize = total_kans * 4 + (4 - total_kans) * 3 + 2;
    let hand_len = input.hand_tiles.len();
    if hand_len == 14 && total_kans == 0 {
        // A 0-quad standard hand, or an irregular 14-tile pattern: valid.
    } else if hand_len != expected_tiles {
        return Err(AgariError::TileCountMismatch);
    }

    let mut found = false;
    let mut n: usize = 0;
    while n < input.hand_tiles.len()
        invariant
            n <= input.hand_tiles@.len(),
            found ==> input.hand_tiles@.contains(input.winning_tile),
            !found ==> forall|k: int| 0 <= k < n ==> input.hand_tiles@[k] != input.winning_tile,
        decreases input.hand_tiles@.len() - n,
    {
        if input.hand_tiles[n] == input.winning_tile {
            found = true;
        }
        n = n + 1;
    }
    if !found {
        return Err(AgariError::WinningTileMissing);
    }

    let mut j: usize = 0;
    while j < 34
        invariant
            j <= 34,
            master_counts@.len() == 34,
            forall|k: int| 0 <= k < j ==> master_counts@[k] <= 4,
        decreases 34 - j,
    {
        if master_counts[j] > 4 {
            proof {
                assert(exists|q: int| 0 <= q < 34 && master_counts@[q] > 4) by {
                    assert(0 <= j < 34 && master_counts@[j as int] > 4);
                }
            }
            return Err(AgariError::TooManyOfOneTile);
        }
        j = j + 1;
    }

    let total_fives: usize = master_counts[4] + master_counts[13] + master_counts[22];
    if (input.game_context.num_akadora as usize) > total_fives {
        return Err(AgariError::AkadoraExceedsFives);
    }
    if input.game_context.num_akadora > 4 {
        return Err(AgariError::AkadoraOverMaximum);
    }
    Ok(())
}

/// Runs all validation checks: game-state conflicts first, then hand
/// composition.
pub fn validate_input(input: &UserInput, master_counts: &Vec<usize>) -> (r: Result<
    (),
    AgariError,
>)
    requires
        master_counts@.len() == 34,
    ensures
        r == spec_validate_input(*input, master_counts@),
{
    let gs = validate_game_state(
        &input.player_context,
        &input.game_context,
        input.agari_type,
        input,
    );
    if let Err(e) = gs {
        return Err(e);
    }
    validate_hand_composition(input, master_counts)
}

} // verus!
