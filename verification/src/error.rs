//! The distinct reasons for which a scoring request is rejected.
//!
//! Every rejection is recoverable and reported to the caller verbatim; the
//! pipeline never partially validates and partially proceeds.

use vstd::prelude::*;

verus! {

/// A stable, distinct identifier for each way a request can be rejected.
#[derive(Debug, Clone, Copy, PartialEq, Eq, Structural)]
pub enum AgariError {
    /// Riichi and double riichi declared together.
    RiichiConflict,
    /// Ippatsu declared without riichi or double riichi.
    IppatsuWithoutRiichi,
    /// Hand declared concealed but open melds are present.
    MenzenWithOpenMelds,
    /// Last-draw win declared on a discard win.
    HaiteiOnRon,
    /// Last-discard win declared on a self-draw.
    HouteiOnTsumo,
    /// Last-draw and last-discard wins declared together.
    HaiteiHouteiConflict,
    /// After-quad win declared on a discard win.
    RinshanOnRon,
    /// Quad-robbing win declared on a self-draw.
    ChankanOnTsumo,
    /// Blessing of Heaven declared by a non-dealer.
    TenhouNotOya,
    /// Blessing of Heaven declared on a discard win.
    TenhouNotTsumo,
    /// Blessing of Heaven declared with calls.
    TenhouWithCalls,
    /// Blessing of Earth declared by the dealer.
    ChiihouIsOya,
    /// Blessing of Earth declared on a discard win.
    ChiihouNotTsumo,
    /// Blessing of Earth declared with calls.
    ChiihouWithCalls,
    /// Blessing of Man declared on a self-draw.
    RenhouNotRon,
    /// More than four melds declared in total.
    TooManyMelds,
    /// Tile count does not match the declared quad count.
    TileCountMismatch,
    /// The winning tile is not among the held tiles.
    WinningTileMissing,
    /// Five or more copies of one tile kind.
    TooManyOfOneTile,
    /// More red fives declared than rank-5 tiles held.
    AkadoraExceedsFives,
    /// More red fives declared than exist in the game.
    AkadoraOverMaximum,
    /// A declared concealed quad's tiles are not in the hand.
    ClosedKanNotInHand,
    /// A declared open triplet's tiles are not in the hand.
    PonNotInHand,
    /// A declared open quad's tiles are not in the hand.
    OpenKanNotInHand,
    /// An open sequence's representative tile cannot start a run.
    ChiInvalidTile,
    /// A declared open sequence's tiles are not in the hand.
    ChiNotInHand,
    /// Four melds declared but no pair among the remaining tiles.
    NoPairFound,
    /// The recognizer matched no pattern: a winning hand with zero yaku.
    NoYaku,
}

impl AgariError {
    /// A human-readable description of the rejection.
    pub fn message(&self) -> &'static str {
        match self {
            AgariError::RiichiConflict => "Invalid state: Cannot be both Riichi and Daburu Riichi.",
            AgariError::IppatsuWithoutRiichi => "Invalid state: Ippatsu requires Riichi or Daburu Riichi.",
            AgariError::MenzenWithOpenMelds => "Invalid state: Hand is declared menzen but has open melds.",
            AgariError::HaiteiOnRon => "Invalid state: Haitei (last draw) cannot be a Ron win.",
            AgariError::HouteiOnTsumo => "Invalid state: Houtei (last discard) cannot be a Tsumo win.",
            AgariError::HaiteiHouteiConflict => "Invalid state: Cannot be both Haitei and Houtei.",
            AgariError::RinshanOnRon => "Invalid state: Rinshan (kan draw) cannot be a Ron win.",
            AgariError::ChankanOnTsumo => "Invalid state: Chankan (robbing kan) cannot be a Tsumo win.",
            AgariError::TenhouNotOya => "Invalid state: Tenhou requires player to be Oya (dealer).",
            AgariError::TenhouNotTsumo => "Invalid state: Tenhou must be a Tsumo win.",
            AgariError::TenhouWithCalls => "Invalid state: Tenhou cannot have any calls.",
            AgariError::ChiihouIsOya => "Invalid state: Chiihou requires player to be non-Oya.",
            AgariError::ChiihouNotTsumo => "Invalid state: Chiihou must be a Tsumo win.",
            AgariError::ChiihouWithCalls => "Invalid state: Chiihou cannot have any calls.",
            AgariError::RenhouNotRon => "Invalid state: Renhou must be a Ron win.",
            AgariError::TooManyMelds => "Invalid hand: More than 4 total melds declared.",
            AgariError::TileCountMismatch => "Invalid hand: Tile count does not match declared kans.",
            AgariError::WinningTileMissing => "Invalid input: Winning tile is not present in the hand tiles.",
            AgariError::TooManyOfOneTile => "Invalid hand: Contains 5 or more of a single tile type.",
            AgariError::AkadoraExceedsFives => "Invalid input: Number of akadora exceeds the '5' tiles held.",
            AgariError::AkadoraOverMaximum => "Invalid input: Number of akadora cannot be greater than 4.",
            AgariError::ClosedKanNotInHand => "Invalid input: declared closed kan not present in hand tiles.",
            AgariError::PonNotInHand => "Invalid input: declared Pon not present in hand tiles.",
            AgariError::OpenKanNotInHand => "Invalid input: declared open Kan not present in hand tiles.",
            AgariError::ChiInvalidTile => "Invalid representative tile for Chi (must be 1-7 of a suit).",
            AgariError::ChiNotInHand => "Invalid input: declared Chi not present in hand tiles.",
            AgariError::NoPairFound => "Invalid hand: 4 melds declared but no pair found.",
            AgariError::NoYaku => "Invalid hand: no yaku recognized.",
        }
    }
}

} // verus!
