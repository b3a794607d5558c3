//! The recognized scoring patterns (yaku) and bonus-tile entries.
//!
//! The recognizer emits one entry per occurrence, so a hand with three dora
//! carries three `Dora` entries.

use vstd::prelude::*;

verus! {

/// A single yaku or bonus entry awarded to a hand. The han value of each
/// entry, including open-hand reductions, lives in the score calculator.
#[derive(Debug, Clone, Copy, PartialEq, Eq, Structural)]
pub enum Yaku {
    // 1 han
    Riichi,
    Ippatsu,
    /// Fully concealed self-draw.
    MenzenTsumo,
    /// No-points hand.
    Pinfu,
    /// Pure double sequence.
    Iipeikou,
    /// Win on the last draw.
    HaiteiRaoyue,
    /// Win on the last discard.
    HouteiRaoyui,
    /// Win after a quad.
    RinshanKaihou,
    /// Robbing a quad.
    Chankan,
    /// All simples.
    Tanyao,
    /// Value triplet of the seat wind.
    YakuhaiJikaze,
    /// Value triplet of the prevalent wind.
    YakuhaiBakaze,
    /// Value triplet of a dragon.
    YakuhaiSangenpai,
    // 2 han
    DaburuRiichi,
    /// Seven pairs.
    Chiitoitsu,
    /// Mixed triple sequence.
    SanshokuDoujun,
    /// Pure straight.
    Ittsu,
    /// Half outside hand.
    Chanta,
    /// All triplets.
    Toitoi,
    /// Three concealed triplets.
    Sanankou,
    /// Triple triplets.
    SanshokuDoukou,
    /// Three quads.
    Sankantsu,
    /// Little three dragons.
    Shousangen,
    /// All terminals and honors.
    Honroutou,
    // 3 han
    /// Twice pure double sequence.
    Ryanpeikou,
    /// Fully outside hand.
    Junchan,
    /// Half flush.
    Honitsu,
    // 6 han
    /// Full flush.
    Chinitsu,
    // Yakuman
    Tenhou,
    Chiihou,
    Renhou,
    /// Big three dragons.
    Daisangen,
    /// Four concealed triplets.
    Suuankou,
    /// Four big winds.
    Daisuushi,
    /// Four little winds.
    Shousuushi,
    /// All honors.
    Tsuuiisou,
    /// All terminals.
    Chinroutou,
    /// All green.
    Ryuuiisou,
    /// Four quads.
    Suukantsu,
    /// Thirteen orphans.
    KokushiMusou,
    /// Nine gates.
    ChuurenPoutou,
    // Double yakuman
    /// Four concealed triplets on a single wait.
    SuuankouTanki,
    /// Thirteen-sided thirteen orphans.
    KokushiMusouJusanmen,
    /// True nine gates.
    JunseiChuurenPoutou,
    // Bonus han, not yaku
    Dora,
    UraDora,
    /// Red-five bonus tile.
    AkaDora,
}

} // verus!
