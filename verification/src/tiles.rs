//! Core tile definitions: the 34 tile kinds and the canonical bijection
//! between tiles and their ordinal index.
//!
//! Index layout: 0-8 Manzu 1-9, 9-17 Pinzu 1-9, 18-26 Souzu 1-9,
//! 27-30 winds (Ton, Nan, Shaa, Pei), 31-33 dragons (Haku, Hatsu, Chun).

use vstd::prelude::*;

verus! {

/// The three numbered suits.
#[derive(Debug, Clone, Copy, PartialEq, Eq, Structural)]
pub enum Suhai {
    Manzu,
    Pinzu,
    Souzu,
}

/// The four wind directions.
#[derive(Debug, Clone, Copy, PartialEq, Eq, Structural)]
pub enum Kaze {
    Ton,
    Nan,
    Shaa,
    Pei,
}

/// The three dragons.
#[derive(Debug, Clone, Copy, PartialEq, Eq, Structural)]
pub enum Sangenpai {
    Haku,
    Hatsu,
    Chun,
}

/// Any honor tile (wind or dragon).
#[derive(Debug, Clone, Copy, PartialEq, Eq, Structural)]
pub enum Jihai {
    Kaze(Kaze),
    Sangen(Sangenpai),
}

/// A single mahjong tile: a numbered tile (rank 1-9 in one of three suits)
/// or an honor tile.
#[derive(Debug, Clone, Copy, PartialEq, Eq, Structural)]
pub enum Hai {
    Suhai(u8, Suhai),
    Jihai(Jihai),
}

/// First index of a suit's rank-1 tile.
pub open spec fn suit_base(s: Suhai) -> int {
    match s {
        Suhai::Manzu => 0,
        Suhai::Pinzu => 9,
        Suhai::Souzu => 18,
    }
}

/// Ordinal of a wind among the winds.
pub open spec fn kaze_ordinal(k: Kaze) -> int {
    match k {
        Kaze::Ton => 0,
        Kaze::Nan => 1,
        Kaze::Shaa => 2,
        Kaze::Pei => 3,
    }
}

/// Ordinal of a dragon among the dragons.
pub open spec fn sangen_ordinal(s: Sangenpai) -> int {
    match s {
        Sangenpai::Haku => 0,
        Sangenpai::Hatsu => 1,
        Sangenpai::Chun => 2,
    }
}

/// A tile is well formed when a numbered tile's rank lies in 1..=9.
pub open spec fn wf_hai(h: Hai) -> bool {
    match h {
        Hai::Suhai(r, _) => 1 <= r <= 9,
        Hai::Jihai(_) => true,
    }
}

/// Canonical ordinal of a tile, 0..34 for well-formed tiles.
pub open spec fn hai_index(h: Hai) -> int {
    match h {
        Hai::Suhai(r, s) => suit_base(s) + r - 1,
        Hai::Jihai(Jihai::Kaze(k)) => 27 + kaze_ordinal(k),
        Hai::Jihai(Jihai::Sangen(d)) => 31 + sangen_ordinal(d),
    }
}

/// Canonical tile of an ordinal: the inverse of [`hai_index`] on 0..34.
pub open spec fn hai_of_index(i: int) -> Hai {
    if i < 9 {
        Hai::Suhai((i + 1) as u8, Suhai::Manzu)
    } else if i < 18 {
        Hai::Suhai((i - 9 + 1) as u8, Suhai::Pinzu)
    } else if i < 27 {
        Hai::Suhai((i - 18 + 1) as u8, Suhai::Souzu)
    } else if i == 27 {
        Hai::Jihai(Jihai::Kaze(Kaze::Ton))
    } else if i == 28 {
        Hai::Jihai(Jihai::Kaze(Kaze::Nan))
    } else if i == 29 {
        Hai::Jihai(Jihai::Kaze(Kaze::Shaa))
    } else if i == 30 {
        Hai::Jihai(Jihai::Kaze(Kaze::Pei))
    } else if i == 31 {
        Hai::Jihai(Jihai::Sangen(Sangenpai::Haku))
    } else if i == 32 {
        Hai::Jihai(Jihai::Sangen(Sangenpai::Hatsu))
    } else {
        Hai::Jihai(Jihai::Sangen(Sangenpai::Chun))
    }
}

/// The two maps between tiles and ordinals invert each other.
pub proof fn lemma_tile_index_bijection(h: Hai, i: int)
    ensures
        wf_hai(h) ==> 0 <= hai_index(h) < 34 && hai_of_index(hai_index(h)) == h,
        0 <= i < 34 ==> wf_hai(hai_of_index(i)) && hai_index(hai_of_index(i)) == i,
{
}

/// A tile is a terminal (rank 1 or 9) or an honor.
pub open spec fn spec_yaochuu(h: Hai) -> bool {
    match h {
        Hai::Suhai(r, _) => r == 1 || r == 9,
        Hai::Jihai(_) => true,
    }
}

impl Hai {
    /// Whether the tile is a terminal or an honor.
    pub fn is_yaochuu(&self) -> (b: bool)
        ensures
            b == spec_yaochuu(*self),
    {
        match self {
            Hai::Suhai(r, _) => *r == 1 || *r == 9,
            Hai::Jihai(_) => true,
        }
    }
}

/// Canonical ordinal of a tile.
pub fn tile_to_index(tile: &Hai) -> (i: usize)
    requires
        wf_hai(*tile),
    ensures
        i == hai_index(*tile),
        i < 34,
{
    match tile {
        Hai::Suhai(r, s) => {
            let base: usize = match s {
                Suhai::Manzu => 0,
                Suhai::Pinzu => 9,
                Suhai::Souzu => 18,
            };
            base + (*r as usize) - 1
        }
        Hai::Jihai(Jihai::Kaze(k)) => match k {
            Kaze::Ton => 27,
            Kaze::Nan => 28,
            Kaze::Shaa => 29,
            Kaze::Pei => 30,
        },
        Hai::Jihai(Jihai::Sangen(d)) => match d {
            Sangenpai::Haku => 31,
            Sangenpai::Hatsu => 32,
            Sangenpai::Chun => 33,
        },
    }
}

/// Canonical tile of an ordinal.
pub fn index_to_tile(index: usize) -> (h: Hai)
    requires
        index < 34,
    ensures
        h == hai_of_index(index as int),
        wf_hai(h),
        hai_index(h) == index,
{
    if index < 9 {
        Hai::Suhai((index + 1) as u8, Suhai::Manzu)
    } else if index < 18 {
        Hai::Suhai((index - 9 + 1) as u8, Suhai::Pinzu)
    } else if index < 27 {
        Hai::Suhai((index - 18 + 1) as u8, Suhai::Souzu)
    } else if index == 27 {
        Hai::Jihai(Jihai::Kaze(Kaze::Ton))
    } else if index == 28 {
        Hai::Jihai(Jihai::Kaze(Kaze::Nan))
    } else if index == 29 {
        Hai::Jihai(Jihai::Kaze(Kaze::Shaa))
    } else if index == 30 {
        Hai::Jihai(Jihai::Kaze(Kaze::Pei))
    } else if index == 31 {
        Hai::Jihai(Jihai::Sangen(Sangenpai::Haku))
    } else if index == 32 {
        Hai::Jihai(Jihai::Sangen(Sangenpai::Hatsu))
    } else {
        Hai::Jihai(Jihai::Sangen(Sangenpai::Chun))
    }
}

} // verus!
