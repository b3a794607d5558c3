//! Hand structure: melds, waits, tile-count vectors, and the two possible
//! outcomes of hand decomposition.
//!
//! A meld is stored as its kind plus its lowest ("head") tile: a sequence
//! `head, head+1, head+2`, a triplet of three `head`s, or a quad of four.

use vstd::prelude::*;
use crate::tiles::{Hai, hai_index, wf_hai};

verus! {

/// The kind of a meld.
#[derive(Debug, Clone, Copy, PartialEq, Eq, Structural)]
pub enum MentsuType {
    /// Sequence of three consecutive ranks in one suit.
    Shuntsu,
    /// Triplet of one tile kind.
    Koutsu,
    /// Quad of one tile kind; only declared, never found by the search.
    Kantsu,
}

/// A single meld: its kind, whether it is open, and its lowest tile.
#[derive(Debug, Clone, Copy, PartialEq, Eq, Structural)]
pub struct Mentsu {
    pub mentsu_type: MentsuType,
    /// Whether the meld was melded openly (called from another player).
    pub is_minchou: bool,
    /// The repeated tile of a triplet or quad; the lowest tile of a sequence.
    pub head: Hai,
}

/// A meld is well formed when its head is a valid tile and, for a sequence,
/// the head is a numbered tile of rank at most 7 so the run stays in suit.
pub open spec fn wf_mentsu(m: Mentsu) -> bool {
    &&& wf_hai(m.head)
    &&& (m.mentsu_type is Shuntsu ==> hai_index(m.head) < 27 && hai_index(m.head) % 9 < 7)
}

/// How many copies of tile kind `j` the meld contributes to a hand.
pub open spec fn mentsu_tile_count(m: Mentsu, j: int) -> nat {
    let i = hai_index(m.head);
    match m.mentsu_type {
        MentsuType::Shuntsu => if i <= j <= i + 2 { 1nat } else { 0nat },
        MentsuType::Koutsu => if j == i { 3nat } else { 0nat },
        MentsuType::Kantsu => if j == i { 4nat } else { 0nat },
    }
}

/// Total copies of tile kind `j` contributed by a list of melds.
pub open spec fn melds_tile_count(ms: Seq<Mentsu>, j: int) -> nat
    decreases ms.len(),
{
    if ms.len() == 0 {
        0nat
    } else {
        melds_tile_count(ms.drop_last(), j) + mentsu_tile_count(ms.last(), j)
    }
}

/// Removing the meld at position `k` removes exactly its own contribution.
pub proof fn lemma_melds_tile_count_remove(ms: Seq<Mentsu>, k: int, j: int)
    requires
        0 <= k < ms.len(),
    ensures
        melds_tile_count(ms, j) == melds_tile_count(ms.remove(k), j) + mentsu_tile_count(ms[k], j),
    decreases ms.len(),
{
    if k == ms.len() - 1 {
        assert(ms.remove(k) =~= ms.drop_last());
    } else {
        lemma_melds_tile_count_remove(ms.drop_last(), k, j);
        assert(ms.remove(k).drop_last() =~= ms.drop_last().remove(k));
        assert(ms.remove(k).last() == ms.last());
    }
}

/// Contribution distributes over concatenation of meld lists.
pub proof fn lemma_melds_tile_count_add(a: Seq<Mentsu>, b: Seq<Mentsu>, j: int)
    ensures
        melds_tile_count(a + b, j) == melds_tile_count(a, j) + melds_tile_count(b, j),
    decreases b.len(),
{
    if b.len() == 0 {
        assert(a + b =~= a);
    } else {
        lemma_melds_tile_count_add(a, b.drop_last(), j);
        assert((a + b).drop_last() =~= a + b.drop_last());
        assert((a + b).last() == b.last());
    }
}

/// The shape of the wait completed by the winning tile.
#[derive(Debug, Clone, Copy, PartialEq, Eq, Structural)]
pub enum Machi {
    /// Two-sided: an interior run extended at either end.
    Ryanmen,
    /// Single wait on the pair itself.
    Tanki,
    /// Edge wait: a run against the board edge (1-2 waiting 3, 8-9 waiting 7).
    Penchan,
    /// Closed wait: a run completed in the middle.
    Kanchan,
    /// Triplet-pair wait: the tile completed one of two pre-existing pairs.
    Shanpon,
    /// Thirteen-orphans single wait (irregular hands only).
    KokushiIchimen,
    /// Thirteen-orphans thirteen-sided wait (irregular hands only).
    KokushiJusanmen,
    /// Nine-sided wait of the nine-gates hand.
    Kyuumen,
}

/// A standard winning hand: four melds, a pair, the winning tile, and the
/// classified wait. The pair is stored as its single tile kind.
#[derive(Debug, Clone, PartialEq, Eq)]
pub struct AgariHand {
    /// Exactly four melds, declared ones first, in discovery order.
    pub mentsu: Vec<Mentsu>,
    /// The tile kind forming the pair.
    pub atama: Hai,
    /// The winning tile.
    pub agari_hai: Hai,
    /// The wait the winning tile completed.
    pub machi: Machi,
}

impl AgariHand {
    /// Four well-formed melds and valid pair and winning tiles.
    pub open spec fn wf(self) -> bool {
        &&& self.mentsu@.len() == 4
        &&& forall|k: int| 0 <= k < 4 ==> wf_mentsu(#[trigger] self.mentsu@[k])
        &&& wf_hai(self.atama)
        &&& wf_hai(self.agari_hai)
    }

    /// Copies of tile kind `j` held by the whole hand: melds plus the pair.
    pub open spec fn held_count(self, j: int) -> nat {
        melds_tile_count(self.mentsu@, j) + (if j == hai_index(self.atama) { 2nat } else { 0nat })
    }
}

/// A hand as a vector of 34 per-kind tile counts, indexed by tile ordinal.
#[derive(Debug, Clone)]
pub struct Tehai {
    pub tiles: Vec<u8>,
}

impl Tehai {
    /// A count vector covers exactly the 34 tile kinds.
    pub open spec fn wf(self) -> bool {
        self.tiles@.len() == 34
    }

    /// Builds the count vector of a tile list.
    pub fn from_tiles(tiles: &Vec<Hai>) -> (t: Tehai)
        requires
            forall|k: int| 0 <= k < tiles@.len() ==> wf_hai(#[trigger] tiles@[k]),
            tiles@.len() <= 255,
        ensures
            t.wf(),
            forall|j: int| 0 <= j < 34 ==> t.tiles@[j] == tile_count(tiles@, j),
    {
        let wide = count_tiles(tiles);
        let mut narrow: Vec<u8> = Vec::new();
        let mut j: usize = 0;
        while j < 34
            invariant
                j <= 34,
                narrow@.len() == j,
                forall|k: int| 0 <= k < j ==> narrow@[k] == tile_count(tiles@, k),
        decreases 34 - j,
        {
            proof {
                lemma_tile_count_le_len(tiles@, j as int);
            }
            narrow.push(wide[j] as u8);
            j = j + 1;
        }
        Tehai { tiles: narrow }
    }
}

/// The two possible outcomes of hand decomposition.
#[derive(Debug, Clone, PartialEq, Eq)]
pub enum HandOrganization {
    /// Standard four melds and a pair, ready for standard yaku checking.
    YonmentsuIchiatama(AgariHand),
    /// No standard partition exists: the raw counts and the winning tile are
    /// handed to the yaku recognizer to test irregular patterns.
    Irregular {
        /// Per-kind counts of the entire hand (34 entries).
        counts: Vec<u8>,
        /// The winning tile, needed for yaku checking.
        agari_hai: Hai,
    },
}

/// The recognized structure of a winning hand, as produced by the external
/// yaku recognizer.
#[derive(Debug, Clone)]
pub enum HandStructure {
    /// Standard four melds and a pair.
    YonmentsuIchiatama(AgariHand),
    /// Seven pairs.
    Chiitoitsu {
        /// The seven distinct pair tiles.
        pairs: Vec<Hai>,
        agari_hai: Hai,
        /// Always the single wait.
        machi: Machi,
    },
    /// Thirteen orphans.
    KokushiMusou {
        /// The thirteen distinct terminal and honor tiles.
        tiles: Vec<Hai>,
        /// The tile kind forming the pair.
        atama: Hai,
        agari_hai: Hai,
        machi: Machi,
    },
    /// Nine gates; the hand itself is still a standard partition.
    ChuurenPoutou {
        hand: AgariHand,
        /// Whether the wait was the true nine-sided wait.
        is_junsei: bool,
    },
}

/// Number of copies of tile kind `j` among `tiles`.
pub open spec fn tile_count(tiles: Seq<Hai>, j: int) -> nat
    decreases tiles.len(),
{
    if tiles.len() == 0 {
        0nat
    } else {
        tile_count(tiles.drop_last(), j) + (if hai_index(tiles.last()) == j { 1nat } else { 0nat })
    }
}

/// A kind's count never exceeds the number of tiles.
pub proof fn lemma_tile_count_le_len(tiles: Seq<Hai>, j: int)
    ensures
        tile_count(tiles, j) <= tiles.len(),
    decreases tiles.len(),
{
    if tiles.len() > 0 {
        lemma_tile_count_le_len(tiles.drop_last(), j);
    }
}

/// Count the tiles of a hand into a 34-entry vector, one slot per tile kind.
pub fn count_tiles(tiles: &Vec<Hai>) -> (counts: Vec<usize>)
    requires
        forall|k: int| 0 <= k < tiles@.len() ==> wf_hai(#[trigger] tiles@[k]),
    ensures
        counts@.len() == 34,
        forall|j: int| 0 <= j < 34 ==> counts@[j] == tile_count(tiles@, j),
{
    let mut counts: Vec<usize> = Vec::new();
    let mut j: usize = 0;
    while j < 34
        invariant
            counts@.len() == j,
            j <= 34,
            forall|k: int| 0 <= k < j ==> counts@[k] == 0,
        decreases 34 - j,
    {
        counts.push(0);
        j = j + 1;
    }
    let mut n: usize = 0;
    while n < tiles.len()
        invariant
            counts@.len() == 34,
            n <= tiles@.len(),
            forall|k: int| 0 <= k < tiles@.len() ==> wf_hai(#[trigger] tiles@[k]),
            forall|j2: int| 0 <= j2 < 34 ==> counts@[j2] == tile_count(tiles@.subrange(0, n as int), j2),
        decreases tiles@.len() - n,
    {
        let idx = crate::tiles::tile_to_index(&tiles[n]);
        proof {
            lemma_tile_count_le_len(tiles@.subrange(0, n as int), idx as int);
        }
        counts.set(idx, counts[idx] + 1);
        n = n + 1;
        proof {
            assert(tiles@.subrange(0, n as int).drop_last() =~= tiles@.subrange(0, n - 1));
            assert(tiles@.subrange(0, n as int).last() == tiles@[n - 1]);
        }
    }
    proof {
        assert(tiles@.subrange(0, tiles@.len() as int) =~= tiles@);
    }
    counts
}

} // verus!
