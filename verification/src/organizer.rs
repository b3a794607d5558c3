//! Hand decomposition: an exhaustive backtracking search that partitions a
//! tile-count vector into triplets and sequences, pair selection, wait
//! classification, and the public `organize_hand` entry point.
//!
//! The search always works on the lowest-index tile kind still held, trying
//! a triplet first and then a sequence; this fixed order makes the result
//! deterministic and is mirrored exactly by [`search_melds`].

use vstd::prelude::*;
use crate::error::AgariError;
use crate::hand::{
    AgariHand, HandOrganization, Machi, Mentsu, MentsuType, melds_tile_count, mentsu_tile_count,
    tile_count, wf_mentsu,
};
use crate::input::UserInput;
use crate::validator::spec_count_kantsu;
use crate::tiles::{Hai, hai_index, hai_of_index, index_to_tile, tile_to_index, wf_hai};

verus! {

/// Sum of all per-kind counts: the number of tiles a count vector holds.
pub open spec fn sum_counts(c: Seq<u8>) -> nat
    decreases c.len(),
{
    if c.len() == 0 {
        0nat
    } else {
        sum_counts(c.drop_last()) + c.last() as nat
    }
}

/// Updating one slot changes the sum by exactly the difference.
pub proof fn lemma_sum_counts_update(c: Seq<u8>, i: int, v: u8)
    requires
        0 <= i < c.len(),
    ensures
        sum_counts(c.update(i, v)) + c[i] == sum_counts(c) + v,
    decreases c.len(),
{
    if i == c.len() - 1 {
        assert(c.update(i, v).drop_last() =~= c.drop_last());
    } else {
        lemma_sum_counts_update(c.drop_last(), i, v);
        assert(c.update(i, v).drop_last() =~= c.drop_last().update(i, v));
        assert(c.update(i, v).last() == c.last());
    }
}

/// The concealed triplet of tile kind `i` that the search forms.
pub open spec fn koutsu_at(i: int) -> Mentsu {
    Mentsu { mentsu_type: MentsuType::Koutsu, is_minchou: false, head: hai_of_index(i) }
}

/// The concealed sequence `i, i+1, i+2` that the search forms.
pub open spec fn shuntsu_at(i: int) -> Mentsu {
    Mentsu { mentsu_type: MentsuType::Shuntsu, is_minchou: false, head: hai_of_index(i) }
}

/// Whether a sequence may start at kind `i`: a numbered tile of rank at most
/// 7 whose two successors are still held.
pub open spec fn shuntsu_possible(c: Seq<u8>, i: int) -> bool {
    i < 27 && i % 9 < 7 && c[i + 1] > 0 && c[i + 2] > 0
}

/// The counts after removing a triplet of kind `i`.
pub open spec fn remove_koutsu(c: Seq<u8>, i: int) -> Seq<u8> {
    c.update(i, (c[i] - 3) as u8)
}

/// The counts after removing the sequence starting at kind `i`.
pub open spec fn remove_shuntsu(c: Seq<u8>, i: int) -> Seq<u8> {
    c.update(i + 1, (c[i + 1] - 1) as u8).update(i + 2, (c[i + 2] - 1) as u8).update(
        i,
        (c[i] - 1) as u8,
    )
}

/// The first-found decomposition of `c` into concealed triplets and
/// sequences, scanning kinds from `i` upward, trying a triplet before a
/// sequence at each kind. `None` when no decomposition consumes every tile.
pub open spec fn search_melds(c: Seq<u8>, i: int) -> Option<Seq<Mentsu>>
    decreases
            34 - i,
            (if 0 <= i < c.len() {
                c[i] as int
            } else {
                0
            }),
    when c.len() == 34
{
    if !(0 <= i < 34) {
        Some(Seq::empty())
    } else if c[i] == 0 {
        search_melds(c, i + 1)
    } else {
        let after_triplet = if c[i] >= 3 {
            search_melds(remove_koutsu(c, i), i)
        } else {
            None
        };
        match after_triplet {
            Some(rest) => Some(seq![koutsu_at(i)] + rest),
            None => {
                let after_sequence = if shuntsu_possible(c, i) {
                    search_melds(remove_shuntsu(c, i), i)
                } else {
                    None
                };
                match after_sequence {
                    Some(rest) => Some(seq![shuntsu_at(i)] + rest),
                    None => None,
                }
            }
        }
    }
}

/// Whether the counts can be fully decomposed into triplets and sequences.
pub open spec fn can_form_melds(c: Seq<u8>) -> bool {
    search_melds(c, 0) is Some
}

/// Scanning may start anywhere below the first held kind: the search result
/// does not change.
pub proof fn lemma_search_skip(c: Seq<u8>, i: int)
    requires
        c.len() == 34,
        0 <= i <= 34,
        forall|j: int| 0 <= j < i ==> c[j] == 0,
    ensures
        search_melds(c, 0) == search_melds(c, i),
    decreases i,
{
    if i > 0 {
        lemma_search_skip(c, i - 1);
    }
}

/// Melds the search may produce: well formed, concealed, never quads.
pub open spec fn is_closed_meld_list(ms: Seq<Mentsu>) -> bool {
    forall|k: int|
        0 <= k < ms.len() ==> wf_mentsu(#[trigger] ms[k]) && !(ms[k].mentsu_type is Kantsu)
            && !ms[k].is_minchou
}

/// A meld list partitions counts `c` when it is a closed meld list whose
/// per-kind contributions equal `c` exactly.
pub open spec fn is_meld_partition(ms: Seq<Mentsu>, c: Seq<u8>) -> bool {
    &&& is_closed_meld_list(ms)
    &&& forall|j: int| 0 <= j < 34 ==> melds_tile_count(ms, j) == c[j]
}

/// Contribution of a single meld prepended to a list.
proof fn lemma_melds_tile_count_cons(m: Mentsu, rest: Seq<Mentsu>, j: int)
    ensures
        melds_tile_count(seq![m] + rest, j) == mentsu_tile_count(m, j) + melds_tile_count(rest, j),
{
    crate::hand::lemma_melds_tile_count_add(seq![m], rest, j);
    assert(seq![m].drop_last() =~= Seq::<Mentsu>::empty());
    assert(melds_tile_count(Seq::<Mentsu>::empty(), j) == 0);
    assert(seq![m].last() == m);
    assert(melds_tile_count(seq![m], j) == mentsu_tile_count(m, j));
}

/// A kind held by a meld list is held by one of its melds.
proof fn lemma_melds_tile_count_pos(ms: Seq<Mentsu>, j: int)
    requires
        melds_tile_count(ms, j) > 0,
    ensures
        exists|k: int| 0 <= k < ms.len() && mentsu_tile_count(#[trigger] ms[k], j) > 0,
    decreases ms.len(),
{
    if mentsu_tile_count(ms.last(), j) > 0 {
        assert(0 <= ms.len() - 1 < ms.len() && mentsu_tile_count(ms[ms.len() - 1], j) > 0);
    } else {
        lemma_melds_tile_count_pos(ms.drop_last(), j);
        let k = choose|k: int|
            0 <= k < ms.drop_last().len() && mentsu_tile_count(#[trigger] ms.drop_last()[k], j)
                > 0;
        assert(ms.drop_last()[k] == ms[k]);
    }
}

/// What the search returns on success is a partition of its input:
/// no tile is gained or lost, every meld is well formed and concealed.
pub proof fn lemma_search_sound(c: Seq<u8>, i: int)
    requires
        c.len() == 34,
        0 <= i <= 34,
        forall|j: int| 0 <= j < i ==> c[j] == 0,
        search_melds(c, i) is Some,
    ensures
        is_meld_partition(search_melds(c, i).unwrap(), c),
    decreases
            34 - i,
            (if 0 <= i < 34 {
                c[i] as int
            } else {
                0
            }),
{
    let ms = search_melds(c, i).unwrap();
    if i == 34 {
        assert(forall|j: int| 0 <= j < 34 ==> melds_tile_count(ms, j) == 0);
    } else if c[i] == 0 {
        lemma_search_sound(c, i + 1);
    } else if c[i] >= 3 && search_melds(remove_koutsu(c, i), i) is Some {
        let c2 = remove_koutsu(c, i);
        lemma_search_sound(c2, i);
        let rest = search_melds(c2, i).unwrap();
        crate::tiles::lemma_tile_index_bijection(koutsu_at(i).head, i);
        assert(ms == seq![koutsu_at(i)] + rest);
        assert forall|j: int| 0 <= j < 34 implies melds_tile_count(ms, j) == c[j] by {
            lemma_melds_tile_count_cons(koutsu_at(i), rest, j);
        }
        assert forall|k: int| 0 <= k < ms.len() implies wf_mentsu(#[trigger] ms[k]) && !(
        ms[k].mentsu_type is Kantsu) && !ms[k].is_minchou by {
            if k > 0 {
                assert(ms[k] == rest[k - 1]);
            }
        }
    } else {
        let c2 = remove_shuntsu(c, i);
        lemma_search_sound(c2, i);
        let rest = search_melds(c2, i).unwrap();
        crate::tiles::lemma_tile_index_bijection(shuntsu_at(i).head, i);
        assert(ms == seq![shuntsu_at(i)] + rest);
        assert forall|j: int| 0 <= j < 34 implies melds_tile_count(ms, j) == c[j] by {
            lemma_melds_tile_count_cons(shuntsu_at(i), rest, j);
        }
        assert forall|k: int| 0 <= k < ms.len() implies wf_mentsu(#[trigger] ms[k]) && !(
        ms[k].mentsu_type is Kantsu) && !ms[k].is_minchou by {
            if k > 0 {
                assert(ms[k] == rest[k - 1]);
            }
        }
    }
}

/// Whenever any partition of `c` into closed melds exists, the search finds
/// one: the fixed triplet-then-sequence order at the lowest held kind never
/// misses a decomposable hand.
pub proof fn lemma_search_complete(c: Seq<u8>, i: int, ms: Seq<Mentsu>)
    requires
        c.len() == 34,
        0 <= i <= 34,
        forall|j: int| 0 <= j < i ==> c[j] == 0,
        is_meld_partition(ms, c),
    ensures
        search_melds(c, i) is Some,
    decreases ms.len(), 34 - i,
{
    if i == 34 {
        // The search is already done scanning: immediate success.
    } else if c[i] == 0 {
        lemma_search_complete(c, i + 1, ms);
    } else {
        lemma_melds_tile_count_pos(ms, i);
        if exists|k: int|
            0 <= k < ms.len() && (#[trigger] ms[k]).mentsu_type is Koutsu && hai_index(ms[k].head)
                == i {
            // Some partition meld is a triplet of kind `i`: remove it and
            // recurse; the search's triplet branch then succeeds.
            let k = choose|k: int|
                0 <= k < ms.len() && (#[trigger] ms[k]).mentsu_type is Koutsu && hai_index(
                    ms[k].head,
                ) == i;
            crate::hand::lemma_melds_tile_count_remove(ms, k, i);
            assert(c[i] >= 3);
            let ms2 = ms.remove(k);
            ms.remove_ensures(k);
            assert forall|j: int| 0 <= j < 34 implies melds_tile_count(ms2, j) == remove_koutsu(
                c,
                i,
            )[j] by {
                crate::hand::lemma_melds_tile_count_remove(ms, k, j);
            }
            lemma_search_complete(remove_koutsu(c, i), i, ms2);
        } else {
            // Every meld of the partition holding kind `i` is a sequence
            // starting at `i`: remove one and recurse; whichever branch of
            // the search succeeds, the search succeeds.
            let k = choose|k: int| 0 <= k < ms.len() && mentsu_tile_count(#[trigger] ms[k], i) > 0;
            let m = ms[k];
            let h = hai_index(m.head);
            crate::hand::lemma_melds_tile_count_remove(ms, k, h);
            assert(c[h] > 0);
            assert(h >= i);
            assert(m.mentsu_type is Shuntsu && h == i);
            crate::hand::lemma_melds_tile_count_remove(ms, k, i + 1);
            crate::hand::lemma_melds_tile_count_remove(ms, k, i + 2);
            assert(shuntsu_possible(c, i));
            let ms2 = ms.remove(k);
            ms.remove_ensures(k);
            assert forall|j: int| 0 <= j < 34 implies melds_tile_count(ms2, j) == remove_shuntsu(
                c,
                i,
            )[j] by {
                crate::hand::lemma_melds_tile_count_remove(ms, k, j);
            }
            lemma_search_complete(remove_shuntsu(c, i), i, ms2);
            if c[i] >= 3 && search_melds(remove_koutsu(c, i), i) is Some {
                // The search's triplet branch happens to succeed first.
            } else {
                // The triplet branch fails, and the sequence branch succeeds.
            }
        }
    }
}

/// The search succeeds exactly when a partition into closed triplets and
/// sequences exists: the backtracking engine is exhaustive.
pub proof fn lemma_decomposition_exhaustive(c: Seq<u8>)
    requires
        c.len() == 34,
    ensures
        can_form_melds(c) <==> exists|ms: Seq<Mentsu>| is_meld_partition(ms, c),
{
    if can_form_melds(c) {
        lemma_search_sound(c, 0);
        assert(is_meld_partition(search_melds(c, 0).unwrap(), c));
    }
    if exists|ms: Seq<Mentsu>| is_meld_partition(ms, c) {
        let ms = choose|ms: Seq<Mentsu>| is_meld_partition(ms, c);
        lemma_search_complete(c, 0, ms);
    }
}

/// Recursively finds melds covering every tile of `counts`, in first-found
/// order. On success the found melds are appended to `mentsu` and the counts
/// are consumed to zero; on failure both are left exactly as given.
pub fn find_mentsu_recursive(counts: &mut Vec<u8>, mentsu: &mut Vec<Mentsu>) -> (found: bool)
    requires
        old(counts)@.len() == 34,
    ensures
        final(counts)@.len() == 34,
        match search_melds(old(counts)@, 0) {
            Some(ms) => found && final(mentsu)@ == old(mentsu)@ + ms && (forall|j: int|
                0 <= j < 34 ==> final(counts)@[j] == 0),
            None => !found && final(counts)@ == old(counts)@ && final(mentsu)@ == old(mentsu)@,
        },
    decreases sum_counts(counts@),
{
    let ghost c0 = counts@;
    let mut i: usize = 0;
    while i < 34 && counts[i] == 0
        invariant
            i <= 34,
            forall|j: int| 0 <= j < i ==> c0[j] == 0,
        decreases 34 - i,
    {
        i = i + 1;
    }
    proof {
        lemma_search_skip(c0, i as int);
    }
    if i == 34 {
        proof {
            assert(old(mentsu)@ + Seq::<Mentsu>::empty() =~= old(mentsu)@);
        }
        return true;
    }

    // Try a triplet at kind `i`.
    if counts[i] >= 3 {
        let v = counts[i];
        counts.set(i, v - 3);
        proof {
            lemma_sum_counts_update(c0, i as int, (v - 3) as u8);
        }
        mentsu.push(Mentsu {
            mentsu_type: MentsuType::Koutsu,
            is_minchou: false,
            head: index_to_tile(i),
        });
        let ghost m1 = mentsu@;
        proof {
            lemma_search_skip(remove_koutsu(c0, i as int), i as int);
        }
        if find_mentsu_recursive(counts, mentsu) {
            proof {
                let rest = search_melds(remove_koutsu(c0, i as int), i as int).unwrap();
                assert(m1 + rest =~= old(mentsu)@ + (seq![koutsu_at(i as int)] + rest));
            }
            return true;
        }
        // Backtrack: restore the three tiles and drop the tentative meld.
        mentsu.pop();
        counts.set(i, v);
        proof {
            assert(counts@ =~= c0);
            assert(mentsu@ =~= old(mentsu)@);
        }
    }

    // Try a sequence starting at kind `i`.
    if i < 27 && (i % 9) < 7 && counts[i] > 0 && counts[i + 1] > 0 && counts[i + 2] > 0 {
        let v0 = counts[i];
        let v1 = counts[i + 1];
        let v2 = counts[i + 2];
        counts.set(i + 1, v1 - 1);
        counts.set(i + 2, v2 - 1);
        counts.set(i, v0 - 1);
        proof {
            assert(counts@ == remove_shuntsu(c0, i as int));
            lemma_sum_counts_update(c0, i as int + 1, (v1 - 1) as u8);
            lemma_sum_counts_update(c0.update(i as int + 1, (v1 - 1) as u8), i as int + 2, (v2
                - 1) as u8);
            lemma_sum_counts_update(
                c0.update(i as int + 1, (v1 - 1) as u8).update(i as int + 2, (v2 - 1) as u8),
                i as int,
                (v0 - 1) as u8,
            );
        }
        mentsu.push(Mentsu {
            mentsu_type: MentsuType::Shuntsu,
            is_minchou: false,
            head: index_to_tile(i),
        });
        let ghost m2 = mentsu@;
        proof {
            lemma_search_skip(remove_shuntsu(c0, i as int), i as int);
        }
        if find_mentsu_recursive(counts, mentsu) {
            proof {
                let rest = search_melds(remove_shuntsu(c0, i as int), i as int).unwrap();
                assert(m2 + rest =~= old(mentsu)@ + (seq![shuntsu_at(i as int)] + rest));
            }
            return true;
        }
        // Backtrack: restore the three tiles and drop the tentative meld.
        mentsu.pop();
        counts.set(i, v0);
        counts.set(i + 2, v2);
        counts.set(i + 1, v1);
        proof {
            assert(counts@ =~= c0);
            assert(mentsu@ =~= old(mentsu)@);
        }
    }

    false
}

/// Whether a meld contains the given tile: the repeated tile of a triplet
/// or quad, or any of the three tiles of a sequence.
pub open spec fn spec_mentsu_contains_tile(m: Mentsu, tile: Hai) -> bool {
    match m.mentsu_type {
        MentsuType::Koutsu => m.head == tile,
        MentsuType::Kantsu => m.head == tile,
        MentsuType::Shuntsu => tile == m.head || tile == hai_of_index(hai_index(m.head) + 1)
            || tile == hai_of_index(hai_index(m.head) + 2),
    }
}

/// A meld holding copies of a tile's kind contains that tile.
proof fn lemma_meld_count_contains(m: Mentsu, t: Hai)
    requires
        wf_mentsu(m),
        wf_hai(t),
        mentsu_tile_count(m, hai_index(t)) > 0,
    ensures
        spec_mentsu_contains_tile(m, t),
{
    crate::tiles::lemma_tile_index_bijection(t, 0);
    crate::tiles::lemma_tile_index_bijection(m.head, 0);
}

/// Whether the meld contains the tile.
pub fn mentsu_contains_tile(mentsu: &Mentsu, tile: &Hai) -> (b: bool)
    requires
        wf_mentsu(*mentsu),
    ensures
        b == spec_mentsu_contains_tile(*mentsu, *tile),
{
    match mentsu.mentsu_type {
        MentsuType::Koutsu | MentsuType::Kantsu => mentsu.head == *tile,
        MentsuType::Shuntsu => {
            let i = tile_to_index(&mentsu.head);
            *tile == mentsu.head || *tile == index_to_tile(i + 1) || *tile == index_to_tile(i + 2)
        }
    }
}

/// Position of the first meld containing `tile`, or -1 when none does.
pub open spec fn first_containing(ms: Seq<Mentsu>, tile: Hai) -> int
    decreases ms.len(),
{
    if ms.len() == 0 {
        -1
    } else if spec_mentsu_contains_tile(ms[0], tile) {
        0
    } else if first_containing(ms.drop_first(), tile) < 0 {
        -1
    } else {
        first_containing(ms.drop_first(), tile) + 1
    }
}

proof fn lemma_first_containing_at(ms: Seq<Mentsu>, tile: Hai, k: int)
    requires
        0 <= k < ms.len(),
        spec_mentsu_contains_tile(ms[k], tile),
        forall|j: int| 0 <= j < k ==> !spec_mentsu_contains_tile(#[trigger] ms[j], tile),
    ensures
        first_containing(ms, tile) == k,
    decreases k,
{
    if k > 0 {
        assert(forall|j: int|
            0 <= j < k - 1 ==> !spec_mentsu_contains_tile(#[trigger] ms.drop_first()[j], tile));
        lemma_first_containing_at(ms.drop_first(), tile, k - 1);
    }
}

/// The wait classification rule: the pair first, then the first meld
/// containing the winning tile decides, with sequences split by position.
pub open spec fn spec_determine_wait(ms: Seq<Mentsu>, atama: Hai, agari: Hai) -> Machi {
    if agari == atama {
        Machi::Tanki
    } else {
        let m = ms[first_containing(ms, agari)];
        match m.mentsu_type {
            MentsuType::Koutsu => Machi::Shanpon,
            MentsuType::Kantsu => Machi::Shanpon,
            MentsuType::Shuntsu => {
                let i = hai_index(m.head);
                if agari == hai_of_index(i + 1) {
                    Machi::Kanchan
                } else if agari == m.head {
                    if (i + 2) % 9 == 8 {
                        Machi::Penchan
                    } else {
                        Machi::Ryanmen
                    }
                } else {
                    if i % 9 == 0 {
                        Machi::Penchan
                    } else {
                        Machi::Ryanmen
                    }
                }
            }
        }
    }
}

/// Classifies the wait completed by the winning tile: the pair takes
/// priority, then the first meld containing the tile.
pub fn determine_wait_type(mentsu: &Vec<Mentsu>, atama: Hai, agari_hai: Hai) -> (machi: Machi)
    requires
        mentsu@.len() == 4,
        forall|k: int| 0 <= k < 4 ==> wf_mentsu(#[trigger] mentsu@[k]),
        atama == agari_hai || exists|k: int|
            0 <= k < 4 && spec_mentsu_contains_tile(#[trigger] mentsu@[k], agari_hai),
    ensures
        machi == spec_determine_wait(mentsu@, atama, agari_hai),
{
    if agari_hai == atama {
        return Machi::Tanki;
    }
    let mut k: usize = 0;
    while k < 4
        invariant
            k <= 4,
            forall|j: int|
                0 <= j < k ==> !spec_mentsu_contains_tile(#[trigger] mentsu@[j], agari_hai),
        decreases 4 - k,
    {
        if mentsu_contains_tile(&mentsu[k], &agari_hai) {
            proof {
                lemma_first_containing_at(mentsu@, agari_hai, k as int);
            }
            let m = mentsu[k];
            match m.mentsu_type {
                MentsuType::Koutsu | MentsuType::Kantsu => {
                    return Machi::Shanpon;
                }
                MentsuType::Shuntsu => {
                    let i = tile_to_index(&m.head);
                    if agari_hai == index_to_tile(i + 1) {
                        return Machi::Kanchan;
                    } else if agari_hai == m.head {
                        if (i + 2) % 9 == 8 {
                            return Machi::Penchan;
                        } else {
                            return Machi::Ryanmen;
                        }
                    } else {
                        if i % 9 == 0 {
                            return Machi::Penchan;
                        } else {
                            return Machi::Ryanmen;
                        }
                    }
                }
            }
        }
        k = k + 1;
    }
    proof {
        assert(false);
    }
    Machi::Tanki
}

/// Classifying a wait is deterministic: two classifications that each
/// satisfy the classifier's contract on the same decomposed hand and
/// winning tile are equal.
pub proof fn lemma_wait_determinism(ms: Seq<Mentsu>, atama: Hai, agari: Hai, m1: Machi, m2: Machi)
    requires
        m1 == spec_determine_wait(ms, atama, agari),
        m2 == spec_determine_wait(ms, atama, agari),
    ensures
        m1 == m2,
{
}

/// The 34-entry per-kind counts of a tile list, as machine integers.
pub open spec fn spec_master_usize(tiles: Seq<Hai>) -> Seq<usize> {
    Seq::new(34, |j: int| tile_count(tiles, j) as usize)
}

/// The 34-entry per-kind counts of a tile list, as bytes.
pub open spec fn spec_master8(tiles: Seq<Hai>) -> Seq<u8> {
    Seq::new(34, |j: int| tile_count(tiles, j) as u8)
}

/// A count vector of all zeros sums to zero.
proof fn lemma_sum_counts_zero(c: Seq<u8>)
    requires
        forall|j: int| 0 <= j < c.len() ==> c[j] == 0,
    ensures
        sum_counts(c) == 0,
    decreases c.len(),
{
    if c.len() > 0 {
        lemma_sum_counts_zero(c.drop_last());
    }
}

/// A count vector summing to zero is all zeros.
proof fn lemma_sum_counts_zero_all(c: Seq<u8>)
    requires
        sum_counts(c) == 0,
    ensures
        forall|j: int| 0 <= j < c.len() ==> c[j] == 0,
    decreases c.len(),
{
    if c.len() > 0 {
        lemma_sum_counts_zero_all(c.drop_last());
        assert(forall|j: int| 0 <= j < c.len() - 1 ==> c[j] == c.drop_last()[j]);
    }
}

/// A held tile's kind has a positive count.
proof fn lemma_contains_tile_count(tiles: Seq<Hai>, t: Hai)
    requires
        tiles.contains(t),
    ensures
        tile_count(tiles, hai_index(t)) > 0,
    decreases tiles.len(),
{
    if tiles.last() != t {
        let k = choose|k: int| 0 <= k < tiles.len() && tiles[k] == t;
        assert(tiles.drop_last()[k] == t);
        lemma_contains_tile_count(tiles.drop_last(), t);
    }
}

/// Counting all tiles recovers the number of tiles.
proof fn lemma_sum_master8(tiles: Seq<Hai>)
    requires
        forall|k: int| 0 <= k < tiles.len() ==> wf_hai(#[trigger] tiles[k]),
        forall|j: int| 0 <= j < 34 ==> tile_count(tiles, j) <= 255,
    ensures
        sum_counts(spec_master8(tiles)) == tiles.len(),
    decreases tiles.len(),
{
    if tiles.len() == 0 {
        lemma_sum_counts_zero(spec_master8(tiles));
    } else {
        let dl = tiles.drop_last();
        let idx = hai_index(tiles.last());
        crate::tiles::lemma_tile_index_bijection(tiles.last(), 0);
        assert(forall|j: int| 0 <= j < 34 ==> tile_count(dl, j) <= tile_count(tiles, j));
        lemma_sum_master8(dl);
        assert(spec_master8(tiles) =~= spec_master8(dl).update(
            idx,
            (spec_master8(dl)[idx] + 1) as u8,
        ));
        lemma_sum_counts_update(spec_master8(dl), idx, (spec_master8(dl)[idx] + 1) as u8);
    }
}

/// The meld recorded for a declared concealed quad.
pub open spec fn closed_kan_mentsu(t: Hai) -> Mentsu {
    Mentsu { mentsu_type: MentsuType::Kantsu, is_minchou: false, head: t }
}

/// The meld recorded for a declared open call.
pub open spec fn open_meld_mentsu(m: crate::input::OpenMeld) -> Mentsu {
    Mentsu { mentsu_type: m.mentsu_type, is_minchou: true, head: m.representative_tile }
}

/// The melds of the declared concealed quads, in declaration order.
pub open spec fn closed_kan_melds(kans: Seq<Hai>) -> Seq<Mentsu>
    decreases kans.len(),
{
    if kans.len() == 0 {
        Seq::empty()
    } else {
        closed_kan_melds(kans.drop_last()).push(closed_kan_mentsu(kans.last()))
    }
}

/// The melds of the declared open calls, in declaration order.
pub open spec fn open_meld_melds(melds: Seq<crate::input::OpenMeld>) -> Seq<Mentsu>
    decreases melds.len(),
{
    if melds.len() == 0 {
        Seq::empty()
    } else {
        open_meld_melds(melds.drop_last()).push(open_meld_mentsu(melds.last()))
    }
}

/// All declared melds, concealed quads first, in declaration order.
pub open spec fn spec_declared_melds(input: UserInput) -> Seq<Mentsu> {
    closed_kan_melds(input.closed_kans@) + open_meld_melds(input.open_melds@)
}

/// Appending one meld adds exactly its contribution.
proof fn lemma_melds_tile_count_push(ms: Seq<Mentsu>, m: Mentsu, j: int)
    ensures
        melds_tile_count(ms.push(m), j) == melds_tile_count(ms, j) + mentsu_tile_count(m, j),
{
    assert(ms.push(m).drop_last() =~= ms);
}

/// Counts left after subtracting declared concealed quads, or the first
/// missing quad.
pub open spec fn spec_remove_closed_kans(c: Seq<u8>, kans: Seq<Hai>) -> Result<Seq<u8>, AgariError>
    decreases kans.len(),
{
    if kans.len() == 0 {
        Ok(c)
    } else {
        let idx = hai_index(kans[0]);
        if c[idx] < 4 {
            Err(AgariError::ClosedKanNotInHand)
        } else {
            spec_remove_closed_kans(c.update(idx, (c[idx] - 4) as u8), kans.drop_first())
        }
    }
}

/// Counts left after subtracting declared open melds, or the first failure.
pub open spec fn spec_remove_open_melds(c: Seq<u8>, melds: Seq<crate::input::OpenMeld>) -> Result<
    Seq<u8>,
    AgariError,
>
    decreases melds.len(),
{
    if melds.len() == 0 {
        Ok(c)
    } else {
        let idx = hai_index(melds[0].representative_tile);
        match melds[0].mentsu_type {
            MentsuType::Koutsu => if c[idx] < 3 {
                Err(AgariError::PonNotInHand)
            } else {
                spec_remove_open_melds(c.update(idx, (c[idx] - 3) as u8), melds.drop_first())
            },
            MentsuType::Kantsu => if c[idx] < 4 {
                Err(AgariError::OpenKanNotInHand)
            } else {
                spec_remove_open_melds(c.update(idx, (c[idx] - 4) as u8), melds.drop_first())
            },
            MentsuType::Shuntsu => if idx >= 27 || idx % 9 >= 7 {
                Err(AgariError::ChiInvalidTile)
            } else if c[idx] < 1 || c[idx + 1] < 1 || c[idx + 2] < 1 {
                Err(AgariError::ChiNotInHand)
            } else {
                spec_remove_open_melds(
                    c.update(idx, (c[idx] - 1) as u8).update(idx + 1, (c[idx + 1] - 1) as u8)
                        .update(idx + 2, (c[idx + 2] - 1) as u8),
                    melds.drop_first(),
                )
            },
        }
    }
}

/// Counts left in `c` after subtracting all of the request's declared
/// calls: concealed quads first, then open melds.
pub open spec fn spec_concealed_of(c: Seq<u8>, input: UserInput) -> Result<Seq<u8>, AgariError> {
    match spec_remove_closed_kans(c, input.closed_kans@) {
        Err(e) => Err(e),
        Ok(c1) => spec_remove_open_melds(c1, input.open_melds@),
    }
}

/// Concealed counts of the hand: the full counts minus all declared calls.
pub open spec fn spec_concealed_counts(input: UserInput) -> Result<Seq<u8>, AgariError> {
    spec_concealed_of(spec_master8(input.hand_tiles@), input)
}

/// The whole preparatory stage of decomposition: validation, then removal
/// of the declared calls, leaving the concealed counts.
pub open spec fn spec_prepare(input: UserInput) -> Result<Seq<u8>, AgariError> {
    match crate::validator::spec_validate_input(input, spec_master_usize(input.hand_tiles@)) {
        Err(e) => Err(e),
        Ok(u) => spec_concealed_counts(input),
    }
}

/// Lowest kind holding exactly two tiles from `i` up, or -1.
pub open spec fn first_exact_pair(c: Seq<u8>, i: int) -> int
    decreases 34 - i,
{
    if !(0 <= i < 34) {
        -1
    } else if c[i] == 2 {
        i
    } else {
        first_exact_pair(c, i + 1)
    }
}

proof fn lemma_first_exact_pair_skip(c: Seq<u8>, i: int)
    requires
        0 <= i <= 34,
        forall|j: int| 0 <= j < i ==> c[j] != 2,
    ensures
        first_exact_pair(c, 0) == first_exact_pair(c, i),
    decreases i,
{
    if i > 0 {
        lemma_first_exact_pair_skip(c, i - 1);
    }
}

/// A pair hypothesis accepted by the search: two copies held, and the
/// remainder decomposes into exactly `needed` melds.
pub open spec fn feasible_pair(c: Seq<u8>, needed: int, i: int) -> bool {
    c[i] >= 2 && {
        let found = search_melds(c.update(i, (c[i] - 2) as u8), 0);
        found is Some && found.unwrap().len() == needed
    }
}

/// Lowest feasible pair hypothesis from `i` up, or -1.
pub open spec fn first_feasible_pair(c: Seq<u8>, needed: int, i: int) -> int
    decreases 34 - i,
{
    if !(0 <= i < 34) {
        -1
    } else if feasible_pair(c, needed, i) {
        i
    } else {
        first_feasible_pair(c, needed, i + 1)
    }
}

proof fn lemma_first_feasible_pair_skip(c: Seq<u8>, needed: int, i: int)
    requires
        0 <= i <= 34,
        forall|j: int| 0 <= j < i ==> !feasible_pair(c, needed, j),
    ensures
        first_feasible_pair(c, needed, 0) == first_feasible_pair(c, needed, i),
    decreases i,
{
    if i > 0 {
        lemma_first_feasible_pair_skip(c, needed, i - 1);
    }
}

/// Full functional contract of `organize_hand`: which error comes on which
/// request, and exactly which hand is built otherwise, down to the
/// first-found pair and meld list.
pub open spec fn spec_organize_outcome(
    input: UserInput,
    r: Result<HandOrganization, AgariError>,
) -> bool {
    let master = spec_master8(input.hand_tiles@);
    let decl = spec_declared_melds(input);
    let needed = 4 - decl.len() as int;
    &&& (spec_prepare(input) matches Err(e) ==> r == Err::<HandOrganization, AgariError>(e))
    &&& (spec_prepare(input) matches Ok(cc) ==> {
        let p0 = first_exact_pair(cc, 0);
        let p = first_feasible_pair(cc, needed, 0);
        &&& (needed == 0 && p0 >= 0 ==> (r matches Ok(HandOrganization::YonmentsuIchiatama(h))
            && h.mentsu@ == decl && h.atama == hai_of_index(p0) && h.agari_hai
            == input.winning_tile && h.machi == Machi::Tanki))
        &&& (needed == 0 && p0 < 0 && input.hand_tiles@.len() != 14 ==> r == Err::<
            HandOrganization,
            AgariError,
        >(AgariError::NoPairFound))
        &&& ((needed != 0 || (p0 < 0 && input.hand_tiles@.len() == 14)) ==> {
            &&& (p >= 0 ==> (r matches Ok(HandOrganization::YonmentsuIchiatama(h)) && h.mentsu@
                == decl + search_melds(cc.update(p, (cc[p] - 2) as u8), 0).unwrap() && h.atama
                == hai_of_index(p) && h.agari_hai == input.winning_tile && h.machi
                == spec_determine_wait(h.mentsu@, h.atama, h.agari_hai)))
            &&& (p < 0 ==> (r matches Ok(HandOrganization::Irregular { counts, agari_hai })
                && counts@ == master && agari_hai == input.winning_tile))
        })
    })
}

/// A partition into triplets and sequences uses exactly three tiles per
/// meld.
proof fn lemma_partition_size(ms: Seq<Mentsu>, c: Seq<u8>)
    requires
        c.len() == 34,
        is_meld_partition(ms, c),
    ensures
        3 * ms.len() == sum_counts(c),
    decreases ms.len(),
{
    if ms.len() == 0 {
        lemma_sum_counts_zero(c);
    } else {
        let m = ms.last();
        let i = hai_index(m.head);
        crate::tiles::lemma_tile_index_bijection(m.head, 0);
        if m.mentsu_type is Koutsu {
            let c2 = c.update(i, (c[i] - 3) as u8);
            assert(is_meld_partition(ms.drop_last(), c2)) by {
                assert(forall|k: int| 0 <= k < ms.len() - 1 ==> ms.drop_last()[k] == ms[k]);
            }
            lemma_partition_size(ms.drop_last(), c2);
            lemma_sum_counts_update(c, i, (c[i] - 3) as u8);
        } else {
            let c2 = c.update(i, (c[i] - 1) as u8).update(i + 1, (c[i + 1] - 1) as u8).update(
                i + 2,
                (c[i + 2] - 1) as u8,
            );
            assert(is_meld_partition(ms.drop_last(), c2)) by {
                assert(forall|k: int| 0 <= k < ms.len() - 1 ==> ms.drop_last()[k] == ms[k]);
            }
            lemma_partition_size(ms.drop_last(), c2);
            lemma_sum_counts_update(c, i, (c[i] - 1) as u8);
            lemma_sum_counts_update(
                c.update(i, (c[i] - 1) as u8),
                i + 1,
                (c[i + 1] - 1) as u8,
            );
            lemma_sum_counts_update(
                c.update(i, (c[i] - 1) as u8).update(i + 1, (c[i + 1] - 1) as u8),
                i + 2,
                (c[i + 2] - 1) as u8,
            );
        }
    }
}

/// A non-negative answer of the feasible-pair scan is a feasible pair.
proof fn lemma_first_feasible_is_feasible(c: Seq<u8>, needed: int, i: int)
    ensures
        first_feasible_pair(c, needed, i) >= 0 ==> i <= first_feasible_pair(c, needed, i) < 34
            && feasible_pair(c, needed, first_feasible_pair(c, needed, i)),
    decreases 34 - i,
{
    if 0 <= i < 34 && !feasible_pair(c, needed, i) {
        lemma_first_feasible_is_feasible(c, needed, i + 1);
    }
}

/// A feasible pair anywhere at or above `i` makes the scan succeed.
proof fn lemma_first_feasible_found(c: Seq<u8>, needed: int, i: int, p: int)
    requires
        0 <= i <= p < 34,
        feasible_pair(c, needed, p),
    ensures
        first_feasible_pair(c, needed, i) >= 0,
    decreases p - i,
{
    if i < p && !feasible_pair(c, needed, i) {
        lemma_first_feasible_found(c, needed, i + 1, p);
    }
}

/// A pair choice plus a partition of the remainder into closed melds: the
/// combinatorial statement that a standard hand exists in counts `c`.
pub open spec fn pair_and_partition(c: Seq<u8>, p: int, ms: Seq<Mentsu>) -> bool {
    0 <= p < 34 && c[p] >= 2 && is_meld_partition(ms, c.update(p, (c[p] - 2) as u8))
}

/// The pair-hypothesis scan over a full 14-tile concealed hand succeeds
/// exactly when some pair plus a partition of the rest into closed melds
/// exists: the decomposition engine is exhaustive end to end.
pub proof fn lemma_regular_exhaustive(c: Seq<u8>)
    requires
        c.len() == 34,
        sum_counts(c) == 14,
    ensures
        first_feasible_pair(c, 4, 0) >= 0 <==> exists|p: int, ms: Seq<Mentsu>| pair_and_partition(
            c,
            p,
            ms,
        ),
{
    if first_feasible_pair(c, 4, 0) >= 0 {
        lemma_first_feasible_is_feasible(c, 4, 0);
        let p = first_feasible_pair(c, 4, 0);
        let c2 = c.update(p, (c[p] - 2) as u8);
        lemma_search_sound(c2, 0);
        assert(pair_and_partition(c, p, search_melds(c2, 0).unwrap()));
    }
    if exists|p: int, ms: Seq<Mentsu>| pair_and_partition(c, p, ms) {
        let (p, ms) = choose|p: int, ms: Seq<Mentsu>| pair_and_partition(c, p, ms);
        let c2 = c.update(p, (c[p] - 2) as u8);
        lemma_search_complete(c2, 0, ms);
        lemma_search_sound(c2, 0);
        let found = search_melds(c2, 0).unwrap();
        lemma_partition_size(found, c2);
        lemma_sum_counts_update(c, p, (c[p] - 2) as u8);
        assert(found.len() == 4);
        assert(feasible_pair(c, 4, p));
        lemma_first_feasible_found(c, 4, 0, p);
    }
}

/// Copy a 34-entry count vector.
fn copy_counts(c: &Vec<u8>) -> (r: Vec<u8>)
    ensures
        r@ == c@,
{
    let mut r: Vec<u8> = Vec::new();
    let mut j: usize = 0;
    while j < c.len()
        invariant
            j <= c@.len(),
            r@ == c@.subrange(0, j as int),
        decreases c@.len() - j,
    {
        r.push(c[j]);
        proof {
            assert(r@ =~= c@.subrange(0, j + 1));
        }
        j = j + 1;
    }
    proof {
        assert(c@.subrange(0, c@.len() as int) =~= c@);
    }
    r
}

/// Facts established once the declared calls are removed and the case
/// proofs of `organize_hand` rely on.
proof fn lemma_case_a_facts(tiles: Seq<Hai>, m8: Seq<u8>, cc: Seq<u8>, decl: Seq<Mentsu>, i: int)
    requires
        cc.len() == 34,
        0 <= i < 34,
        cc[i] == 2,
        sum_counts(cc) == 2,
        forall|j: int| 0 <= j < 34 ==> cc[j] + melds_tile_count(decl, j) == m8[j],
        forall|j: int| 0 <= j < 34 ==> m8[j] == tile_count(tiles, j),
    ensures
        forall|j: int|
            0 <= j < 34 ==> melds_tile_count(decl, j) + (if j == i {
                2nat
            } else {
                0nat
            }) == tile_count(tiles, j),
{
    lemma_sum_counts_update(cc, i, 0);
    lemma_sum_counts_zero_all(cc.update(i, 0));
    assert(forall|j: int| 0 <= j < 34 && j != i ==> cc[j] == cc.update(i, 0)[j]);
}

/// Facts about the standard hand built from a feasible pair hypothesis:
/// four well-formed melds, the winning tile sits in the pair or a meld, and
/// melds plus pair hold exactly the hand's tiles.
proof fn lemma_case_b_facts(
    tiles: Seq<Hai>,
    m8: Seq<u8>,
    cc: Seq<u8>,
    decl: Seq<Mentsu>,
    searched: Seq<Mentsu>,
    all: Seq<Mentsu>,
    i: int,
    atama: Hai,
    agari: Hai,
)
    requires
        cc.len() == 34,
        0 <= i < 34,
        cc[i] >= 2,
        all == decl + searched,
        decl.len() + searched.len() == 4,
        forall|j: int| 0 <= j < 34 ==> cc[j] + melds_tile_count(decl, j) == m8[j],
        forall|j: int|
            0 <= j < 34 ==> melds_tile_count(searched, j) == cc.update(i, (cc[i] - 2) as u8)[j],
        forall|k: int| 0 <= k < decl.len() ==> wf_mentsu(#[trigger] decl[k]),
        is_closed_meld_list(searched),
        forall|j: int| 0 <= j < 34 ==> m8[j] == tile_count(tiles, j),
        tiles.contains(agari),
        wf_hai(agari),
        atama == hai_of_index(i),
    ensures
        all.len() == 4,
        forall|k: int| 0 <= k < 4 ==> wf_mentsu(#[trigger] all[k]),
        atama == agari || exists|k: int|
            0 <= k < 4 && spec_mentsu_contains_tile(#[trigger] all[k], agari),
        wf_hai(atama),
        hai_index(atama) == i,
        forall|j: int|
            0 <= j < 34 ==> melds_tile_count(all, j) + (if j == hai_index(atama) {
                2nat
            } else {
                0nat
            }) == tile_count(tiles, j),
{
    crate::tiles::lemma_tile_index_bijection(atama, i);
    assert forall|j: int|
        0 <= j < 34 implies melds_tile_count(all, j) + (if j == i {
        2nat
    } else {
        0nat
    }) == m8[j] by {
        crate::hand::lemma_melds_tile_count_add(decl, searched, j);
    }
    assert forall|k: int| 0 <= k < 4 implies wf_mentsu(#[trigger] all[k]) by {
        if k >= decl.len() {
            assert(all[k] == searched[k - decl.len()]);
        }
    }
    let wj = hai_index(agari);
    lemma_contains_tile_count(tiles, agari);
    crate::tiles::lemma_tile_index_bijection(agari, 0);
    if wj == i {
        crate::tiles::lemma_tile_index_bijection(agari, i);
        assert(atama == agari);
    } else {
        assert(m8[wj] > 0);
        assert(melds_tile_count(all, wj) > 0);
        lemma_melds_tile_count_pos(all, wj);
        let w = choose|k: int|
            0 <= k < all.len() && mentsu_tile_count(#[trigger] all[k], wj) > 0;
        lemma_meld_count_contains(all[w], agari);
    }
}

/// Removes the declared calls' tiles from the counts and records their
/// melds, in declaration order; fails on the first declared call whose
/// tiles are not all present.
fn remove_declared_calls(input: &UserInput, master: &Vec<u8>) -> (res: Result<
    (Vec<u8>, Vec<Mentsu>),
    AgariError,
>)
    requires
        input.wf(),
        master@.len() == 34,
    ensures
        (res matches Err(e) ==> spec_concealed_of(master@, *input) == Err::<Seq<u8>, AgariError>(
            e,
        )),
        (res matches Ok(p) ==> {
            &&& spec_concealed_of(master@, *input) == Ok::<Seq<u8>, AgariError>(p.0@)
            &&& p.1@ == spec_declared_melds(*input)
            &&& p.0@.len() == 34
            &&& forall|j: int|
                0 <= j < 34 ==> p.0@[j] + melds_tile_count(p.1@, j) == master@[j]
            &&& forall|k: int| 0 <= k < p.1@.len() ==> wf_mentsu(#[trigger] p.1@[k])
            &&& p.1@.len() == input.closed_kans@.len() + input.open_melds@.len()
            &&& sum_counts(p.0@) + 4 * input.closed_kans@.len() + 3 * input.open_melds@.len()
                + spec_count_kantsu(input.open_melds@) == sum_counts(master@)
        }),
{
    let ghost m8 = master@;
    let mut concealed = copy_counts(&master);
    let mut final_mentsu: Vec<Mentsu> = Vec::new();
    proof {
        assert(input.closed_kans@.skip(0) =~= input.closed_kans@);
        assert(input.closed_kans@.subrange(0, 0) =~= Seq::<Hai>::empty());
    }

    // Subtract the declared concealed quads.
    let mut kk: usize = 0;
    while kk < input.closed_kans.len()
        invariant
            kk <= input.closed_kans@.len(),
            concealed@.len() == 34,
            spec_remove_closed_kans(m8, input.closed_kans@) == spec_remove_closed_kans(
                concealed@,
                input.closed_kans@.skip(kk as int),
            ),
            final_mentsu@ == closed_kan_melds(input.closed_kans@.subrange(0, kk as int)),
            final_mentsu@.len() == kk,
            forall|j2: int|
                0 <= j2 < 34 ==> concealed@[j2] + melds_tile_count(final_mentsu@, j2) == m8[j2],
            forall|k2: int| 0 <= k2 < final_mentsu@.len() ==> wf_mentsu(
                #[trigger] final_mentsu@[k2],
            ),
            sum_counts(concealed@) + 4 * kk == sum_counts(m8),
        decreases input.closed_kans@.len() - kk,
    {
        let rep = input.closed_kans[kk];
        let idx = tile_to_index(&rep);
        proof {
            assert(input.closed_kans@.skip(kk as int)[0] == rep);
            assert(input.closed_kans@.skip(kk as int).drop_first() =~= input.closed_kans@.skip(
                kk as int + 1,
            ));
        }
        if concealed[idx] < 4 {
            return Err(AgariError::ClosedKanNotInHand);
        }
        let ghost c_before = concealed@;
        let ghost ms_before = final_mentsu@;
        let v = concealed[idx];
        concealed.set(idx, v - 4);
        final_mentsu.push(Mentsu { mentsu_type: MentsuType::Kantsu, is_minchou: false, head: rep });
        kk = kk + 1;
        proof {
            lemma_sum_counts_update(c_before, idx as int, (v - 4) as u8);
            assert(input.closed_kans@.subrange(0, kk as int).drop_last() =~= input.closed_kans@
                .subrange(0, kk - 1));
            assert(input.closed_kans@.subrange(0, kk as int).last() == rep);
            assert forall|j2: int|
                0 <= j2 < 34 implies concealed@[j2] + melds_tile_count(final_mentsu@, j2)
                == m8[j2] by {
                lemma_melds_tile_count_push(ms_before, final_mentsu@.last(), j2);
            }
        }
    }
    proof {
        assert(input.closed_kans@.skip(input.closed_kans@.len() as int)
            =~= Seq::<Hai>::empty());
        assert(input.closed_kans@.subrange(0, input.closed_kans@.len() as int) =~= input
            .closed_kans@);
    }
    let ghost c1 = concealed@;
    proof {
        assert(input.open_melds@.skip(0) =~= input.open_melds@);
        assert(input.open_melds@.subrange(0, 0) =~= Seq::<crate::input::OpenMeld>::empty());
        assert(final_mentsu@ =~= closed_kan_melds(input.closed_kans@) + open_meld_melds(
            input.open_melds@.subrange(0, 0),
        ));
    }

    // Subtract the declared open melds.
    let mut mm: usize = 0;
    while mm < input.open_melds.len()
        invariant
            mm <= input.open_melds@.len(),
            concealed@.len() == 34,
            spec_remove_open_melds(c1, input.open_melds@) == spec_remove_open_melds(
                concealed@,
                input.open_melds@.skip(mm as int),
            ),
            final_mentsu@ == closed_kan_melds(input.closed_kans@) + open_meld_melds(
                input.open_melds@.subrange(0, mm as int),
            ),
            final_mentsu@.len() == input.closed_kans@.len() + mm,
            forall|j2: int|
                0 <= j2 < 34 ==> concealed@[j2] + melds_tile_count(final_mentsu@, j2) == m8[j2],
            forall|k2: int| 0 <= k2 < final_mentsu@.len() ==> wf_mentsu(
                #[trigger] final_mentsu@[k2],
            ),
            sum_counts(concealed@) + 4 * input.closed_kans@.len() + 3 * mm + spec_count_kantsu(
                input.open_melds@.subrange(0, mm as int),
            ) == sum_counts(m8),
        decreases input.open_melds@.len() - mm,
    {
        let meld = input.open_melds[mm];
        let rep = meld.representative_tile;
        let idx = tile_to_index(&rep);
        proof {
            assert(input.open_melds@.skip(mm as int)[0] == meld);
            assert(input.open_melds@.skip(mm as int).drop_first() =~= input.open_melds@.skip(
                mm as int + 1,
            ));
            assert(input.open_melds@.subrange(0, mm as int + 1).drop_last() =~= input.open_melds@
                .subrange(0, mm as int));
            assert(input.open_melds@.subrange(0, mm as int + 1).last() == meld);
        }
        let ghost c_before = concealed@;
        let ghost ms_before = final_mentsu@;
        match meld.mentsu_type {
            MentsuType::Koutsu => {
                if concealed[idx] < 3 {
                    return Err(AgariError::PonNotInHand);
                }
                let v = concealed[idx];
                concealed.set(idx, v - 3);
                final_mentsu.push(
                    Mentsu { mentsu_type: MentsuType::Koutsu, is_minchou: true, head: rep },
                );
                proof {
                    lemma_sum_counts_update(c_before, idx as int, (v - 3) as u8);
                }
            }
            MentsuType::Kantsu => {
                if concealed[idx] < 4 {
                    return Err(AgariError::OpenKanNotInHand);
                }
                let v = concealed[idx];
                concealed.set(idx, v - 4);
                final_mentsu.push(
                    Mentsu { mentsu_type: MentsuType::Kantsu, is_minchou: true, head: rep },
                );
                proof {
                    lemma_sum_counts_update(c_before, idx as int, (v - 4) as u8);
                }
            }
            MentsuType::Shuntsu => {
                if idx >= 27 || idx % 9 >= 7 {
                    return Err(AgariError::ChiInvalidTile);
                }
                if concealed[idx] < 1 || concealed[idx + 1] < 1 || concealed[idx + 2] < 1 {
                    return Err(AgariError::ChiNotInHand);
                }
                let v0 = concealed[idx];
                let v1 = concealed[idx + 1];
                let v2 = concealed[idx + 2];
                concealed.set(idx, v0 - 1);
                concealed.set(idx + 1, v1 - 1);
                concealed.set(idx + 2, v2 - 1);
                final_mentsu.push(
                    Mentsu { mentsu_type: MentsuType::Shuntsu, is_minchou: true, head: rep },
                );
                proof {
                    lemma_sum_counts_update(c_before, idx as int, (v0 - 1) as u8);
                    lemma_sum_counts_update(
                        c_before.update(idx as int, (v0 - 1) as u8),
                        idx as int + 1,
                        (v1 - 1) as u8,
                    );
                    lemma_sum_counts_update(
                        c_before.update(idx as int, (v0 - 1) as u8).update(
                            idx as int + 1,
                            (v1 - 1) as u8,
                        ),
                        idx as int + 2,
                        (v2 - 1) as u8,
                    );
                }
            }
        }
        mm = mm + 1;
        proof {
            assert forall|j2: int|
                0 <= j2 < 34 implies concealed@[j2] + melds_tile_count(final_mentsu@, j2)
                == m8[j2] by {
                lemma_melds_tile_count_push(ms_before, final_mentsu@.last(), j2);
            }
            assert(spec_count_kantsu(input.open_melds@.subrange(0, mm as int))
                == spec_count_kantsu(input.open_melds@.subrange(0, mm - 1)) + (
            if meld.mentsu_type is Kantsu {
                1nat
            } else {
                0nat
            }));
        }
    }
    proof {
        assert(input.open_melds@.skip(input.open_melds@.len() as int)
            =~= Seq::<crate::input::OpenMeld>::empty());
        assert(input.open_melds@.subrange(0, input.open_melds@.len() as int) =~= input
            .open_melds@);
        assert(final_mentsu@ == spec_declared_melds(*input));
    }
    proof {
        assert(input.open_melds@ =~= input.open_melds@.subrange(
            0,
            input.open_melds@.len() as int,
        ));
    }
    Ok((concealed, final_mentsu))
}

/// Organizes a raw scoring request into a standard four-meld, one-pair
/// structure, or flags it as irregular for the yaku recognizer. Rejected
/// requests return the first failing check's reason; a standard hand is
/// built with the lowest workable pair and the first-found melds, and no
/// tile is gained or lost.
#[verifier::rlimit(100)]
pub fn organize_hand(input: &UserInput) -> (r: Result<HandOrganization, AgariError>)
    requires
        input.wf(),
    ensures
        spec_organize_outcome(*input, r),
        (r matches Ok(HandOrganization::YonmentsuIchiatama(h)) ==> h.wf() && forall|j: int|
            0 <= j < 34 ==> h.held_count(j) == tile_count(input.hand_tiles@, j)),
{
    let ghost tiles = input.hand_tiles@;
    let hand_len = input.hand_tiles.len();
    let master_usize = crate::hand::count_tiles(&input.hand_tiles);
    proof {
        assert forall|j: int| 0 <= j < 34 implies master_usize@[j] == spec_master_usize(tiles)[j] by {
            crate::hand::lemma_tile_count_le_len(tiles, j);
        }
        assert(master_usize@ =~= spec_master_usize(tiles));
    }
    if let Err(e) = crate::validator::validate_input(input, &master_usize) {
        return Err(e);
    }
    proof {
        assert forall|j: int| 0 <= j < 34 implies tile_count(tiles, j) <= 4 by {
            crate::hand::lemma_tile_count_le_len(tiles, j);
            if master_usize@[j] > 4 {
                assert(exists|q: int| 0 <= q < 34 && spec_master_usize(tiles)[q] > 4);
            }
        }
        assert(input.hand_tiles@.contains(input.winning_tile));
    }

    // Narrow the counts to bytes; every entry is at most four here.
    let mut master: Vec<u8> = Vec::new();
    let mut j: usize = 0;
    while j < 34
        invariant
            j <= 34,
            master@.len() == j,
            forall|k: int| 0 <= k < j ==> master@[k] == spec_master8(tiles)[k],
        decreases 34 - j,
    {
        master.push(master_usize[j] as u8);
        j = j + 1;
    }
    proof {
        assert(master@ =~= spec_master8(tiles));
    }
    let ghost m8 = master@;

    let (concealed, final_mentsu) = match remove_declared_calls(input, &master) {
        Err(e) => {
            return Err(e);
        }
        Ok(p) => p,
    };
    let ghost cc = concealed@;
    let ghost decl = spec_declared_melds(*input);

    proof {
        lemma_sum_master8(tiles);
        crate::validator::lemma_count_kantsu_le_len(input.open_melds@);
        assert(input.closed_kans@.len() + input.open_melds@.len() <= 4);
        assert((input.hand_tiles@.len() == 14 && crate::validator::spec_total_kans(*input) == 0)
            || input.hand_tiles@.len() == 4 * crate::validator::spec_total_kans(*input) + 3 * (4
            - crate::validator::spec_total_kans(*input)) + 2);
    }
    let mentsu_needed: usize = 4 - final_mentsu.len();
    let agari_hai = input.winning_tile;

    // With all four melds declared, only a naked pair remains to find.
    if mentsu_needed == 0 {
        let mut i: usize = 0;
        while i < 34
            invariant
                i <= 34,
                forall|j2: int| 0 <= j2 < i ==> cc[j2] != 2,
            decreases 34 - i,
        {
            if concealed[i] == 2 {
                proof {
                    lemma_first_exact_pair_skip(cc, i as int);
                    assert(sum_counts(cc) == 2);
                    lemma_case_a_facts(tiles, m8, cc, decl, i as int);
                    crate::tiles::lemma_tile_index_bijection(agari_hai, i as int);
                }
                let pair_tile = index_to_tile(i);
                let h = AgariHand {
                    mentsu: final_mentsu,
                    atama: pair_tile,
                    agari_hai,
                    machi: Machi::Tanki,
                };
                return Ok(HandOrganization::YonmentsuIchiatama(h));
            }
            i = i + 1;
        }
        proof {
            lemma_first_exact_pair_skip(cc, 34);
        }
        if hand_len != 14 {
            return Err(AgariError::NoPairFound);
        }
    }

    // Try each pair hypothesis in increasing kind order; accept the first
    // for which the remaining tiles decompose into the needed melds.
    let mut i: usize = 0;
    while i < 34
        invariant
            i <= 34,
            forall|j2: int| 0 <= j2 < i ==> !feasible_pair(cc, mentsu_needed as int, j2),
        decreases 34 - i,
    {
        if concealed[i] >= 2 {
            let mut temp = copy_counts(&concealed);
            let v = temp[i];
            temp.set(i, v - 2);
            let ghost removed = cc.update(i as int, (cc[i as int] - 2) as u8);
            let mut closed_mentsu: Vec<Mentsu> = Vec::new();
            if find_mentsu_recursive(&mut temp, &mut closed_mentsu) {
                if closed_mentsu.len() == mentsu_needed {
                    proof {
                        lemma_first_feasible_pair_skip(cc, mentsu_needed as int, i as int);
                        lemma_search_sound(removed, 0);
                        assert(closed_mentsu@ =~= search_melds(removed, 0).unwrap());
                    }
                    let ghost searched = closed_mentsu@;
                    let atama = index_to_tile(i);
                    let mut all_mentsu = final_mentsu;
                    all_mentsu.append(&mut closed_mentsu);
                    proof {
                        lemma_case_b_facts(
                            tiles,
                            m8,
                            cc,
                            decl,
                            searched,
                            all_mentsu@,
                            i as int,
                            atama,
                            agari_hai,
                        );
                    }
                    let machi = determine_wait_type(&all_mentsu, atama, agari_hai);
                    let h = AgariHand { mentsu: all_mentsu, atama, agari_hai, machi };
                    proof {
                        crate::tiles::lemma_tile_index_bijection(h.atama, i as int);
                    }
                    return Ok(HandOrganization::YonmentsuIchiatama(h));
                }
            }
        }
        i = i + 1;
    }
    proof {
        lemma_first_feasible_pair_skip(cc, mentsu_needed as int, 34);
    }
    Ok(HandOrganization::Irregular { counts: master, agari_hai })
}

} // verus!
