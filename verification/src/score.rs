//! Score calculation: turns the recognized pattern list and the decomposed
//! hand into han, fu and point transfers, under tiered limit rules and
//! asymmetric dealer/non-dealer payment splits.

use vstd::prelude::*;
use crate::game::{AgariType, GameContext, PlayerContext};
use crate::hand::{AgariHand, HandStructure, Machi, Mentsu, MentsuType};
use crate::tiles::{Hai, Jihai};
use crate::yaku::Yaku;

verus! {

/// The named point limits for high-scoring hands.
#[derive(Debug, Clone, Copy, PartialEq, Eq, Structural)]
pub enum HandLimit {
    Mangan,
    Haneman,
    Baiman,
    Sanbaiman,
    /// Counted yakuman: thirteen or more han.
    Kazoeyakuman,
    Yakuman,
    DoubleYakuman,
}

/// The complete scoring result for a winning hand.
#[derive(Debug, Clone, PartialEq, Eq)]
pub struct AgariResult {
    /// Han count.
    pub han: u8,
    /// Fu count.
    pub fu: u8,
    /// Every yaku and bonus entry achieved.
    pub yaku_list: Vec<Yaku>,
    /// Red-five bonus tiles counted (zero for a yakuman hand).
    pub num_akadora: u8,
    /// The named limit, if one is reached.
    pub limit_name: Option<HandLimit>,
    /// Base points: the total for a discard win, the non-dealer payment for
    /// a self-draw.
    pub base_points: u32,
    /// For a dealer self-draw, each non-dealer's payment; for a non-dealer
    /// self-draw, the dealer's payment.
    pub oya_payment: u32,
    /// For a non-dealer self-draw, each other non-dealer's payment.
    pub ko_payment: u32,
    /// Total points paid, repeat-counter bonus included.
    pub total_payment: u32,
}

/// How many yakuman a single entry is worth: two for the double yakuman,
/// one for each plain yakuman, zero otherwise.
pub open spec fn spec_yakuman_value(y: Yaku) -> nat {
    match y {
        Yaku::SuuankouTanki => 2nat,
        Yaku::KokushiMusouJusanmen => 2nat,
        Yaku::JunseiChuurenPoutou => 2nat,
        Yaku::Tenhou => 1nat,
        Yaku::Chiihou => 1nat,
        Yaku::Renhou => 1nat,
        Yaku::Daisangen => 1nat,
        Yaku::Suuankou => 1nat,
        Yaku::Daisuushi => 1nat,
        Yaku::Shousuushi => 1nat,
        Yaku::Tsuuiisou => 1nat,
        Yaku::Chinroutou => 1nat,
        Yaku::Ryuuiisou => 1nat,
        Yaku::Suukantsu => 1nat,
        Yaku::KokushiMusou => 1nat,
        Yaku::ChuurenPoutou => 1nat,
        _ => 0nat,
    }
}

/// Total yakuman count of a pattern list.
pub open spec fn spec_count_yakuman(ys: Seq<Yaku>) -> nat
    decreases ys.len(),
{
    if ys.len() == 0 {
        0nat
    } else {
        spec_count_yakuman(ys.drop_last()) + spec_yakuman_value(ys.last())
    }
}

/// Han value of one entry, with the open-hand reduction applied per entry.
/// Yakuman entries count zero here: they are scored on their own path.
pub open spec fn spec_han_value(y: Yaku, is_menzen: bool) -> nat {
    match y {
        Yaku::Riichi => 1nat,
        Yaku::Ippatsu => 1nat,
        Yaku::MenzenTsumo => 1nat,
        Yaku::Pinfu => 1nat,
        Yaku::Iipeikou => 1nat,
        Yaku::HaiteiRaoyue => 1nat,
        Yaku::HouteiRaoyui => 1nat,
        Yaku::RinshanKaihou => 1nat,
        Yaku::Chankan => 1nat,
        Yaku::Tanyao => 1nat,
        Yaku::YakuhaiJikaze => 1nat,
        Yaku::YakuhaiBakaze => 1nat,
        Yaku::YakuhaiSangenpai => 1nat,
        Yaku::DaburuRiichi => 2nat,
        Yaku::Chiitoitsu => 2nat,
        Yaku::Toitoi => 2nat,
        Yaku::Sanankou => 2nat,
        Yaku::SanshokuDoukou => 2nat,
        Yaku::Sankantsu => 2nat,
        Yaku::Shousangen => 2nat,
        Yaku::Honroutou => 2nat,
        Yaku::SanshokuDoujun => if is_menzen {
            2nat
        } else {
            1nat
        },
        Yaku::Ittsu => if is_menzen {
            2nat
        } else {
            1nat
        },
        Yaku::Chanta => if is_menzen {
            2nat
        } else {
            1nat
        },
        Yaku::Ryanpeikou => 3nat,
        Yaku::Junchan => if is_menzen {
            3nat
        } else {
            2nat
        },
        Yaku::Honitsu => if is_menzen {
            3nat
        } else {
            2nat
        },
        Yaku::Chinitsu => if is_menzen {
            6nat
        } else {
            5nat
        },
        Yaku::Dora => 1nat,
        Yaku::UraDora => 1nat,
        Yaku::AkaDora => 1nat,
        _ => 0nat,
    }
}

/// Total han of a pattern list.
pub open spec fn spec_total_han(ys: Seq<Yaku>, is_menzen: bool) -> nat
    decreases ys.len(),
{
    if ys.len() == 0 {
        0nat
    } else {
        spec_total_han(ys.drop_last(), is_menzen) + spec_han_value(ys.last(), is_menzen)
    }
}

/// Fu of one meld: nothing for a sequence, the fixed eight-entry table for
/// triplets and quads (a quad is worth exactly four times the triplet).
pub open spec fn spec_mentsu_fu(m: Mentsu) -> nat {
    let yaochuu = crate::tiles::spec_yaochuu(m.head);
    match m.mentsu_type {
        MentsuType::Shuntsu => 0nat,
        MentsuType::Koutsu => if m.is_minchou {
            if yaochuu {
                4nat
            } else {
                2nat
            }
        } else {
            if yaochuu {
                8nat
            } else {
                4nat
            }
        },
        MentsuType::Kantsu => if m.is_minchou {
            if yaochuu {
                16nat
            } else {
                8nat
            }
        } else {
            if yaochuu {
                32nat
            } else {
                16nat
            }
        },
    }
}

/// Total meld fu of a hand.
pub open spec fn spec_melds_fu(ms: Seq<Mentsu>) -> nat
    decreases ms.len(),
{
    if ms.len() == 0 {
        0nat
    } else {
        spec_melds_fu(ms.drop_last()) + spec_mentsu_fu(ms.last())
    }
}

/// Fu of the pair: two for a dragon; for a wind, two for matching the
/// prevalent wind and two for matching the seat wind, additively.
pub open spec fn spec_pair_fu(tile: Hai, p: PlayerContext, g: GameContext) -> nat {
    match tile {
        Hai::Jihai(Jihai::Sangen(_)) => 2nat,
        Hai::Jihai(Jihai::Kaze(k)) => ((if k == g.bakaze {
            2int
        } else {
            0int
        }) + (if k == p.jikaze {
            2int
        } else {
            0int
        })) as nat,
        _ => 0nat,
    }
}

/// Fu of a standard hand before the two fixed-fu exceptions: base 20, the
/// win-method bonus, meld fu, pair fu and wait fu, rounded up to the next
/// multiple of ten.
pub open spec fn spec_regular_fu(h: AgariHand, p: PlayerContext, g: GameContext, a: AgariType) -> nat {
    let raw = 20 + (if a is Tsumo {
        2int
    } else if p.is_menzen {
        10int
    } else {
        0int
    }) + spec_melds_fu(h.mentsu@) + spec_pair_fu(h.atama, p, g) + (
    if h.machi is Kanchan || h.machi is Penchan || h.machi is Tanki {
        2int
    } else {
        0int
    });
    (((raw + 9) / 10) * 10) as nat
}

/// Fu of a hand: 25 for seven pairs, the fixed 20/30 for a no-points hand,
/// zero for thirteen orphans, and the accumulated rounded fu otherwise.
pub open spec fn spec_fu(
    s: HandStructure,
    ys: Seq<Yaku>,
    p: PlayerContext,
    g: GameContext,
    a: AgariType,
) -> nat {
    if ys.contains(Yaku::Chiitoitsu) {
        25nat
    } else if ys.contains(Yaku::Pinfu) {
        if a is Tsumo {
            20nat
        } else {
            30nat
        }
    } else {
        match s {
            HandStructure::YonmentsuIchiatama(h) => spec_regular_fu(h, p, g, a),
            HandStructure::ChuurenPoutou { hand, is_junsei } => spec_regular_fu(hand, p, g, a),
            HandStructure::Chiitoitsu { pairs, agari_hai, machi } => 25nat,
            HandStructure::KokushiMusou { tiles, atama, agari_hai, machi } => 0nat,
        }
    }
}

/// The hand structure carries exactly four melds where a standard hand is
/// recorded.
pub open spec fn structure_wf(s: HandStructure) -> bool {
    match s {
        HandStructure::YonmentsuIchiatama(h) => h.mentsu@.len() == 4,
        HandStructure::ChuurenPoutou { hand, is_junsei } => hand.mentsu@.len() == 4,
        HandStructure::Chiitoitsu { pairs, agari_hai, machi } => true,
        HandStructure::KokushiMusou { tiles, atama, agari_hai, machi } => true,
    }
}

/// Basic points ("A" in A = fu x 2^(han+2)) and the limit reached: fixed
/// bases at and above five han, the formula capped at 2000 below.
pub open spec fn spec_basic_points(han: int, fu: int) -> (int, Option<HandLimit>) {
    if han >= 13 {
        (8000, Some(HandLimit::Yakuman))
    } else if han >= 11 {
        (6000, Some(HandLimit::Sanbaiman))
    } else if han >= 8 {
        (4000, Some(HandLimit::Baiman))
    } else if han >= 6 {
        (3000, Some(HandLimit::Haneman))
    } else if han == 5 {
        (2000, Some(HandLimit::Mangan))
    } else {
        let mult: int = if han == 4 {
            64
        } else if han == 3 {
            32
        } else if han == 2 {
            16
        } else if han == 1 {
            8
        } else {
            4
        };
        let basic = fu * mult;
        if basic >= 2000 {
            (2000, Some(HandLimit::Mangan))
        } else {
            (basic, None)
        }
    }
}

/// The next multiple of 100 at or above `n`.
pub open spec fn spec_round_up_100(n: int) -> int {
    ((n + 99) / 100) * 100
}

/// The four point values (base, dealer payment, non-dealer payment, total)
/// for a given basic-point value: each individual payment is rounded up to
/// the next hundred before the repeat-counter bonus is added.
pub open spec fn spec_payments(basic: int, is_oya: bool, a: AgariType, honba: int) -> (
    int,
    int,
    int,
    int,
) {
    let tsumo_bonus = honba * 100;
    let ron_bonus = honba * 300;
    if is_oya && a is Tsumo {
        let p = spec_round_up_100(basic * 2);
        (p, p, 0, (p + tsumo_bonus) * 3)
    } else if !is_oya && a is Tsumo {
        let oya_p = spec_round_up_100(basic * 2);
        let ko_p = spec_round_up_100(basic * 1);
        (ko_p, oya_p, ko_p, (oya_p + tsumo_bonus) + (ko_p + tsumo_bonus) * 2)
    } else if is_oya {
        let total = spec_round_up_100(basic * 6) + ron_bonus;
        (total, 0, 0, total)
    } else {
        let total = spec_round_up_100(basic * 4) + ron_bonus;
        (total, 0, 0, total)
    }
}

/// The complete scoring function: the yakuman path with its fixed base, or
/// the regular han/fu path, both split into payments the same way.
pub open spec fn spec_calculate_score(
    yaku_result: crate::recognizer::YakuResult,
    p: PlayerContext,
    g: GameContext,
    a: AgariType,
) -> AgariResult {
    let n = spec_count_yakuman(yaku_result.yaku_list@);
    if n > 0 {
        let pay = spec_payments(8000 * n as int, p.is_oya, a, g.honba as int);
        AgariResult {
            han: (13 * n) as u8,
            fu: 0,
            yaku_list: yaku_result.yaku_list,
            num_akadora: 0,
            limit_name: Some(HandLimit::Yakuman),
            base_points: pay.0 as u32,
            oya_payment: pay.1 as u32,
            ko_payment: pay.2 as u32,
            total_payment: pay.3 as u32,
        }
    } else {
        let han = spec_total_han(yaku_result.yaku_list@, p.is_menzen);
        let fu = spec_fu(yaku_result.hand_structure, yaku_result.yaku_list@, p, g, a);
        let basic = spec_basic_points(han as int, fu as int);
        let pay = spec_payments(basic.0, p.is_oya, a, g.honba as int);
        AgariResult {
            han: han as u8,
            fu: fu as u8,
            yaku_list: yaku_result.yaku_list,
            num_akadora: yaku_result.num_akadora,
            limit_name: basic.1,
            base_points: pay.0 as u32,
            oya_payment: pay.1 as u32,
            ko_payment: pay.2 as u32,
            total_payment: pay.3 as u32,
        }
    }
}

/// Whether the pattern list holds the given entry.
fn yaku_list_contains(ys: &Vec<Yaku>, y: Yaku) -> (b: bool)
    ensures
        b == ys@.contains(y),
{
    let mut n: usize = 0;
    let mut found = false;
    while n < ys.len()
        invariant
            n <= ys@.len(),
            found ==> ys@.contains(y),
            !found ==> forall|k: int| 0 <= k < n ==> ys@[k] != y,
        decreases ys@.len() - n,
    {
        if ys[n] == y {
            found = true;
        }
        n = n + 1;
    }
    found
}

/// Han value of one entry, with the open-hand reduction.
pub fn get_han_value(yaku: &Yaku, is_menzen: bool) -> (han: u8)
    ensures
        han == spec_han_value(*yaku, is_menzen),
{
    match yaku {
        Yaku::Riichi => 1,
        Yaku::Ippatsu => 1,
        Yaku::MenzenTsumo => 1,
        Yaku::Pinfu => 1,
        Yaku::Iipeikou => 1,
        Yaku::HaiteiRaoyue => 1,
        Yaku::HouteiRaoyui => 1,
        Yaku::RinshanKaihou => 1,
        Yaku::Chankan => 1,
        Yaku::Tanyao => 1,
        Yaku::YakuhaiJikaze => 1,
        Yaku::YakuhaiBakaze => 1,
        Yaku::YakuhaiSangenpai => 1,
        Yaku::DaburuRiichi => 2,
        Yaku::Chiitoitsu => 2,
        Yaku::Toitoi => 2,
        Yaku::Sanankou => 2,
        Yaku::SanshokuDoukou => 2,
        Yaku::Sankantsu => 2,
        Yaku::Shousangen => 2,
        Yaku::Honroutou => 2,
        Yaku::SanshokuDoujun => if is_menzen {
            2
        } else {
            1
        },
        Yaku::Ittsu => if is_menzen {
            2
        } else {
            1
        },
        Yaku::Chanta => if is_menzen {
            2
        } else {
            1
        },
        Yaku::Ryanpeikou => 3,
        Yaku::Junchan => if is_menzen {
            3
        } else {
            2
        },
        Yaku::Honitsu => if is_menzen {
            3
        } else {
            2
        },
        Yaku::Chinitsu => if is_menzen {
            6
        } else {
            5
        },
        Yaku::Dora => 1,
        Yaku::UraDora => 1,
        Yaku::AkaDora => 1,
        _ => 0,
    }
}

/// Total han of a pattern list.
pub fn calculate_han(yaku_list: &Vec<Yaku>, is_menzen: bool) -> (han: u8)
    requires
        spec_total_han(yaku_list@, is_menzen) <= 255,
    ensures
        han == spec_total_han(yaku_list@, is_menzen),
{
    let mut han: u8 = 0;
    let mut n: usize = 0;
    while n < yaku_list.len()
        invariant
            n <= yaku_list@.len(),
            han == spec_total_han(yaku_list@.subrange(0, n as int), is_menzen),
        decreases yaku_list@.len() - n,
    {
        proof {
            lemma_total_han_prefix(yaku_list@, n as int, is_menzen);
        }
        han = han + get_han_value(&yaku_list[n], is_menzen);
        n = n + 1;
    }
    proof {
        assert(yaku_list@.subrange(0, yaku_list@.len() as int) =~= yaku_list@);
    }
    han
}

/// A prefix's han plus the next entry's han is the longer prefix's han, and
/// every prefix's han is bounded by the whole list's.
proof fn lemma_total_han_prefix(ys: Seq<Yaku>, n: int, is_menzen: bool)
    requires
        0 <= n < ys.len(),
    ensures
        spec_total_han(ys.subrange(0, n + 1), is_menzen) == spec_total_han(
            ys.subrange(0, n),
            is_menzen,
        ) + spec_han_value(ys[n], is_menzen),
        spec_total_han(ys.subrange(0, n + 1), is_menzen) <= spec_total_han(ys, is_menzen),
    decreases ys.len(),
{
    assert(ys.subrange(0, n + 1).drop_last() =~= ys.subrange(0, n));
    assert(ys.subrange(0, n + 1).last() == ys[n]);
    if n + 1 == ys.len() {
        assert(ys.subrange(0, n + 1) =~= ys);
    } else {
        lemma_total_han_prefix(ys.drop_last(), n, is_menzen);
        assert(ys.drop_last().subrange(0, n + 1) =~= ys.subrange(0, n + 1));
        assert(ys.drop_last().subrange(0, n) =~= ys.subrange(0, n));
    }
}

/// Analogue of [`lemma_total_han_prefix`] for the yakuman count.
proof fn lemma_count_yakuman_prefix(ys: Seq<Yaku>, n: int)
    requires
        0 <= n < ys.len(),
    ensures
        spec_count_yakuman(ys.subrange(0, n + 1)) == spec_count_yakuman(ys.subrange(0, n))
            + spec_yakuman_value(ys[n]),
        spec_count_yakuman(ys.subrange(0, n + 1)) <= spec_count_yakuman(ys),
    decreases ys.len(),
{
    assert(ys.subrange(0, n + 1).drop_last() =~= ys.subrange(0, n));
    assert(ys.subrange(0, n + 1).last() == ys[n]);
    if n + 1 == ys.len() {
        assert(ys.subrange(0, n + 1) =~= ys);
    } else {
        lemma_count_yakuman_prefix(ys.drop_last(), n);
        assert(ys.drop_last().subrange(0, n + 1) =~= ys.subrange(0, n + 1));
        assert(ys.drop_last().subrange(0, n) =~= ys.subrange(0, n));
    }
}

/// Number of yakuman in a pattern list; a double yakuman counts twice.
pub fn count_yakuman(yaku_list: &Vec<Yaku>) -> (n: u32)
    requires
        spec_count_yakuman(yaku_list@) <= 0xFFFF_FFFF,
    ensures
        n == spec_count_yakuman(yaku_list@),
{
    let mut n: u32 = 0;
    let mut k: usize = 0;
    while k < yaku_list.len()
        invariant
            k <= yaku_list@.len(),
            n == spec_count_yakuman(yaku_list@.subrange(0, k as int)),
        decreases yaku_list@.len() - k,
    {
        proof {
            lemma_count_yakuman_prefix(yaku_list@, k as int);
        }
        let v: u32 = match yaku_list[k] {
            Yaku::SuuankouTanki => 2,
            Yaku::KokushiMusouJusanmen => 2,
            Yaku::JunseiChuurenPoutou => 2,
            Yaku::Tenhou => 1,
            Yaku::Chiihou => 1,
            Yaku::Renhou => 1,
            Yaku::Daisangen => 1,
            Yaku::Suuankou => 1,
            Yaku::Daisuushi => 1,
            Yaku::Shousuushi => 1,
            Yaku::Tsuuiisou => 1,
            Yaku::Chinroutou => 1,
            Yaku::Ryuuiisou => 1,
            Yaku::Suukantsu => 1,
            Yaku::KokushiMusou => 1,
            Yaku::ChuurenPoutou => 1,
            _ => 0,
        };
        n = n + v;
        k = k + 1;
    }
    proof {
        assert(yaku_list@.subrange(0, yaku_list@.len() as int) =~= yaku_list@);
    }
    n
}

/// Fu of the pair.
pub fn get_pair_fu(tile: &Hai, player: &PlayerContext, game: &GameContext) -> (fu: u32)
    ensures
        fu == spec_pair_fu(*tile, *player, *game),
{
    match tile {
        Hai::Jihai(Jihai::Sangen(_)) => 2,
        Hai::Jihai(Jihai::Kaze(k)) => {
            let mut fu: u32 = 0;
            if *k == game.bakaze {
                fu = fu + 2;
            }
            if *k == player.jikaze {
                fu = fu + 2;
            }
            fu
        }
        _ => 0,
    }
}

/// Fu of a hand, rounded up to the nearest ten; always 25 for seven pairs
/// and a fixed 20 (self-draw) or 30 (discard) for a no-points hand.
#[verifier::rlimit(50)]
pub fn calculate_fu(
    hand_structure: &HandStructure,
    yaku_list: &Vec<Yaku>,
    player: &PlayerContext,
    game: &GameContext,
    agari_type: AgariType,
) -> (fu: u8)
    requires
        structure_wf(*hand_structure),
    ensures
        fu == spec_fu(*hand_structure, yaku_list@, *player, *game, agari_type),
        fu == 25 || fu % 10 == 0,
{
    if yaku_list_contains(yaku_list, Yaku::Chiitoitsu) {
        return 25;
    }
    if yaku_list_contains(yaku_list, Yaku::Pinfu) {
        if agari_type == AgariType::Tsumo {
            return 20;
        } else {
            return 30;
        }
    }

    let hand = match hand_structure {
        HandStructure::YonmentsuIchiatama(h) => h,
        HandStructure::ChuurenPoutou { hand, .. } => hand,
        HandStructure::Chiitoitsu { .. } => {
            return 25;
        }
        HandStructure::KokushiMusou { .. } => {
            return 0;
        }
    };

    let mut fu: u32 = 20;
    if agari_type == AgariType::Tsumo {
        fu = fu + 2;
    } else if player.is_menzen {
        fu = fu + 10;
    }

    let mut k: usize = 0;
    while k < 4
        invariant
            k <= 4,
            hand.mentsu@.len() == 4,
            fu == 20 + (if agari_type is Tsumo {
                2int
            } else if player.is_menzen {
                10int
            } else {
                0int
            }) + spec_melds_fu(hand.mentsu@.subrange(0, k as int)),
            fu <= 30 + 32 * k,
        decreases 4 - k,
    {
        let mentsu = hand.mentsu[k];
        let is_yaochuu = mentsu.head.is_yaochuu();
        let add: u32 = match mentsu.mentsu_type {
            MentsuType::Koutsu => {
                if mentsu.is_minchou {
                    if is_yaochuu {
                        4
                    } else {
                        2
                    }
                } else {
                    if is_yaochuu {
                        8
                    } else {
                        4
                    }
                }
            }
            MentsuType::Kantsu => {
                if mentsu.is_minchou {
                    if is_yaochuu {
                        16
                    } else {
                        8
                    }
                } else {
                    if is_yaochuu {
                        32
                    } else {
                        16
                    }
                }
            }
            MentsuType::Shuntsu => 0,
        };
        fu = fu + add;
        k = k + 1;
        proof {
            assert(hand.mentsu@.subrange(0, k as int).drop_last() =~= hand.mentsu@.subrange(
                0,
                k - 1,
            ));
            assert(hand.mentsu@.subrange(0, k as int).last() == hand.mentsu@[k - 1]);
        }
    }
    proof {
        assert(hand.mentsu@.subrange(0, 4) =~= hand.mentsu@);
    }

    fu = fu + get_pair_fu(&hand.atama, player, game);

    match hand.machi {
        Machi::Kanchan | Machi::Penchan | Machi::Tanki => {
            fu = fu + 2;
        }
        _ => {}
    }

    let rounded = (fu + 9) / 10 * 10;
    proof {
        vstd::arithmetic::div_mod::lemma_mod_multiples_basic((fu as int + 9) / 10, 10);
    }
    rounded as u8
}

/// Fu is always a multiple of ten, except the fixed 25 of seven pairs.
pub proof fn lemma_fu_multiple_of_ten(
    s: HandStructure,
    ys: Seq<Yaku>,
    p: PlayerContext,
    g: GameContext,
    a: AgariType,
)
    ensures
        spec_fu(s, ys, p, g, a) == 25 || spec_fu(s, ys, p, g, a) % 10 == 0,
{
    if !ys.contains(Yaku::Chiitoitsu) && !ys.contains(Yaku::Pinfu) {
        match s {
            HandStructure::YonmentsuIchiatama(h) => {
                lemma_regular_fu_rounded(h, p, g, a);
            }
            HandStructure::ChuurenPoutou { hand, is_junsei } => {
                lemma_regular_fu_rounded(hand, p, g, a);
            }
            _ => {}
        }
    }
}

/// The accumulated fu of a standard hand is rounded to a multiple of ten.
proof fn lemma_regular_fu_rounded(h: AgariHand, p: PlayerContext, g: GameContext, a: AgariType)
    ensures
        spec_regular_fu(h, p, g, a) % 10 == 0,
{
    let raw = 20 + (if a is Tsumo {
        2int
    } else if p.is_menzen {
        10int
    } else {
        0int
    }) + spec_melds_fu(h.mentsu@) + spec_pair_fu(h.atama, p, g) + (
    if h.machi is Kanchan || h.machi is Penchan || h.machi is Tanki {
        2int
    } else {
        0int
    });
    vstd::arithmetic::div_mod::lemma_mod_multiples_basic((raw + 9) / 10, 10);
}

/// Basic points and the limit tier reached.
pub fn calculate_basic_points(han: u8, fu: u8) -> (r: (u32, Option<HandLimit>))
    ensures
        (r.0 as int, r.1) == spec_basic_points(han as int, fu as int),
{
    if han >= 13 {
        return (8000, Some(HandLimit::Yakuman));
    }
    if han >= 11 {
        return (6000, Some(HandLimit::Sanbaiman));
    }
    if han >= 8 {
        return (4000, Some(HandLimit::Baiman));
    }
    if han >= 6 {
        return (3000, Some(HandLimit::Haneman));
    }
    if han == 5 {
        return (2000, Some(HandLimit::Mangan));
    }
    let mult: u32 = if han == 4 {
        64
    } else if han == 3 {
        32
    } else if han == 2 {
        16
    } else if han == 1 {
        8
    } else {
        4
    };
    let basic_points = (fu as u32) * mult;
    if basic_points >= 2000 {
        (2000, Some(HandLimit::Mangan))
    } else {
        (basic_points, None)
    }
}

/// Rounds up to the nearest hundred.
pub fn round_up_100(n: u32) -> (r: u32)
    requires
        n <= 0xFFFF_FF00,
    ensures
        r == spec_round_up_100(n as int),
        r % 100 == 0,
        n <= r < n + 100,
{
    proof {
        assert(((n + 99) / 100) * 100 <= n + 99) by (nonlinear_arith);
        vstd::arithmetic::div_mod::lemma_mod_multiples_basic((n as int + 99) / 100, 100);
        assert(n <= ((n as int + 99) / 100) * 100) by (nonlinear_arith);
    }
    (n + 99) / 100 * 100
}

/// Splits the basic points into the four point values for the winner's
/// seat and win method, rounding each payment up to the next hundred.
fn split_payments(basic_points: u32, is_oya: bool, agari_type: AgariType, honba: u8) -> (r: (
    u32,
    u32,
    u32,
    u32,
))
    requires
        basic_points <= 200000,
    ensures
        (r.0 as int, r.1 as int, r.2 as int, r.3 as int) == spec_payments(
            basic_points as int,
            is_oya,
            agari_type,
            honba as int,
        ),
{
    let tsumo_bonus: u32 = (honba as u32) * 100;
    let ron_bonus: u32 = (honba as u32) * 300;
    match (is_oya, agari_type) {
        (true, AgariType::Tsumo) => {
            let p = round_up_100(basic_points * 2);
            let total = (p + tsumo_bonus) * 3;
            (p, p, 0, total)
        }
        (false, AgariType::Tsumo) => {
            let oya_p = round_up_100(basic_points * 2);
            let ko_p = round_up_100(basic_points * 1);
            let total = (oya_p + tsumo_bonus) + (ko_p + tsumo_bonus) * 2;
            (ko_p, oya_p, ko_p, total)
        }
        (true, AgariType::Ron) => {
            let total = round_up_100(basic_points * 6) + ron_bonus;
            (total, 0, 0, total)
        }
        (false, AgariType::Ron) => {
            let total = round_up_100(basic_points * 4) + ron_bonus;
            (total, 0, 0, total)
        }
    }
}

/// Every self-draw's payments conserve the base: with the repeat-counter
/// bonus stripped, the three opponents of a dealer each pay the same
/// rounded double base, and a non-dealer collects the rounded double base
/// from the dealer and the rounded base from each other non-dealer.
pub proof fn lemma_payment_conservation(basic: int, is_oya: bool, honba: int)
    ensures
        ({
            let pay = spec_payments(basic, is_oya, AgariType::Tsumo, honba);
            &&& (is_oya ==> pay.1 == spec_round_up_100(basic * 2) && pay.3 == 3 * pay.1 + 3 * 100
                * honba)
            &&& (!is_oya ==> pay.1 == spec_round_up_100(basic * 2) && pay.2 == spec_round_up_100(
                basic,
            ) && pay.3 == pay.1 + 2 * pay.2 + 3 * 100 * honba)
        }),
{
    let pay = spec_payments(basic, is_oya, AgariType::Tsumo, honba);
    if is_oya {
        assert(pay.1 == spec_round_up_100(basic * 2));
        assert(pay.3 == (pay.1 + honba * 100) * 3);
        assert(pay.3 == 3 * pay.1 + 3 * 100 * honba) by (nonlinear_arith)
            requires
                pay.3 == (pay.1 + honba * 100) * 3,
        ;
    } else {
        assert(pay.3 == (pay.1 + honba * 100) + (pay.2 + honba * 100) * 2);
        assert(pay.3 == pay.1 + 2 * pay.2 + 3 * 100 * honba) by (nonlinear_arith)
            requires
                pay.3 == (pay.1 + honba * 100) + (pay.2 + honba * 100) * 2,
        ;
    }
}

/// Calculates the final score of a winning hand from the recognizer's
/// output and the table context. The yakuman path fixes han at thirteen
/// per yakuman and the base at 8000 per yakuman; the regular path sums
/// han, accumulates fu and applies the tiered limits; both split payments
/// the same way.
pub fn calculate_score(
    yaku_result: crate::recognizer::YakuResult,
    player: &PlayerContext,
    game: &GameContext,
    agari_type: AgariType,
) -> (result: AgariResult)
    requires
        spec_count_yakuman(yaku_result.yaku_list@) <= 19,
        spec_count_yakuman(yaku_result.yaku_list@) == 0 ==> spec_total_han(
            yaku_result.yaku_list@,
            player.is_menzen,
        ) <= 255,
        structure_wf(yaku_result.hand_structure),
    ensures
        result == spec_calculate_score(yaku_result, *player, *game, agari_type),
{
    let num_yakuman = count_yakuman(&yaku_result.yaku_list);

    if num_yakuman > 0 {
        let han: u8 = 13 * (num_yakuman as u8);
        let base_yakuman_points: u32 = 8000 * num_yakuman;
        let pay = split_payments(base_yakuman_points, player.is_oya, agari_type, game.honba);
        return AgariResult {
            han,
            fu: 0,
            yaku_list: yaku_result.yaku_list,
            num_akadora: 0,
            limit_name: Some(HandLimit::Yakuman),
            base_points: pay.0,
            oya_payment: pay.1,
            ko_payment: pay.2,
            total_payment: pay.3,
        };
    }

    let han = calculate_han(&yaku_result.yaku_list, player.is_menzen);
    let fu = calculate_fu(
        &yaku_result.hand_structure,
        &yaku_result.yaku_list,
        player,
        game,
        agari_type,
    );
    let basic = calculate_basic_points(han, fu);
    let pay = split_payments(basic.0, player.is_oya, agari_type, game.honba);
    AgariResult {
        han,
        fu,
        yaku_list: yaku_result.yaku_list,
        num_akadora: yaku_result.num_akadora,
        limit_name: basic.1,
        base_points: pay.0,
        oya_payment: pay.1,
        ko_payment: pay.2,
        total_payment: pay.3,
    }
}

/// Scoring is deterministic: two results that each satisfy the score
/// calculator's contract on the same validated input are bit-identical.
pub proof fn lemma_scoring_idempotent(
    yaku_result: crate::recognizer::YakuResult,
    p: PlayerContext,
    g: GameContext,
    a: AgariType,
    r1: AgariResult,
    r2: AgariResult,
)
    requires
        r1 == spec_calculate_score(yaku_result, p, g, a),
        r2 == spec_calculate_score(yaku_result, p, g, a),
    ensures
        r1 == r2,
{
}

} // verus!
