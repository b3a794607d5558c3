//! Tests for the score calculator and the end-to-end pipeline: fu
//! accumulation and rounding, han totals, limit tiers, payment splits, and
//! the scenario of a no-points self-draw hand with bonus tiles.

use riichi_calc::calculate_agari;
use riichi_calc::error::AgariError;
use riichi_calc::game::{AgariType, GameContext, PlayerContext};
use riichi_calc::hand::{AgariHand, HandOrganization, HandStructure, Machi, Mentsu, MentsuType};
use riichi_calc::input::UserInput;
use riichi_calc::recognizer::{YakuChecker, YakuResult};
use riichi_calc::score::{
    calculate_basic_points, calculate_fu, calculate_han, calculate_score, count_yakuman,
    get_han_value, get_pair_fu, round_up_100, HandLimit,
};
use riichi_calc::tiles::{Hai, Jihai, Kaze, Sangenpai, Suhai};
use riichi_calc::yaku::Yaku;

fn m(rank: u8) -> Hai {
    Hai::Suhai(rank, Suhai::Manzu)
}

fn p(rank: u8) -> Hai {
    Hai::Suhai(rank, Suhai::Pinzu)
}

fn s(rank: u8) -> Hai {
    Hai::Suhai(rank, Suhai::Souzu)
}

fn player(is_oya: bool, is_menzen: bool) -> PlayerContext {
    PlayerContext {
        jikaze: Kaze::Nan,
        is_oya,
        is_riichi: false,
        is_daburu_riichi: false,
        is_ippatsu: false,
        is_menzen,
    }
}

fn game(honba: u8) -> GameContext {
    GameContext {
        bakaze: Kaze::Ton,
        kyoku: 1,
        honba,
        riichi_bou: 0,
        dora_indicators: Vec::new(),
        uradora_indicators: Vec::new(),
        num_akadora: 0,
        is_tenhou: false,
        is_chiihou: false,
        is_renhou: false,
        is_haitei: false,
        is_houtei: false,
        is_rinshan: false,
        is_chankan: false,
    }
}

fn meld(mentsu_type: MentsuType, is_minchou: bool, head: Hai) -> Mentsu {
    Mentsu { mentsu_type, is_minchou, head }
}

fn sample_hand(machi: Machi) -> AgariHand {
    AgariHand {
        mentsu: vec![
            meld(MentsuType::Koutsu, false, m(1)),
            meld(MentsuType::Shuntsu, false, p(4)),
            meld(MentsuType::Shuntsu, false, s(2)),
            meld(MentsuType::Shuntsu, false, s(5)),
        ],
        atama: Hai::Jihai(Jihai::Sangen(Sangenpai::Haku)),
        agari_hai: p(5),
        machi,
    }
}

fn yaku_result(yaku_list: Vec<Yaku>, hand: AgariHand) -> YakuResult {
    YakuResult {
        yaku_list,
        num_akadora: 0,
        hand_structure: HandStructure::YonmentsuIchiatama(hand),
    }
}

/// A recognizer stub that reports a fixed pattern list for any standard
/// hand and fails on irregular ones.
struct FixedChecker {
    yaku: Vec<Yaku>,
    num_akadora: u8,
}

impl YakuChecker for FixedChecker {
    fn check_all_yaku(
        &self,
        organization: HandOrganization,
        _player: &PlayerContext,
        _game: &GameContext,
        _agari_type: AgariType,
    ) -> Result<YakuResult, AgariError> {
        match organization {
            HandOrganization::YonmentsuIchiatama(h) => Ok(YakuResult {
                yaku_list: self.yaku.clone(),
                num_akadora: self.num_akadora,
                hand_structure: HandStructure::YonmentsuIchiatama(h),
            }),
            HandOrganization::Irregular { .. } => Err(AgariError::NoYaku),
        }
    }
}

#[test]
fn test_round_up_100() {
    assert_eq!(round_up_100(0), 0);
    assert_eq!(round_up_100(1), 100);
    assert_eq!(round_up_100(99), 100);
    assert_eq!(round_up_100(100), 100);
    assert_eq!(round_up_100(101), 200);
    assert_eq!(round_up_100(1920), 2000);
}

#[test]
fn test_han_values() {
    assert_eq!(get_han_value(&Yaku::Riichi, true), 1);
    assert_eq!(get_han_value(&Yaku::Chiitoitsu, true), 2);
    assert_eq!(get_han_value(&Yaku::Ryanpeikou, true), 3);
    // Open-hand reductions apply per pattern.
    assert_eq!(get_han_value(&Yaku::Chinitsu, true), 6);
    assert_eq!(get_han_value(&Yaku::Chinitsu, false), 5);
    assert_eq!(get_han_value(&Yaku::Honitsu, false), 2);
    assert_eq!(get_han_value(&Yaku::Ittsu, false), 1);
    // Yakuman entries carry no regular han.
    assert_eq!(get_han_value(&Yaku::Daisangen, true), 0);
    let list = vec![Yaku::Riichi, Yaku::Pinfu, Yaku::Tanyao, Yaku::Dora];
    assert_eq!(calculate_han(&list, true), 4);
}

#[test]
fn test_count_yakuman() {
    assert_eq!(count_yakuman(&vec![Yaku::Riichi]), 0);
    assert_eq!(count_yakuman(&vec![Yaku::Daisangen]), 1);
    assert_eq!(count_yakuman(&vec![Yaku::SuuankouTanki]), 2);
    assert_eq!(count_yakuman(&vec![Yaku::Daisangen, Yaku::Tsuuiisou]), 2);
}

#[test]
fn test_basic_points_tiers() {
    assert_eq!(calculate_basic_points(1, 30), (240, None));
    assert_eq!(calculate_basic_points(4, 30), (1920, None));
    assert_eq!(calculate_basic_points(3, 70), (2000, Some(HandLimit::Mangan)));
    assert_eq!(calculate_basic_points(4, 40), (2000, Some(HandLimit::Mangan)));
    assert_eq!(calculate_basic_points(5, 30), (2000, Some(HandLimit::Mangan)));
    assert_eq!(calculate_basic_points(6, 30), (3000, Some(HandLimit::Haneman)));
    assert_eq!(calculate_basic_points(7, 30), (3000, Some(HandLimit::Haneman)));
    assert_eq!(calculate_basic_points(8, 30), (4000, Some(HandLimit::Baiman)));
    assert_eq!(calculate_basic_points(11, 30), (6000, Some(HandLimit::Sanbaiman)));
    assert_eq!(calculate_basic_points(13, 30), (8000, Some(HandLimit::Yakuman)));
}

#[test]
fn test_pair_fu() {
    let pl = player(false, true);
    let g = game(0);
    // A dragon pair is worth two.
    assert_eq!(get_pair_fu(&Hai::Jihai(Jihai::Sangen(Sangenpai::Chun)), &pl, &g), 2);
    // A wind matching both the round and the seat is worth four.
    let mut pl2 = pl;
    pl2.jikaze = Kaze::Ton;
    assert_eq!(get_pair_fu(&Hai::Jihai(Jihai::Kaze(Kaze::Ton)), &pl2, &g), 4);
    // The seat wind alone is worth two.
    assert_eq!(get_pair_fu(&Hai::Jihai(Jihai::Kaze(Kaze::Nan)), &pl, &g), 2);
    // An unrelated wind is worth nothing.
    assert_eq!(get_pair_fu(&Hai::Jihai(Jihai::Kaze(Kaze::Shaa)), &pl, &g), 0);
    // A numbered pair is worth nothing.
    assert_eq!(get_pair_fu(&m(5), &pl, &g), 0);
}

#[test]
fn test_fu_accumulation() {
    // Concealed discard win: 20 base + 10 menzen ron + 8 for the concealed
    // terminal triplet + 2 dragon pair + 2 closed wait = 42, rounded to 50.
    let structure = HandStructure::YonmentsuIchiatama(sample_hand(Machi::Kanchan));
    let fu = calculate_fu(&structure, &vec![Yaku::Riichi], &player(false, true), &game(0),
        AgariType::Ron);
    assert_eq!(fu, 50);

    // The same hand with a two-sided wait loses the wait fu: 40.
    let structure = HandStructure::YonmentsuIchiatama(sample_hand(Machi::Ryanmen));
    let fu = calculate_fu(&structure, &vec![Yaku::Riichi], &player(false, true), &game(0),
        AgariType::Ron);
    assert_eq!(fu, 40);

    // Self-draw: 20 + 2 + 8 + 2 + 2 = 34, rounded to 40.
    let structure = HandStructure::YonmentsuIchiatama(sample_hand(Machi::Kanchan));
    let fu = calculate_fu(&structure, &vec![Yaku::Riichi], &player(false, true), &game(0),
        AgariType::Tsumo);
    assert_eq!(fu, 40);
}

#[test]
fn test_fu_quad_is_four_times_triplet() {
    // A concealed terminal quad scores 32 where the triplet scores 8:
    // 20 + 2 tsumo + 32 + 2 dragon pair + 2 closed wait = 58, rounded 60.
    let mut hand = sample_hand(Machi::Kanchan);
    hand.mentsu[0] = meld(MentsuType::Kantsu, false, m(1));
    let structure = HandStructure::YonmentsuIchiatama(hand);
    let fu = calculate_fu(&structure, &vec![Yaku::Riichi], &player(false, true), &game(0),
        AgariType::Tsumo);
    assert_eq!(fu, 60);

    // Open simple triplet scores 2: 20 + 2 + 2 = 24, rounded 30.
    let mut hand = sample_hand(Machi::Ryanmen);
    hand.mentsu[0] = meld(MentsuType::Koutsu, true, m(5));
    hand.atama = s(9);
    let structure = HandStructure::YonmentsuIchiatama(hand);
    let fu = calculate_fu(&structure, &vec![Yaku::Tanyao], &player(false, false), &game(0),
        AgariType::Tsumo);
    assert_eq!(fu, 30);
}

#[test]
fn test_fu_fixed_patterns() {
    // Seven pairs is always 25.
    let structure = HandStructure::Chiitoitsu {
        pairs: vec![m(1), m(4), m(7), p(1), p(4), p(7), s(1)],
        agari_hai: s(1),
        machi: Machi::Tanki,
    };
    let fu = calculate_fu(&structure, &vec![Yaku::Chiitoitsu], &player(false, true), &game(0),
        AgariType::Ron);
    assert_eq!(fu, 25);

    // A no-points hand is fixed at 20 on a self-draw and 30 on a discard.
    let structure = HandStructure::YonmentsuIchiatama(sample_hand(Machi::Ryanmen));
    let fu = calculate_fu(&structure, &vec![Yaku::Pinfu], &player(false, true), &game(0),
        AgariType::Tsumo);
    assert_eq!(fu, 20);
    let structure = HandStructure::YonmentsuIchiatama(sample_hand(Machi::Ryanmen));
    let fu = calculate_fu(&structure, &vec![Yaku::Pinfu], &player(false, true), &game(0),
        AgariType::Ron);
    assert_eq!(fu, 30);
}

#[test]
fn test_score_dealer_ron() {
    // Dealer discard win, 1 han 50 fu, no counters: base 400, single payer
    // pays the rounded 6x base.
    let yr = yaku_result(vec![Yaku::Riichi], sample_hand(Machi::Kanchan));
    let r = calculate_score(yr, &player(true, true), &game(0), AgariType::Ron);
    assert_eq!(r.han, 1);
    assert_eq!(r.fu, 50);
    assert_eq!(r.base_points, 2400);
    assert_eq!(r.total_payment, 2400);
    assert_eq!(r.oya_payment, 0);
    assert_eq!(r.ko_payment, 0);
    assert_eq!(r.limit_name, None);
}

#[test]
fn test_score_dealer_tsumo_with_honba() {
    // Dealer self-draw, 1 han 40 fu, two counters: each opponent pays the
    // rounded double base plus the per-opponent counter bonus.
    let yr = yaku_result(vec![Yaku::MenzenTsumo], sample_hand(Machi::Kanchan));
    let r = calculate_score(yr, &player(true, true), &game(2), AgariType::Tsumo);
    assert_eq!(r.fu, 40);
    // base 320, doubled 640, rounded 700; total 3 x (700 + 200).
    assert_eq!(r.oya_payment, 700);
    assert_eq!(r.total_payment, 2700);
}

#[test]
fn test_score_non_dealer_tsumo() {
    // Non-dealer self-draw, 3 han 40 fu: dealer pays rounded 2x base, the
    // two other non-dealers pay the rounded base each.
    let yr = yaku_result(
        vec![Yaku::Riichi, Yaku::MenzenTsumo, Yaku::Tanyao],
        sample_hand(Machi::Kanchan),
    );
    let r = calculate_score(yr, &player(false, true), &game(0), AgariType::Tsumo);
    assert_eq!(r.han, 3);
    assert_eq!(r.fu, 40);
    // base 40 x 2^5 = 1280: dealer 2600, others 1300.
    assert_eq!(r.oya_payment, 2600);
    assert_eq!(r.ko_payment, 1300);
    assert_eq!(r.base_points, 1300);
    assert_eq!(r.total_payment, 5200);
}

#[test]
fn test_score_yakuman() {
    // A single yakuman on a dealer discard win with two counters.
    let yr = YakuResult {
        yaku_list: vec![Yaku::Daisangen],
        num_akadora: 3,
        hand_structure: HandStructure::YonmentsuIchiatama(sample_hand(Machi::Shanpon)),
    };
    let r = calculate_score(yr, &player(true, true), &game(2), AgariType::Ron);
    assert_eq!(r.han, 13);
    assert_eq!(r.fu, 0);
    assert_eq!(r.limit_name, Some(HandLimit::Yakuman));
    // Bonus tiles never count toward a yakuman.
    assert_eq!(r.num_akadora, 0);
    assert_eq!(r.total_payment, 48000 + 600);
}

#[test]
fn test_score_double_yakuman() {
    // A double yakuman counts as two: 26 han, base 16000.
    let yr = yaku_result(vec![Yaku::SuuankouTanki], sample_hand(Machi::Tanki));
    let r = calculate_score(yr, &player(false, true), &game(0), AgariType::Tsumo);
    assert_eq!(r.han, 26);
    assert_eq!(r.oya_payment, 32000);
    assert_eq!(r.ko_payment, 16000);
    assert_eq!(r.total_payment, 64000);
}

#[test]
fn test_scoring_idempotent() {
    // Scoring the same validated input twice is bit-identical.
    let yr1 = yaku_result(
        vec![Yaku::Riichi, Yaku::MenzenTsumo, Yaku::Dora],
        sample_hand(Machi::Kanchan),
    );
    let yr2 = yaku_result(
        vec![Yaku::Riichi, Yaku::MenzenTsumo, Yaku::Dora],
        sample_hand(Machi::Kanchan),
    );
    let r1 = calculate_score(yr1, &player(false, true), &game(1), AgariType::Tsumo);
    let r2 = calculate_score(yr2, &player(false, true), &game(1), AgariType::Tsumo);
    assert_eq!(r1.han, r2.han);
    assert_eq!(r1.fu, r2.fu);
    assert_eq!(r1.yaku_list, r2.yaku_list);
    assert_eq!(r1.num_akadora, r2.num_akadora);
    assert_eq!(r1.limit_name, r2.limit_name);
    assert_eq!(r1.base_points, r2.base_points);
    assert_eq!(r1.oya_payment, r2.oya_payment);
    assert_eq!(r1.ko_payment, r2.ko_payment);
    assert_eq!(r1.total_payment, r2.total_payment);
}

#[test]
fn test_no_points_self_draw_scenario() {
    // Hand 234m 567m 345p 678p 44s, winning tile 8p, self-draw, non-dealer,
    // seat South, round East, one repeat counter, one declared bonus tile,
    // one dora and one hidden dora each adding one pattern occurrence.
    let hand_tiles = vec![
        m(2),
        m(3),
        m(4),
        m(5),
        m(6),
        m(7),
        p(3),
        p(4),
        p(5),
        p(6),
        p(7),
        p(8),
        s(4),
        s(4),
    ];
    let mut g = game(1);
    g.dora_indicators = vec![p(2)];
    g.uradora_indicators = vec![m(6)];
    g.num_akadora = 1;
    let input = UserInput {
        hand_tiles,
        winning_tile: p(8),
        open_melds: Vec::new(),
        closed_kans: Vec::new(),
        player_context: player(false, true),
        game_context: g,
        agari_type: AgariType::Tsumo,
    };
    let checker = FixedChecker {
        yaku: vec![
            Yaku::MenzenTsumo,
            Yaku::Pinfu,
            Yaku::Tanyao,
            Yaku::Dora,
            Yaku::UraDora,
            Yaku::AkaDora,
        ],
        num_akadora: 1,
    };
    let r = calculate_agari(&checker, &input).expect("scoreable hand");
    // The no-points pattern fixes fu at 20 on a self-draw.
    assert_eq!(r.fu, 20);
    // Three yaku plus three bonus-tile occurrences: six han, a haneman.
    assert_eq!(r.han, 6);
    assert_eq!(r.limit_name, Some(HandLimit::Haneman));
    // Dealer pays 6000, the two non-dealers 3000 each, plus 100 per payer
    // for the repeat counter.
    assert_eq!(r.oya_payment, 6000);
    assert_eq!(r.ko_payment, 3000);
    assert_eq!(r.base_points, 3000);
    assert_eq!(r.total_payment, 12300);
    assert_eq!(r.num_akadora, 1);
}

#[test]
fn test_seven_pairs_scores_25_fu() {
    // An irregular seven-pairs hand: the engine defers, the recognizer
    // reports seven pairs, and fu is fixed at 25.
    let yr = YakuResult {
        yaku_list: vec![Yaku::Chiitoitsu, Yaku::MenzenTsumo],
        num_akadora: 0,
        hand_structure: HandStructure::Chiitoitsu {
            pairs: vec![m(1), m(4), m(7), p(1), p(4), p(7), s(1)],
            agari_hai: s(1),
            machi: Machi::Tanki,
        },
    };
    let r = calculate_score(yr, &player(false, true), &game(0), AgariType::Tsumo);
    assert_eq!(r.fu, 25);
    assert_eq!(r.han, 3);
    // base 25 x 2^5 = 800: dealer 1600, others 800.
    assert_eq!(r.oya_payment, 1600);
    assert_eq!(r.ko_payment, 800);
    assert_eq!(r.total_payment, 3200);
}

#[test]
fn test_unscoreable_irregular_hand_is_rejected() {
    // Seven pairs decomposes to irregular; a recognizer that matches no
    // pattern turns it into a terminal rejection.
    let hand_tiles = vec![
        m(1),
        m(1),
        m(4),
        m(4),
        m(7),
        m(7),
        p(1),
        p(1),
        p(4),
        p(4),
        p(7),
        p(7),
        s(1),
        s(1),
    ];
    let input = UserInput {
        hand_tiles,
        winning_tile: s(1),
        open_melds: Vec::new(),
        closed_kans: Vec::new(),
        player_context: player(false, true),
        game_context: game(0),
        agari_type: AgariType::Tsumo,
    };
    let checker = FixedChecker { yaku: vec![Yaku::MenzenTsumo], num_akadora: 0 };
    assert_eq!(calculate_agari(&checker, &input), Err(AgariError::NoYaku));
}

#[test]
fn test_validation_error_propagates_through_pipeline() {
    let hand_tiles = vec![
        m(2),
        m(3),
        m(4),
        m(5),
        m(6),
        m(7),
        p(3),
        p(4),
        p(5),
        p(6),
        p(7),
        p(8),
        s(4),
        s(4),
    ];
    let mut input = UserInput {
        hand_tiles,
        winning_tile: p(8),
        open_melds: Vec::new(),
        closed_kans: Vec::new(),
        player_context: player(false, true),
        game_context: game(0),
        agari_type: AgariType::Tsumo,
    };
    input.game_context.is_houtei = true;
    let checker = FixedChecker { yaku: vec![Yaku::MenzenTsumo], num_akadora: 0 };
    assert_eq!(calculate_agari(&checker, &input), Err(AgariError::HouteiOnTsumo));
}
