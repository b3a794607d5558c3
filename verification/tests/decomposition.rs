//! Tests for hand decomposition: standard partitions, first-found order,
//! declared calls, naked waits and irregular hands.

use riichi_calc::game::{AgariType, GameContext, PlayerContext};
use riichi_calc::hand::{HandOrganization, Machi, Mentsu, MentsuType};
use riichi_calc::input::{OpenMeld, UserInput};
use riichi_calc::organizer::{
    determine_wait_type, find_mentsu_recursive, mentsu_contains_tile, organize_hand,
};
use riichi_calc::tiles::{tile_to_index, Hai, Kaze, Suhai};
use riichi_calc::validator::validate_input;

fn m(rank: u8) -> Hai {
    Hai::Suhai(rank, Suhai::Manzu)
}

fn p(rank: u8) -> Hai {
    Hai::Suhai(rank, Suhai::Pinzu)
}

fn s(rank: u8) -> Hai {
    Hai::Suhai(rank, Suhai::Souzu)
}

fn wind(k: Kaze) -> Hai {
    Hai::Jihai(riichi_calc::tiles::Jihai::Kaze(k))
}

fn plain_player() -> PlayerContext {
    PlayerContext {
        jikaze: Kaze::Nan,
        is_oya: false,
        is_riichi: false,
        is_daburu_riichi: false,
        is_ippatsu: false,
        is_menzen: true,
    }
}

fn plain_game() -> GameContext {
    GameContext {
        bakaze: Kaze::Ton,
        kyoku: 1,
        honba: 0,
        riichi_bou: 0,
        dora_indicators: Vec::new(),
        uradora_indicators: Vec::new(),
        num_akadora: 0,
        is_tenhou: false,
        is_chiihou: false,
        is_renhou: false,
        is_haitei: false,
        is_houtei: false,
        is_rinshan: false,
        is_chankan: false,
    }
}

fn plain_input(hand_tiles: Vec<Hai>, winning_tile: Hai) -> UserInput {
    UserInput {
        hand_tiles,
        winning_tile,
        open_melds: Vec::new(),
        closed_kans: Vec::new(),
        player_context: plain_player(),
        game_context: plain_game(),
        agari_type: AgariType::Tsumo,
    }
}

#[test]
fn test_standard_hand_two_sided_wait() {
    // 234m 567m 345p 678p 44s, won on 8p: four sequences and a 4s pair.
    let hand = vec![
        m(2),
        m(3),
        m(4),
        m(5),
        m(6),
        m(7),
        p(3),
        p(4),
        p(5),
        p(6),
        p(7),
        p(8),
        s(4),
        s(4),
    ];
    let input = plain_input(hand, p(8));
    let org = organize_hand(&input).expect("valid hand");
    match org {
        HandOrganization::YonmentsuIchiatama(h) => {
            assert_eq!(h.atama, s(4));
            assert_eq!(h.agari_hai, p(8));
            assert_eq!(h.machi, Machi::Ryanmen);
            assert_eq!(h.mentsu.len(), 4);
            assert_eq!(h.mentsu[0].mentsu_type, MentsuType::Shuntsu);
            assert_eq!(h.mentsu[0].head, m(2));
            assert_eq!(h.mentsu[1].head, m(5));
            assert_eq!(h.mentsu[2].head, p(3));
            assert_eq!(h.mentsu[3].head, p(6));
            assert!(h.mentsu.iter().all(|x| !x.is_minchou));
        }
        HandOrganization::Irregular { .. } => panic!("expected a standard hand"),
    }
}

#[test]
fn test_first_found_prefers_triplets() {
    // 111222333m 567p 99s: decomposable as three triplets or three
    // sequences; the fixed search order must find the triplets.
    let hand = vec![
        m(1),
        m(1),
        m(1),
        m(2),
        m(2),
        m(2),
        m(3),
        m(3),
        m(3),
        p(5),
        p(6),
        p(7),
        s(9),
        s(9),
    ];
    let input = plain_input(hand, p(5));
    let org = organize_hand(&input).expect("valid hand");
    match org {
        HandOrganization::YonmentsuIchiatama(h) => {
            assert_eq!(h.atama, s(9));
            assert_eq!(h.mentsu[0].mentsu_type, MentsuType::Koutsu);
            assert_eq!(h.mentsu[0].head, m(1));
            assert_eq!(h.mentsu[1].mentsu_type, MentsuType::Koutsu);
            assert_eq!(h.mentsu[1].head, m(2));
            assert_eq!(h.mentsu[2].mentsu_type, MentsuType::Koutsu);
            assert_eq!(h.mentsu[2].head, m(3));
            assert_eq!(h.mentsu[3].mentsu_type, MentsuType::Shuntsu);
            assert_eq!(h.mentsu[3].head, p(5));
            // The winning tile completes the 567p sequence at its lowest
            // position with nothing at the board edge: a two-sided wait.
            assert_eq!(h.machi, Machi::Ryanmen);
        }
        HandOrganization::Irregular { .. } => panic!("expected a standard hand"),
    }
}

#[test]
fn test_round_trip_counts_preserved() {
    // Every tile of the request reappears in the melds plus the pair.
    let hand = vec![
        m(2),
        m(3),
        m(4),
        m(5),
        m(6),
        m(7),
        p(3),
        p(4),
        p(5),
        p(6),
        p(7),
        p(8),
        s(4),
        s(4),
    ];
    let input = plain_input(hand.clone(), p(8));
    let org = organize_hand(&input).expect("valid hand");
    let mut original = [0u8; 34];
    for t in &hand {
        original[tile_to_index(t)] += 1;
    }
    match org {
        HandOrganization::YonmentsuIchiatama(h) => {
            let mut rebuilt = [0u8; 34];
            for meld in &h.mentsu {
                let i = tile_to_index(&meld.head);
                match meld.mentsu_type {
                    MentsuType::Shuntsu => {
                        rebuilt[i] += 1;
                        rebuilt[i + 1] += 1;
                        rebuilt[i + 2] += 1;
                    }
                    MentsuType::Koutsu => rebuilt[i] += 3,
                    MentsuType::Kantsu => rebuilt[i] += 4,
                }
            }
            rebuilt[tile_to_index(&h.atama)] += 2;
            assert_eq!(original, rebuilt);
        }
        HandOrganization::Irregular { .. } => panic!("expected a standard hand"),
    }
}

#[test]
fn test_seven_pairs_is_irregular() {
    // Seven distinct pairs with no run or triplet: no standard partition,
    // so the engine defers to the recognizer with the full counts.
    let hand = vec![
        m(1),
        m(1),
        m(4),
        m(4),
        m(7),
        m(7),
        p(1),
        p(1),
        p(4),
        p(4),
        p(7),
        p(7),
        wind(Kaze::Ton),
        wind(Kaze::Ton),
    ];
    let input = plain_input(hand, wind(Kaze::Ton));
    let org = organize_hand(&input).expect("14 tiles, no calls: accepted");
    match org {
        HandOrganization::Irregular { counts, agari_hai } => {
            assert_eq!(agari_hai, wind(Kaze::Ton));
            assert_eq!(counts.len(), 34);
            assert_eq!(counts[tile_to_index(&m(1))], 2);
            assert_eq!(counts[tile_to_index(&wind(Kaze::Ton))], 2);
            let total: u32 = counts.iter().map(|&c| c as u32).sum();
            assert_eq!(total, 14);
        }
        HandOrganization::YonmentsuIchiatama(_) => panic!("expected an irregular hand"),
    }
}

#[test]
fn test_closed_kan_decomposition() {
    // A concealed quad of 1m plus three found melds and a 9s pair.
    let hand = vec![
        m(1),
        m(1),
        m(1),
        m(1),
        m(2),
        m(3),
        m(4),
        p(3),
        p(4),
        p(5),
        p(6),
        p(7),
        p(8),
        s(9),
        s(9),
    ];
    let mut input = plain_input(hand, s(9));
    input.closed_kans = vec![m(1)];
    let org = organize_hand(&input).expect("valid hand");
    match org {
        HandOrganization::YonmentsuIchiatama(h) => {
            assert_eq!(h.mentsu[0].mentsu_type, MentsuType::Kantsu);
            assert_eq!(h.mentsu[0].head, m(1));
            assert!(!h.mentsu[0].is_minchou);
            assert_eq!(h.atama, s(9));
            assert_eq!(h.machi, Machi::Tanki);
        }
        HandOrganization::Irregular { .. } => panic!("expected a standard hand"),
    }
}

#[test]
fn test_naked_wait_with_four_open_melds() {
    // Four open triplets leave only the pair: necessarily a single wait.
    let hand = vec![
        m(1),
        m(1),
        m(1),
        m(5),
        m(5),
        m(5),
        p(2),
        p(2),
        p(2),
        s(3),
        s(3),
        s(3),
        wind(Kaze::Pei),
        wind(Kaze::Pei),
    ];
    let mut input = plain_input(hand, wind(Kaze::Pei));
    input.open_melds = vec![
        OpenMeld { mentsu_type: MentsuType::Koutsu, representative_tile: m(1) },
        OpenMeld { mentsu_type: MentsuType::Koutsu, representative_tile: m(5) },
        OpenMeld { mentsu_type: MentsuType::Koutsu, representative_tile: p(2) },
        OpenMeld { mentsu_type: MentsuType::Koutsu, representative_tile: s(3) },
    ];
    input.player_context.is_menzen = false;
    input.agari_type = AgariType::Ron;
    let org = organize_hand(&input).expect("valid hand");
    match org {
        HandOrganization::YonmentsuIchiatama(h) => {
            assert_eq!(h.machi, Machi::Tanki);
            assert_eq!(h.atama, wind(Kaze::Pei));
            assert!(h.mentsu.iter().all(|x| x.is_minchou));
        }
        HandOrganization::Irregular { .. } => panic!("expected a standard hand"),
    }
}

#[test]
fn test_open_chi_decomposition() {
    // An open 123m sequence declared, the rest concealed.
    let hand = vec![
        m(1),
        m(2),
        m(3),
        m(7),
        m(8),
        m(9),
        p(2),
        p(3),
        p(4),
        s(5),
        s(6),
        s(7),
        s(1),
        s(1),
    ];
    let mut input = plain_input(hand, s(7));
    input.open_melds = vec![OpenMeld {
        mentsu_type: MentsuType::Shuntsu,
        representative_tile: m(1),
    }];
    input.player_context.is_menzen = false;
    let org = organize_hand(&input).expect("valid hand");
    match org {
        HandOrganization::YonmentsuIchiatama(h) => {
            assert_eq!(h.mentsu[0].mentsu_type, MentsuType::Shuntsu);
            assert_eq!(h.mentsu[0].head, m(1));
            assert!(h.mentsu[0].is_minchou);
            assert_eq!(h.atama, s(1));
            // 7s completes 567s at its highest position; 5s is not rank 1,
            // so the wait is two-sided.
            assert_eq!(h.machi, Machi::Ryanmen);
        }
        HandOrganization::Irregular { .. } => panic!("expected a standard hand"),
    }
}

#[test]
fn test_find_mentsu_recursive_direct() {
    // 123m and 555s decompose fully: counts are consumed, melds recorded.
    let mut counts = vec![0u8; 34];
    counts[tile_to_index(&m(1))] = 1;
    counts[tile_to_index(&m(2))] = 1;
    counts[tile_to_index(&m(3))] = 1;
    counts[tile_to_index(&s(5))] = 3;
    let mut melds: Vec<Mentsu> = Vec::new();
    assert!(find_mentsu_recursive(&mut counts, &mut melds));
    assert!(counts.iter().all(|&c| c == 0));
    assert_eq!(melds.len(), 2);
    assert_eq!(melds[0].mentsu_type, MentsuType::Shuntsu);
    assert_eq!(melds[0].head, m(1));
    assert_eq!(melds[1].mentsu_type, MentsuType::Koutsu);
    assert_eq!(melds[1].head, s(5));

    // A lone pair cannot form melds: everything is restored untouched.
    let mut counts = vec![0u8; 34];
    counts[tile_to_index(&m(1))] = 2;
    let saved = counts.clone();
    let mut melds: Vec<Mentsu> = Vec::new();
    assert!(!find_mentsu_recursive(&mut counts, &mut melds));
    assert_eq!(counts, saved);
    assert!(melds.is_empty());
}

#[test]
fn test_wait_classifier_direct() {
    let chi = Mentsu { mentsu_type: MentsuType::Shuntsu, is_minchou: false, head: p(4) };
    assert!(mentsu_contains_tile(&chi, &p(4)));
    assert!(mentsu_contains_tile(&chi, &p(5)));
    assert!(mentsu_contains_tile(&chi, &p(6)));
    assert!(!mentsu_contains_tile(&chi, &p(7)));
    assert!(!mentsu_contains_tile(&chi, &s(4)));
    let pon = Mentsu { mentsu_type: MentsuType::Koutsu, is_minchou: false, head: s(9) };
    assert!(mentsu_contains_tile(&pon, &s(9)));
    assert!(!mentsu_contains_tile(&pon, &s(8)));

    let melds = vec![
        Mentsu { mentsu_type: MentsuType::Koutsu, is_minchou: false, head: m(1) },
        Mentsu { mentsu_type: MentsuType::Shuntsu, is_minchou: false, head: p(4) },
        Mentsu { mentsu_type: MentsuType::Shuntsu, is_minchou: false, head: s(2) },
        Mentsu { mentsu_type: MentsuType::Shuntsu, is_minchou: false, head: s(5) },
    ];
    // The same decomposed hand always classifies the same way.
    let w1 = determine_wait_type(&melds, s(9), p(5));
    let w2 = determine_wait_type(&melds, s(9), p(5));
    assert_eq!(w1, Machi::Kanchan);
    assert_eq!(w1, w2);
    assert_eq!(determine_wait_type(&melds, s(9), s(9)), Machi::Tanki);
    assert_eq!(determine_wait_type(&melds, s(9), m(1)), Machi::Shanpon);
    assert_eq!(determine_wait_type(&melds, s(9), p(6)), Machi::Ryanmen);
}

#[test]
fn test_validate_input_direct() {
    let input = plain_input(
        vec![
            m(2),
            m(3),
            m(4),
            m(5),
            m(6),
            m(7),
            p(3),
            p(4),
            p(5),
            p(6),
            p(7),
            p(8),
            s(4),
            s(4),
        ],
        p(8),
    );
    let mut counts = vec![0usize; 34];
    for t in &input.hand_tiles {
        counts[tile_to_index(t)] += 1;
    }
    assert_eq!(validate_input(&input, &counts), Ok(()));

    let mut bad = input.clone();
    bad.winning_tile = s(9);
    assert_eq!(
        validate_input(&bad, &counts),
        Err(riichi_calc::error::AgariError::WinningTileMissing)
    );
}

#[test]
fn test_tehai_counts() {
    let hand = vec![m(1), m(1), m(1), p(5), s(9), wind(Kaze::Ton)];
    let tehai = riichi_calc::hand::Tehai::from_tiles(&hand);
    assert_eq!(tehai.tiles.len(), 34);
    assert_eq!(tehai.tiles[tile_to_index(&m(1))], 3);
    assert_eq!(tehai.tiles[tile_to_index(&p(5))], 1);
    assert_eq!(tehai.tiles[tile_to_index(&s(9))], 1);
    assert_eq!(tehai.tiles[tile_to_index(&wind(Kaze::Ton))], 1);
    assert_eq!(tehai.tiles[tile_to_index(&m(2))], 0);
}

#[test]
fn test_wait_classification_deterministic() {
    // Re-running the decomposition and classification yields the same wait.
    let hand = vec![
        m(2),
        m(3),
        m(4),
        m(5),
        m(6),
        m(7),
        p(3),
        p(4),
        p(5),
        p(6),
        p(7),
        p(8),
        s(4),
        s(4),
    ];
    let input = plain_input(hand, p(8));
    let first = organize_hand(&input).expect("valid hand");
    let second = organize_hand(&input).expect("valid hand");
    match (first, second) {
        (
            HandOrganization::YonmentsuIchiatama(h1),
            HandOrganization::YonmentsuIchiatama(h2),
        ) => {
            assert_eq!(h1.machi, h2.machi);
            assert_eq!(h1.atama, h2.atama);
        }
        _ => panic!("expected standard hands"),
    }
}

#[test]
fn test_kanchan_and_penchan_waits() {
    // 5p completing 456p in the middle: a closed wait.
    let hand = vec![
        m(1),
        m(1),
        m(1),
        m(9),
        m(9),
        m(9),
        p(4),
        p(5),
        p(6),
        s(2),
        s(3),
        s(4),
        s(8),
        s(8),
    ];
    let input = plain_input(hand, p(5));
    match organize_hand(&input).expect("valid hand") {
        HandOrganization::YonmentsuIchiatama(h) => assert_eq!(h.machi, Machi::Kanchan),
        _ => panic!("expected a standard hand"),
    }

    // 3m completing 123m from the board edge: an edge wait.
    let hand = vec![
        m(1),
        m(2),
        m(3),
        m(9),
        m(9),
        m(9),
        p(4),
        p(5),
        p(6),
        s(2),
        s(3),
        s(4),
        s(8),
        s(8),
    ];
    let input = plain_input(hand, m(3));
    match organize_hand(&input).expect("valid hand") {
        HandOrganization::YonmentsuIchiatama(h) => assert_eq!(h.machi, Machi::Penchan),
        _ => panic!("expected a standard hand"),
    }

    // 7s completing 789s from the top edge: also an edge wait.
    let hand = vec![
        m(1),
        m(1),
        m(1),
        m(9),
        m(9),
        m(9),
        p(4),
        p(5),
        p(6),
        s(7),
        s(8),
        s(9),
        s(2),
        s(2),
    ];
    let input = plain_input(hand, s(7));
    match organize_hand(&input).expect("valid hand") {
        HandOrganization::YonmentsuIchiatama(h) => assert_eq!(h.machi, Machi::Penchan),
        _ => panic!("expected a standard hand"),
    }
}

#[test]
fn test_shanpon_wait() {
    // The winning tile completes a triplet while a second pair stands: a
    // triplet-pair wait.
    let hand = vec![
        m(1),
        m(1),
        m(1),
        p(4),
        p(5),
        p(6),
        s(2),
        s(3),
        s(4),
        s(8),
        s(8),
        s(8),
        p(9),
        p(9),
    ];
    let input = plain_input(hand, s(8));
    match organize_hand(&input).expect("valid hand") {
        HandOrganization::YonmentsuIchiatama(h) => assert_eq!(h.machi, Machi::Shanpon),
        _ => panic!("expected a standard hand"),
    }
}

#[test]
fn test_pair_wait_takes_priority() {
    // The winning tile equals the pair tile and also sits in a sequence:
    // the pair must win the classification.
    let hand = vec![
        m(2),
        m(3),
        m(4),
        m(4),
        m(4),
        p(2),
        p(3),
        p(4),
        s(3),
        s(4),
        s(5),
        s(7),
        s(8),
        s(9),
    ];
    let input = plain_input(hand, m(4));
    match organize_hand(&input).expect("valid hand") {
        HandOrganization::YonmentsuIchiatama(h) => {
            assert_eq!(h.atama, m(4));
            assert_eq!(h.machi, Machi::Tanki);
        }
        _ => panic!("expected a standard hand"),
    }
}
