use riichi_calc::akadora::RiichiGui;
use riichi_calc::game::AgariType;
use riichi_calc::hand::{AgariHand, HandStructure, Machi, Mentsu, MentsuType};
use riichi_calc::hand_tiles::{
    check_chanta_junchan, check_chinitsu, check_color, check_honitsu, count_dora,
    count_koutsu_kantsu, get_all_groups, get_all_tiles,
};
use riichi_calc::input::OpenMeld;
use riichi_calc::parser::find_mentsu_recursive;
use riichi_calc::points::{calculate_basic_points, count_yakuman, round_up_100, HandLimit};
use riichi_calc::regular::{check_ittsu, check_peikou, check_sanshoku_doujun};
use riichi_calc::tiles::{
    get_dora_tile, hai_from_index, index_from_hai, is_green_tile, is_jihai, is_simple,
    is_terminal, is_yaochuu, Hai, Jihai, Kaze, Sangenpai, Suhai,
};
use riichi_calc::wait::determine_wait_type;
use riichi_calc::yaku::{has_yaku, Yaku};
use riichi_calc::yakuman::{check_chuuren, check_kokushi, post_process_yakuman};

fn m(n: u8) -> Hai {
    Hai::Suhai(n, Suhai::Manzu)
}

fn p(n: u8) -> Hai {
    Hai::Suhai(n, Suhai::Pinzu)
}

fn s(n: u8) -> Hai {
    Hai::Suhai(n, Suhai::Souzu)
}

fn wind(k: Kaze) -> Hai {
    Hai::Jihai(Jihai::Kaze(k))
}

fn dragon(d: Sangenpai) -> Hai {
    Hai::Jihai(Jihai::Sangen(d))
}

fn run(t: Hai) -> Mentsu {
    let i = index_from_hai(t);
    let t3 = hai_from_index(i + 2);
    Mentsu {
        mentsu_type: MentsuType::Shuntsu,
        is_minchou: false,
        tiles: [t, hai_from_index(i + 1), t3, t3],
    }
}

fn triplet(t: Hai) -> Mentsu {
    Mentsu { mentsu_type: MentsuType::Koutsu, is_minchou: false, tiles: [t, t, t, t] }
}

fn quad(t: Hai) -> Mentsu {
    Mentsu { mentsu_type: MentsuType::Kantsu, is_minchou: true, tiles: [t, t, t, t] }
}

#[test]
fn basic_points_below_and_at_the_limits() {
    assert_eq!(calculate_basic_points(1, 30), (240, None));
    assert_eq!(calculate_basic_points(3, 30), (960, None));
    assert_eq!(calculate_basic_points(4, 25), (1600, None));
    assert_eq!(calculate_basic_points(4, 30), (2000, Some(HandLimit::Mangan)));
    assert_eq!(calculate_basic_points(3, 60), (2000, Some(HandLimit::Mangan)));
    assert_eq!(calculate_basic_points(3, 50), (1600, None));
    assert_eq!(calculate_basic_points(3, 61), (1952, None));
    assert_eq!(calculate_basic_points(4, 31), (1984, None));
    assert_eq!(calculate_basic_points(4, 32), (2000, Some(HandLimit::Mangan)));
    assert_eq!(calculate_basic_points(4, 40), (2000, Some(HandLimit::Mangan)));
    assert_eq!(calculate_basic_points(3, 70), (2000, Some(HandLimit::Mangan)));
    assert_eq!(calculate_basic_points(5, 20), (2000, Some(HandLimit::Mangan)));
    assert_eq!(calculate_basic_points(6, 30), (3000, Some(HandLimit::Haneman)));
    assert_eq!(calculate_basic_points(7, 30), (3000, Some(HandLimit::Haneman)));
    assert_eq!(calculate_basic_points(8, 30), (4000, Some(HandLimit::Baiman)));
    assert_eq!(calculate_basic_points(10, 30), (4000, Some(HandLimit::Baiman)));
    assert_eq!(calculate_basic_points(11, 30), (6000, Some(HandLimit::Sanbaiman)));
    assert_eq!(calculate_basic_points(13, 30), (8000, Some(HandLimit::Yakuman)));
    assert_eq!(calculate_basic_points(26, 30), (8000, Some(HandLimit::Yakuman)));
}

#[test]
fn basic_points_grow_with_han_and_fu() {
    let mut prev = 0;
    for han in 1u8..14 {
        let (pts, _) = calculate_basic_points(han, 30);
        assert!(pts >= prev);
        prev = pts;
    }
    assert!(calculate_basic_points(2, 40).0 >= calculate_basic_points(2, 30).0);
}

#[test]
fn rounding_up_to_hundreds() {
    assert_eq!(round_up_100(0), 0);
    assert_eq!(round_up_100(1), 100);
    assert_eq!(round_up_100(100), 100);
    assert_eq!(round_up_100(960 * 4), 3900);
    assert_eq!(round_up_100(1999), 2000);
}

#[test]
fn yakuman_count() {
    assert_eq!(count_yakuman(&[]), 0);
    assert_eq!(count_yakuman(&[Yaku::Riichi, Yaku::Dora]), 0);
    assert_eq!(count_yakuman(&[Yaku::Daisangen]), 1);
    assert_eq!(count_yakuman(&[Yaku::SuuankouTanki, Yaku::Tsuuiisou]), 3);
    assert_eq!(
        count_yakuman(&[Yaku::KokushiMusouJusanmen, Yaku::JunseiChuurenPoutou, Yaku::Tenhou]),
        5
    );
}

#[test]
fn yakuman_count_adds_over_concatenation() {
    let a = [Yaku::Suuankou, Yaku::Riichi];
    let b = [Yaku::SuuankouTanki];
    let ab = [Yaku::Suuankou, Yaku::Riichi, Yaku::SuuankouTanki];
    assert_eq!(count_yakuman(&ab), count_yakuman(&a) + count_yakuman(&b));
}

#[test]
fn double_yakuman_replace_their_plain_forms() {
    assert_eq!(
        post_process_yakuman(vec![Yaku::Suuankou, Yaku::SuuankouTanki, Yaku::Tenhou]),
        vec![Yaku::SuuankouTanki, Yaku::Tenhou]
    );
    assert_eq!(
        post_process_yakuman(vec![Yaku::ChuurenPoutou, Yaku::KokushiMusou]),
        vec![Yaku::ChuurenPoutou, Yaku::KokushiMusou]
    );
    assert_eq!(
        post_process_yakuman(vec![Yaku::KokushiMusou, Yaku::KokushiMusouJusanmen]),
        vec![Yaku::KokushiMusouJusanmen]
    );
}

#[test]
fn dora_follow_their_indicators() {
    assert_eq!(get_dora_tile(&m(1)), m(2));
    assert_eq!(get_dora_tile(&m(9)), m(1));
    assert_eq!(get_dora_tile(&s(9)), s(1));
    assert_eq!(get_dora_tile(&wind(Kaze::Ton)), wind(Kaze::Nan));
    assert_eq!(get_dora_tile(&wind(Kaze::Pei)), wind(Kaze::Ton));
    assert_eq!(get_dora_tile(&dragon(Sangenpai::Haku)), dragon(Sangenpai::Hatsu));
    assert_eq!(get_dora_tile(&dragon(Sangenpai::Chun)), dragon(Sangenpai::Haku));
}

#[test]
fn dora_indicator_cycles_return() {
    let mut t = p(4);
    for _ in 0..9 {
        t = get_dora_tile(&t);
    }
    assert_eq!(t, p(4));
    let mut w = wind(Kaze::Shaa);
    for _ in 0..4 {
        w = get_dora_tile(&w);
    }
    assert_eq!(w, wind(Kaze::Shaa));
    let mut d = dragon(Sangenpai::Hatsu);
    for _ in 0..3 {
        d = get_dora_tile(&d);
    }
    assert_eq!(d, dragon(Sangenpai::Hatsu));
}

#[test]
fn dora_counting() {
    let tiles = vec![m(2), m(2), p(3), wind(Kaze::Nan)];
    assert_eq!(count_dora(&tiles, &vec![m(1)]), 2);
    assert_eq!(count_dora(&tiles, &vec![m(1), m(1)]), 4);
    assert_eq!(count_dora(&tiles, &vec![wind(Kaze::Ton), p(2)]), 2);
    assert_eq!(count_dora(&tiles, &vec![]), 0);
}

#[test]
fn tile_slots_round_trip() {
    assert_eq!(index_from_hai(m(1)), 0);
    assert_eq!(index_from_hai(p(9)), 17);
    assert_eq!(index_from_hai(s(5)), 22);
    assert_eq!(index_from_hai(wind(Kaze::Ton)), 27);
    assert_eq!(index_from_hai(dragon(Sangenpai::Chun)), 33);
    for i in 0..34 {
        assert_eq!(index_from_hai(hai_from_index(i)), i);
    }
    assert_eq!(hai_from_index(31), dragon(Sangenpai::Haku));
}

#[test]
fn tile_classes() {
    assert!(is_simple(&m(2)) && is_simple(&s(8)));
    assert!(!is_simple(&m(1)) && !is_simple(&dragon(Sangenpai::Haku)));
    assert!(is_terminal(&p(9)) && !is_terminal(&p(5)) && !is_terminal(&wind(Kaze::Nan)));
    assert!(is_jihai(&wind(Kaze::Pei)) && !is_jihai(&s(1)));
    assert!(is_yaochuu(&s(1)) && is_yaochuu(&dragon(Sangenpai::Chun)) && !is_yaochuu(&m(5)));
    assert!(is_green_tile(&s(2)) && is_green_tile(&s(6)) && is_green_tile(&dragon(Sangenpai::Hatsu)));
    assert!(!is_green_tile(&s(5)) && !is_green_tile(&m(2)) && !is_green_tile(&dragon(Sangenpai::Haku)));
}

#[test]
fn meld_search_reads_triplets_before_sequences() {
    let mut counts = [0u8; 34];
    for t in [m(1), m(1), m(1), m(2), m(3), m(4)] {
        counts[index_from_hai(t)] += 1;
    }
    let mut mentsu = Vec::new();
    assert!(find_mentsu_recursive(&mut counts, &mut mentsu));
    assert_eq!(mentsu.len(), 2);
    assert_eq!(mentsu[0], triplet(m(1)));
    assert_eq!(mentsu[1], run(m(2)));
    assert!(counts.iter().all(|&c| c == 0));
}

#[test]
fn meld_search_backtracks_to_sequences() {
    let mut counts = [0u8; 34];
    for t in [p(1), p(1), p(1), p(2), p(2), p(2), p(3), p(3), p(3)] {
        counts[index_from_hai(t)] += 1;
    }
    let mut mentsu = Vec::new();
    assert!(find_mentsu_recursive(&mut counts, &mut mentsu));
    assert_eq!(mentsu, vec![triplet(p(1)), triplet(p(2)), triplet(p(3))]);

    let mut counts = [0u8; 34];
    for t in [p(1), p(1), p(1), p(1), p(2), p(3)] {
        counts[index_from_hai(t)] += 1;
    }
    let mut mentsu = Vec::new();
    assert!(find_mentsu_recursive(&mut counts, &mut mentsu));
    assert_eq!(mentsu, vec![triplet(p(1)), run(p(1))]);
}

#[test]
fn meld_search_failure_leaves_everything() {
    let mut counts = [0u8; 34];
    counts[0] = 1;
    counts[1] = 1;
    counts[9] = 2;
    let before = counts;
    let mut mentsu = vec![triplet(s(9))];
    assert!(!find_mentsu_recursive(&mut counts, &mut mentsu));
    assert_eq!(counts, before);
    assert_eq!(mentsu, vec![triplet(s(9))]);
}

#[test]
fn wait_shapes() {
    let melds = [run(m(1)), run(p(3)), run(s(7)), triplet(wind(Kaze::Ton))];
    let pair = (p(9), p(9));
    assert_eq!(determine_wait_type(&melds, pair, p(9)), Machi::Tanki);
    assert_eq!(determine_wait_type(&melds, pair, wind(Kaze::Ton)), Machi::Shanpon);
    assert_eq!(determine_wait_type(&melds, pair, p(4)), Machi::Kanchan);
    assert_eq!(determine_wait_type(&melds, pair, m(3)), Machi::Penchan);
    assert_eq!(determine_wait_type(&melds, pair, s(7)), Machi::Penchan);
    assert_eq!(determine_wait_type(&melds, pair, p(3)), Machi::Ryanmen);
    assert_eq!(determine_wait_type(&melds, pair, p(5)), Machi::Ryanmen);
    assert_eq!(determine_wait_type(&melds, pair, m(1)), Machi::Ryanmen);
}

#[test]
fn wait_is_read_from_the_first_meld_holding_the_tile() {
    let melds = [run(m(2)), run(m(3)), run(p(1)), run(s(1))];
    let pair = (s(9), s(9));
    assert_eq!(determine_wait_type(&melds, pair, m(3)), Machi::Kanchan);
}

fn hand(mentsu: [Mentsu; 4], atama: Hai, agari_hai: Hai, machi: Machi) -> AgariHand {
    AgariHand { mentsu, atama: (atama, atama), agari_hai, machi }
}

#[test]
fn hand_tiles_and_groups() {
    let h = hand([run(m(1)), triplet(p(5)), quad(s(9)), run(m(7))], wind(Kaze::Nan), m(1), Machi::Ryanmen);
    let tiles = get_all_tiles(&h);
    assert_eq!(tiles.len(), 15);
    assert_eq!(&tiles[0..2], &[wind(Kaze::Nan), wind(Kaze::Nan)]);
    assert_eq!(&tiles[2..5], &[m(1), m(2), m(3)]);
    assert_eq!(&tiles[8..12], &[s(9), s(9), s(9), s(9)]);
    assert_eq!(&tiles[12..15], &[m(7), m(8), m(9)]);
    let groups = get_all_groups(&h);
    assert_eq!(groups.len(), 5);
    assert_eq!(groups[0], vec![wind(Kaze::Nan), wind(Kaze::Nan)]);
    assert_eq!(groups[3].len(), 4);
    assert_eq!(groups[4], vec![m(7), m(8), m(9)]);
    assert_eq!(count_koutsu_kantsu(&h), (1, 1));
    assert_eq!(check_chanta_junchan(&groups), (false, false));
}

#[test]
fn outside_hands() {
    let chanta = hand([run(m(1)), run(p(7)), triplet(wind(Kaze::Nan)), run(s(1))], s(9), m(1), Machi::Ryanmen);
    assert_eq!(check_chanta_junchan(&get_all_groups(&chanta)), (true, false));
    let junchan = hand([run(m(1)), run(p(7)), triplet(m(9)), run(s(1))], s(9), m(1), Machi::Ryanmen);
    assert_eq!(check_chanta_junchan(&get_all_groups(&junchan)), (true, true));
}

#[test]
fn flushes() {
    let pure = vec![m(1), m(2), m(9)];
    assert_eq!(check_color(&pure), (false, true, Some(Suhai::Manzu)));
    assert_eq!(check_chinitsu(&pure), (true, Some(Suhai::Manzu)));
    let half = vec![m(1), wind(Kaze::Nan), m(9)];
    assert_eq!(check_color(&half), (true, false, Some(Suhai::Manzu)));
    assert_eq!(check_honitsu(&half), (true, Some(Suhai::Manzu)));
    let honors = vec![wind(Kaze::Ton), dragon(Sangenpai::Chun)];
    assert_eq!(check_color(&honors), (false, false, None));
    let mixed = vec![m(1), p(1)];
    assert_eq!(check_honitsu(&mixed).0, false);
    assert_eq!(check_chinitsu(&mixed).0, false);
}

#[test]
fn sequence_patterns() {
    let two_pairs = vec![run(m(1)), run(m(1)), run(p(4)), run(p(4))];
    assert_eq!(check_peikou(&two_pairs), (false, true));
    let one_pair = vec![run(m(1)), run(m(1)), run(p(4))];
    assert_eq!(check_peikou(&one_pair), (true, false));
    let apart = vec![run(m(2)), run(p(5)), run(m(2)), run(s(3))];
    assert_eq!(check_peikou(&apart), (true, false));
    let three_same = vec![run(m(1)), run(m(1)), run(m(1))];
    assert_eq!(check_peikou(&three_same), (true, false));
    let none = vec![run(m(1)), run(m(2)), run(m(3))];
    assert_eq!(check_peikou(&none), (false, false));
    let three_colors = vec![run(m(3)), run(p(3)), run(s(3))];
    assert!(check_sanshoku_doujun(&three_colors));
    assert!(!check_sanshoku_doujun(&one_pair));
    let straight = vec![run(s(1)), run(s(4)), run(s(7)), run(m(2))];
    assert!(check_ittsu(&straight));
    assert!(!check_ittsu(&three_colors));
    let mixed_straight = vec![run(s(1)), run(m(4)), run(s(7)), run(p(4))];
    assert!(!check_ittsu(&mixed_straight));
    let three_colors_elsewhere = vec![run(m(6)), run(s(6)), run(p(2)), run(p(6))];
    assert!(check_sanshoku_doujun(&three_colors_elsewhere));
}

#[test]
fn nine_gates_shapes() {
    let junsei = hand(
        [triplet(m(1)), run(m(2)), run(m(6)), triplet(m(9))],
        m(5),
        m(5),
        Machi::Tanki,
    );
    assert_eq!(check_chuuren(&junsei), Some(true));
    let plain = hand(
        [triplet(m(1)), run(m(2)), run(m(6)), triplet(m(9))],
        m(5),
        m(9),
        Machi::Shanpon,
    );
    assert_eq!(check_chuuren(&plain), Some(false));
    let mut called = junsei;
    called.mentsu[1].is_minchou = true;
    assert_eq!(check_chuuren(&called), None);
    let other = hand([triplet(m(1)), run(m(2)), run(m(5)), triplet(m(9))], m(5), m(5), Machi::Tanki);
    assert_eq!(check_chuuren(&other), None);
}

fn kokushi_counts() -> [u8; 34] {
    let mut counts = [0u8; 34];
    for t in [m(1), m(9), p(1), p(9), s(1), s(9)] {
        counts[index_from_hai(t)] = 1;
    }
    for i in 27..34 {
        counts[i] = 1;
    }
    counts[33] = 2;
    counts
}

fn orphans() -> [Hai; 13] {
    [
        m(1), m(9), p(1), p(9), s(1), s(9),
        wind(Kaze::Ton), wind(Kaze::Nan), wind(Kaze::Shaa), wind(Kaze::Pei),
        dragon(Sangenpai::Haku), dragon(Sangenpai::Hatsu), dragon(Sangenpai::Chun),
    ]
}

#[test]
fn thirteen_orphans_single_wait() {
    let chun = dragon(Sangenpai::Chun);
    let (hs, y) = check_kokushi(&kokushi_counts(), m(1)).unwrap();
    assert_eq!(y, Yaku::KokushiMusou);
    assert_eq!(
        hs,
        HandStructure::KokushiMusou {
            tiles: orphans(),
            atama: (chun, chun),
            agari_hai: m(1),
            machi: Machi::KokushiIchimen,
        }
    );
}

#[test]
fn thirteen_orphans_thirteen_sided_wait() {
    let chun = dragon(Sangenpai::Chun);
    let (hs, y) = check_kokushi(&kokushi_counts(), chun).unwrap();
    assert_eq!(y, Yaku::KokushiMusouJusanmen);
    assert_eq!(
        hs,
        HandStructure::KokushiMusou {
            tiles: orphans(),
            atama: (chun, chun),
            agari_hai: chun,
            machi: Machi::KokushiJusanmen,
        }
    );
}

#[test]
fn thirteen_orphans_rejections() {
    // the winning tile is not in the hand
    assert!(check_kokushi(&kokushi_counts(), m(5)).is_none());
    // a missing orphan
    let mut c = kokushi_counts();
    c[8] = 0;
    c[0] = 2;
    assert!(check_kokushi(&c, m(1)).is_none());
    // a simple tile
    let mut c = kokushi_counts();
    c[33] = 1;
    c[4] = 1;
    assert!(check_kokushi(&c, m(1)).is_none());
    // no pair
    let mut c = kokushi_counts();
    c[33] = 1;
    assert!(check_kokushi(&c, m(1)).is_none());
    // two pairs
    let mut c = kokushi_counts();
    c[0] = 2;
    assert!(check_kokushi(&c, m(1)).is_none());
}

#[test]
fn yaku_lookup() {
    let list = vec![Yaku::Riichi, Yaku::Dora];
    assert!(has_yaku(&list, Yaku::Dora));
    assert!(!has_yaku(&list, Yaku::UraDora));
}

#[test]
fn default_win_is_ron() {
    assert_eq!(AgariType::default(), AgariType::Ron);
}

fn gui(hand_tiles: Vec<Hai>, winning_tile: Option<Hai>, open_melds: Vec<OpenMeld>, closed_kans: Vec<Hai>) -> RiichiGui {
    RiichiGui { hand_tiles, winning_tile, open_melds, closed_kans }
}

#[test]
fn red_five_limit() {
    assert_eq!(gui(vec![], None, vec![], vec![]).get_max_akadora_count(), 0);
    assert_eq!(gui(vec![m(5), m(5), p(5)], None, vec![], vec![]).get_max_akadora_count(), 2);
    assert_eq!(gui(vec![p(5)], Some(p(5)), vec![], vec![]).get_max_akadora_count(), 2);
    assert_eq!(gui(vec![p(5), p(5), p(5), s(5)], None, vec![], vec![]).get_max_akadora_count(), 3);
    let chii = OpenMeld { mentsu_type: MentsuType::Shuntsu, representative_tile: s(3) };
    assert_eq!(gui(vec![], None, vec![chii], vec![m(5)]).get_max_akadora_count(), 2);
    let pon = OpenMeld { mentsu_type: MentsuType::Koutsu, representative_tile: p(5) };
    assert_eq!(gui(vec![m(5)], None, vec![pon], vec![]).get_max_akadora_count(), 3);
}

#[test]
fn one_more_tile_raises_the_red_five_limit_by_at_most_one() {
    let base = gui(vec![p(5), m(2)], Some(s(5)), vec![], vec![]);
    let before = base.get_max_akadora_count();
    for t in [m(5), p(5), s(5), m(1), wind(Kaze::Ton)] {
        let mut tiles = base.hand_tiles.clone();
        tiles.push(t);
        let after = gui(tiles, base.winning_tile, vec![], vec![]).get_max_akadora_count();
        assert!(before <= after && after <= before + 1);
    }
    let mut tiles = base.hand_tiles.clone();
    tiles.push(m(5));
    assert_eq!(gui(tiles, base.winning_tile, vec![], vec![]).get_max_akadora_count(), before + 1);
}

#[test]
fn meld_tiles() {
    let g = gui(vec![], None, vec![], vec![]);
    let chii = OpenMeld { mentsu_type: MentsuType::Shuntsu, representative_tile: p(6) };
    assert_eq!(g.get_meld_tiles(&chii), vec![p(6), p(7), p(8)]);
    let pon = OpenMeld { mentsu_type: MentsuType::Koutsu, representative_tile: wind(Kaze::Pei) };
    assert_eq!(g.get_meld_tiles(&pon), vec![wind(Kaze::Pei); 3]);
    let kan = OpenMeld { mentsu_type: MentsuType::Kantsu, representative_tile: s(1) };
    assert_eq!(g.get_meld_tiles(&kan), vec![s(1); 4]);
}

#[test]
fn concealed_triplets_count_a_ron_completed_triplet_as_open() {
    let h = hand([triplet(m(1)), triplet(p(5)), triplet(s(9)), run(m(2))], wind(Kaze::Nan), p(5), Machi::Shanpon);
    assert_eq!(riichi_calc::hand_tiles::count_concealed_koutsu(&h, AgariType::Ron), 2);
    assert_eq!(riichi_calc::hand_tiles::count_concealed_koutsu(&h, AgariType::Tsumo), 3);
}
