use vstd::prelude::*;
use vstd::arithmetic::power2::{lemma2_to64, pow2};
use crate::yaku::Yaku;

verus! {

/// The named limits of a hand's value.
#[derive(Debug, Clone, Copy, PartialEq, Eq, Structural)]
pub enum HandLimit {
    Mangan,
    Haneman,
    Baiman,
    Sanbaiman,
    Yakuman,
}

/// Fu times 2 to the power han + 2: the basic points of a hand below the limits.
pub open spec fn raw_points(han: u8, fu: u8) -> int {
    fu * pow2((han + 2) as nat)
}

/// Basic points of a hand of `han` han and `fu` fu: the limit values from 5 han up
/// (2000, 3000 from 6, 4000 from 8, 6000 from 11, 8000 from 13); below, fu times
/// 2 to the power han + 2, a mangan from 2000 up, and rounded up to a mangan at exactly
/// 1920 (kiriage mangan: 4 han 30 fu, 3 han 60 fu).
pub open spec fn basic_points(han: u8, fu: u8) -> (u32, Option<HandLimit>) {
    if han >= 13 {
        (8000, Some(HandLimit::Yakuman))
    } else if han >= 11 {
        (6000, Some(HandLimit::Sanbaiman))
    } else if han >= 8 {
        (4000, Some(HandLimit::Baiman))
    } else if han >= 6 {
        (3000, Some(HandLimit::Haneman))
    } else if han == 5 {
        (2000, Some(HandLimit::Mangan))
    } else {
        let b = raw_points(han, fu);
        if b == 1920 || b >= 2000 {
            (2000, Some(HandLimit::Mangan))
        } else {
            (b as u32, None)
        }
    }
}

/// The basic points of a hand and the limit it reaches, if any.
pub fn calculate_basic_points(han: u8, fu: u8) -> (r: (u32, Option<HandLimit>))
    ensures
        r == basic_points(han, fu),
{
    if han >= 13 {
        return (8000, Some(HandLimit::Yakuman));
    }
    if han >= 11 {
        return (6000, Some(HandLimit::Sanbaiman));
    }
    if han >= 8 {
        return (4000, Some(HandLimit::Baiman));
    }
    if han >= 6 {
        return (3000, Some(HandLimit::Haneman));
    }
    if han == 5 {
        return (2000, Some(HandLimit::Mangan));
    }
    // Below mangan

    let shift = (han + 2) as u32;
    proof {
        lemma2_to64();
        vstd::bits::lemma_u32_shl_is_mul(1, shift);
    }
    let multiplier = 1u32 << shift;
    assert(multiplier <= 64);
    assert(fu as u32 * multiplier <= 255 * 64) by (nonlinear_arith)
        requires
            fu <= 255,
            multiplier <= 64,
    ;
    let basic_points = (fu as u32) * multiplier;
    // Mangan from 2000; kiriage mangan at exactly 1920
    if basic_points == 1920 || basic_points >= 2000 {
        (2000, Some(HandLimit::Mangan))
    } else {
        (basic_points, None)
    }
}

/// More han never gives fewer basic points, nor more fu, except that a kiriage mangan
/// (exactly 1920, raised to 2000) outranks a hand whose raw value lies strictly between
/// 1920 and 2000; no hand exceeds 8000; a limit is named exactly from 2000 points up.
pub proof fn lemma_basic_points_monotone(han1: u8, han2: u8, fu1: u8, fu2: u8)
    requires
        han1 <= han2,
        fu1 <= fu2,
        !(han1 < 5 && han2 < 5 && raw_points(han1, fu1) == 1920 && 1920 < raw_points(han2, fu2)
            < 2000),
    ensures
        basic_points(han1, fu1).0 <= basic_points(han2, fu2).0,
        basic_points(han2, fu2).0 <= 8000,
        basic_points(han1, fu1).1 is Some <==> basic_points(han1, fu1).0 >= 2000,
{
    lemma2_to64();
    if han1 < 5 {
        let p1 = pow2((han1 + 2) as nat);
        assert(fu1 * p1 <= fu2 * p1) by (nonlinear_arith)
            requires
                fu1 <= fu2,
                p1 >= 0,
        ;
        if han2 < 5 {
            let p2 = pow2((han2 + 2) as nat);
            assert(p1 <= p2);
            assert(fu2 * p1 <= fu2 * p2) by (nonlinear_arith)
                requires
                    p1 <= p2,
                    fu2 >= 0,
            ;
        }
    }
}

/// Rounds up to the next multiple of 100.
pub fn round_up_100(n: u32) -> (r: u32)
    requires
        n <= u32::MAX - 99,
    ensures
        r == (n + 99) / 100 * 100,
        r % 100 == 0,
        n <= r < n + 100,
{
    (n + 99) / 100 * 100
}

/// How many yakuman a yaku counts for: two for the double forms, one for the others,
/// none for a regular yaku or dora.
pub open spec fn yakuman_value(y: Yaku) -> nat {
    match y {
        Yaku::SuuankouTanki | Yaku::KokushiMusouJusanmen | Yaku::JunseiChuurenPoutou => 2,
        Yaku::Tenhou | Yaku::Chiihou | Yaku::Renhou | Yaku::Daisangen | Yaku::Suuankou
        | Yaku::Daisuushi | Yaku::Shousuushi | Yaku::Tsuuiisou | Yaku::Chinroutou
        | Yaku::Ryuuiisou | Yaku::Suukantsu | Yaku::KokushiMusou | Yaku::ChuurenPoutou => 1,
        _ => 0,
    }
}

/// The yakuman count of a list of yaku.
pub open spec fn yakuman_total(list: Seq<Yaku>) -> nat
    decreases list.len(),
{
    if list.len() == 0 {
        0
    } else {
        yakuman_total(list.drop_last()) + yakuman_value(list.last())
    }
}

/// The yakuman count of two lists together is the sum of their counts.
pub proof fn lemma_yakuman_total_concat(a: Seq<Yaku>, b: Seq<Yaku>)
    ensures
        yakuman_total(a + b) == yakuman_total(a) + yakuman_total(b),
    decreases b.len(),
{
    if b.len() > 0 {
        assert((a + b).drop_last() =~= a + b.drop_last());
        lemma_yakuman_total_concat(a, b.drop_last());
    } else {
        assert(a + b =~= a);
    }
}

proof fn lemma_yakuman_total_prefix(list: Seq<Yaku>, k: int)
    requires
        0 <= k <= list.len(),
    ensures
        yakuman_total(list.take(k)) <= yakuman_total(list),
    decreases list.len(),
{
    if k < list.len() {
        assert(list.drop_last().take(k) =~= list.take(k));
        lemma_yakuman_total_prefix(list.drop_last(), k);
    } else {
        assert(list.take(k) =~= list);
    }
}

/// How many yakuman the list counts for. The count must fit a `u32`.
pub fn count_yakuman(yaku_list: &[Yaku]) -> (r: u32)
    requires
        yakuman_total(yaku_list@) <= u32::MAX,
    ensures
        r == yakuman_total(yaku_list@),
{
    let mut total: u32 = 0;
    let n = yaku_list.len();
    let mut k: usize = 0;
    while k < n
        invariant
            n == yaku_list@.len(),
            k <= n,
            total == yakuman_total(yaku_list@.take(k as int)),
            yakuman_total(yaku_list@) <= u32::MAX,
        decreases n - k,
    {
        assert(yaku_list@.take(k + 1).drop_last() =~= yaku_list@.take(k as int));
        proof {
            lemma_yakuman_total_prefix(yaku_list@, k + 1);
        }
        let value: u32 = match yaku_list[k] {
            // Double yakuman
            Yaku::SuuankouTanki => 2,
            Yaku::KokushiMusouJusanmen => 2,
            Yaku::JunseiChuurenPoutou => 2,
            // Single yakuman
            Yaku::Tenhou => 1,
            Yaku::Chiihou => 1,
            Yaku::Renhou => 1,
            Yaku::Daisangen => 1,
            Yaku::Suuankou => 1,
            Yaku::Daisuushi => 1,
            Yaku::Shousuushi => 1,
            Yaku::Tsuuiisou => 1,
            Yaku::Chinroutou => 1,
            Yaku::Ryuuiisou => 1,
            Yaku::Suukantsu => 1,
            Yaku::KokushiMusou => 1,
            Yaku::ChuurenPoutou => 1,
            _ => 0,
        };
        total = total + value;
        k += 1;
    }
    assert(yaku_list@.take(n as int) =~= yaku_list@);
    total
}

/// The limits by han: 5 han is a mangan (2000), 6 and 7 a haneman (3000), 8 to 10 a
/// baiman (4000), 11 and 12 a sanbaiman (6000), and 13 or more a yakuman (8000); 8000 is
/// reached exactly from 13 han. Below 5 han the value is fu times 2 to the power han + 2,
/// or a mangan when that is 1920 or at least 2000.
pub proof fn lemma_basic_points_limits(han: u8, fu: u8)
    ensures
        han >= 13 ==> basic_points(han, fu) == (8000u32, Some(HandLimit::Yakuman)),
        11 <= han <= 12 ==> basic_points(han, fu) == (6000u32, Some(HandLimit::Sanbaiman)),
        8 <= han <= 10 ==> basic_points(han, fu) == (4000u32, Some(HandLimit::Baiman)),
        6 <= han <= 7 ==> basic_points(han, fu) == (3000u32, Some(HandLimit::Haneman)),
        han == 5 ==> basic_points(han, fu) == (2000u32, Some(HandLimit::Mangan)),
        basic_points(han, fu).0 == 8000 <==> han >= 13,
        han <= 4 ==> {
            let b = fu * pow2((han + 2) as nat);
            basic_points(han, fu) == if b == 1920 || b >= 2000 {
                (2000u32, Some(HandLimit::Mangan))
            } else {
                (b as u32, None)
            }
        },
{
    lemma2_to64();
    if han <= 4 {
        let p = pow2((han + 2) as nat);
        assert(p <= 64);
        assert(fu * p <= 255 * 64) by (nonlinear_arith)
            requires
                fu <= 255,
                p <= 64,
                p >= 0,
        ;
    }
}

/// A list of one yaku counts two for the double yakuman (four concealed triplets on a
/// single wait, thirteen-sided thirteen orphans, pure nine gates), one for every other
/// yakuman, and nothing for a regular yaku or dora.
pub proof fn lemma_single_yakuman_value(y: Yaku)
    ensures
        (y == Yaku::SuuankouTanki || y == Yaku::KokushiMusouJusanmen || y
            == Yaku::JunseiChuurenPoutou) ==> yakuman_total(seq![y]) == 2,
        (y == Yaku::Tenhou || y == Yaku::Chiihou || y == Yaku::Renhou || y == Yaku::Daisangen
            || y == Yaku::Suuankou || y == Yaku::Daisuushi || y == Yaku::Shousuushi || y
            == Yaku::Tsuuiisou || y == Yaku::Chinroutou || y == Yaku::Ryuuiisou || y
            == Yaku::Suukantsu || y == Yaku::KokushiMusou || y == Yaku::ChuurenPoutou)
            ==> yakuman_total(seq![y]) == 1,
        (y == Yaku::Riichi || y == Yaku::Ippatsu || y == Yaku::MenzenTsumo || y == Yaku::Pinfu
            || y == Yaku::Iipeikou || y == Yaku::HaiteiRaoyue || y == Yaku::HouteiRaoyui || y
            == Yaku::RinshanKaihou || y == Yaku::Chankan || y == Yaku::Tanyao || y
            == Yaku::YakuhaiJikaze || y == Yaku::YakuhaiBakaze || y == Yaku::YakuhaiSangenpai
            || y == Yaku::DaburuRiichi || y == Yaku::Chiitoitsu || y == Yaku::SanshokuDoujun
            || y == Yaku::Ittsu || y == Yaku::Chanta || y == Yaku::Toitoi || y == Yaku::Sanankou
            || y == Yaku::SanshokuDoukou || y == Yaku::Sankantsu || y == Yaku::Shousangen || y
            == Yaku::Honroutou || y == Yaku::Ryanpeikou || y == Yaku::Junchan || y
            == Yaku::Honitsu || y == Yaku::Chinitsu || y == Yaku::Dora || y == Yaku::UraDora
            || y == Yaku::AkaDora) ==> yakuman_total(seq![y]) == 0,
        yakuman_total(seq![y]) <= 2,
{
    assert(seq![y].drop_last() =~= Seq::<Yaku>::empty());
    assert(seq![y].last() == y);
    assert(yakuman_total(Seq::<Yaku>::empty()) == 0);
    assert(yakuman_total(seq![y]) == yakuman_value(y));
}

} // verus!
