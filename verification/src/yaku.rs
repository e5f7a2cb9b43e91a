use vstd::prelude::*;

verus! {

/// Every yaku the calculator knows, and the dora counted beside them.
#[derive(Debug, Clone, Copy, PartialEq, Eq, Structural, Hash)]
pub enum Yaku {
    // 1 han
    Riichi,
    Ippatsu,
    MenzenTsumo,
    Pinfu,
    Iipeikou,
    HaiteiRaoyue,
    HouteiRaoyui,
    RinshanKaihou,
    Chankan,
    Tanyao,
    YakuhaiJikaze,
    YakuhaiBakaze,
    YakuhaiSangenpai,
    // 2 han
    DaburuRiichi,
    Chiitoitsu,
    SanshokuDoujun,
    Ittsu,
    Chanta,
    Toitoi,
    Sanankou,
    SanshokuDoukou,
    Sankantsu,
    Shousangen,
    Honroutou,
    // 3 han
    Ryanpeikou,
    Junchan,
    Honitsu,
    // 6 han
    Chinitsu,
    // Yakuman
    Tenhou,
    Chiihou,
    Renhou,
    Daisangen,
    Suuankou,
    Daisuushi,
    Shousuushi,
    Tsuuiisou,
    Chinroutou,
    Ryuuiisou,
    Suukantsu,
    KokushiMusou,
    ChuurenPoutou,
    SuuankouTanki,
    KokushiMusouJusanmen,
    JunseiChuurenPoutou,
    // Dora (not yaku)
    Dora,
    UraDora,
    AkaDora,
}


/// The list with `y` appended when `b` holds.
pub open spec fn push_if(s: Seq<Yaku>, b: bool, y: Yaku) -> Seq<Yaku> {
    if b {
        s.push(y)
    } else {
        s
    }
}

/// Does the list hold the yaku?
pub fn has_yaku(list: &Vec<Yaku>, y: Yaku) -> (r: bool)
    ensures
        r == list@.contains(y),
{
    let n = list.len();
    let mut k: usize = 0;
    while k < n
        invariant
            n == list@.len(),
            k <= n,
            forall|j: int| 0 <= j < k ==> list@[j] != y,
        decreases n - k,
    {
        if list[k] == y {
            return true;
        }
        k += 1;
    }
    false
}

} // verus!
