use vstd::prelude::*;
use crate::hand::{
    lemma_melds_count_concat, lemma_melds_count_nonneg, lemma_melds_count_witness,
    lemma_tile_count_concat, lemma_tile_count_contains, lemma_tile_count_nonneg, meld_count,
    melds_count, mentsu_tiles_wf, mentsu_wf, sequence_start, tile_count, AgariHand,
    HandOrganization, Machi, Mentsu, MentsuType, koutsu_at, shuntsu_at,
};
use crate::input::{OpenMeld, UserInput};
use crate::parser::{
    concealed_meld, count_total, decompose, find_mentsu_recursive, lemma_count_total_update,
    lemma_decompose_complete, lemma_concealed_melds_total, lemma_decompose_sound,
    melds_account_for, remove_shuntsu,
};
use crate::tiles::{
    hai_from_index, hai_wf, index_from_hai, lemma_tile_index_bijection, tile_at, tile_index, Hai,
};
use crate::validate::{input_error, kan_total, open_kan_count, validate_input};
use crate::yakuman::organization_wf;
use crate::wait::{contains_tile, determine_wait_type, wait_completes, wait_type};

verus! {

// ---------------------------------------------------------------------------
// The model of the organizer
// ---------------------------------------------------------------------------

/// The slot counts of a list of tiles.
pub open spec fn slot_counts(ts: Seq<Hai>) -> Seq<u8> {
    Seq::new(34, |j: int| tile_count(ts, j) as u8)
}

/// A quad of one tile, concealed or called.
pub open spec fn quad_of(t: Hai, open: bool) -> Mentsu {
    Mentsu { mentsu_type: MentsuType::Kantsu, is_minchou: open, tiles: [t, t, t, t] }
}

/// A called triplet of one tile.
pub open spec fn called_triplet(t: Hai) -> Mentsu {
    Mentsu { mentsu_type: MentsuType::Koutsu, is_minchou: true, tiles: [t, t, t, t] }
}

/// A called sequence starting at tile `t`.
pub open spec fn called_sequence(t: Hai) -> Mentsu {
    let i = tile_index(t);
    Mentsu {
        mentsu_type: MentsuType::Shuntsu,
        is_minchou: true,
        tiles: [t, tile_at(i + 1), tile_at(i + 2), tile_at(i + 2)],
    }
}

/// Concealed counts and melds so far.
pub type Declared = (Seq<u8>, Seq<Mentsu>);

/// Takes one concealed kan out of the concealed tiles.
pub open spec fn closed_kan_step(c: Seq<u8>, ms: Seq<Mentsu>, t: Hai) -> Result<Declared, &'static str> {
    let i = tile_index(t);
    if c[i] < 4 {
        Err("Invalid input: declared closed kan not present in hand tiles.")
    } else {
        Ok((c.update(i, (c[i] - 4) as u8), ms.push(quad_of(t, false))))
    }
}

/// Takes one called meld out of the concealed tiles.
pub open spec fn open_meld_step(c: Seq<u8>, ms: Seq<Mentsu>, m: OpenMeld) -> Result<Declared, &'static str> {
    let t = m.representative_tile;
    let i = tile_index(t);
    match m.mentsu_type {
        MentsuType::Koutsu => if c[i] < 3 {
            Err("Invalid input: declared Pon not present in hand tiles.")
        } else {
            Ok((c.update(i, (c[i] - 3) as u8), ms.push(called_triplet(t))))
        },
        MentsuType::Kantsu => if c[i] < 4 {
            Err("Invalid input: declared open Kan not present in hand tiles.")
        } else {
            Ok((c.update(i, (c[i] - 4) as u8), ms.push(quad_of(t, true))))
        },
        MentsuType::Shuntsu => if !sequence_start(i) {
            Err("Invalid representative tile for Chi (must be 1-7 of a suit).")
        } else if c[i] < 1 || c[i + 1] < 1 || c[i + 2] < 1 {
            Err("Invalid input: declared Chi not present in hand tiles.")
        } else {
            Ok((remove_shuntsu(c, i), ms.push(called_sequence(t))))
        },
    }
}

/// Takes the concealed kans, in order, out of the concealed tiles.
pub open spec fn declare_closed_kans(c: Seq<u8>, kans: Seq<Hai>) -> Result<Declared, &'static str>
    decreases kans.len(),
{
    if kans.len() == 0 {
        Ok((c, Seq::empty()))
    } else {
        match declare_closed_kans(c, kans.drop_last()) {
            Ok((c1, ms1)) => closed_kan_step(c1, ms1, kans.last()),
            Err(e) => Err(e),
        }
    }
}

/// Takes the called melds, in order, out of the concealed tiles.
pub open spec fn declare_open_melds(c: Seq<u8>, ms: Seq<Mentsu>, melds: Seq<OpenMeld>) -> Result<
    Declared,
    &'static str,
>
    decreases melds.len(),
{
    if melds.len() == 0 {
        Ok((c, ms))
    } else {
        match declare_open_melds(c, ms, melds.drop_last()) {
            Ok((c1, ms1)) => open_meld_step(c1, ms1, melds.last()),
            Err(e) => Err(e),
        }
    }
}

/// Takes every declared meld out of the hand's slot counts: the concealed kans first,
/// then the called melds.
pub open spec fn declare_melds(master: Seq<u8>, input: UserInput) -> Result<Declared, &'static str> {
    match declare_closed_kans(master, input.closed_kans@) {
        Ok((c1, ms1)) => declare_open_melds(c1, ms1, input.open_melds@),
        Err(e) => Err(e),
    }
}

/// The concealed counts and the declared melds, when declaring succeeds.
pub open spec fn declared(input: UserInput) -> Declared {
    match declare_melds(slot_counts(input.hand_tiles@), input) {
        Ok(d) => d,
        Err(_) => (Seq::empty(), Seq::empty()),
    }
}

/// The first slot at or after `i` holding exactly two tiles, or 34.
pub open spec fn first_exact_pair(c: Seq<u8>, i: int) -> int
    decreases 34 - i,
{
    if i >= 34 {
        34
    } else if c[i] == 2 {
        i
    } else {
        first_exact_pair(c, i + 1)
    }
}

/// The counts with a pair of slot `i` taken out.
pub open spec fn remove_pair(c: Seq<u8>, i: int) -> Seq<u8> {
    c.update(i, (c[i] - 2) as u8)
}

/// A pair of slot `i` leaves tiles that the search reads as exactly `needed` melds.
pub open spec fn pair_reading(c: Seq<u8>, i: int, needed: int) -> bool {
    c[i] >= 2 && match decompose(remove_pair(c, i)) {
        Some(r) => r.len() == needed,
        None => false,
    }
}

/// The first slot at or after `i` whose pair gives a reading, or 34.
pub open spec fn first_pair_reading(c: Seq<u8>, needed: int, i: int) -> int
    decreases 34 - i,
{
    if i >= 34 {
        34
    } else if pair_reading(c, i, needed) {
        i
    } else {
        first_pair_reading(c, needed, i + 1)
    }
}

/// All four melds were declared and the concealed tiles hold an exact pair.
pub open spec fn declared_with_pair(input: UserInput) -> bool {
    let (c, ms) = declared(input);
    ms.len() == 4 && first_exact_pair(c, 0) < 34
}

/// The first error that organizing the hand meets, if any: a problem with the input, a
/// declared meld absent from the hand's tiles, or four declared melds without a pair.
pub open spec fn organize_error(input: UserInput) -> Option<&'static str> {
    let master = slot_counts(input.hand_tiles@);
    match input_error(input, master) {
        Some(e) => Some(e),
        None => match declare_melds(master, input) {
            Err(e) => Some(e),
            Ok((c, ms)) => if ms.len() == 4 && first_exact_pair(c, 0) >= 34
                && input.hand_tiles@.len() != 14 {
                Some("Invalid hand: 4 open melds but no pair found.")
            } else {
                None
            },
        },
    }
}

/// The four-melds-one-pair reading that the organizer settles on, as the melds and the
/// slot of the pair: the declared melds with the exact pair when all four melds were
/// declared; otherwise the declared melds followed by the search's reading of the rest,
/// for the lowest pair that leaves exactly the missing melds. `None` when there is none.
pub open spec fn organize_reading(input: UserInput) -> Option<(Seq<Mentsu>, int)> {
    let (c, ms) = declared(input);
    if declared_with_pair(input) {
        Some((ms, first_exact_pair(c, 0)))
    } else {
        let p = first_pair_reading(c, 4 - ms.len(), 0);
        if p < 34 {
            Some((ms + decompose(remove_pair(c, p)).unwrap(), p))
        } else {
            None
        }
    }
}

/// The wait of the reading: a single wait when all four melds were declared, otherwise
/// as `wait_type` reads it.
pub open spec fn organize_machi(input: UserInput) -> Machi {
    if declared_with_pair(input) {
        Machi::Tanki
    } else {
        match organize_reading(input) {
            Some((ms, p)) => wait_type(ms, (tile_at(p), tile_at(p)), input.winning_tile),
            None => Machi::Tanki,
        }
    }
}

/// The organization that the organizer gives for an input it accepts: the reading it
/// settles on, or the whole hand's slot counts when there is none.
pub open spec fn organized_as(input: UserInput, org: HandOrganization) -> bool {
    match org {
        HandOrganization::YonmentsuIchiatama(h) => {
            &&& organize_reading(input) == Some((h.mentsu@, tile_index(h.atama.0)))
            &&& h.atama == (tile_at(tile_index(h.atama.0)), tile_at(tile_index(h.atama.0)))
            &&& h.agari_hai == input.winning_tile
            &&& h.machi == organize_machi(input)
        },
        HandOrganization::Irregular { counts, agari_hai } => {
            &&& organize_reading(input) is None
            &&& counts@ == slot_counts(input.hand_tiles@)
            &&& agari_hai == input.winning_tile
        },
    }
}

/// Every tile of the input is well formed, and no slot holds more than 255 tiles.
pub open spec fn organize_input_wf(input: UserInput) -> bool {
    &&& forall|k: int| 0 <= k < input.hand_tiles@.len() ==> #[trigger] hai_wf(input.hand_tiles@[k])
    &&& forall|k: int| 0 <= k < input.closed_kans@.len() ==> #[trigger] hai_wf(input.closed_kans@[k])
    &&& forall|k: int|
        0 <= k < input.open_melds@.len() ==> #[trigger] hai_wf(
            input.open_melds@[k].representative_tile,
        )
    &&& forall|j: int| 0 <= j < 34 ==> #[trigger] tile_count(input.hand_tiles@, j) <= 255
}


// ---------------------------------------------------------------------------
// Lemmas
// ---------------------------------------------------------------------------

proof fn lemma_concealed_meld_wf(m: Mentsu)
    requires
        concealed_meld(m),
    ensures
        mentsu_wf(m),
{
    let i = choose|i: int|
        #![trigger koutsu_at(i)]
        #![trigger shuntsu_at(i)]
        0 <= i < 34 && (m == koutsu_at(i) || (sequence_start(i) && m == shuntsu_at(i)));
    lemma_tile_index_bijection(tile_at(i), i);
}

proof fn lemma_mentsu_wf_tiles(m: Mentsu)
    requires
        mentsu_wf(m),
    ensures
        mentsu_tiles_wf(m),
{
    let s = tile_index(m.tiles[0]);
    lemma_tile_index_bijection(m.tiles[0], s + 1);
    lemma_tile_index_bijection(m.tiles[0], s + 2);
}

/// A well-formed meld that counts a tile's slot holds that tile.
proof fn lemma_meld_count_contains(m: Mentsu, w: Hai)
    requires
        mentsu_wf(m),
        hai_wf(w),
        meld_count(m, tile_index(w)) > 0,
    ensures
        contains_tile(m, w),
{
    let s = tile_index(m.tiles[0]);
    let j = tile_index(w);
    lemma_tile_index_bijection(m.tiles[0], j);
    lemma_tile_index_bijection(w, j);
}

proof fn lemma_declare_closed_kans_err(c: Seq<u8>, kans: Seq<Hai>, i: int)
    requires
        0 <= i <= kans.len(),
        declare_closed_kans(c, kans.take(i)) is Err,
    ensures
        declare_closed_kans(c, kans) == declare_closed_kans(c, kans.take(i)),
    decreases kans.len(),
{
    if i < kans.len() {
        assert(kans.drop_last().take(i) =~= kans.take(i));
        lemma_declare_closed_kans_err(c, kans.drop_last(), i);
    } else {
        assert(kans.take(i) =~= kans);
    }
}

proof fn lemma_declare_open_melds_err(c: Seq<u8>, ms: Seq<Mentsu>, melds: Seq<OpenMeld>, i: int)
    requires
        0 <= i <= melds.len(),
        declare_open_melds(c, ms, melds.take(i)) is Err,
    ensures
        declare_open_melds(c, ms, melds) == declare_open_melds(c, ms, melds.take(i)),
    decreases melds.len(),
{
    if i < melds.len() {
        assert(melds.drop_last().take(i) =~= melds.take(i));
        lemma_declare_open_melds_err(c, ms, melds.drop_last(), i);
    } else {
        assert(melds.take(i) =~= melds);
    }
}

proof fn lemma_count_total_ge(c: Seq<u8>, j: int)
    requires
        0 <= j < c.len(),
    ensures
        count_total(c) >= c[j],
{
    lemma_count_total_update(c, j, 0);
}

/// The slot counts of a list of well-formed tiles add up to its length.
proof fn lemma_master_total(ts: Seq<Hai>)
    requires
        forall|k: int| 0 <= k < ts.len() ==> #[trigger] hai_wf(ts[k]),
        forall|j: int| 0 <= j < 34 ==> #[trigger] tile_count(ts, j) <= 255,
    ensures
        count_total(slot_counts(ts)) == ts.len(),
    decreases ts.len(),
{
    let f = slot_counts(ts);
    if ts.len() == 0 {
        crate::parser::lemma_count_total_zero(f);
    } else {
        let ts2 = ts.drop_last();
        assert forall|k: int| 0 <= k < ts2.len() implies #[trigger] hai_wf(ts2[k]) by {
            assert(ts2[k] == ts[k]);
        }
        let t = tile_index(ts.last());
        assert(hai_wf(ts[ts.len() - 1]));
        lemma_tile_index_bijection(ts.last(), 0);
        assert forall|j: int| 0 <= j < 34 implies #[trigger] tile_count(ts2, j) <= 255 by {
            assert(tile_count(ts, j) <= 255);
        }
        lemma_master_total(ts2);
        let f2 = slot_counts(ts2);
        lemma_tile_count_nonneg(ts2, t);
        assert(tile_count(ts, t) <= 255);
        lemma_count_total_update(f2, t, (f2[t] + 1) as u8);
        assert(f =~= f2.update(t, (f2[t] + 1) as u8));
    }
}


proof fn lemma_push_count(ms: Seq<Mentsu>, m: Mentsu, j: int)
    ensures
        melds_count(ms.push(m), j) == melds_count(ms, j) + meld_count(m, j),
{
    assert(ms.push(m).drop_last() =~= ms);
}

/// Declaring the concealed kans keeps every tile accounted for, in the concealed
/// counts or in a well-formed quad, and takes four tiles per kan.
proof fn lemma_declare_closed_kans_accounts(master: Seq<u8>, kans: Seq<Hai>)
    requires
        master.len() == 34,
        forall|k: int| 0 <= k < kans.len() ==> #[trigger] hai_wf(kans[k]),
    ensures
        declare_closed_kans(master, kans) matches Ok((c, ms)) ==> {
            &&& c.len() == 34
            &&& ms.len() == kans.len()
            &&& forall|j: int| 0 <= j < 34 ==> c[j] + #[trigger] melds_count(ms, j) == master[j]
            &&& forall|k: int| 0 <= k < ms.len() ==> #[trigger] mentsu_wf(ms[k])
            &&& count_total(c) + 4 * kans.len() == count_total(master)
        },
    decreases kans.len(),
{
    if kans.len() > 0 {
        let kd = kans.drop_last();
        assert forall|k: int| 0 <= k < kd.len() implies #[trigger] hai_wf(kd[k]) by {
            assert(kd[k] == kans[k]);
        }
        lemma_declare_closed_kans_accounts(master, kd);
        if let Ok((c1, ms1)) = declare_closed_kans(master, kd) {
            let t = kans.last();
            assert(hai_wf(kans[kans.len() - 1]));
            lemma_tile_index_bijection(t, 0);
            let i = tile_index(t);
            if c1[i] >= 4 {
                let m = quad_of(t, false);
                assert forall|j: int| 0 <= j < 34 implies c1.update(i, (c1[i] - 4) as u8)[j]
                    + #[trigger] melds_count(ms1.push(m), j) == master[j] by {
                    lemma_push_count(ms1, m, j);
                }
                assert forall|k: int| 0 <= k < ms1.push(m).len() implies #[trigger] mentsu_wf(
                    ms1.push(m)[k],
                ) by {
                    if k < ms1.len() {
                        assert(ms1.push(m)[k] == ms1[k]);
                    }
                }
                lemma_count_total_update(c1, i, (c1[i] - 4) as u8);
            }
        }
    }
}

/// Declaring the called melds keeps every tile accounted for, in the concealed counts
/// or in a well-formed meld, and takes four tiles per kan and three per other meld.
proof fn lemma_declare_open_melds_accounts(c0: Seq<u8>, ms0: Seq<Mentsu>, melds: Seq<OpenMeld>)
    requires
        c0.len() == 34,
        forall|k: int| 0 <= k < melds.len() ==> #[trigger] hai_wf(melds[k].representative_tile),
        forall|k: int| 0 <= k < ms0.len() ==> #[trigger] mentsu_wf(ms0[k]),
    ensures
        declare_open_melds(c0, ms0, melds) matches Ok((c, ms)) ==> {
            &&& c.len() == 34
            &&& ms.len() == ms0.len() + melds.len()
            &&& forall|j: int|
                0 <= j < 34 ==> c[j] + #[trigger] melds_count(ms, j) == c0[j] + melds_count(ms0, j)
            &&& forall|k: int| 0 <= k < ms.len() ==> #[trigger] mentsu_wf(ms[k])
            &&& count_total(c) + 4 * open_kan_count(melds) + 3 * (melds.len() - open_kan_count(melds))
                == count_total(c0)
        },
    decreases melds.len(),
{
    if melds.len() > 0 {
        let md = melds.drop_last();
        assert forall|k: int| 0 <= k < md.len() implies #[trigger] hai_wf(md[k].representative_tile) by {
            assert(md[k] == melds[k]);
        }
        lemma_declare_open_melds_accounts(c0, ms0, md);
        if let Ok((c1, ms1)) = declare_open_melds(c0, ms0, md) {
            let om = melds.last();
            let t = om.representative_tile;
            assert(hai_wf(melds[melds.len() - 1].representative_tile));
            lemma_tile_index_bijection(t, 0);
            let i = tile_index(t);
            lemma_tile_index_bijection(t, i + 1);
            lemma_tile_index_bijection(t, i + 2);
            assert(open_kan_count(melds) == open_kan_count(md) + if om.mentsu_type
                == MentsuType::Kantsu {
                1nat
            } else {
                0nat
            });
            if let Ok((c, ms)) = open_meld_step(c1, ms1, om) {
                let m = ms.last();
                assert(ms == ms1.push(m));
                assert forall|j: int| 0 <= j < 34 implies c[j] + #[trigger] melds_count(ms, j)
                    == c0[j] + melds_count(ms0, j) by {
                    lemma_push_count(ms1, m, j);
                    assert(c1[j] + melds_count(ms1, j) == c0[j] + melds_count(ms0, j));
                }
                assert forall|k: int| 0 <= k < ms.len() implies #[trigger] mentsu_wf(ms[k]) by {
                    if k < ms1.len() {
                        assert(ms[k] == ms1[k]);
                    }
                }
                match om.mentsu_type {
                    MentsuType::Shuntsu => {
                        crate::parser::lemma_remove_shuntsu_total(c1, i);
                    },
                    _ => {
                        lemma_count_total_update(c1, i, c[i]);
                    },
                }
            }
        }
    }
}


proof fn lemma_first_exact_pair(c: Seq<u8>, i: int)
    requires
        0 <= i <= 34,
    ensures
        i <= first_exact_pair(c, i) <= 34,
        first_exact_pair(c, i) < 34 ==> c[first_exact_pair(c, i)] == 2,
        forall|j: int| i <= j < first_exact_pair(c, i) ==> c[j] != 2,
    decreases 34 - i,
{
    if i < 34 && c[i] != 2 {
        lemma_first_exact_pair(c, i + 1);
    }
}

proof fn lemma_first_pair_reading(c: Seq<u8>, needed: int, i: int)
    requires
        0 <= i <= 34,
    ensures
        i <= first_pair_reading(c, needed, i) <= 34,
        first_pair_reading(c, needed, i) < 34 ==> pair_reading(c, first_pair_reading(c, needed, i), needed),
        forall|j: int| i <= j < first_pair_reading(c, needed, i) ==> !pair_reading(c, j, needed),
    decreases 34 - i,
{
    if i < 34 && !pair_reading(c, i, needed) {
        lemma_first_pair_reading(c, needed, i + 1);
    }
}

/// What declaring the melds leaves, for an input the organizer accepts: the concealed
/// counts and declared melds account for every tile, the melds are well formed, and the
/// concealed counts hold fourteen tiles less three per declared meld.
proof fn lemma_declared_facts(input: UserInput)
    requires
        organize_input_wf(input),
        organize_error(input) is None,
    ensures
        ({
            let (c, ms) = declared(input);
            &&& declare_melds(slot_counts(input.hand_tiles@), input) == Ok::<Declared, &'static str>((c, ms))
            &&& c.len() == 34
            &&& ms.len() <= 4
            &&& forall|j: int|
                0 <= j < 34 ==> c[j] + #[trigger] melds_count(ms, j) == tile_count(input.hand_tiles@, j)
            &&& forall|k: int| 0 <= k < ms.len() ==> #[trigger] mentsu_wf(ms[k])
            &&& count_total(c) + 3 * ms.len() == 14
        }),
{
    let hand = input.hand_tiles@;
    let master = slot_counts(hand);
    lemma_master_total(hand);
    lemma_declare_closed_kans_accounts(master, input.closed_kans@);
    let (c1, ms1) = declare_closed_kans(master, input.closed_kans@).unwrap();
    lemma_declare_open_melds_accounts(c1, ms1, input.open_melds@);
    let (c, ms) = declared(input);
    assert forall|j: int| 0 <= j < 34 implies c[j] + #[trigger] melds_count(ms, j) == tile_count(hand, j) by {
        assert(c1[j] + melds_count(ms1, j) == master[j]);
        assert(tile_count(hand, j) <= 255);
        lemma_tile_count_nonneg(hand, j);
    }
}

/// The reading that the organizer settles on holds exactly the hand's tiles, four
/// well-formed melds and a pair, and the winning tile lies in the pair or in a meld.
pub proof fn lemma_organize_reading_conserves_tiles(input: UserInput)
    requires
        organize_input_wf(input),
        organize_error(input) is None,
    ensures
        organize_reading(input) matches Some((ms, p)) ==> {
            &&& ms.len() == 4
            &&& 0 <= p < 34
            &&& forall|k: int| 0 <= k < ms.len() ==> #[trigger] mentsu_wf(ms[k])
            &&& forall|j: int|
                0 <= j < 34 ==> #[trigger] melds_count(ms, j) + (if j == p { 2int } else { 0int })
                    == tile_count(input.hand_tiles@, j)
            &&& wait_completes(ms, (tile_at(p), tile_at(p)), input.winning_tile)
        },
{
    let hand = input.hand_tiles@;
    lemma_declared_facts(input);
    let (c, ms0) = declared(input);
    lemma_first_exact_pair(c, 0);
    let needed = 4 - ms0.len();
    lemma_first_pair_reading(c, needed, 0);
    if let Some((ms, p)) = organize_reading(input) {
        if declared_with_pair(input) {
            assert(ms == ms0);
            lemma_count_total_update(c, p, 0);
            assert forall|j: int| 0 <= j < 34 implies #[trigger] melds_count(ms, j) + (if j == p {
                2int
            } else {
                0int
            }) == tile_count(hand, j) by {
                if j != p {
                    lemma_count_total_ge(c.update(p, 0), j);
                }
            }
        } else {
            let c2 = remove_pair(c, p);
            let r = decompose(c2).unwrap();
            assert(ms == ms0 + r);
            lemma_decompose_sound(c2);
            assert forall|k: int| 0 <= k < ms.len() implies #[trigger] mentsu_wf(ms[k]) by {
                if k >= ms0.len() {
                    assert(ms[k] == r[k - ms0.len()]);
                    assert(concealed_meld(r[k - ms0.len()]));
                    lemma_concealed_meld_wf(r[k - ms0.len()]);
                } else {
                    assert(ms[k] == ms0[k]);
                }
            }
            assert forall|j: int| 0 <= j < 34 implies #[trigger] melds_count(ms, j) + (if j == p {
                2int
            } else {
                0int
            }) == tile_count(hand, j) by {
                lemma_melds_count_concat(ms0, r, j);
                assert(melds_count(r, j) == c2[j]);
            }
        }
        // The winning tile lies in the pair or in a meld.
        let w = input.winning_tile;
        let jw = tile_index(w);
        lemma_tile_index_bijection(w, p);
        assert(hand.contains(w));
        lemma_tile_count_contains(hand, w);
        if jw != p {
            assert(melds_count(ms, jw) > 0);
            let k = lemma_melds_count_witness(ms, jw);
            lemma_meld_count_contains(ms[k], w);
        }
    }
}


/// The organizer misses no standard reading: when the tiles left after the declared
/// melds can be laid out as a pair and concealed triplets and sequences, it settles on a
/// four-melds-one-pair reading and does not report the hand as irregular.
pub proof fn lemma_organize_finds_reading(input: UserInput, p: int, ms: Seq<Mentsu>)
    requires
        organize_input_wf(input),
        organize_error(input) is None,
        0 <= p < 34,
        declared(input).0[p] >= 2,
        forall|k: int| 0 <= k < ms.len() ==> #[trigger] concealed_meld(ms[k]),
        melds_account_for(ms, remove_pair(declared(input).0, p)),
    ensures
        organize_reading(input) is Some,
{
    lemma_declared_facts(input);
    let (c, ms0) = declared(input);
    let needed = 4 - ms0.len();
    let c2 = remove_pair(c, p);
    lemma_count_total_update(c, p, (c[p] - 2) as u8);
    lemma_concealed_melds_total(ms, c2);
    lemma_decompose_complete(c2, ms);
    lemma_decompose_sound(c2);
    lemma_concealed_melds_total(decompose(c2).unwrap(), c2);
    assert(pair_reading(c, p, needed));
    lemma_first_pair_reading(c, needed, 0);
}

// ---------------------------------------------------------------------------
// The organizer
// ---------------------------------------------------------------------------

/// The first slot holding exactly two tiles, or 34.
fn find_exact_pair(c: &[u8; 34]) -> (p: usize)
    ensures
        p == first_exact_pair(c@, 0),
{
    proof {
        lemma_first_exact_pair(c@, 0);
    }
    let mut i: usize = 0;
    while i < 34
        invariant
            i <= 34,
            forall|j: int| 0 <= j < i ==> c@[j] != 2,
        decreases 34 - i,
    {
        proof {
            lemma_first_exact_pair(c@, 0);
        }
        if c[i] == 2 {
            return i;
        }
        i += 1;
    }
    proof {
        lemma_first_exact_pair(c@, 0);
    }
    i
}

/// The first slot whose pair leaves tiles that the search reads as exactly `needed`
/// melds, with that reading; `None` when no slot does.
fn find_pair_reading(c: &[u8; 34], needed: usize) -> (res: Option<(usize, Vec<Mentsu>)>)
    ensures
        match res {
            Some((p, ms)) => {
                &&& p == first_pair_reading(c@, needed as int, 0)
                &&& p < 34
                &&& ms@ == decompose(remove_pair(c@, p as int)).unwrap()
            },
            None => first_pair_reading(c@, needed as int, 0) == 34,
        },
{
    proof {
        lemma_first_pair_reading(c@, needed as int, 0);
    }
    let mut i: usize = 0;
    while i < 34
        invariant
            i <= 34,
            forall|j: int| 0 <= j < i ==> !pair_reading(c@, j, needed as int),
        decreases 34 - i,
    {
        proof {
            lemma_first_pair_reading(c@, needed as int, 0);
        }
        if c[i] >= 2 {
            let mut temp_counts = *c;
            temp_counts[i] -= 2;
            assert(temp_counts@ =~= remove_pair(c@, i as int));
            let mut closed_mentsu: Vec<Mentsu> = Vec::with_capacity(needed);
            if find_mentsu_recursive(&mut temp_counts, &mut closed_mentsu) {
                assert(closed_mentsu@ =~= decompose(remove_pair(c@, i as int)).unwrap());
                if closed_mentsu.len() == needed {
                    assert(pair_reading(c@, i as int, needed as int));
                    return Some((i, closed_mentsu));
                }
            }
        }
        i += 1;
    }
    proof {
        lemma_first_pair_reading(c@, needed as int, 0);
    }
    None
}

/// The four melds of a list that holds exactly four.
fn melds_array(v: &Vec<Mentsu>) -> (a: [Mentsu; 4])
    requires
        v@.len() == 4,
    ensures
        a@ == v@,
{
    let a = [v[0], v[1], v[2], v[3]];
    assert(a@ =~= v@);
    a
}

/// Organizes a raw hand into four melds and a pair. The tiles are counted per slot and
/// the input validated; the declared concealed kans and called melds are taken out of
/// the counts; the rest is read as a pair and concealed melds (the lowest pair that
/// works). A hand with no such reading is returned as `Irregular`, with the counts of
/// all its tiles, for the yaku checker to try the irregular shapes.
pub fn organize_hand(input: &UserInput) -> (res: Result<HandOrganization, &'static str>)
    requires
        organize_input_wf(*input),
    ensures
        res is Ok <==> organize_error(*input) is None,
        res matches Err(e) ==> organize_error(*input) == Some(e),
        res matches Ok(org) ==> organized_as(*input, org) && organization_wf(org),
{
    let ghost hand = input.hand_tiles@;
    let mut master_counts = [0u8; 34];
    let n = input.hand_tiles.len();
    let mut k: usize = 0;
    while k < n
        invariant
            n == hand.len(),
            hand == input.hand_tiles@,
            k <= n,
            organize_input_wf(*input),
            forall|j: int| 0 <= j < 34 ==> master_counts@[j] == tile_count(hand.take(k as int), j),
        decreases n - k,
    {
        let tile = input.hand_tiles[k];
        proof {
            assert(hai_wf(hand[k as int]));
            lemma_tile_index_bijection(tile, 0);
            let idx = tile_index(tile);
            assert(hand.take(k + 1).drop_last() =~= hand.take(k as int));
            assert(hand =~= hand.take(k + 1) + hand.skip(k + 1));
            lemma_tile_count_concat(hand.take(k + 1), hand.skip(k + 1), idx);
            lemma_tile_count_nonneg(hand.skip(k + 1), idx);
            assert(tile_count(hand, idx) <= 255);
        }
        let idx = index_from_hai(tile);
        master_counts[idx] += 1;
        k += 1;
    }
    proof {
        assert(hand.take(n as int) =~= hand);
        assert(master_counts@ =~= slot_counts(hand));
    }
    let ghost master = master_counts@;
    match validate_input(input, &master_counts) {
        Ok(()) => {},
        Err(e) => {
            return Err(e);
        },
    }
    let mut concealed_counts = master_counts;
    let mut final_mentsu: Vec<Mentsu> = Vec::with_capacity(4);
    // Concealed kans

    let nk = input.closed_kans.len();
    let mut q: usize = 0;
    while q < nk
        invariant
            nk == input.closed_kans@.len(),
            q <= nk,
            organize_input_wf(*input),
            master == slot_counts(hand),
            hand == input.hand_tiles@,
            input_error(*input, master) is None,
            final_mentsu@.len() == q,
            declare_closed_kans(master, input.closed_kans@.take(q as int)) == Ok::<
                Declared,
                &'static str,
            >((concealed_counts@, final_mentsu@)),
        decreases nk - q,
    {
        let kan_tile = input.closed_kans[q];
        proof {
            assert(hai_wf(input.closed_kans@[q as int]));
            lemma_tile_index_bijection(kan_tile, 0);
            assert(input.closed_kans@.take(q + 1).drop_last() =~= input.closed_kans@.take(q as int));
        }
        let index = index_from_hai(kan_tile);
        if concealed_counts[index] < 4 {
            proof {
                lemma_declare_closed_kans_err(master, input.closed_kans@, q + 1);
            }
            return Err("Invalid input: declared closed kan not present in hand tiles.");
        }
        concealed_counts[index] -= 4;
        final_mentsu.push(
            Mentsu {
                mentsu_type: MentsuType::Kantsu,
                is_minchou: false,
                tiles: [kan_tile, kan_tile, kan_tile, kan_tile],
            },
        );
        q += 1;
        proof {
            assert(concealed_counts@ =~= declare_closed_kans(
                master,
                input.closed_kans@.take(q as int),
            ).unwrap().0);
        }
    }
    proof {
        assert(input.closed_kans@.take(nk as int) =~= input.closed_kans@);
    }
    assert(input.closed_kans@.len() + input.open_melds@.len() <= 4);
    let ghost c1 = concealed_counts@;
    let ghost ms1 = final_mentsu@;
    // Called melds

    let no = input.open_melds.len();
    let mut q: usize = 0;
    while q < no
        invariant
            no == input.open_melds@.len(),
            q <= no,
            organize_input_wf(*input),
            master == slot_counts(hand),
            hand == input.hand_tiles@,
            input_error(*input, master) is None,
            final_mentsu@.len() == nk + q,
            declare_closed_kans(master, input.closed_kans@) == Ok::<Declared, &'static str>(
                (c1, ms1),
            ),
            declare_open_melds(c1, ms1, input.open_melds@.take(q as int)) == Ok::<
                Declared,
                &'static str,
            >((concealed_counts@, final_mentsu@)),
        decreases no - q,
    {
        let meld = input.open_melds[q];
        let rep_tile = meld.representative_tile;
        proof {
            assert(hai_wf(input.open_melds@[q as int].representative_tile));
            lemma_tile_index_bijection(rep_tile, 0);
            lemma_tile_index_bijection(rep_tile, tile_index(rep_tile) + 1);
            lemma_tile_index_bijection(rep_tile, tile_index(rep_tile) + 2);
            assert(input.open_melds@.take(q + 1).drop_last() =~= input.open_melds@.take(q as int));
        }
        let index = index_from_hai(rep_tile);
        match meld.mentsu_type {
            MentsuType::Koutsu => {
                if concealed_counts[index] < 3 {
                    proof {
                        lemma_declare_open_melds_err(c1, ms1, input.open_melds@, q + 1);
                    }
                    return Err("Invalid input: declared Pon not present in hand tiles.");
                }
                concealed_counts[index] -= 3;
                final_mentsu.push(
                    Mentsu {
                        mentsu_type: MentsuType::Koutsu,
                        is_minchou: true,
                        tiles: [rep_tile, rep_tile, rep_tile, rep_tile],
                    },
                );
            },
            MentsuType::Kantsu => {
                if concealed_counts[index] < 4 {
                    proof {
                        lemma_declare_open_melds_err(c1, ms1, input.open_melds@, q + 1);
                    }
                    return Err("Invalid input: declared open Kan not present in hand tiles.");
                }
                concealed_counts[index] -= 4;
                final_mentsu.push(
                    Mentsu {
                        mentsu_type: MentsuType::Kantsu,
                        is_minchou: true,
                        tiles: [rep_tile, rep_tile, rep_tile, rep_tile],
                    },
                );
            },
            MentsuType::Shuntsu => {
                let index1 = index;
                let index2 = index1 + 1;
                let index3 = index1 + 2;
                if index1 >= 27 || (index1 % 9) >= 7 {
                    proof {
                        lemma_declare_open_melds_err(c1, ms1, input.open_melds@, q + 1);
                    }
                    return Err("Invalid representative tile for Chi (must be 1-7 of a suit).");
                }
                if concealed_counts[index1] < 1 || concealed_counts[index2] < 1
                    || concealed_counts[index3] < 1 {
                    proof {
                        lemma_declare_open_melds_err(c1, ms1, input.open_melds@, q + 1);
                    }
                    return Err("Invalid input: declared Chi not present in hand tiles.");
                }
                concealed_counts[index1] -= 1;
                concealed_counts[index2] -= 1;
                concealed_counts[index3] -= 1;
                let t1 = rep_tile;
                let t2 = hai_from_index(index2);
                let t3 = hai_from_index(index3);
                final_mentsu.push(
                    Mentsu {
                        mentsu_type: MentsuType::Shuntsu,
                        is_minchou: true,
                        tiles: [t1, t2, t3, t3],
                    },
                );
            },
        }
        q += 1;
        proof {
            let d = declare_open_melds(c1, ms1, input.open_melds@.take(q as int)).unwrap();
            assert(concealed_counts@ =~= d.0);
            assert(final_mentsu@ =~= d.1);
        }
    }
    proof {
        assert(input.open_melds@.take(no as int) =~= input.open_melds@);
        assert(declare_melds(master, *input) == Ok::<Declared, &'static str>(
            (concealed_counts@, final_mentsu@),
        ));
    }
    let mentsu_needed = 4 - final_mentsu.len();
    let agari_hai = input.winning_tile;
    // All four melds declared: the rest must be the pair.

    if mentsu_needed == 0 {
        let i = find_exact_pair(&concealed_counts);
        if i < 34 {
            proof {
                lemma_declared_facts(*input);
                lemma_organize_reading_conserves_tiles(*input);
            }
            let pair_tile = hai_from_index(i);
            let atama = (pair_tile, pair_tile);
            let mentsu_array = melds_array(&final_mentsu);
            proof {
                assert forall|k: int| 0 <= k < 4 implies #[trigger] mentsu_tiles_wf(mentsu_array@[k]) by {
                    lemma_mentsu_wf_tiles(mentsu_array@[k]);
                }
                assert(mentsu_tiles_wf(mentsu_array@[0]));
                assert(mentsu_tiles_wf(mentsu_array@[1]));
                assert(mentsu_tiles_wf(mentsu_array@[2]));
                assert(mentsu_tiles_wf(mentsu_array@[3]));
            }
            let agari_hand = AgariHand { mentsu: mentsu_array, atama, agari_hai, machi: Machi::Tanki };
            return Ok(HandOrganization::YonmentsuIchiatama(agari_hand));
        }
        if input.hand_tiles.len() == 14 {
        } else {
            return Err("Invalid hand: 4 open melds but no pair found.");
        }
    }
    // Standard hand: a pair and the missing concealed melds.

    proof {
        lemma_declared_facts(*input);
        lemma_organize_reading_conserves_tiles(*input);
    }

    match find_pair_reading(&concealed_counts, mentsu_needed) {
        Some((i, mut closed_mentsu)) => {
            final_mentsu.append(&mut closed_mentsu);
            let mentsu_array = melds_array(&final_mentsu);
            let atama = (hai_from_index(i), hai_from_index(i));
            proof {
                assert forall|k: int| 0 <= k < 4 implies #[trigger] mentsu_tiles_wf(mentsu_array@[k]) by {
                    lemma_mentsu_wf_tiles(mentsu_array@[k]);
                }
            }
            let machi = determine_wait_type(&mentsu_array, atama, agari_hai);
            let agari_hand = AgariHand { mentsu: mentsu_array, atama, agari_hai, machi };
            Ok(HandOrganization::YonmentsuIchiatama(agari_hand))
        },
        None => Ok(HandOrganization::Irregular { counts: master_counts, agari_hai }),
    }
}

} // verus!
