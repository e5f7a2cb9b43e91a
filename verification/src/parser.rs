use vstd::prelude::*;
use crate::hand::{
    koutsu_at, lemma_melds_count_concat, lemma_melds_count_nonneg, lemma_melds_count_remove,
    lemma_melds_count_single, lemma_melds_count_witness, meld_count, melds_count, sequence_start,
    shuntsu_at, Mentsu, MentsuType,
};
use crate::tiles::{hai_from_index, lemma_tile_index_bijection, tile_at, tile_index};

verus! {

/// The number of tiles that a table of slot counts holds.
pub open spec fn count_total(c: Seq<u8>) -> nat
    decreases c.len(),
{
    if c.len() == 0 {
        0
    } else {
        count_total(c.drop_last()) + c.last() as nat
    }
}

pub proof fn lemma_count_total_update(c: Seq<u8>, i: int, v: u8)
    requires
        0 <= i < c.len(),
    ensures
        count_total(c.update(i, v)) == count_total(c) - c[i] + v,
    decreases c.len(),
{
    if i == c.len() - 1 {
        assert(c.update(i, v).drop_last() =~= c.drop_last());
    } else {
        assert(c.update(i, v).drop_last() =~= c.drop_last().update(i, v));
        lemma_count_total_update(c.drop_last(), i, v);
    }
}

pub proof fn lemma_count_total_zero(c: Seq<u8>)
    requires
        forall|j: int| 0 <= j < c.len() ==> c[j] == 0,
    ensures
        count_total(c) == 0,
    decreases c.len(),
{
    if c.len() > 0 {
        lemma_count_total_zero(c.drop_last());
    }
}

/// The first slot at or after `i` that holds a tile, or the length when none does.
pub open spec fn first_nonzero(c: Seq<u8>, i: int) -> int
    decreases c.len() - i,
{
    if i >= c.len() {
        c.len() as int
    } else if c[i] != 0 {
        i
    } else {
        first_nonzero(c, i + 1)
    }
}

pub proof fn lemma_first_nonzero(c: Seq<u8>, i: int)
    requires
        0 <= i <= c.len(),
    ensures
        i <= first_nonzero(c, i) <= c.len(),
        first_nonzero(c, i) < c.len() ==> c[first_nonzero(c, i)] != 0,
        forall|j: int| i <= j < first_nonzero(c, i) ==> c[j] == 0,
    decreases c.len() - i,
{
    if i < c.len() && c[i] == 0 {
        lemma_first_nonzero(c, i + 1);
    }
}

/// The first nonzero slot is the one a scan from `i` stops at.
pub proof fn lemma_first_nonzero_is(c: Seq<u8>, i: int, k: int)
    requires
        0 <= i <= k <= c.len(),
        forall|j: int| i <= j < k ==> c[j] == 0,
        k < c.len() ==> c[k] != 0,
    ensures
        first_nonzero(c, i) == k,
    decreases k - i,
{
    if i < k {
        lemma_first_nonzero_is(c, i + 1, k);
    }
}

/// The table with a triplet of slot `i` taken out.
pub open spec fn remove_koutsu(c: Seq<u8>, i: int) -> Seq<u8> {
    c.update(i, (c[i] - 3) as u8)
}

/// The table with a sequence starting at slot `i` taken out.
pub open spec fn remove_shuntsu(c: Seq<u8>, i: int) -> Seq<u8> {
    c.update(i, (c[i] - 1) as u8).update(i + 1, (c[i + 1] - 1) as u8).update(
        i + 2,
        (c[i + 2] - 1) as u8,
    )
}

/// A sequence starting at slot `i` can be taken out of the table.
pub open spec fn shuntsu_available(c: Seq<u8>, i: int) -> bool {
    sequence_start(i) && c[i] > 0 && c[i + 1] > 0 && c[i + 2] > 0
}

pub proof fn lemma_remove_koutsu_total(c: Seq<u8>, i: int)
    requires
        0 <= i < c.len(),
        c[i] >= 3,
    ensures
        count_total(remove_koutsu(c, i)) + 3 == count_total(c),
{
    lemma_count_total_update(c, i, (c[i] - 3) as u8);
}

pub proof fn lemma_remove_shuntsu_total(c: Seq<u8>, i: int)
    requires
        c.len() == 34,
        shuntsu_available(c, i),
    ensures
        count_total(remove_shuntsu(c, i)) + 3 == count_total(c),
{
    let c1 = c.update(i, (c[i] - 1) as u8);
    let c2 = c1.update(i + 1, (c[i + 1] - 1) as u8);
    lemma_count_total_update(c, i, (c[i] - 1) as u8);
    lemma_count_total_update(c1, i + 1, (c[i + 1] - 1) as u8);
    lemma_count_total_update(c2, i + 2, (c[i + 2] - 1) as u8);
}

/// The reading of a table of slot counts as concealed melds that the search finds: the
/// lowest slot holding a tile is taken first as a triplet and, when that leaves no
/// reading, as the start of a sequence. `None` when neither leads to a reading.
pub open spec fn decompose(c: Seq<u8>) -> Option<Seq<Mentsu>>
    decreases count_total(c),
    when c.len() == 34
{
    let i = first_nonzero(c, 0);
    if i >= 34 {
        Some(Seq::empty())
    } else {
        let by_koutsu = if c[i] >= 3 {
            proof {
                lemma_first_nonzero(c, 0);
                lemma_remove_koutsu_total(c, i);
            }
            match decompose(remove_koutsu(c, i)) {
                Some(r) => Some(seq![koutsu_at(i)] + r),
                None => None,
            }
        } else {
            None
        };
        if by_koutsu is Some {
            by_koutsu
        } else if shuntsu_available(c, i) {
            proof {
                lemma_remove_shuntsu_total(c, i);
            }
            match decompose(remove_shuntsu(c, i)) {
                Some(r) => Some(seq![shuntsu_at(i)] + r),
                None => None,
            }
        } else {
            None
        }
    }
}


/// Reads the tiles counted in `counts` as concealed melds, appending them to `mentsu`.
/// Returns whether a reading exists; then `mentsu` has gained the reading that
/// `decompose` gives and `counts` is emptied. Otherwise both are left as they were.
pub fn find_mentsu_recursive(counts: &mut [u8; 34], mentsu: &mut Vec<Mentsu>) -> (found: bool)
    ensures
        found == decompose(old(counts)@) is Some,
        found ==> final(mentsu)@ == old(mentsu)@ + decompose(old(counts)@).unwrap(),
        found ==> forall|j: int| 0 <= j < 34 ==> final(counts)@[j] == 0,
        !found ==> final(mentsu)@ == old(mentsu)@ && final(counts)@ == old(counts)@,
    decreases count_total(old(counts)@),
{
    let ghost c0 = counts@;
    let mut i: usize = 0;
    while i < 34 && counts[i] == 0
        invariant
            i <= 34,
            counts@ == c0,
            c0.len() == 34,
            forall|j: int| 0 <= j < i ==> c0[j] == 0,
        decreases 34 - i,
    {
        i += 1;
    }
    proof {
        lemma_first_nonzero_is(c0, 0, i as int);
    }
    if i == 34 {
        return true;
    }
    // A triplet of the lowest tile.

    if counts[i] >= 3 {
        let tile = hai_from_index(i);
        counts[i] -= 3;
        assert(counts@ =~= remove_koutsu(c0, i as int));
        proof {
            lemma_remove_koutsu_total(c0, i as int);
        }
        mentsu.push(Mentsu { mentsu_type: MentsuType::Koutsu, is_minchou: false, tiles: [tile, tile, tile, tile] });
        assert(mentsu@.last() == koutsu_at(i as int));
        if find_mentsu_recursive(counts, mentsu) {
            return true;
        }
        mentsu.pop();
        counts[i] += 3;
        assert(counts@ =~= c0);
    }
    // A sequence starting at the lowest tile.

    if i < 27 && (i % 9) < 7 && counts[i] > 0 && counts[i + 1] > 0 && counts[i + 2] > 0 {
        let tile1 = hai_from_index(i);
        let tile2 = hai_from_index(i + 1);
        let tile3 = hai_from_index(i + 2);
        counts[i] -= 1;
        counts[i + 1] -= 1;
        counts[i + 2] -= 1;
        assert(counts@ =~= remove_shuntsu(c0, i as int));
        proof {
            lemma_remove_shuntsu_total(c0, i as int);
        }
        mentsu.push(Mentsu { mentsu_type: MentsuType::Shuntsu, is_minchou: false, tiles: [tile1, tile2, tile3, tile3] });
        assert(mentsu@.last() == shuntsu_at(i as int));
        if find_mentsu_recursive(counts, mentsu) {
            return true;
        }
        mentsu.pop();
        counts[i] += 1;
        counts[i + 1] += 1;
        counts[i + 2] += 1;
        assert(counts@ =~= c0);
    }
    false
}


/// A concealed triplet or sequence as the search builds it.
pub open spec fn concealed_meld(m: Mentsu) -> bool {
    exists|i: int|
        #![trigger koutsu_at(i)]
        #![trigger shuntsu_at(i)]
        0 <= i < 34 && (m == koutsu_at(i) || (sequence_start(i) && m == shuntsu_at(i)))
}

/// The melds hold exactly the tiles that the table counts.
pub open spec fn melds_account_for(ms: Seq<Mentsu>, c: Seq<u8>) -> bool {
    forall|j: int| 0 <= j < 34 ==> #[trigger] melds_count(ms, j) == c[j]
}

proof fn lemma_koutsu_at_count(i: int, j: int)
    requires
        0 <= i < 34,
    ensures
        meld_count(koutsu_at(i), j) == if i == j { 3int } else { 0int },
{
    lemma_tile_index_bijection(tile_at(i), i);
}

proof fn lemma_shuntsu_at_count(i: int, j: int)
    requires
        sequence_start(i),
    ensures
        meld_count(shuntsu_at(i), j) == if i <= j <= i + 2 { 1int } else { 0int },
{
    lemma_tile_index_bijection(tile_at(i), i);
}

/// Every reading that the search finds is made of concealed triplets and sequences,
/// and holds exactly the tiles of the table.
pub proof fn lemma_decompose_sound(c: Seq<u8>)
    requires
        c.len() == 34,
    ensures
        decompose(c) matches Some(ms) ==> {
            &&& forall|k: int| 0 <= k < ms.len() ==> #[trigger] concealed_meld(ms[k])
            &&& melds_account_for(ms, c)
        },
    decreases count_total(c),
{
    lemma_first_nonzero(c, 0);
    let i = first_nonzero(c, 0);
    if i >= 34 {
        assert forall|j: int| 0 <= j < 34 implies #[trigger] melds_count(Seq::<Mentsu>::empty(), j)
            == c[j] by {}
    } else {
        let mut by_koutsu = false;
        if c[i] >= 3 {
            lemma_remove_koutsu_total(c, i);
            let c2 = remove_koutsu(c, i);
            lemma_decompose_sound(c2);
            if decompose(c2) is Some {
                by_koutsu = true;
                let r = decompose(c2).unwrap();
                let ms = seq![koutsu_at(i)] + r;
                assert(decompose(c) == Some(ms));
                assert forall|k: int| 0 <= k < ms.len() implies #[trigger] concealed_meld(ms[k]) by {
                    if k == 0 {
                        assert(ms[k] == koutsu_at(i));
                    } else {
                        assert(ms[k] == r[k - 1]);
                    }
                }
                assert forall|j: int| 0 <= j < 34 implies #[trigger] melds_count(ms, j) == c[j] by {
                    lemma_melds_count_concat(seq![koutsu_at(i)], r, j);
                    lemma_melds_count_single(koutsu_at(i), j);
                    lemma_koutsu_at_count(i, j);
                    assert(melds_count(r, j) == c2[j]);
                }
            }
        }
        if !by_koutsu && shuntsu_available(c, i) {
            lemma_remove_shuntsu_total(c, i);
            let c2 = remove_shuntsu(c, i);
            lemma_decompose_sound(c2);
            if decompose(c2) is Some {
                let r = decompose(c2).unwrap();
                let ms = seq![shuntsu_at(i)] + r;
                assert(decompose(c) == Some(ms));
                assert forall|k: int| 0 <= k < ms.len() implies #[trigger] concealed_meld(ms[k]) by {
                    if k == 0 {
                        assert(ms[k] == shuntsu_at(i));
                    } else {
                        assert(ms[k] == r[k - 1]);
                    }
                }
                assert forall|j: int| 0 <= j < 34 implies #[trigger] melds_count(ms, j) == c[j] by {
                    lemma_melds_count_concat(seq![shuntsu_at(i)], r, j);
                    lemma_melds_count_single(shuntsu_at(i), j);
                    lemma_shuntsu_at_count(i, j);
                    assert(melds_count(r, j) == c2[j]);
                }
            }
        }
    }
}

/// The search misses no reading: whenever the tiles of the table can be laid out as
/// concealed triplets and sequences, the search finds a reading.
pub proof fn lemma_decompose_complete(c: Seq<u8>, ms: Seq<Mentsu>)
    requires
        c.len() == 34,
        forall|k: int| 0 <= k < ms.len() ==> #[trigger] concealed_meld(ms[k]),
        melds_account_for(ms, c),
    ensures
        decompose(c) is Some,
    decreases count_total(c),
{
    lemma_first_nonzero(c, 0);
    let i = first_nonzero(c, 0);
    if i < 34 {
        assert(melds_count(ms, i) == c[i]);
        let k = lemma_melds_count_witness(ms, i);
        let m = ms[k];
        assert(concealed_meld(m));
        let p = choose|p: int|
            #![trigger koutsu_at(p)]
            #![trigger shuntsu_at(p)]
            0 <= p < 34 && (m == koutsu_at(p) || (sequence_start(p) && m == shuntsu_at(p)));
        let ms2 = ms.remove(k);
        assert forall|q: int| 0 <= q < ms2.len() implies #[trigger] concealed_meld(ms2[q]) by {
            if q < k {
                assert(ms2[q] == ms[q]);
            } else {
                assert(ms2[q] == ms[q + 1]);
            }
        }
        if m == koutsu_at(p) {
            lemma_koutsu_at_count(p, i);
            assert(p == i);
            lemma_melds_count_remove(ms, k, i);
            lemma_melds_count_nonneg(ms2, i);
            assert(c[i] >= 3);
            lemma_remove_koutsu_total(c, i);
            let c2 = remove_koutsu(c, i);
            assert forall|j: int| 0 <= j < 34 implies #[trigger] melds_count(ms2, j) == c2[j] by {
                lemma_melds_count_remove(ms, k, j);
                lemma_koutsu_at_count(i, j);
                assert(melds_count(ms, j) == c[j]);
            }
            lemma_decompose_complete(c2, ms2);
        } else {
            lemma_shuntsu_at_count(p, i);
            if p < i {
                lemma_shuntsu_at_count(p, p);
                lemma_melds_count_remove(ms, k, p);
                lemma_melds_count_nonneg(ms2, p);
                assert(melds_count(ms, p) == c[p]);
                assert(false);
            }
            assert(p == i);
            lemma_shuntsu_at_count(i, i + 1);
            lemma_shuntsu_at_count(i, i + 2);
            lemma_melds_count_remove(ms, k, i + 1);
            lemma_melds_count_nonneg(ms2, i + 1);
            lemma_melds_count_remove(ms, k, i + 2);
            lemma_melds_count_nonneg(ms2, i + 2);
            assert(melds_count(ms, i + 1) == c[i + 1]);
            assert(melds_count(ms, i + 2) == c[i + 2]);
            assert(shuntsu_available(c, i));
            lemma_remove_shuntsu_total(c, i);
            let c2 = remove_shuntsu(c, i);
            assert forall|j: int| 0 <= j < 34 implies #[trigger] melds_count(ms2, j) == c2[j] by {
                lemma_melds_count_remove(ms, k, j);
                lemma_shuntsu_at_count(i, j);
                assert(melds_count(ms, j) == c[j]);
            }
            lemma_decompose_complete(c2, ms2);
        }
    }
}


/// Every reading of a table as concealed melds has one meld per three tiles.
pub proof fn lemma_concealed_melds_total(ms: Seq<Mentsu>, c: Seq<u8>)
    requires
        c.len() == 34,
        forall|k: int| 0 <= k < ms.len() ==> #[trigger] concealed_meld(ms[k]),
        melds_account_for(ms, c),
    ensures
        count_total(c) == 3 * ms.len(),
    decreases ms.len(),
{
    if ms.len() == 0 {
        assert forall|j: int| 0 <= j < c.len() implies c[j] == 0 by {
            assert(melds_count(ms, j) == c[j]);
        }
        lemma_count_total_zero(c);
    } else {
        let m = ms.last();
        let md = ms.drop_last();
        assert(concealed_meld(ms[ms.len() - 1]));
        assert forall|k: int| 0 <= k < md.len() implies #[trigger] concealed_meld(md[k]) by {
            assert(md[k] == ms[k]);
        }
        let i = choose|i: int|
            #![trigger koutsu_at(i)]
            #![trigger shuntsu_at(i)]
            0 <= i < 34 && (m == koutsu_at(i) || (sequence_start(i) && m == shuntsu_at(i)));
        if m == koutsu_at(i) {
            lemma_melds_count_nonneg(md, i);
            lemma_koutsu_at_count(i, i);
            assert(melds_count(ms, i) == c[i]);
            let c2 = remove_koutsu(c, i);
            assert forall|j: int| 0 <= j < 34 implies #[trigger] melds_count(md, j) == c2[j] by {
                lemma_koutsu_at_count(i, j);
                assert(melds_count(ms, j) == c[j]);
            }
            lemma_remove_koutsu_total(c, i);
            lemma_concealed_melds_total(md, c2);
        } else {
            lemma_shuntsu_at_count(i, i);
            lemma_shuntsu_at_count(i, i + 1);
            lemma_shuntsu_at_count(i, i + 2);
            lemma_melds_count_nonneg(md, i);
            lemma_melds_count_nonneg(md, i + 1);
            lemma_melds_count_nonneg(md, i + 2);
            assert(melds_count(ms, i) == c[i]);
            assert(melds_count(ms, i + 1) == c[i + 1]);
            assert(melds_count(ms, i + 2) == c[i + 2]);
            let c2 = remove_shuntsu(c, i);
            assert forall|j: int| 0 <= j < 34 implies #[trigger] melds_count(md, j) == c2[j] by {
                lemma_shuntsu_at_count(i, j);
                assert(melds_count(ms, j) == c[j]);
            }
            lemma_remove_shuntsu_total(c, i);
            lemma_concealed_melds_total(md, c2);
        }
    }
}

} // verus!
