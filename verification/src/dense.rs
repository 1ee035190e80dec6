//! Bridge between the sparse feature map and its dense vector view.
//!
//! [`dense`] reads a feature map as a vector of [`LABEL_COUNT`] counts, one
//! coordinate per label in canonical order. The executable engine iterates
//! sparse entries; the lemmas here show that those sparse sums equal the
//! dense dot products that the similarity contracts are stated over,
//! whichever map is iterated.

use vstd::prelude::*;

use crate::features::FeatureMap;
use crate::features::LABEL_COUNT;
use crate::features::Label;
use crate::features::entry_count;
use crate::features::label_at;
use crate::features::label_index;
use crate::features::lemma_absent_zero;
use crate::features::lemma_label_at;
use crate::features::lemma_label_index;
use crate::features::seq_count;
use crate::vector::dot_upto;
use crate::vector::lemma_dot_upto_comm;
use crate::vector::lemma_dot_upto_update;
use crate::vector::lemma_dot_upto_zero_left;

verus! {

/// Largest value one product of two counts can take.
pub const TERM_MAX: u128 = 0xFFFF_FFFE_0000_0001;

/// Dense count vector of a sequence of entries, in canonical label order.
pub open spec fn count_vector(s: Seq<(Label, u32)>) -> Seq<int> {
    Seq::new(LABEL_COUNT as nat, |i: int| seq_count(s, label_at(i)) as int)
}

/// Dense count vector of a feature map.
pub open spec fn dense(m: FeatureMap) -> Seq<int> {
    count_vector(m.entries@)
}

/// Dot product of a sequence of entries against a feature map: each entry's
/// count times the map's count of the same label.
pub open spec fn dot_entries(s: Seq<(Label, u32)>, m: FeatureMap) -> int
    decreases s.len(),
{
    if s.len() == 0 {
        0
    } else {
        dot_entries(s.drop_last(), m) + s.last().1 * m.spec_count(s.last().0)
    }
}

/// Sum of squared counts of a sequence of entries.
pub open spec fn sum_sq(s: Seq<(Label, u32)>) -> int
    decreases s.len(),
{
    if s.len() == 0 {
        0
    } else {
        sum_sq(s.drop_last()) + s.last().1 * s.last().1
    }
}

/// The dense vector reads back each label's count.
pub proof fn lemma_dense_reads_count(m: FeatureMap, l: Label)
    ensures
        dense(m)[label_index(l)] == m.spec_count(l),
        0 <= label_index(l) < LABEL_COUNT,
{
    lemma_label_index(l);
}

/// Appending an entry raises one coordinate of the dense count vector.
proof fn lemma_count_vector_push(s: Seq<(Label, u32)>)
    requires
        s.len() > 0,
    ensures
        count_vector(s) == count_vector(s.drop_last()).update(
            label_index(s.last().0),
            count_vector(s.drop_last())[label_index(s.last().0)] + s.last().1,
        ),
{
    let e = s.last();
    let k = label_index(e.0);
    lemma_label_index(e.0);
    let a = count_vector(s.drop_last());
    let a2 = a.update(k, a[k] + e.1);
    assert forall|i: int| 0 <= i < LABEL_COUNT implies count_vector(s)[i] == a2[i] by {
        lemma_label_at(i);
        assert(seq_count(s, label_at(i)) == seq_count(s.drop_last(), label_at(i)) + entry_count(
            e,
            label_at(i),
        ));
        if i == k {
            assert(label_at(i) == e.0);
        } else {
            assert(label_at(i) != e.0);
        }
    }
    assert(count_vector(s) =~= a2);
}

/// Iterating sparse entries against a map computes the dense dot product.
pub proof fn lemma_dot_entries_dense(s: Seq<(Label, u32)>, m: FeatureMap)
    ensures
        dot_entries(s, m) == dot_upto(count_vector(s), dense(m), LABEL_COUNT as int),
    decreases s.len(),
{
    let n = LABEL_COUNT as int;
    if s.len() == 0 {
        assert forall|i: int| 0 <= i < n implies count_vector(s)[i] == 0 by {}
        lemma_dot_upto_zero_left(count_vector(s), dense(m), n);
    } else {
        let e = s.last();
        let k = label_index(e.0);
        lemma_label_index(e.0);
        lemma_dot_entries_dense(s.drop_last(), m);
        lemma_count_vector_push(s);
        let a = count_vector(s.drop_last());
        lemma_dot_upto_update(a, dense(m), n, k, e.1 as int);
        lemma_dense_reads_count(m, e.0);
    }
}

/// For entries with pairwise-distinct labels, the sum of squared counts is
/// the dense vector's dot product with itself.
pub proof fn lemma_sum_sq_dense(s: Seq<(Label, u32)>)
    requires
        forall|i: int, j: int| 0 <= i < j < s.len() ==> s[i].0 != s[j].0,
    ensures
        sum_sq(s) == dot_upto(count_vector(s), count_vector(s), LABEL_COUNT as int),
    decreases s.len(),
{
    let n = LABEL_COUNT as int;
    if s.len() == 0 {
        assert forall|i: int| 0 <= i < n implies count_vector(s)[i] == 0 by {}
        lemma_dot_upto_zero_left(count_vector(s), count_vector(s), n);
    } else {
        let e = s.last();
        let k = label_index(e.0);
        lemma_label_index(e.0);
        let dl = s.drop_last();
        lemma_sum_sq_dense(dl);
        lemma_count_vector_push(s);
        let a = count_vector(dl);
        let a2 = count_vector(s);
        assert(forall|j: int| 0 <= j < dl.len() ==> dl[j] == s[j]);
        lemma_absent_zero(dl, e.0);
        assert(a[k] == 0);
        lemma_dot_upto_update(a, a2, n, k, e.1 as int);
        lemma_dot_upto_comm(a, a2, n);
        lemma_dot_upto_update(a, a, n, k, e.1 as int);
        assert(a2[k] == e.1);
        assert(dot_upto(a2, a2, n) == dot_upto(a, a, n) + e.1 * a[k] + e.1 * a2[k]);
    }
}

} // verus!
