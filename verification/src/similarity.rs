//! Cosine similarity between embeddings, in exact integer arithmetic.
//!
//! The engine returns the three exact quantities that determine the score:
//! the dot product of the two count vectors and each embedding's squared L2
//! norm. The floating-point score, when a caller wants one, is
//! `dot / (sqrt(norm_a_sq) * sqrt(norm_b_sq))`, or exactly `0` when either
//! norm is zero — a zero vector counts as similar to nothing, an identical
//! zero vector included. By the Cauchy-Schwarz inequality proved in
//! [`lemma_similarity_range`], that quotient always lies in the unit
//! interval, so a clamp can only absorb rounding.

use vstd::prelude::*;

use crate::dense::TERM_MAX;
use crate::dense::dense;
use crate::dense::dot_entries;
use crate::dense::lemma_dense_reads_count;
use crate::dense::lemma_dot_entries_dense;
use crate::embeddings::Embedding;
use crate::features::FeatureMap;
use crate::features::LABEL_COUNT;
use crate::features::Label;
use crate::vector::dot_upto;
use crate::vector::lemma_cauchy_schwarz;
use crate::vector::lemma_dot_upto_comm;
use crate::vector::lemma_dot_upto_nonneg;
use crate::vector::lemma_dot_upto_zero_left;
use crate::vector::lemma_self_dot_zero;

verus! {

/// Dot product of two embeddings' dense count vectors.
pub open spec fn spec_dot(a: Embedding, b: Embedding) -> int {
    dot_upto(dense(a.features), dense(b.features), LABEL_COUNT as int)
}

/// The exact quantities behind one cosine-similarity score.
///
/// The score is `dot / (sqrt(norm_a_sq) * sqrt(norm_b_sq))` when both norms
/// are positive, and `0` when [`Similarity::is_zero`] holds.
#[derive(Clone, Copy, Debug, PartialEq, Eq, Structural)]
pub struct Similarity {
    pub dot: u128,
    pub norm_a_sq: u128,
    pub norm_b_sq: u128,
}

impl Similarity {
    /// The degenerate case: either vector has norm zero, and the score is
    /// defined as exactly zero rather than `0 / 0`.
    pub fn is_zero(&self) -> (r: bool)
        ensures
            r == (self.norm_a_sq == 0 || self.norm_b_sq == 0),
    {
        self.norm_a_sq == 0 || self.norm_b_sq == 0
    }
}

/// Sparse dot product: walk `probe`'s entries, looking each label up in
/// `reference`. By [`lemma_dot_entries_dense`] the result is the dense dot
/// product, whichever side is the probe.
fn dot_product(probe: &FeatureMap, reference: &FeatureMap) -> (r: u128)
    requires
        reference.wf(),
    ensures
        r == dot_entries(probe.entries@, *reference),
{
    let n = probe.entries.len();
    let mut acc: u128 = 0;
    let mut i: usize = 0;
    while i < n
        invariant
            i <= n,
            n == probe.entries@.len(),
            reference.wf(),
            acc == dot_entries(probe.entries@.take(i as int), *reference),
            acc <= (i as int) * TERM_MAX,
        decreases n - i,
    {
        let e = probe.entries[i];
        let w = reference.get(e.0);
        proof {
            let s = probe.entries@;
            assert(s.take(i + 1).drop_last() =~= s.take(i as int));
            assert(s.take(i + 1).last() == s[i as int]);
            assert((e.1 as int) * (w as int) <= TERM_MAX) by (nonlinear_arith)
                requires
                    0 <= e.1 <= 0xFFFF_FFFFu32,
                    0 <= w <= 0xFFFF_FFFFu32,
            ;
            assert(((i + 1) as int) * TERM_MAX <= 0x1_0000_0000_0000_0000 * TERM_MAX)
                by (nonlinear_arith)
                requires
                    0 <= (i + 1) as int <= 0x1_0000_0000_0000_0000,
            ;
        }
        acc = acc + (e.1 as u128) * (w as u128);
        i += 1;
    }
    proof {
        assert(probe.entries@.take(n as int) =~= probe.entries@);
    }
    acc
}

/// Computes the cosine similarity between two embeddings, exactly.
///
/// The embedding with fewer distinct labels drives the dot-product loop —
/// a pure optimization that, by the returned contract, never changes the
/// result. Norms are taken over each full map. The function is total: every
/// pair of well-formed embeddings gets a result.
pub fn cosine_similarity(a: &Embedding, b: &Embedding) -> (r: Similarity)
    requires
        a.wf(),
        b.wf(),
    ensures
        r.dot == spec_dot(*a, *b),
        r.norm_a_sq == a.spec_norm_sq(),
        r.norm_b_sq == b.spec_norm_sq(),
        r.dot * r.dot <= r.norm_a_sq * r.norm_b_sq,
        r.norm_a_sq == 0 || r.norm_b_sq == 0 ==> r.dot == 0,
{
    proof {
        lemma_similarity_range(*a, *b);
        lemma_zero_vector(*a, *b);
        lemma_zero_vector(*b, *a);
    }
    let dot: u128 = if a.features.len() <= b.features.len() {
        let d = dot_product(&a.features, &b.features);
        proof {
            lemma_dot_entries_dense(a.features.entries@, b.features);
        }
        d
    } else {
        let d = dot_product(&b.features, &a.features);
        proof {
            lemma_dot_entries_dense(b.features.entries@, a.features);
            lemma_dot_upto_comm(dense(b.features), dense(a.features), LABEL_COUNT as int);
        }
        d
    };
    let na_sq = a.l2_norm_sq();
    let nb_sq = b.l2_norm_sq();
    Similarity { dot, norm_a_sq: na_sq, norm_b_sq: nb_sq }
}

/// Convenience function: compute similarity from raw counts.
pub fn similarity_from_counts(a: FeatureMap, b: FeatureMap) -> (r: Similarity)
    requires
        a.wf(),
        b.wf(),
    ensures
        r.dot == dot_upto(dense(a), dense(b), LABEL_COUNT as int),
        r.norm_a_sq == dot_upto(dense(a), dense(a), LABEL_COUNT as int),
        r.norm_b_sq == dot_upto(dense(b), dense(b), LABEL_COUNT as int),
        r.dot * r.dot <= r.norm_a_sq * r.norm_b_sq,
        r.norm_a_sq == 0 || r.norm_b_sq == 0 ==> r.dot == 0,
{
    let ea = Embedding::from_counts(a);
    let eb = Embedding::from_counts(b);
    cosine_similarity(&ea, &eb)
}

/// Symmetry: swapping the embeddings swaps nothing but the two norms, so
/// the similarity score of `(a, b)` equals that of `(b, a)`.
pub proof fn lemma_similarity_symmetric(a: Embedding, b: Embedding)
    ensures
        spec_dot(a, b) == spec_dot(b, a),
{
    lemma_dot_upto_comm(dense(a.features), dense(b.features), LABEL_COUNT as int);
}

/// Range: the dot product is non-negative and its square never exceeds the
/// product of the squared norms. Hence `dot / (sqrt(norm_a) * sqrt(norm_b))`
/// lies in `[0, 1]` whenever both norms are positive, and a clamp on the
/// floating-point quotient can only absorb rounding at the boundary.
pub proof fn lemma_similarity_range(a: Embedding, b: Embedding)
    ensures
        0 <= spec_dot(a, b),
        spec_dot(a, b) * spec_dot(a, b) <= a.spec_norm_sq() * b.spec_norm_sq(),
{
    let n = LABEL_COUNT as int;
    lemma_dot_upto_nonneg(dense(a.features), dense(b.features), n);
    lemma_cauchy_schwarz(dense(a.features), dense(b.features), n);
}

/// Zero-vector rule: an embedding has norm zero exactly when its map is
/// empty or all-zero, and such an embedding has dot product zero with
/// everything — itself included — so its similarity score is zero even
/// against an identical embedding.
pub proof fn lemma_zero_vector(a: Embedding, b: Embedding)
    ensures
        a.spec_norm_sq() == 0 <==> (forall|l: Label| a.features.spec_count(l) == 0),
        a.spec_norm_sq() == 0 ==> spec_dot(a, b) == 0 && spec_dot(b, a) == 0,
{
    let n = LABEL_COUNT as int;
    let da = dense(a.features);
    assert forall|i: int| 0 <= i < n implies da[i] >= 0 by {}
    if a.spec_norm_sq() == 0 {
        lemma_self_dot_zero(da, n);
        assert forall|l: Label| a.features.spec_count(l) == 0 by {
            lemma_dense_reads_count(a.features, l);
        }
        lemma_dot_upto_zero_left(da, dense(b.features), n);
        lemma_dot_upto_comm(da, dense(b.features), n);
    }
    if forall|l: Label| a.features.spec_count(l) == 0 {
        assert forall|i: int| 0 <= i < n implies da[i] == 0 by {
            assert(a.features.spec_count(crate::features::label_at(i)) == 0);
        }
        lemma_dot_upto_zero_left(da, da, n);
    }
}

/// Embeddings compare by value: two embeddings whose maps agree on every
/// label's count are one and the same vector, with the same norm and the
/// same similarity against any third embedding.
pub proof fn lemma_equal_maps_equal_similarity(a: Embedding, b: Embedding, c: Embedding)
    requires
        a.features.equiv(b.features),
    ensures
        spec_dot(a, c) == spec_dot(b, c),
        a.spec_norm_sq() == b.spec_norm_sq(),
{
    assert forall|i: int| 0 <= i < LABEL_COUNT implies dense(a.features)[i] == dense(
        b.features,
    )[i] by {
        assert(a.features.spec_count(crate::features::label_at(i)) == b.features.spec_count(
            crate::features::label_at(i),
        ));
    }
    assert(dense(a.features) =~= dense(b.features));
}

/// Optimization equivalence: iterating either map's entries against the
/// other computes one and the same dense dot product, for every pair of
/// maps — equal sizes included — so the probe choice never changes the
/// score.
pub proof fn lemma_probe_equivalence(a: Embedding, b: Embedding)
    ensures
        dot_entries(a.features.entries@, b.features) == spec_dot(a, b),
        dot_entries(b.features.entries@, a.features) == spec_dot(a, b),
{
    let n = LABEL_COUNT as int;
    lemma_dot_entries_dense(a.features.entries@, b.features);
    lemma_dot_entries_dense(b.features.entries@, a.features);
    lemma_dot_upto_comm(dense(a.features), dense(b.features), n);
}

} // verus!
