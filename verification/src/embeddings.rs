//! Embedding representation: an immutable wrapper around one feature map.

use vstd::prelude::*;

use crate::dense::TERM_MAX;
use crate::dense::dense;
use crate::dense::lemma_sum_sq_dense;
use crate::dense::sum_sq;
use crate::features::FeatureMap;
use crate::features::LABEL_COUNT;
use crate::features::Label;
use crate::vector::dot_upto;
use crate::vector::lemma_dot_upto_zero_left;

verus! {

/// An embedding is a sparse feature map, compared by cosine similarity.
///
/// The squared L2 norm is recomputed from the full map on demand; nothing is
/// cached and the map is never changed after construction.
#[derive(Clone, Debug)]
pub struct Embedding {
    pub features: FeatureMap,
}

impl Embedding {
    /// The underlying feature map keeps each label at most once.
    pub open spec fn wf(self) -> bool {
        self.features.wf()
    }

    /// Squared L2 norm: the dense count vector's dot product with itself.
    pub open spec fn spec_norm_sq(self) -> int {
        dot_upto(dense(self.features), dense(self.features), LABEL_COUNT as int)
    }

    /// Create an embedding from a feature count map.
    pub fn from_counts(counts: FeatureMap) -> (r: Embedding)
        ensures
            r.features == counts,
    {
        Embedding { features: counts }
    }

    /// Squared L2 norm of the embedding vector: the sum over all entries of
    /// the squared count. The norm itself is this value's square root.
    pub fn l2_norm_sq(&self) -> (r: u128)
        requires
            self.wf(),
        ensures
            r == self.spec_norm_sq(),
    {
        let n = self.features.entries.len();
        let mut acc: u128 = 0;
        let mut i: usize = 0;
        while i < n
            invariant
                i <= n,
                n == self.features.entries@.len(),
                self.wf(),
                acc == sum_sq(self.features.entries@.take(i as int)),
                acc <= (i as int) * TERM_MAX,
            decreases n - i,
        {
            let s = Ghost(self.features.entries@);
            let c = self.features.entries[i].1;
            proof {
                assert(s@.take(i + 1).drop_last() =~= s@.take(i as int));
                assert(s@.take(i + 1).last() == s@[i as int]);
                assert((c as int) * (c as int) <= TERM_MAX) by (nonlinear_arith)
                    requires
                        0 <= c <= 0xFFFF_FFFFu32,
                ;
                assert(((i + 1) as int) * TERM_MAX <= 0x1_0000_0000_0000_0000 * TERM_MAX)
                    by (nonlinear_arith)
                    requires
                        0 <= (i + 1) as int <= 0x1_0000_0000_0000_0000,
                ;
            }
            acc = acc + (c as u128) * (c as u128);
            i += 1;
        }
        proof {
            assert(self.features.entries@.take(n as int) =~= self.features.entries@);
            lemma_sum_sq_dense(self.features.entries@);
        }
        acc
    }
}

impl Default for Embedding {
    /// The empty embedding: no features, norm zero.
    fn default() -> (r: Embedding)
        ensures
            r.wf(),
            r.features.total() == 0,
            forall|l: Label| r.features.spec_count(l) == 0,
            r.spec_norm_sq() == 0,
    {
        let r = Embedding { features: FeatureMap::new() };
        proof {
            assert forall|i: int| 0 <= i < LABEL_COUNT implies dense(r.features)[i] == 0 by {
                assert(r.features.spec_count(crate::features::label_at(i)) == 0);
            }
            lemma_dot_upto_zero_left(
                dense(r.features),
                dense(r.features),
                LABEL_COUNT as int,
            );
        }
        r
    }
}

} // verus!
