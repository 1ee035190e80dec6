//! Feature labels and the sparse feature map.
//!
//! A label names one bucket of the syntax-node taxonomy: a category
//! (statement, expression, type, pattern, macro invocation, attribute, block)
//! together with a variant. Statement variants are enumerated exhaustively;
//! expression, type and pattern variants keep a fixed list of named
//! productions and fold everything else into that category's `Other` bucket;
//! macro invocations, attributes and blocks are counted as bare occurrences.
//!
//! A [`FeatureMap`] is a sparse mapping from labels to occurrence counts,
//! held as a vector of pairs with pairwise-distinct labels. Iteration order
//! never matters: all contracts speak of [`seq_count`], the count of a label,
//! which is insensitive to the order of the entries.

use vstd::prelude::*;

verus! {

/// One bucket of the feature taxonomy.
#[derive(Clone, Copy, Debug, PartialEq, Eq, Structural, Hash)]
pub enum Label {
    StmtLocal,
    StmtItem,
    StmtExpr,
    StmtMacro,
    ExprIf,
    ExprForLoop,
    ExprWhile,
    ExprLoop,
    ExprMatch,
    ExprCall,
    ExprMethodCall,
    ExprStruct,
    ExprField,
    ExprPath,
    ExprReference,
    ExprReturn,
    ExprMacro,
    ExprLit,
    ExprArray,
    ExprTuple,
    ExprTry,
    ExprAwait,
    ExprClosure,
    ExprAssign,
    ExprOther,
    TypePath,
    TypeReference,
    TypeArray,
    TypeSlice,
    TypeTuple,
    TypeBareFn,
    TypePtr,
    TypeInfer,
    TypeOther,
    PatIdent,
    PatWild,
    PatStruct,
    PatTuple,
    PatTupleStruct,
    PatSlice,
    PatPath,
    PatLit,
    PatOther,
    MacroInvocation,
    Attribute,
    Block,
}

/// Number of distinct labels in the taxonomy.
pub const LABEL_COUNT: usize = 46;

/// Canonical position of a label in the dense vector view of a feature map.
pub open spec fn label_index(l: Label) -> int {
    match l {
        Label::StmtLocal => 0,
        Label::StmtItem => 1,
        Label::StmtExpr => 2,
        Label::StmtMacro => 3,
        Label::ExprIf => 4,
        Label::ExprForLoop => 5,
        Label::ExprWhile => 6,
        Label::ExprLoop => 7,
        Label::ExprMatch => 8,
        Label::ExprCall => 9,
        Label::ExprMethodCall => 10,
        Label::ExprStruct => 11,
        Label::ExprField => 12,
        Label::ExprPath => 13,
        Label::ExprReference => 14,
        Label::ExprReturn => 15,
        Label::ExprMacro => 16,
        Label::ExprLit => 17,
        Label::ExprArray => 18,
        Label::ExprTuple => 19,
        Label::ExprTry => 20,
        Label::ExprAwait => 21,
        Label::ExprClosure => 22,
        Label::ExprAssign => 23,
        Label::ExprOther => 24,
        Label::TypePath => 25,
        Label::TypeReference => 26,
        Label::TypeArray => 27,
        Label::TypeSlice => 28,
        Label::TypeTuple => 29,
        Label::TypeBareFn => 30,
        Label::TypePtr => 31,
        Label::TypeInfer => 32,
        Label::TypeOther => 33,
        Label::PatIdent => 34,
        Label::PatWild => 35,
        Label::PatStruct => 36,
        Label::PatTuple => 37,
        Label::PatTupleStruct => 38,
        Label::PatSlice => 39,
        Label::PatPath => 40,
        Label::PatLit => 41,
        Label::PatOther => 42,
        Label::MacroInvocation => 43,
        Label::Attribute => 44,
        Label::Block => 45,
    }
}

/// Label at a canonical position; inverse of [`label_index`].
pub open spec fn label_at(i: int) -> Label {
    if i == 0 { Label::StmtLocal }
    else if i == 1 { Label::StmtItem }
    else if i == 2 { Label::StmtExpr }
    else if i == 3 { Label::StmtMacro }
    else if i == 4 { Label::ExprIf }
    else if i == 5 { Label::ExprForLoop }
    else if i == 6 { Label::ExprWhile }
    else if i == 7 { Label::ExprLoop }
    else if i == 8 { Label::ExprMatch }
    else if i == 9 { Label::ExprCall }
    else if i == 10 { Label::ExprMethodCall }
    else if i == 11 { Label::ExprStruct }
    else if i == 12 { Label::ExprField }
    else if i == 13 { Label::ExprPath }
    else if i == 14 { Label::ExprReference }
    else if i == 15 { Label::ExprReturn }
    else if i == 16 { Label::ExprMacro }
    else if i == 17 { Label::ExprLit }
    else if i == 18 { Label::ExprArray }
    else if i == 19 { Label::ExprTuple }
    else if i == 20 { Label::ExprTry }
    else if i == 21 { Label::ExprAwait }
    else if i == 22 { Label::ExprClosure }
    else if i == 23 { Label::ExprAssign }
    else if i == 24 { Label::ExprOther }
    else if i == 25 { Label::TypePath }
    else if i == 26 { Label::TypeReference }
    else if i == 27 { Label::TypeArray }
    else if i == 28 { Label::TypeSlice }
    else if i == 29 { Label::TypeTuple }
    else if i == 30 { Label::TypeBareFn }
    else if i == 31 { Label::TypePtr }
    else if i == 32 { Label::TypeInfer }
    else if i == 33 { Label::TypeOther }
    else if i == 34 { Label::PatIdent }
    else if i == 35 { Label::PatWild }
    else if i == 36 { Label::PatStruct }
    else if i == 37 { Label::PatTuple }
    else if i == 38 { Label::PatTupleStruct }
    else if i == 39 { Label::PatSlice }
    else if i == 40 { Label::PatPath }
    else if i == 41 { Label::PatLit }
    else if i == 42 { Label::PatOther }
    else if i == 43 { Label::MacroInvocation }
    else if i == 44 { Label::Attribute }
    else { Label::Block }
}

/// Every label sits at its own index, below [`LABEL_COUNT`].
pub proof fn lemma_label_index(l: Label)
    ensures
        0 <= label_index(l) < LABEL_COUNT,
        label_at(label_index(l)) == l,
{
}

/// Indices below [`LABEL_COUNT`] round-trip through [`label_at`].
pub proof fn lemma_label_at(i: int)
    requires
        0 <= i < LABEL_COUNT,
    ensures
        label_index(label_at(i)) == i,
{
}

/// What one entry adds to the count of label `l`.
pub open spec fn entry_count(e: (Label, u32), l: Label) -> nat {
    if e.0 == l {
        e.1 as nat
    } else {
        0
    }
}

/// Count of label `l` summed over a sequence of entries.
pub open spec fn seq_count(s: Seq<(Label, u32)>, l: Label) -> nat
    decreases s.len(),
{
    if s.len() == 0 {
        0
    } else {
        seq_count(s.drop_last(), l) + entry_count(s.last(), l)
    }
}

/// Sum of all counts in a sequence of entries.
pub open spec fn entries_total(s: Seq<(Label, u32)>) -> nat
    decreases s.len(),
{
    if s.len() == 0 {
        0
    } else {
        entries_total(s.drop_last()) + s.last().1 as nat
    }
}

/// Appending an entry adds its contribution to every label's count.
pub proof fn lemma_seq_count_push(s: Seq<(Label, u32)>, e: (Label, u32), l: Label)
    ensures
        seq_count(s.push(e), l) == seq_count(s, l) + entry_count(e, l),
{
    assert(s.push(e).drop_last() =~= s);
}

/// Appending an entry adds its count to the total.
pub proof fn lemma_entries_total_push(s: Seq<(Label, u32)>, e: (Label, u32))
    ensures
        entries_total(s.push(e)) == entries_total(s) + e.1,
{
    assert(s.push(e).drop_last() =~= s);
}

/// Replacing the entry at `i` swaps its contribution for the new one.
pub proof fn lemma_seq_count_update(s: Seq<(Label, u32)>, i: int, e: (Label, u32), l: Label)
    requires
        0 <= i < s.len(),
    ensures
        seq_count(s.update(i, e), l) + entry_count(s[i], l) == seq_count(s, l) + entry_count(e, l),
    decreases s.len(),
{
    if i == s.len() - 1 {
        assert(s.update(i, e).drop_last() =~= s.drop_last());
    } else {
        assert(s.update(i, e).drop_last() =~= s.drop_last().update(i, e));
        lemma_seq_count_update(s.drop_last(), i, e, l);
    }
}

/// Replacing the entry at `i` swaps its count in the total.
pub proof fn lemma_entries_total_update(s: Seq<(Label, u32)>, i: int, e: (Label, u32))
    requires
        0 <= i < s.len(),
    ensures
        entries_total(s.update(i, e)) + s[i].1 == entries_total(s) + e.1,
    decreases s.len(),
{
    if i == s.len() - 1 {
        assert(s.update(i, e).drop_last() =~= s.drop_last());
    } else {
        assert(s.update(i, e).drop_last() =~= s.drop_last().update(i, e));
        lemma_entries_total_update(s.drop_last(), i, e);
    }
}

/// Each single entry's count is at most the total.
pub proof fn lemma_entry_le_total(s: Seq<(Label, u32)>, i: int)
    requires
        0 <= i < s.len(),
    ensures
        s[i].1 <= entries_total(s),
    decreases s.len(),
{
    if i < s.len() - 1 {
        lemma_entry_le_total(s.drop_last(), i);
    }
}

/// A label that appears in no entry has count zero.
pub proof fn lemma_absent_zero(s: Seq<(Label, u32)>, l: Label)
    requires
        forall|k: int| 0 <= k < s.len() ==> s[k].0 != l,
    ensures
        seq_count(s, l) == 0,
    decreases s.len(),
{
    if s.len() > 0 {
        lemma_absent_zero(s.drop_last(), l);
    }
}

/// A label's count splits at any cut point of the entry sequence.
pub proof fn lemma_seq_count_split(s: Seq<(Label, u32)>, i: int, l: Label)
    requires
        0 <= i <= s.len(),
    ensures
        seq_count(s, l) == seq_count(s.take(i), l) + seq_count(s.skip(i), l),
    decreases s.len(),
{
    if i == s.len() {
        assert(s.take(i) =~= s);
        assert(s.skip(i) =~= Seq::<(Label, u32)>::empty());
    } else {
        lemma_seq_count_split(s.drop_last(), i, l);
        assert(s.take(i) =~= s.drop_last().take(i));
        assert(s.skip(i).drop_last() =~= s.drop_last().skip(i));
        assert(s.skip(i).last() == s.last());
    }
}

/// A sparse feature map: occurrence counts keyed by label.
///
/// Entries carry pairwise-distinct labels; a label without an entry has
/// count zero. The map is a pure multiset digest: no computation over it
/// depends on the order of the entries.
#[derive(Clone, Debug)]
pub struct FeatureMap {
    pub entries: Vec<(Label, u32)>,
}

impl FeatureMap {
    /// Entries mention each label at most once.
    pub open spec fn wf(self) -> bool {
        forall|i: int, j: int|
            0 <= i < j < self.entries@.len() ==> self.entries@[i].0 != self.entries@[j].0
    }

    /// Count of one label.
    pub open spec fn spec_count(self, l: Label) -> nat {
        seq_count(self.entries@, l)
    }

    /// Sum of all counts.
    pub open spec fn total(self) -> nat {
        entries_total(self.entries@)
    }

    /// Two maps are equivalent when every label has the same count in both.
    pub open spec fn equiv(self, other: FeatureMap) -> bool {
        forall|l: Label| self.spec_count(l) == other.spec_count(l)
    }

    /// The empty feature map.
    pub fn new() -> (r: FeatureMap)
        ensures
            r.wf(),
            r.total() == 0,
            forall|l: Label| r.spec_count(l) == 0,
    {
        let r = FeatureMap { entries: Vec::new() };
        proof {
            assert forall|l: Label| r.spec_count(l) == 0 by {
                lemma_absent_zero(r.entries@, l);
            }
        }
        r
    }

    /// Number of labels with an entry.
    pub fn len(&self) -> (r: usize)
        ensures
            r == self.entries@.len(),
    {
        self.entries.len()
    }

    /// Look a label's count up; absent labels count zero.
    pub fn get(&self, label: Label) -> (r: u32)
        requires
            self.wf(),
        ensures
            r == self.spec_count(label),
    {
        let n = self.entries.len();
        let mut i: usize = 0;
        while i < n
            invariant
                i <= n,
                n == self.entries@.len(),
                self.wf(),
                forall|k: int| 0 <= k < i ==> self.entries@[k].0 != label,
            decreases n - i,
        {
            let e = self.entries[i];
            if e.0 == label {
                proof {
                    let s = self.entries@;
                    lemma_seq_count_split(s, i + 1, label);
                    assert(s.take(i + 1).drop_last() =~= s.take(i as int));
                    assert(s.take(i + 1).last() == s[i as int]);
                    lemma_absent_zero(s.take(i as int), label);
                    assert forall|k: int| 0 <= k < s.skip(i + 1).len() implies (#[trigger] s.skip(
                        i + 1,
                    )[k]).0 != label by {
                        assert(s.skip(i + 1)[k] == s[k + i + 1]);
                    }
                    lemma_absent_zero(s.skip(i + 1), label);
                }
                return e.1;
            }
            i += 1;
        }
        proof {
            lemma_absent_zero(self.entries@, label);
        }
        0
    }

    /// Add one occurrence of a label.
    pub fn bump(&mut self, label: Label)
        requires
            old(self).wf(),
            old(self).total() < u32::MAX,
        ensures
            final(self).wf(),
            final(self).spec_count(label) == old(self).spec_count(label) + 1,
            forall|l: Label| l != label ==> final(self).spec_count(l) == old(self).spec_count(l),
            final(self).total() == old(self).total() + 1,
            final(self).entries@.len() >= old(self).entries@.len(),
    {
        let n = self.entries.len();
        let mut i: usize = 0;
        while i < n
            invariant
                i <= n,
                n == self.entries@.len(),
                self == old(self),
                old(self).wf(),
                old(self).total() < u32::MAX,
                forall|k: int| 0 <= k < i ==> self.entries@[k].0 != label,
            decreases n - i,
        {
            let e = self.entries[i];
            if e.0 == label {
                proof {
                    lemma_entry_le_total(self.entries@, i as int);
                }
                let c = e.1;
                self.entries.set(i, (label, c + 1));
                proof {
                    let s = old(self).entries@;
                    let e2 = (label, (c + 1) as u32);
                    assert forall|l: Label|
                        seq_count(s.update(i as int, e2), l) + entry_count(s[i as int], l) == seq_count(
                            s,
                            l,
                        ) + entry_count(e2, l) by {
                        lemma_seq_count_update(s, i as int, e2, l);
                    }
                    lemma_entries_total_update(s, i as int, e2);
                }
                return ;
            }
            i += 1;
        }
        self.entries.push((label, 1));
        proof {
            let s = old(self).entries@;
            let e = (label, 1u32);
            assert forall|l: Label|
                seq_count(s.push(e), l) == seq_count(s, l) + entry_count(e, l) by {
                lemma_seq_count_push(s, e, l);
            }
            lemma_entries_total_push(s, e);
        }
    }
}

} // verus!
