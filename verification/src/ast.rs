//! Syntax-tree model and the feature extractor.
//!
//! A parsed program is handed to the library as a [`Node`] tree: each node
//! carries the grammar production it came from ([`NodeKind`]) and its child
//! nodes in syntactic order. Parsing itself is an external collaborator;
//! the extractor here classifies every node into exactly one feature label
//! and counts it, by one exhaustive depth-first traversal. A matched node
//! never stops the walk: counts are additive across nesting levels.
//!
//! The classification keeps the taxonomy's deliberate asymmetry: statement
//! variants are closed and each gets its own label; expression, type and
//! pattern variants keep a fixed list of named productions and fold the
//! rest into the category's `Other` label; macro invocations, attributes
//! and blocks are counted as bare occurrences. Nodes that belong to no
//! category ([`NodeKind::Container`]: a file, an item, a signature) carry
//! no label and only pass the walk on to their children.

use vstd::prelude::*;

use crate::features::FeatureMap;
use crate::features::Label;

verus! {

/// Statement productions: a closed set, every variant labeled.
#[derive(Clone, Copy, Debug, PartialEq, Eq, Structural)]
pub enum StmtKind {
    Local,
    Item,
    Expr,
    Macro,
}

/// Expression productions of the grammar.
#[derive(Clone, Copy, Debug, PartialEq, Eq, Structural)]
pub enum ExprKind {
    Array,
    Assign,
    Async,
    Await,
    Binary,
    Block,
    Break,
    Call,
    Cast,
    Closure,
    Const,
    Continue,
    Field,
    ForLoop,
    Group,
    If,
    Index,
    Infer,
    Let,
    Lit,
    Loop,
    Macro,
    Match,
    MethodCall,
    Paren,
    Path,
    Range,
    RawAddr,
    Reference,
    Repeat,
    Return,
    Struct,
    Try,
    TryBlock,
    Tuple,
    Unary,
    Unsafe,
    Verbatim,
    While,
    Yield,
}

/// Type productions of the grammar.
#[derive(Clone, Copy, Debug, PartialEq, Eq, Structural)]
pub enum TypeKind {
    Array,
    BareFn,
    Group,
    ImplTrait,
    Infer,
    Macro,
    Never,
    Paren,
    Path,
    Ptr,
    Reference,
    Slice,
    TraitObject,
    Tuple,
    Verbatim,
}

/// Pattern productions of the grammar.
#[derive(Clone, Copy, Debug, PartialEq, Eq, Structural)]
pub enum PatKind {
    Const,
    Ident,
    Lit,
    Macro,
    Or,
    Paren,
    Path,
    Range,
    Reference,
    Rest,
    Slice,
    Struct,
    Tuple,
    TupleStruct,
    Type,
    Verbatim,
    Wild,
}

/// What a syntax-tree node is: one of the seven counted categories, or a
/// container node that carries no label of its own.
#[derive(Clone, Copy, Debug, PartialEq, Eq, Structural)]
pub enum NodeKind {
    Stmt(StmtKind),
    Expr(ExprKind),
    Type(TypeKind),
    Pat(PatKind),
    Macro,
    Attribute,
    Block,
    Container,
}

/// One node of a parsed program: its grammar production and its children in
/// syntactic order.
#[derive(Debug)]
pub struct Node {
    pub kind: NodeKind,
    pub children: Vec<Node>,
}

/// The coarse syntactic role of a label.
#[derive(Clone, Copy, Debug, PartialEq, Eq, Structural)]
pub enum Category {
    Statement,
    Expression,
    Type,
    Pattern,
    MacroInvocation,
    Attribute,
    Block,
}

/// Label of a statement: the statement set is closed, so every variant has
/// its own label and there is no catch-all bucket.
pub open spec fn stmt_label(k: StmtKind) -> Label {
    match k {
        StmtKind::Local => Label::StmtLocal,
        StmtKind::Item => Label::StmtItem,
        StmtKind::Expr => Label::StmtExpr,
        StmtKind::Macro => Label::StmtMacro,
    }
}

/// Label of an expression: the named productions keep their own labels,
/// every other variant falls into `ExprOther`.
pub open spec fn expr_label(k: ExprKind) -> Label {
    match k {
        ExprKind::If => Label::ExprIf,
        ExprKind::ForLoop => Label::ExprForLoop,
        ExprKind::While => Label::ExprWhile,
        ExprKind::Loop => Label::ExprLoop,
        ExprKind::Match => Label::ExprMatch,
        ExprKind::Call => Label::ExprCall,
        ExprKind::MethodCall => Label::ExprMethodCall,
        ExprKind::Struct => Label::ExprStruct,
        ExprKind::Field => Label::ExprField,
        ExprKind::Path => Label::ExprPath,
        ExprKind::Reference => Label::ExprReference,
        ExprKind::Return => Label::ExprReturn,
        ExprKind::Macro => Label::ExprMacro,
        ExprKind::Lit => Label::ExprLit,
        ExprKind::Array => Label::ExprArray,
        ExprKind::Tuple => Label::ExprTuple,
        ExprKind::Try => Label::ExprTry,
        ExprKind::Await => Label::ExprAwait,
        ExprKind::Closure => Label::ExprClosure,
        ExprKind::Assign => Label::ExprAssign,
        _ => Label::ExprOther,
    }
}

/// Label of a type: the named productions keep their own labels, every
/// other variant falls into `TypeOther`.
pub open spec fn type_label(k: TypeKind) -> Label {
    match k {
        TypeKind::Path => Label::TypePath,
        TypeKind::Reference => Label::TypeReference,
        TypeKind::Array => Label::TypeArray,
        TypeKind::Slice => Label::TypeSlice,
        TypeKind::Tuple => Label::TypeTuple,
        TypeKind::BareFn => Label::TypeBareFn,
        TypeKind::Ptr => Label::TypePtr,
        TypeKind::Infer => Label::TypeInfer,
        _ => Label::TypeOther,
    }
}

/// Label of a pattern: the named productions keep their own labels, every
/// other variant falls into `PatOther`.
pub open spec fn pat_label(k: PatKind) -> Label {
    match k {
        PatKind::Ident => Label::PatIdent,
        PatKind::Wild => Label::PatWild,
        PatKind::Struct => Label::PatStruct,
        PatKind::Tuple => Label::PatTuple,
        PatKind::TupleStruct => Label::PatTupleStruct,
        PatKind::Slice => Label::PatSlice,
        PatKind::Path => Label::PatPath,
        PatKind::Lit => Label::PatLit,
        _ => Label::PatOther,
    }
}

/// The label a node of this kind lands in, if it lands in one: container
/// nodes carry no label, every other node carries exactly one.
pub open spec fn node_label(k: NodeKind) -> Option<Label> {
    match k {
        NodeKind::Stmt(s) => Some(stmt_label(s)),
        NodeKind::Expr(e) => Some(expr_label(e)),
        NodeKind::Type(t) => Some(type_label(t)),
        NodeKind::Pat(p) => Some(pat_label(p)),
        NodeKind::Macro => Some(Label::MacroInvocation),
        NodeKind::Attribute => Some(Label::Attribute),
        NodeKind::Block => Some(Label::Block),
        NodeKind::Container => None,
    }
}

/// The category a node of this kind is counted under, if any.
pub open spec fn kind_category(k: NodeKind) -> Option<Category> {
    match k {
        NodeKind::Stmt(_) => Some(Category::Statement),
        NodeKind::Expr(_) => Some(Category::Expression),
        NodeKind::Type(_) => Some(Category::Type),
        NodeKind::Pat(_) => Some(Category::Pattern),
        NodeKind::Macro => Some(Category::MacroInvocation),
        NodeKind::Attribute => Some(Category::Attribute),
        NodeKind::Block => Some(Category::Block),
        NodeKind::Container => None,
    }
}

/// The category a label belongs to.
pub open spec fn label_category(l: Label) -> Category {
    match l {
        Label::StmtLocal => Category::Statement,
        Label::StmtItem => Category::Statement,
        Label::StmtExpr => Category::Statement,
        Label::StmtMacro => Category::Statement,
        Label::ExprIf => Category::Expression,
        Label::ExprForLoop => Category::Expression,
        Label::ExprWhile => Category::Expression,
        Label::ExprLoop => Category::Expression,
        Label::ExprMatch => Category::Expression,
        Label::ExprCall => Category::Expression,
        Label::ExprMethodCall => Category::Expression,
        Label::ExprStruct => Category::Expression,
        Label::ExprField => Category::Expression,
        Label::ExprPath => Category::Expression,
        Label::ExprReference => Category::Expression,
        Label::ExprReturn => Category::Expression,
        Label::ExprMacro => Category::Expression,
        Label::ExprLit => Category::Expression,
        Label::ExprArray => Category::Expression,
        Label::ExprTuple => Category::Expression,
        Label::ExprTry => Category::Expression,
        Label::ExprAwait => Category::Expression,
        Label::ExprClosure => Category::Expression,
        Label::ExprAssign => Category::Expression,
        Label::ExprOther => Category::Expression,
        Label::TypePath => Category::Type,
        Label::TypeReference => Category::Type,
        Label::TypeArray => Category::Type,
        Label::TypeSlice => Category::Type,
        Label::TypeTuple => Category::Type,
        Label::TypeBareFn => Category::Type,
        Label::TypePtr => Category::Type,
        Label::TypeInfer => Category::Type,
        Label::TypeOther => Category::Type,
        Label::PatIdent => Category::Pattern,
        Label::PatWild => Category::Pattern,
        Label::PatStruct => Category::Pattern,
        Label::PatTuple => Category::Pattern,
        Label::PatTupleStruct => Category::Pattern,
        Label::PatSlice => Category::Pattern,
        Label::PatPath => Category::Pattern,
        Label::PatLit => Category::Pattern,
        Label::PatOther => Category::Pattern,
        Label::MacroInvocation => Category::MacroInvocation,
        Label::Attribute => Category::Attribute,
        Label::Block => Category::Block,
    }
}

/// What a node's own kind adds to the count of label `l`.
pub open spec fn own_count(k: NodeKind, l: Label) -> nat {
    if node_label(k) == Some(l) {
        1
    } else {
        0
    }
}

/// Number of labeled occurrences a node's own kind produces: one, or none
/// for a container.
pub open spec fn own_weight(k: NodeKind) -> nat {
    if k is Container {
        0
    } else {
        1
    }
}

/// Count of label `l` over a whole subtree: the node's own contribution
/// plus, independently, every child's.
pub open spec fn node_count(n: Node, l: Label) -> nat
    decreases n,
{
    own_count(n.kind, l) + seq_node_count(n.children@, l)
}

/// Count of label `l` summed over a sequence of subtrees.
pub open spec fn seq_node_count(s: Seq<Node>, l: Label) -> nat
    decreases s,
{
    if s.len() == 0 {
        0
    } else {
        seq_node_count(s.drop_last(), l) + node_count(s.last(), l)
    }
}

/// Total number of labeled nodes in a subtree.
pub open spec fn node_weight(n: Node) -> nat
    decreases n,
{
    own_weight(n.kind) + seq_node_weight(n.children@)
}

/// Total number of labeled nodes over a sequence of subtrees.
pub open spec fn seq_node_weight(s: Seq<Node>) -> nat
    decreases s,
{
    if s.len() == 0 {
        0
    } else {
        seq_node_weight(s.drop_last()) + node_weight(s.last())
    }
}

/// A prefix of the children weighs no more than all of them.
proof fn lemma_seq_node_weight_prefix(s: Seq<Node>, j: int)
    requires
        0 <= j <= s.len(),
    ensures
        seq_node_weight(s.take(j)) <= seq_node_weight(s),
    decreases s.len(),
{
    if j == s.len() {
        assert(s.take(j) =~= s);
    } else {
        assert(s.take(j) =~= s.drop_last().take(j));
        lemma_seq_node_weight_prefix(s.drop_last(), j);
    }
}

/// Sum of weights grows by one subtree at each cut point.
proof fn lemma_seq_node_weight_snoc(s: Seq<Node>, i: int)
    requires
        0 <= i < s.len(),
    ensures
        seq_node_weight(s.take(i + 1)) == seq_node_weight(s.take(i)) + node_weight(s[i]),
{
    assert(s.take(i + 1).drop_last() =~= s.take(i));
    assert(s.take(i + 1).last() == s[i]);
}

/// Sum of counts grows by one subtree at each cut point.
proof fn lemma_seq_node_count_snoc(s: Seq<Node>, i: int, l: Label)
    requires
        0 <= i < s.len(),
    ensures
        seq_node_count(s.take(i + 1), l) == seq_node_count(s.take(i), l) + node_count(s[i], l),
{
    assert(s.take(i + 1).drop_last() =~= s.take(i));
    assert(s.take(i + 1).last() == s[i]);
}

/// A prefix of the children counts no more of any label than all of them.
proof fn lemma_seq_node_count_prefix(s: Seq<Node>, j: int, l: Label)
    requires
        0 <= j <= s.len(),
    ensures
        seq_node_count(s.take(j), l) <= seq_node_count(s, l),
    decreases s.len(),
{
    if j == s.len() {
        assert(s.take(j) =~= s);
    } else {
        assert(s.take(j) =~= s.drop_last().take(j));
        lemma_seq_node_count_prefix(s.drop_last(), j, l);
    }
}

/// Exhaustiveness: every node the extractor visits lands in exactly one
/// label — the one [`node_label`] names — and that label belongs to the
/// node's own category. Variants outside a partial category's kept list
/// land in that category's `Other` label like any other variant; no node
/// kind is rejected. Only container nodes land in no label at all.
pub proof fn lemma_classification_total(k: NodeKind)
    ensures
        node_label(k) is Some <==> !(k is Container),
        match (node_label(k), kind_category(k)) {
            (Some(l), Some(c)) => label_category(l) == c,
            (None, None) => true,
            _ => false,
        },
{
}

/// Additivity under nesting: a subtree's count of a label is the node's own
/// contribution plus the sum over its children — so a construct nested
/// inside another still increments its own label, independently of what the
/// parent incremented.
pub proof fn lemma_count_additive(n: Node, l: Label)
    ensures
        node_count(n, l) == own_count(n.kind, l) + seq_node_count(n.children@, l),
{
}

/// Each single child contributes its full subtree count to the parent,
/// whatever the other children hold: nesting never masks a count.
pub proof fn lemma_child_contribution(n: Node, i: int, l: Label)
    requires
        0 <= i < n.children@.len(),
    ensures
        node_count(n, l) >= own_count(n.kind, l) + node_count(n.children@[i], l),
{
    let s = n.children@;
    lemma_seq_node_count_snoc(s, i, l);
    lemma_seq_node_count_prefix(s, i + 1, l);
}

/// Counts AST nodes: the traversal accumulator of the feature extractor.
#[derive(Clone, Debug)]
pub struct NodeCounter {
    pub counts: FeatureMap,
}

impl Default for NodeCounter {
    /// A fresh counter with an empty feature map.
    fn default() -> (r: NodeCounter)
        ensures
            r.counts.wf(),
            r.counts.total() == 0,
            forall|l: Label| r.counts.spec_count(l) == 0,
    {
        NodeCounter { counts: FeatureMap::new() }
    }
}

impl NodeCounter {
    /// Increment count for a node type.
    fn bump(&mut self, label: Label)
        requires
            old(self).counts.wf(),
            old(self).counts.total() < u32::MAX,
        ensures
            final(self).counts.wf(),
            final(self).counts.spec_count(label) == old(self).counts.spec_count(label) + 1,
            forall|l: Label|
                l != label ==> final(self).counts.spec_count(l) == old(self).counts.spec_count(l),
            final(self).counts.total() == old(self).counts.total() + 1,
    {
        self.counts.bump(label);
    }

    /// Classify and count one statement node.
    pub fn visit_stmt(&mut self, s: &StmtKind)
        requires
            old(self).counts.wf(),
            old(self).counts.total() < u32::MAX,
        ensures
            final(self).counts.wf(),
            final(self).counts.spec_count(stmt_label(*s)) == old(self).counts.spec_count(
                stmt_label(*s),
            ) + 1,
            forall|l: Label|
                l != stmt_label(*s) ==> final(self).counts.spec_count(l) == old(
                    self,
                ).counts.spec_count(l),
            final(self).counts.total() == old(self).counts.total() + 1,
    {
        match s {
            StmtKind::Local => self.bump(Label::StmtLocal),
            StmtKind::Item => self.bump(Label::StmtItem),
            StmtKind::Expr => self.bump(Label::StmtExpr),
            StmtKind::Macro => self.bump(Label::StmtMacro),
        }
    }

    /// Classify and count one expression node.
    pub fn visit_expr(&mut self, ex: &ExprKind)
        requires
            old(self).counts.wf(),
            old(self).counts.total() < u32::MAX,
        ensures
            final(self).counts.wf(),
            final(self).counts.spec_count(expr_label(*ex)) == old(self).counts.spec_count(
                expr_label(*ex),
            ) + 1,
            forall|l: Label|
                l != expr_label(*ex) ==> final(self).counts.spec_count(l) == old(
                    self,
                ).counts.spec_count(l),
            final(self).counts.total() == old(self).counts.total() + 1,
    {
        match ex {
            ExprKind::If => self.bump(Label::ExprIf),
            ExprKind::ForLoop => self.bump(Label::ExprForLoop),
            ExprKind::While => self.bump(Label::ExprWhile),
            ExprKind::Loop => self.bump(Label::ExprLoop),
            ExprKind::Match => self.bump(Label::ExprMatch),
            ExprKind::Call => self.bump(Label::ExprCall),
            ExprKind::MethodCall => self.bump(Label::ExprMethodCall),
            ExprKind::Struct => self.bump(Label::ExprStruct),
            ExprKind::Field => self.bump(Label::ExprField),
            ExprKind::Path => self.bump(Label::ExprPath),
            ExprKind::Reference => self.bump(Label::ExprReference),
            ExprKind::Return => self.bump(Label::ExprReturn),
            ExprKind::Macro => self.bump(Label::ExprMacro),
            ExprKind::Lit => self.bump(Label::ExprLit),
            ExprKind::Array => self.bump(Label::ExprArray),
            ExprKind::Tuple => self.bump(Label::ExprTuple),
            ExprKind::Try => self.bump(Label::ExprTry),
            ExprKind::Await => self.bump(Label::ExprAwait),
            ExprKind::Closure => self.bump(Label::ExprClosure),
            ExprKind::Assign => self.bump(Label::ExprAssign),
            _ => self.bump(Label::ExprOther),
        }
    }

    /// Classify and count one type node.
    pub fn visit_type(&mut self, t: &TypeKind)
        requires
            old(self).counts.wf(),
            old(self).counts.total() < u32::MAX,
        ensures
            final(self).counts.wf(),
            final(self).counts.spec_count(type_label(*t)) == old(self).counts.spec_count(
                type_label(*t),
            ) + 1,
            forall|l: Label|
                l != type_label(*t) ==> final(self).counts.spec_count(l) == old(
                    self,
                ).counts.spec_count(l),
            final(self).counts.total() == old(self).counts.total() + 1,
    {
        match t {
            TypeKind::Path => self.bump(Label::TypePath),
            TypeKind::Reference => self.bump(Label::TypeReference),
            TypeKind::Array => self.bump(Label::TypeArray),
            TypeKind::Slice => self.bump(Label::TypeSlice),
            TypeKind::Tuple => self.bump(Label::TypeTuple),
            TypeKind::BareFn => self.bump(Label::TypeBareFn),
            TypeKind::Ptr => self.bump(Label::TypePtr),
            TypeKind::Infer => self.bump(Label::TypeInfer),
            _ => self.bump(Label::TypeOther),
        }
    }

    /// Classify and count one pattern node.
    pub fn visit_pat(&mut self, p: &PatKind)
        requires
            old(self).counts.wf(),
            old(self).counts.total() < u32::MAX,
        ensures
            final(self).counts.wf(),
            final(self).counts.spec_count(pat_label(*p)) == old(self).counts.spec_count(
                pat_label(*p),
            ) + 1,
            forall|l: Label|
                l != pat_label(*p) ==> final(self).counts.spec_count(l) == old(
                    self,
                ).counts.spec_count(l),
            final(self).counts.total() == old(self).counts.total() + 1,
    {
        match p {
            PatKind::Ident => self.bump(Label::PatIdent),
            PatKind::Wild => self.bump(Label::PatWild),
            PatKind::Struct => self.bump(Label::PatStruct),
            PatKind::Tuple => self.bump(Label::PatTuple),
            PatKind::TupleStruct => self.bump(Label::PatTupleStruct),
            PatKind::Slice => self.bump(Label::PatSlice),
            PatKind::Path => self.bump(Label::PatPath),
            PatKind::Lit => self.bump(Label::PatLit),
            _ => self.bump(Label::PatOther),
        }
    }

    /// Count one macro invocation; macro sub-kinds are not distinguished.
    pub fn visit_macro(&mut self)
        requires
            old(self).counts.wf(),
            old(self).counts.total() < u32::MAX,
        ensures
            final(self).counts.wf(),
            final(self).counts.spec_count(Label::MacroInvocation) == old(self).counts.spec_count(
                Label::MacroInvocation,
            ) + 1,
            forall|l: Label|
                l != Label::MacroInvocation ==> final(self).counts.spec_count(l) == old(
                    self,
                ).counts.spec_count(l),
            final(self).counts.total() == old(self).counts.total() + 1,
    {
        self.bump(Label::MacroInvocation);
    }

    /// Count one attribute; attribute sub-kinds are not distinguished.
    pub fn visit_attribute(&mut self)
        requires
            old(self).counts.wf(),
            old(self).counts.total() < u32::MAX,
        ensures
            final(self).counts.wf(),
            final(self).counts.spec_count(Label::Attribute) == old(self).counts.spec_count(
                Label::Attribute,
            ) + 1,
            forall|l: Label|
                l != Label::Attribute ==> final(self).counts.spec_count(l) == old(
                    self,
                ).counts.spec_count(l),
            final(self).counts.total() == old(self).counts.total() + 1,
    {
        self.bump(Label::Attribute);
    }

    /// Count one block; block sub-kinds are not distinguished.
    pub fn visit_block(&mut self)
        requires
            old(self).counts.wf(),
            old(self).counts.total() < u32::MAX,
        ensures
            final(self).counts.wf(),
            final(self).counts.spec_count(Label::Block) == old(self).counts.spec_count(
                Label::Block,
            ) + 1,
            forall|l: Label|
                l != Label::Block ==> final(self).counts.spec_count(l) == old(
                    self,
                ).counts.spec_count(l),
            final(self).counts.total() == old(self).counts.total() + 1,
    {
        self.bump(Label::Block);
    }

    /// Walk one subtree depth-first, counting every node into this counter:
    /// the node itself first, then each child in syntactic order. A counted
    /// node's children are still visited — counts add up across nesting.
    pub fn visit_node(&mut self, n: &Node)
        requires
            old(self).counts.wf(),
            old(self).counts.total() + node_weight(*n) <= u32::MAX,
        ensures
            final(self).counts.wf(),
            forall|l: Label|
                final(self).counts.spec_count(l) == old(self).counts.spec_count(l) + node_count(
                    *n,
                    l,
                ),
            final(self).counts.total() == old(self).counts.total() + node_weight(*n),
        decreases *n,
    {
        match &n.kind {
            NodeKind::Stmt(k) => self.visit_stmt(k),
            NodeKind::Expr(k) => self.visit_expr(k),
            NodeKind::Type(k) => self.visit_type(k),
            NodeKind::Pat(k) => self.visit_pat(k),
            NodeKind::Macro => self.visit_macro(),
            NodeKind::Attribute => self.visit_attribute(),
            NodeKind::Block => self.visit_block(),
            NodeKind::Container => {},
        }
        let m = n.children.len();
        let mut i: usize = 0;
        while i < m
            invariant
                i <= m,
                m == n.children@.len(),
                self.counts.wf(),
                old(self).counts.total() + node_weight(*n) <= u32::MAX,
                forall|l: Label|
                    self.counts.spec_count(l) == old(self).counts.spec_count(l) + own_count(
                        n.kind,
                        l,
                    ) + seq_node_count(n.children@.take(i as int), l),
                self.counts.total() == old(self).counts.total() + own_weight(n.kind)
                    + seq_node_weight(n.children@.take(i as int)),
            decreases m - i,
        {
            proof {
                lemma_seq_node_weight_snoc(n.children@, i as int);
                lemma_seq_node_weight_prefix(n.children@, i + 1);
            }
            self.visit_node(&n.children[i]);
            proof {
                let s = n.children@;
                assert forall|l: Label|
                    seq_node_count(s.take(i + 1), l) == seq_node_count(s.take(i as int), l)
                        + node_count(s[i as int], l) by {
                    lemma_seq_node_count_snoc(s, i as int, l);
                }
            }
            i += 1;
        }
        proof {
            assert(n.children@.take(m as int) =~= n.children@);
        }
    }
}

/// Number of labeled nodes in a subtree, or `None` where that number does
/// not fit a `u32` count.
pub fn tree_weight(n: &Node) -> (r: Option<u32>)
    ensures
        match r {
            Some(w) => w == node_weight(*n),
            None => node_weight(*n) > u32::MAX,
        },
    decreases *n,
{
    let mut total: u32 = match &n.kind {
        NodeKind::Container => 0,
        _ => 1,
    };
    let m = n.children.len();
    let mut i: usize = 0;
    while i < m
        invariant
            i <= m,
            m == n.children@.len(),
            total == own_weight(n.kind) + seq_node_weight(n.children@.take(i as int)),
        decreases m - i,
    {
        proof {
            lemma_seq_node_weight_snoc(n.children@, i as int);
            lemma_seq_node_weight_prefix(n.children@, i + 1);
        }
        match tree_weight(&n.children[i]) {
            None => {
                return None;
            },
            Some(w) => {
                if w > u32::MAX - total {
                    return None;
                }
                total = total + w;
            },
        }
        i += 1;
    }
    proof {
        assert(n.children@.take(m as int) =~= n.children@);
    }
    Some(total)
}

/// Count every node of a parsed program into a feature map by one
/// exhaustive depth-first traversal. Extraction never fails on a tree whose
/// node count fits the counters, and the result counts exactly the labels
/// of the tree: `None` only on the machine limit of more than `u32::MAX`
/// labeled nodes.
pub fn count_nodes(root: &Node) -> (r: Option<FeatureMap>)
    ensures
        match r {
            Some(m) => m.wf() && m.total() == node_weight(*root) && forall|l: Label|
                m.spec_count(l) == node_count(*root, l),
            None => node_weight(*root) > u32::MAX,
        },
{
    match tree_weight(root) {
        None => None,
        Some(_) => {
            let mut counter = NodeCounter::default();
            counter.visit_node(root);
            Some(counter.counts)
        },
    }
}

} // verus!
