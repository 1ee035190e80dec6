//! End-to-end tests: parse small programs with the external grammar parser,
//! mirror the parse tree into the library's node tree, and compare the
//! extracted fingerprints.

use resemble::ast::count_nodes;
use resemble::ast::ExprKind;
use resemble::ast::Node;
use resemble::ast::NodeKind;
use resemble::ast::PatKind;
use resemble::ast::StmtKind;
use resemble::ast::TypeKind;
use resemble::features::FeatureMap;
use resemble::features::Label;
use resemble::similarity::similarity_from_counts;
use resemble::similarity::Similarity;
use syn::visit::Visit;

/// Builds the library's node tree while walking a parse tree, keeping the
/// parser's own traversal order and nesting.
struct TreeBuilder {
    stack: Vec<Node>,
}

impl TreeBuilder {
    fn new() -> TreeBuilder {
        TreeBuilder {
            stack: vec![Node { kind: NodeKind::Container, children: Vec::new() }],
        }
    }

    fn enter(&mut self, kind: NodeKind) {
        self.stack.push(Node { kind, children: Vec::new() });
    }

    fn exit(&mut self) {
        let done = self.stack.pop().expect("unbalanced traversal");
        self.stack
            .last_mut()
            .expect("unbalanced traversal")
            .children
            .push(done);
    }

    fn finish(mut self) -> Node {
        assert_eq!(self.stack.len(), 1);
        self.stack.pop().expect("unbalanced traversal")
    }
}

fn stmt_kind(s: &syn::Stmt) -> StmtKind {
    match s {
        syn::Stmt::Local(_) => StmtKind::Local,
        syn::Stmt::Item(_) => StmtKind::Item,
        syn::Stmt::Expr(..) => StmtKind::Expr,
        syn::Stmt::Macro(_) => StmtKind::Macro,
    }
}

fn expr_kind(e: &syn::Expr) -> ExprKind {
    match e {
        syn::Expr::Array(_) => ExprKind::Array,
        syn::Expr::Assign(_) => ExprKind::Assign,
        syn::Expr::Async(_) => ExprKind::Async,
        syn::Expr::Await(_) => ExprKind::Await,
        syn::Expr::Binary(_) => ExprKind::Binary,
        syn::Expr::Block(_) => ExprKind::Block,
        syn::Expr::Break(_) => ExprKind::Break,
        syn::Expr::Call(_) => ExprKind::Call,
        syn::Expr::Cast(_) => ExprKind::Cast,
        syn::Expr::Closure(_) => ExprKind::Closure,
        syn::Expr::Const(_) => ExprKind::Const,
        syn::Expr::Continue(_) => ExprKind::Continue,
        syn::Expr::Field(_) => ExprKind::Field,
        syn::Expr::ForLoop(_) => ExprKind::ForLoop,
        syn::Expr::Group(_) => ExprKind::Group,
        syn::Expr::If(_) => ExprKind::If,
        syn::Expr::Index(_) => ExprKind::Index,
        syn::Expr::Infer(_) => ExprKind::Infer,
        syn::Expr::Let(_) => ExprKind::Let,
        syn::Expr::Lit(_) => ExprKind::Lit,
        syn::Expr::Loop(_) => ExprKind::Loop,
        syn::Expr::Macro(_) => ExprKind::Macro,
        syn::Expr::Match(_) => ExprKind::Match,
        syn::Expr::MethodCall(_) => ExprKind::MethodCall,
        syn::Expr::Paren(_) => ExprKind::Paren,
        syn::Expr::Path(_) => ExprKind::Path,
        syn::Expr::Range(_) => ExprKind::Range,
        syn::Expr::RawAddr(_) => ExprKind::RawAddr,
        syn::Expr::Reference(_) => ExprKind::Reference,
        syn::Expr::Repeat(_) => ExprKind::Repeat,
        syn::Expr::Return(_) => ExprKind::Return,
        syn::Expr::Struct(_) => ExprKind::Struct,
        syn::Expr::Try(_) => ExprKind::Try,
        syn::Expr::TryBlock(_) => ExprKind::TryBlock,
        syn::Expr::Tuple(_) => ExprKind::Tuple,
        syn::Expr::Unary(_) => ExprKind::Unary,
        syn::Expr::Unsafe(_) => ExprKind::Unsafe,
        syn::Expr::While(_) => ExprKind::While,
        syn::Expr::Yield(_) => ExprKind::Yield,
        _ => ExprKind::Verbatim,
    }
}

fn type_kind(t: &syn::Type) -> TypeKind {
    match t {
        syn::Type::Array(_) => TypeKind::Array,
        syn::Type::BareFn(_) => TypeKind::BareFn,
        syn::Type::Group(_) => TypeKind::Group,
        syn::Type::ImplTrait(_) => TypeKind::ImplTrait,
        syn::Type::Infer(_) => TypeKind::Infer,
        syn::Type::Macro(_) => TypeKind::Macro,
        syn::Type::Never(_) => TypeKind::Never,
        syn::Type::Paren(_) => TypeKind::Paren,
        syn::Type::Path(_) => TypeKind::Path,
        syn::Type::Ptr(_) => TypeKind::Ptr,
        syn::Type::Reference(_) => TypeKind::Reference,
        syn::Type::Slice(_) => TypeKind::Slice,
        syn::Type::TraitObject(_) => TypeKind::TraitObject,
        syn::Type::Tuple(_) => TypeKind::Tuple,
        _ => TypeKind::Verbatim,
    }
}

fn pat_kind(p: &syn::Pat) -> PatKind {
    match p {
        syn::Pat::Const(_) => PatKind::Const,
        syn::Pat::Ident(_) => PatKind::Ident,
        syn::Pat::Lit(_) => PatKind::Lit,
        syn::Pat::Macro(_) => PatKind::Macro,
        syn::Pat::Or(_) => PatKind::Or,
        syn::Pat::Paren(_) => PatKind::Paren,
        syn::Pat::Path(_) => PatKind::Path,
        syn::Pat::Range(_) => PatKind::Range,
        syn::Pat::Reference(_) => PatKind::Reference,
        syn::Pat::Rest(_) => PatKind::Rest,
        syn::Pat::Slice(_) => PatKind::Slice,
        syn::Pat::Struct(_) => PatKind::Struct,
        syn::Pat::Tuple(_) => PatKind::Tuple,
        syn::Pat::TupleStruct(_) => PatKind::TupleStruct,
        syn::Pat::Type(_) => PatKind::Type,
        syn::Pat::Wild(_) => PatKind::Wild,
        _ => PatKind::Verbatim,
    }
}

impl<'ast> Visit<'ast> for TreeBuilder {
    fn visit_stmt(&mut self, s: &'ast syn::Stmt) {
        self.enter(NodeKind::Stmt(stmt_kind(s)));
        syn::visit::visit_stmt(self, s);
        self.exit();
    }

    fn visit_expr(&mut self, e: &'ast syn::Expr) {
        self.enter(NodeKind::Expr(expr_kind(e)));
        syn::visit::visit_expr(self, e);
        self.exit();
    }

    fn visit_type(&mut self, t: &'ast syn::Type) {
        self.enter(NodeKind::Type(type_kind(t)));
        syn::visit::visit_type(self, t);
        self.exit();
    }

    fn visit_pat(&mut self, p: &'ast syn::Pat) {
        self.enter(NodeKind::Pat(pat_kind(p)));
        syn::visit::visit_pat(self, p);
        self.exit();
    }

    fn visit_macro(&mut self, m: &'ast syn::Macro) {
        self.enter(NodeKind::Macro);
        syn::visit::visit_macro(self, m);
        self.exit();
    }

    fn visit_attribute(&mut self, a: &'ast syn::Attribute) {
        self.enter(NodeKind::Attribute);
        syn::visit::visit_attribute(self, a);
        self.exit();
    }

    fn visit_block(&mut self, b: &'ast syn::Block) {
        self.enter(NodeKind::Block);
        syn::visit::visit_block(self, b);
        self.exit();
    }
}

fn counts_of_item_fn(src: &str) -> FeatureMap {
    let f = syn::parse_str::<syn::ItemFn>(src).unwrap();
    let mut builder = TreeBuilder::new();
    builder.visit_item_fn(&f);
    count_nodes(&builder.finish()).unwrap()
}

fn counts_of_file(src: &str) -> FeatureMap {
    let f = syn::parse_file(src).unwrap();
    let mut builder = TreeBuilder::new();
    builder.visit_file(&f);
    count_nodes(&builder.finish()).unwrap()
}

/// Floating-point cosine score of an exact similarity result, with the
/// zero-norm rule and the boundary clamp.
fn score(sim: Similarity) -> f64 {
    if sim.norm_a_sq == 0 || sim.norm_b_sq == 0 {
        return 0.0;
    }
    let quotient =
        (sim.dot as f64) / ((sim.norm_a_sq as f64).sqrt() * (sim.norm_b_sq as f64).sqrt());
    quotient.clamp(0.0, 1.0)
}

#[test]
fn test_similarity_same_small_snippet() {
    let a = "fn foo() { let x = 1; println!(\"{}\", x); }";
    let b = "fn foo() { let x = 2; println!(\"{}\", x); }";

    let counts_a = counts_of_item_fn(a);
    let counts_b = counts_of_item_fn(b);

    let sim = score(similarity_from_counts(counts_a, counts_b));
    assert!(sim > 0.0);
}

#[test]
fn test_scenario_near_identical_snippets() {
    let a = "fn foo() { let x = 1; println!(\"{}\", x); }";
    let b = "fn foo() { let x = 2; println!(\"{}\", x); }";

    let counts_a = counts_of_item_fn(a);
    let counts_b = counts_of_item_fn(b);

    // The differing literal value changes no count: both snippets bind one
    // local, invoke one macro in statement position, bind one identifier
    // pattern and hold one literal expression.
    for label in [
        Label::StmtLocal,
        Label::StmtMacro,
        Label::MacroInvocation,
        Label::PatIdent,
        Label::ExprLit,
        Label::Block,
    ] {
        assert_eq!(counts_a.get(label), counts_b.get(label));
    }
    assert_eq!(counts_a.get(Label::StmtLocal), 1);
    assert_eq!(counts_a.get(Label::MacroInvocation), 1);

    let sim = score(similarity_from_counts(counts_a, counts_b));
    assert!(sim > 0.9);
}

#[test]
fn test_scenario_disjoint_programs() {
    // Non-empty programs with no feature label in common: one contributes
    // only a type-path node, the other only a block node.
    let counts_a = counts_of_file("type X = u8;");
    let counts_b = counts_of_file("fn f() {}");

    assert_eq!(counts_a.get(Label::TypePath), 1);
    assert_eq!(counts_a.get(Label::Block), 0);
    assert_eq!(counts_b.get(Label::Block), 1);
    assert_eq!(counts_b.get(Label::TypePath), 0);

    let sim = similarity_from_counts(counts_a, counts_b);
    assert_eq!(sim.dot, 0);
    assert!(!sim.is_zero());
    assert_eq!(score(sim), 0.0);
}

#[test]
fn test_uncommon_variants_land_in_other() {
    // Binary and cast expressions are outside the kept expression list and
    // must land in the expression `Other` bucket, without any error.
    let counts = counts_of_item_fn("fn f() { let y = (1 + 2) as u64; }");

    // `1 + 2` is one binary expression; `(...) as u64` is one cast; the
    // parenthesized group is a third uncommon variant.
    assert_eq!(counts.get(Label::ExprOther), 3);
    assert_eq!(counts.get(Label::ExprLit), 2);
    assert_eq!(counts.get(Label::TypePath), 1);
}

#[test]
fn test_nested_constructs_count_independently() {
    let counts = counts_of_item_fn("fn f() { while running() { step(); step(); } }");

    // The loop counts once; each call nested inside it still counts on its
    // own label, as does the call in the loop condition.
    assert_eq!(counts.get(Label::ExprWhile), 1);
    assert_eq!(counts.get(Label::ExprCall), 3);
    assert_eq!(counts.get(Label::ExprPath), 3);
    // Outer fn body and loop body are two distinct blocks.
    assert_eq!(counts.get(Label::Block), 2);
}

#[test]
fn test_statement_macro_versus_expression_macro() {
    // A macro invocation in statement position and one in expression
    // position land in different statement/expression labels, but both
    // count one bare macro invocation.
    let counts_stmt = counts_of_item_fn("fn f() { println!(\"hi\"); }");
    assert_eq!(counts_stmt.get(Label::StmtMacro), 1);
    assert_eq!(counts_stmt.get(Label::ExprMacro), 0);
    assert_eq!(counts_stmt.get(Label::MacroInvocation), 1);

    let counts_expr = counts_of_item_fn("fn f() { let s = format!(\"hi\"); }");
    assert_eq!(counts_expr.get(Label::StmtMacro), 0);
    assert_eq!(counts_expr.get(Label::ExprMacro), 1);
    assert_eq!(counts_expr.get(Label::MacroInvocation), 1);
}

#[test]
fn test_attribute_and_item_statement() {
    let counts = counts_of_file("#[derive(Clone)]\nstruct S { a: u32, b: bool }");
    assert_eq!(counts.get(Label::Attribute), 1);
    // Two field types, both plain paths.
    assert_eq!(counts.get(Label::TypePath), 2);
    // A top-level item is not a statement.
    assert_eq!(counts.get(Label::StmtItem), 0);

    let nested = counts_of_item_fn("fn f() { struct Inner; let p = (); }");
    // An item inside a block is an item-declaration statement.
    assert_eq!(nested.get(Label::StmtItem), 1);
    assert_eq!(nested.get(Label::StmtLocal), 1);
    // `()` is a tuple expression with no elements.
    assert_eq!(nested.get(Label::ExprTuple), 1);
}
