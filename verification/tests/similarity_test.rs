//! Library-level tests of the feature map, the embedding and the
//! similarity engine, on hand-built fingerprints.

use resemble::ast::count_nodes;
use resemble::ast::ExprKind;
use resemble::ast::Node;
use resemble::ast::NodeKind;
use resemble::ast::StmtKind;
use resemble::ast::tree_weight;
use resemble::embeddings::Embedding;
use resemble::features::FeatureMap;
use resemble::features::Label;
use resemble::similarity::cosine_similarity;
use resemble::similarity::similarity_from_counts;
use resemble::similarity::Similarity;

fn map_of(pairs: &[(Label, u32)]) -> FeatureMap {
    let mut m = FeatureMap::new();
    for &(label, count) in pairs {
        for _ in 0..count {
            m.bump(label);
        }
    }
    m
}

fn score(sim: Similarity) -> f64 {
    if sim.norm_a_sq == 0 || sim.norm_b_sq == 0 {
        return 0.0;
    }
    let quotient =
        (sim.dot as f64) / ((sim.norm_a_sq as f64).sqrt() * (sim.norm_b_sq as f64).sqrt());
    quotient.clamp(0.0, 1.0)
}

#[test]
fn test_bump_and_get() {
    let m = map_of(&[(Label::Block, 2), (Label::ExprCall, 1)]);
    assert_eq!(m.get(Label::Block), 2);
    assert_eq!(m.get(Label::ExprCall), 1);
    assert_eq!(m.get(Label::ExprIf), 0);
    assert_eq!(m.len(), 2);
}

#[test]
fn test_l2_norm_sq_exact() {
    let e = Embedding::from_counts(map_of(&[(Label::Block, 3), (Label::ExprCall, 4)]));
    assert_eq!(e.l2_norm_sq(), 25);

    let empty = Embedding::default();
    assert_eq!(empty.l2_norm_sq(), 0);
}

#[test]
fn test_exact_similarity_parts() {
    let a = map_of(&[(Label::Block, 2)]);
    let b = map_of(&[(Label::Block, 3)]);
    let sim = similarity_from_counts(a, b);
    assert_eq!(sim.dot, 6);
    assert_eq!(sim.norm_a_sq, 4);
    assert_eq!(sim.norm_b_sq, 9);
    assert_eq!(score(sim), 1.0);
}

#[test]
fn test_symmetry_concrete() {
    let a = map_of(&[(Label::Block, 2), (Label::ExprCall, 5), (Label::StmtLocal, 1)]);
    let b = map_of(&[(Label::ExprCall, 3), (Label::Block, 7)]);
    let ab = similarity_from_counts(a.clone(), b.clone());
    let ba = similarity_from_counts(b, a);
    assert_eq!(ab.dot, ba.dot);
    assert_eq!(ab.norm_a_sq, ba.norm_b_sq);
    assert_eq!(ab.norm_b_sq, ba.norm_a_sq);
    assert_eq!(score(ab), score(ba));
}

#[test]
fn test_range_concrete() {
    let a = map_of(&[(Label::Block, 9), (Label::ExprIf, 1)]);
    let b = map_of(&[(Label::Block, 1), (Label::ExprMatch, 6)]);
    let sim = cosine_similarity(
        &Embedding::from_counts(a),
        &Embedding::from_counts(b),
    );
    // Cauchy-Schwarz, exactly: dot^2 <= |a|^2 * |b|^2.
    assert!(sim.dot * sim.dot <= sim.norm_a_sq * sim.norm_b_sq);
    let s = score(sim);
    assert!((0.0..=1.0).contains(&s));
}

#[test]
fn test_zero_vector_rule() {
    let empty = Embedding::default();
    let full = Embedding::from_counts(map_of(&[(Label::Block, 4)]));

    // An empty embedding scores zero against anything, itself included.
    let self_sim = cosine_similarity(&empty, &empty);
    assert!(self_sim.is_zero());
    assert_eq!(score(self_sim), 0.0);

    let mixed = cosine_similarity(&empty, &full);
    assert!(mixed.is_zero());
    assert_eq!(mixed.dot, 0);
    assert_eq!(score(mixed), 0.0);

    let live = cosine_similarity(&full, &full);
    assert!(!live.is_zero());
    assert_eq!(score(live), 1.0);
}

#[test]
fn test_probe_equivalence_concrete() {
    // The smaller map drives the iteration; flipping the arguments flips
    // which side is probed, and the dot product must not move.
    let small = map_of(&[(Label::ExprCall, 2)]);
    let large = map_of(&[
        (Label::ExprCall, 3),
        (Label::Block, 1),
        (Label::StmtLocal, 4),
        (Label::PatIdent, 4),
    ]);
    let sl = similarity_from_counts(small.clone(), large.clone());
    let ls = similarity_from_counts(large, small);
    assert_eq!(sl.dot, 6);
    assert_eq!(ls.dot, 6);

    // Equal-size maps as well.
    let p = map_of(&[(Label::Block, 2), (Label::ExprIf, 3)]);
    let q = map_of(&[(Label::ExprIf, 5), (Label::StmtExpr, 1)]);
    let pq = similarity_from_counts(p.clone(), q.clone());
    let qp = similarity_from_counts(q, p);
    assert_eq!(pq.dot, 15);
    assert_eq!(qp.dot, 15);
}

#[test]
fn test_count_nodes_small_tree() {
    // A call nested in a loop nested in a block: every level still counts.
    let call = Node { kind: NodeKind::Expr(ExprKind::Call), children: Vec::new() };
    let body = Node { kind: NodeKind::Block, children: vec![call] };
    let looping = Node { kind: NodeKind::Expr(ExprKind::Loop), children: vec![body] };
    let stmt = Node { kind: NodeKind::Stmt(StmtKind::Expr), children: vec![looping] };
    let root = Node { kind: NodeKind::Container, children: vec![stmt] };

    assert_eq!(tree_weight(&root), Some(4));
    let counts = count_nodes(&root).unwrap();
    assert_eq!(counts.get(Label::ExprCall), 1);
    assert_eq!(counts.get(Label::ExprLoop), 1);
    assert_eq!(counts.get(Label::Block), 1);
    assert_eq!(counts.get(Label::StmtExpr), 1);
    assert_eq!(counts.get(Label::ExprOther), 0);
    assert_eq!(counts.len(), 4);
}
