//! Structural similarity of source files.
//!
//! A parsed program is digested into a sparse feature map: every syntax-tree
//! node is classified into a small taxonomy of labels and counted. Two such
//! fingerprints are compared with cosine similarity, computed here in exact
//! integer arithmetic (dot product and squared norms); callers take the square
//! roots when a floating-point score is wanted.

pub mod ast;
pub mod dense;
pub mod embeddings;
pub mod features;
pub mod similarity;
pub mod vector;

pub use ast::Node;
pub use ast::NodeCounter;
pub use ast::NodeKind;
pub use ast::StmtKind;
pub use ast::ExprKind;
pub use ast::TypeKind;
pub use ast::PatKind;
pub use ast::count_nodes;
pub use embeddings::Embedding;
pub use features::FeatureMap;
pub use features::Label;
pub use similarity::Similarity;
pub use similarity::cosine_similarity;
pub use similarity::similarity_from_counts;
