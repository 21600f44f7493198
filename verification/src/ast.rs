//! The entity tree that the analysis walks.
//!
//! A `Node` carries, as plain values, everything the analysis reads from one
//! element of a parsed C/C++ translation unit: its kind, its declared name,
//! its source location, its formal-parameter count, the declared name of the
//! entity it references (for reference nodes), and its children in lexical
//! source order. The front end that parses source text builds these trees;
//! the library only reads them.

use vstd::prelude::*;

verus! {

/// The node kinds the analysis distinguishes. Every other construct a front
/// end may produce is mapped to `Other`; for the purposes of this library,
/// `Other` stands for a statement- or expression-like construct, since those
/// are the only unclassified nodes the calculator ever reaches.
#[derive(Clone, Copy, Debug, PartialEq, Eq, Structural)]
pub enum NodeKind {
    CompoundStmt,
    IfStmt,
    WhileStmt,
    DoStmt,
    ForStmt,
    SwitchStmt,
    CaseStmt,
    DefaultStmt,
    FunctionDecl,
    Method,
    Namespace,
    ClassDecl,
    StructDecl,
    UnionDecl,
    Other,
}

/// A resolved source location: the file it lies in, the first and last line
/// of the entity, and whether the front end places it in the file that was
/// originally requested for parsing (as opposed to an included header).
pub struct Location {
    pub file: String,
    pub line_start: u32,
    pub line_end: u32,
    pub in_main_file: bool,
}

/// One node of the entity tree.
///
/// `ref_name` is `Some(n)` exactly when this node is a reference to another
/// entity whose declared name is `n`; the cross-tree link itself is not kept,
/// only the one fact the analysis reads from it.
pub struct Node {
    pub kind: NodeKind,
    pub name: Option<String>,
    pub loc: Option<Location>,
    pub arg_count: usize,
    pub ref_name: Option<String>,
    pub children: Vec<Node>,
}

/// The five conditional statement kinds.
pub open spec fn is_conditional_kind(k: NodeKind) -> bool {
    ||| k == NodeKind::IfStmt
    ||| k == NodeKind::WhileStmt
    ||| k == NodeKind::DoStmt
    ||| k == NodeKind::ForStmt
    ||| k == NodeKind::SwitchStmt
}

/// Statement- or expression-like kinds: the only ones on which the
/// conditional test may be asked.
pub open spec fn is_stmt_like(k: NodeKind) -> bool {
    ||| k == NodeKind::CompoundStmt
    ||| is_conditional_kind(k)
    ||| k == NodeKind::CaseStmt
    ||| k == NodeKind::DefaultStmt
    ||| k == NodeKind::Other
}

/// Whether a node is statement- or expression-like: only such nodes may be
/// asked whether they are conditional.
pub fn is_statement(stmt: &Node) -> (r: bool)
    ensures
        r == is_stmt_like(stmt.kind),
{
    match stmt.kind {
        NodeKind::CompoundStmt => true,
        NodeKind::IfStmt => true,
        NodeKind::WhileStmt => true,
        NodeKind::DoStmt => true,
        NodeKind::ForStmt => true,
        NodeKind::SwitchStmt => true,
        NodeKind::CaseStmt => true,
        NodeKind::DefaultStmt => true,
        NodeKind::Other => true,
        _ => false,
    }
}

/// Kinds that introduce a naming scope the traversal descends into.
pub open spec fn is_scope_kind(k: NodeKind) -> bool {
    ||| k == NodeKind::Namespace
    ||| k == NodeKind::ClassDecl
    ||| k == NodeKind::StructDecl
    ||| k == NodeKind::UnionDecl
}

/// Function-like kinds: the entities a record is produced for.
pub open spec fn is_function_kind(k: NodeKind) -> bool {
    ||| k == NodeKind::FunctionDecl
    ||| k == NodeKind::Method
}

} // verus!
