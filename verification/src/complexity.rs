//! The complexity calculator: folds a function body's statement tree into a
//! control-flow `(node count, edge count)` pair.
//!
//! The score a caller derives from the pair is `edges - nodes`, a simplified
//! McCabe measure that deliberately omits the classical `+ 2` term for the
//! connected component, so a body with no decision points scores `0`.

use vstd::prelude::*;
use crate::ast::{Node, NodeKind, is_conditional_kind, is_stmt_like};

verus! {

/// The controlled body of a conditional, located by position among its
/// children: for an `if` the second child (a third child, when present, is
/// the else-branch); for the other conditionals the last child.
pub open spec fn spec_body(s: Node) -> Node {
    if s.kind == NodeKind::IfStmt {
        s.children@[1]
    } else {
        s.children@[s.children@.len() - 1]
    }
}

/// The else-branch of an `if` with three or more children; `None` otherwise.
pub open spec fn spec_else_body(s: Node) -> Option<Node> {
    if s.kind == NodeKind::IfStmt && s.children@.len() >= 3 {
        Some(s.children@[2])
    } else {
        None
    }
}

/// Shape a conditional must have for its body to be located positionally:
/// an `if` needs its condition and body (and possibly an else-branch); the
/// other conditionals need at least one child, the last being the body.
pub open spec fn cond_shape(s: Node) -> bool {
    if s.kind == NodeKind::IfStmt {
        s.children@.len() >= 2
    } else {
        s.children@.len() >= 1
    }
}

/// The counts a conditional contributes through its controlled bodies:
/// the body's own counts; an else-branch adds its counts plus one edge for
/// the second branch target.
pub open spec fn cond_counts(s: Node) -> (int, int)
    decreases s, 1int, 0int,
{
    if s.kind == NodeKind::IfStmt {
        if s.children@.len() >= 3 {
            let b = counts(s.children@[1]);
            let e = counts(s.children@[2]);
            (b.0 + e.0, b.1 + e.1 + 1)
        } else if s.children@.len() == 2 {
            counts(s.children@[1])
        } else {
            (0, 0)
        }
    } else {
        if s.children@.len() >= 1 {
            counts(s.children@[s.children@.len() - 1])
        } else {
            (0, 0)
        }
    }
}

/// What one statement of a block contributes to the fold: one node and one
/// edge always; a conditional adds one branch edge (unless it is a `switch`)
/// and its bodies' counts; a `case` or `default` label adds one dispatch
/// edge from the enclosing `switch`.
pub open spec fn child_counts(s: Node) -> (int, int)
    decreases s, 2int, 0int,
{
    let cond = is_conditional_kind(s.kind);
    let nodes = 1int + if cond { cond_counts(s).0 } else { 0int };
    let edges = 1int
        + if cond {
            (if s.kind != NodeKind::SwitchStmt { 1int } else { 0int }) + cond_counts(s).1
        } else { 0int }
        + if s.kind == NodeKind::CaseStmt || s.kind == NodeKind::DefaultStmt { 1int } else { 0int };
    (nodes, edges)
}

/// The fold over the first `i` children of block `c`, starting from `(0, 0)`.
pub open spec fn fold_counts(c: Node, i: int) -> (int, int)
    decreases c, 1int, i,
{
    if 0 < i <= c.children@.len() {
        let p = fold_counts(c, i - 1);
        let q = child_counts(c.children@[i - 1]);
        (p.0 + q.0, p.1 + q.1)
    } else {
        (0, 0)
    }
}

/// The calculator: a block folds over its children; a bare conditional
/// contributes its bodies' counts; any other single statement is one node
/// reached by one edge.
pub open spec fn counts(n: Node) -> (int, int)
    decreases n, 2int, 0int,
{
    if n.kind == NodeKind::CompoundStmt {
        fold_counts(n, n.children@.len() as int)
    } else if is_conditional_kind(n.kind) {
        cond_counts(n)
    } else {
        (1, 1)
    }
}

/// Well-formedness of a statement tree as the calculator walks it: the node
/// is statement-like; a block's children are statement-like and, where
/// conditional, well shaped; a conditional's bodies are again well formed.
pub open spec fn wf_stmt(n: Node) -> bool
    decreases n, 3int, 0int,
{
    &&& is_stmt_like(n.kind)
    &&& (n.kind == NodeKind::CompoundStmt ==> wf_stmt_children(n, n.children@.len() as int))
    &&& (is_conditional_kind(n.kind) ==> wf_cond(n))
}

/// Well-formedness of the first `i` children of block `c`.
pub open spec fn wf_stmt_children(c: Node, i: int) -> bool
    decreases c, 2int, i,
{
    if 0 < i <= c.children@.len() {
        wf_stmt_children(c, i - 1) && wf_block_child(c.children@[i - 1])
    } else {
        true
    }
}

/// What the fold asks of one child of a block: it is statement-like, and if
/// conditional its bodies are well formed. The fold does not descend into
/// non-conditional children, so nothing more is asked of them.
pub open spec fn wf_block_child(s: Node) -> bool
    decreases s, 3int, 0int,
{
    is_stmt_like(s.kind) && (is_conditional_kind(s.kind) ==> wf_cond(s))
}

/// Well-formedness of a conditional: it has the positional shape the body
/// lookup needs, and its body (and else-branch, when present) is a well
/// formed statement tree.
pub open spec fn wf_cond(s: Node) -> bool
    decreases s, 1int, 0int,
{
    &&& cond_shape(s)
    &&& (if s.kind == NodeKind::IfStmt {
            &&& s.children@.len() >= 2 ==> wf_stmt(s.children@[1])
            &&& s.children@.len() >= 3 ==> wf_stmt(s.children@[2])
        } else {
            s.children@.len() >= 1 ==> wf_stmt(s.children@[s.children@.len() - 1])
        })
}

/// Every result of the calculator has at least as many edges as nodes, and
/// both are nonnegative: the derived score `edges - nodes` never underflows.
pub proof fn lemma_counts_bounds(n: Node)
    ensures
        0 <= counts(n).0 <= counts(n).1,
    decreases n, 2int, 0int,
{
    if n.kind == NodeKind::CompoundStmt {
        lemma_fold_counts_bounds(n, n.children@.len() as int);
    } else if is_conditional_kind(n.kind) {
        lemma_cond_counts_bounds(n);
    }
}

proof fn lemma_cond_counts_bounds(s: Node)
    ensures
        0 <= cond_counts(s).0 <= cond_counts(s).1,
    decreases s, 1int, 0int,
{
    if s.kind == NodeKind::IfStmt {
        if s.children@.len() >= 3 {
            lemma_counts_bounds(s.children@[1]);
            lemma_counts_bounds(s.children@[2]);
        } else if s.children@.len() == 2 {
            lemma_counts_bounds(s.children@[1]);
        }
    } else {
        if s.children@.len() >= 1 {
            lemma_counts_bounds(s.children@[s.children@.len() - 1]);
        }
    }
}

proof fn lemma_child_counts_bounds(s: Node)
    ensures
        1 <= child_counts(s).0 <= child_counts(s).1,
    decreases s, 2int, 0int,
{
    if is_conditional_kind(s.kind) {
        lemma_cond_counts_bounds(s);
    }
}

proof fn lemma_fold_counts_bounds(c: Node, i: int)
    ensures
        0 <= fold_counts(c, i).0 <= fold_counts(c, i).1,
    decreases c, 1int, i,
{
    if 0 < i <= c.children@.len() {
        lemma_fold_counts_bounds(c, i - 1);
        lemma_child_counts_bounds(c.children@[i - 1]);
    }
}

/// The fold grows with its prefix: what the first `i` children contribute is
/// bounded by what the first `j` contribute, for `i <= j`.
proof fn lemma_fold_counts_mono(c: Node, i: int, j: int)
    requires
        0 <= i <= j <= c.children@.len(),
    ensures
        fold_counts(c, i).0 <= fold_counts(c, j).0,
        fold_counts(c, i).1 <= fold_counts(c, j).1,
    decreases j - i,
{
    if i < j {
        lemma_fold_counts_mono(c, i, j - 1);
        if 0 < j <= c.children@.len() {
            lemma_child_counts_bounds(c.children@[j - 1]);
        }
    }
}

proof fn lemma_straight_line_fold(n: Node, i: int)
    requires
        0 <= i <= n.children@.len(),
        forall|j: int| 0 <= j < n.children@.len() ==> {
            let k = (#[trigger] n.children@[j]).kind;
            !is_conditional_kind(k) && k != NodeKind::CaseStmt && k != NodeKind::DefaultStmt
        },
    ensures
        fold_counts(n, i) == (i, i),
    decreases i,
{
    if i > 0 {
        lemma_straight_line_fold(n, i - 1);
        assert(!is_conditional_kind(n.children@[i - 1].kind));
        assert(child_counts(n.children@[i - 1]) == (1int, 1int));
    }
}

/// Straight-line invariance: a block of `k` statements, none of them
/// conditional and none a `case` or `default` label, counts as `k` nodes and
/// `k` edges, so its derived score is `0`.
pub proof fn lemma_straight_line(n: Node)
    requires
        n.kind == NodeKind::CompoundStmt,
        forall|j: int| 0 <= j < n.children@.len() ==> {
            let k = (#[trigger] n.children@[j]).kind;
            !is_conditional_kind(k) && k != NodeKind::CaseStmt && k != NodeKind::DefaultStmt
        },
    ensures
        counts(n) == (n.children@.len() as int, n.children@.len() as int),
        counts(n).1 - counts(n).0 == 0,
{
    lemma_straight_line_fold(n, n.children@.len() as int);
}

/// Tests whether a statement- or expression-like node is one of the five
/// conditional kinds; asking this of any other node is a caller error.
pub fn is_conditional(stmt: &Node) -> (r: bool)
    requires
        is_stmt_like(stmt.kind),
    ensures
        r == is_conditional_kind(stmt.kind),
{
    match stmt.kind {
        NodeKind::IfStmt => true,
        NodeKind::WhileStmt => true,
        NodeKind::DoStmt => true,
        NodeKind::ForStmt => true,
        NodeKind::SwitchStmt => true,
        _ => false,
    }
}

/// The controlled body of a conditional and, for an `if` with an
/// else-branch, that branch as well.
pub fn get_body<'a>(stmt: &'a Node) -> (r: (&'a Node, Option<&'a Node>))
    requires
        is_conditional_kind(stmt.kind),
        cond_shape(*stmt),
    ensures
        *r.0 == spec_body(*stmt),
        match r.1 {
            Some(e) => spec_else_body(*stmt) == Some(*e),
            None => spec_else_body(*stmt) is None,
        },
{
    if stmt.kind == NodeKind::IfStmt {
        if stmt.children.len() == 2 {
            let body = &stmt.children[1];
            (body, None)
        } else {
            let body = &stmt.children[1];
            let body_else = &stmt.children[2];
            (body, Some(body_else))
        }
    } else {
        let body = &stmt.children[stmt.children.len() - 1];
        (body, None)
    }
}

/// The counts a conditional's bodies contribute: the body's counts, plus the
/// else-branch's counts and one extra edge when an else-branch is present.
pub fn process_conditional(stmt: &Node) -> (r: (u32, u32))
    requires
        is_conditional_kind(stmt.kind),
        wf_cond(*stmt),
        cond_counts(*stmt).1 <= u32::MAX,
    ensures
        r.0 as int == cond_counts(*stmt).0,
        r.1 as int == cond_counts(*stmt).1,
    decreases *stmt, 1int, 0int,
{
    proof {
        lemma_cond_counts_bounds(*stmt);
        lemma_counts_bounds(spec_body(*stmt));
        match spec_else_body(*stmt) {
            Some(e) => lemma_counts_bounds(e),
            None => {},
        }
    }
    let (body, body_else) = get_body(stmt);
    let (mut nodes, mut edges) = cyclomatic_complexity(body);

    if let Some(body) = body_else {
        let (n, e) = cyclomatic_complexity(body);
        nodes = nodes + n;
        edges = edges + e + 1;
    }

    (nodes, edges)
}

/// The calculator: folds a statement tree into its `(nodes, edges)` pair.
pub fn cyclomatic_complexity(stmt: &Node) -> (r: (u32, u32))
    requires
        wf_stmt(*stmt),
        counts(*stmt).1 <= u32::MAX,
    ensures
        r.0 as int == counts(*stmt).0,
        r.1 as int == counts(*stmt).1,
    decreases *stmt, 2int, 0int,
{
    if stmt.kind == NodeKind::CompoundStmt {
        let ghost total = counts(*stmt);
        let mut nodes: u32 = 0;
        let mut edges: u32 = 0;
        let mut i: usize = 0;
        while i < stmt.children.len()
            invariant
                wf_stmt(*stmt),
                stmt.kind == NodeKind::CompoundStmt,
                counts(*stmt).1 <= u32::MAX,
                total == counts(*stmt),
                0 <= i <= stmt.children@.len(),
                nodes as int == fold_counts(*stmt, i as int).0,
                edges as int == fold_counts(*stmt, i as int).1,
            decreases stmt.children@.len() - i,
        {
            proof {
                assert(wf_stmt_children(*stmt, stmt.children@.len() as int));
                lemma_wf_stmt_children_prefix(*stmt, i as int + 1, stmt.children@.len() as int);
                assert(wf_stmt_children(*stmt, i as int + 1));
                assert(wf_block_child(stmt.children@[i as int]));
                assert(is_stmt_like(stmt.children@[i as int].kind));
                lemma_fold_counts_bounds(*stmt, i as int + 1);
                lemma_fold_counts_mono(*stmt, i as int + 1, stmt.children@.len() as int);
                lemma_child_counts_bounds(stmt.children@[i as int]);
                lemma_fold_counts_bounds(*stmt, i as int);
                assert(fold_counts(*stmt, i as int + 1).0
                    == fold_counts(*stmt, i as int).0 + child_counts(stmt.children@[i as int]).0);
                if is_conditional_kind(stmt.children@[i as int].kind) {
                    assert(wf_cond(stmt.children@[i as int]));
                    lemma_cond_counts_bounds(stmt.children@[i as int]);
                }
            }
            let child = &stmt.children[i];
            nodes = nodes + 1;
            edges = edges + 1;

            if is_conditional(child) {
                if child.kind != NodeKind::SwitchStmt {
                    edges = edges + 1;
                }
                let (n, e) = process_conditional(child);
                nodes = nodes + n;
                edges = edges + e;
            }

            if child.kind == NodeKind::CaseStmt || child.kind == NodeKind::DefaultStmt {
                edges = edges + 1;
            }

            i = i + 1;
        }
        (nodes, edges)
    } else {
        if is_conditional(stmt) {
            process_conditional(stmt)
        } else {
            (1, 1)
        }
    }
}

/// A prefix of a well-formed block's children is itself well formed.
proof fn lemma_wf_stmt_children_prefix(c: Node, i: int, j: int)
    requires
        0 <= i <= j <= c.children@.len(),
        wf_stmt_children(c, j),
    ensures
        wf_stmt_children(c, i),
    decreases j - i,
{
    if i < j {
        lemma_wf_stmt_children_prefix(c, i, j - 1);
    }
}

} // verus!
