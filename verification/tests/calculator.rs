use ccmetrics::ast::{Node, NodeKind};
use ccmetrics::complexity::{cyclomatic_complexity, get_body, is_conditional};

fn leaf(kind: NodeKind) -> Node {
    Node { kind, name: None, loc: None, arg_count: 0, ref_name: None, children: vec![] }
}

fn with_children(kind: NodeKind, children: Vec<Node>) -> Node {
    Node { kind, name: None, loc: None, arg_count: 0, ref_name: None, children }
}

fn block(children: Vec<Node>) -> Node {
    with_children(NodeKind::CompoundStmt, children)
}

#[test]
fn straight_line_counts_are_equal() {
    // k plain statements: (k, k), score 0
    for k in 0..6 {
        let body = block((0..k).map(|_| leaf(NodeKind::Other)).collect());
        let (n, e) = cyclomatic_complexity(&body);
        assert_eq!((n, e), (k, k));
        assert_eq!(e - n, 0);
    }
}

#[test]
fn single_branch_scores_one() {
    // { if (c) { s; } }
    let ifstmt = with_children(
        NodeKind::IfStmt,
        vec![leaf(NodeKind::Other), block(vec![leaf(NodeKind::Other)])],
    );
    let body = block(vec![ifstmt]);
    let (n, e) = cyclomatic_complexity(&body);
    assert_eq!(n, 2);
    assert_eq!(e, 3);
    assert_eq!(e - n, 1);
}

#[test]
fn else_scores_two() {
    // { if (c) { s1; } else { s2; } }
    let ifstmt = with_children(
        NodeKind::IfStmt,
        vec![
            leaf(NodeKind::Other),
            block(vec![leaf(NodeKind::Other)]),
            block(vec![leaf(NodeKind::Other)]),
        ],
    );
    let body = block(vec![ifstmt]);
    let (n, e) = cyclomatic_complexity(&body);
    assert_eq!(e - n, 2);
}

#[test]
fn switch_labels_score_one_each() {
    // { switch (c) { case 1: a; break; case 2: b; break; default: d; } }
    let switch_body = block(vec![
        with_children(NodeKind::CaseStmt, vec![leaf(NodeKind::Other)]),
        leaf(NodeKind::Other), // break;
        with_children(NodeKind::CaseStmt, vec![leaf(NodeKind::Other)]),
        leaf(NodeKind::Other), // break;
        with_children(NodeKind::DefaultStmt, vec![leaf(NodeKind::Other)]),
    ]);
    let switch = with_children(NodeKind::SwitchStmt, vec![leaf(NodeKind::Other), switch_body]);
    let body = block(vec![switch]);
    let (n, e) = cyclomatic_complexity(&body);
    assert_eq!(e - n, 3);
}

#[test]
fn while_loop_scores_one() {
    let w = with_children(
        NodeKind::WhileStmt,
        vec![leaf(NodeKind::Other), block(vec![leaf(NodeKind::Other)])],
    );
    let body = block(vec![w, leaf(NodeKind::Other)]);
    let (n, e) = cyclomatic_complexity(&body);
    assert_eq!((n, e), (3, 4));
}

#[test]
fn nested_conditionals_accumulate() {
    // { if (c) { if (d) { s; } } }
    let inner = with_children(
        NodeKind::IfStmt,
        vec![leaf(NodeKind::Other), block(vec![leaf(NodeKind::Other)])],
    );
    let outer = with_children(NodeKind::IfStmt, vec![leaf(NodeKind::Other), block(vec![inner])]);
    let body = block(vec![outer]);
    let (n, e) = cyclomatic_complexity(&body);
    assert_eq!(e - n, 2);
}

#[test]
fn bare_conditional_as_sole_statement() {
    // an if whose controlled statement is a single bare statement, no braces
    let ifstmt = with_children(
        NodeKind::IfStmt,
        vec![leaf(NodeKind::Other), leaf(NodeKind::Other)],
    );
    let body = block(vec![ifstmt]);
    let (n, e) = cyclomatic_complexity(&body);
    assert_eq!((n, e), (2, 3));
}

#[test]
fn get_body_picks_positional_children() {
    let then_branch = block(vec![leaf(NodeKind::Other)]);
    let else_branch = block(vec![]);
    let ifstmt = with_children(
        NodeKind::IfStmt,
        vec![leaf(NodeKind::Other), then_branch, else_branch],
    );
    let (b, e) = get_body(&ifstmt);
    assert_eq!(b.kind, NodeKind::CompoundStmt);
    assert_eq!(b.children.len(), 1);
    assert!(e.is_some());
    assert_eq!(e.unwrap().children.len(), 0);

    let w = with_children(NodeKind::WhileStmt, vec![leaf(NodeKind::Other), block(vec![])]);
    let (wb, we) = get_body(&w);
    assert_eq!(wb.kind, NodeKind::CompoundStmt);
    assert!(we.is_none());
}

#[test]
fn conditional_kinds_recognized() {
    assert!(is_conditional(&leaf(NodeKind::IfStmt)));
    assert!(is_conditional(&leaf(NodeKind::WhileStmt)));
    assert!(is_conditional(&leaf(NodeKind::DoStmt)));
    assert!(is_conditional(&leaf(NodeKind::ForStmt)));
    assert!(is_conditional(&leaf(NodeKind::SwitchStmt)));
    assert!(!is_conditional(&leaf(NodeKind::Other)));
    assert!(!is_conditional(&leaf(NodeKind::CompoundStmt)));
    assert!(!is_conditional(&leaf(NodeKind::CaseStmt)));
}
