use ccmetrics::ast::{Location, Node, NodeKind};
use ccmetrics::compdb::{compile_flags, tokenize, CompilationEntry};
use ccmetrics::paths::{get_filename, get_module};
use ccmetrics::pathfilter::Filter;
use ccmetrics::traverse::{analyze_tree, FunctionRecord};

fn main_loc(start: u32, end: u32) -> Option<Location> {
    Some(Location {
        file: String::from("/proj/src/main.cpp"),
        line_start: start,
        line_end: end,
        in_main_file: true,
    })
}

fn header_loc(path: &str) -> Option<Location> {
    Some(Location {
        file: String::from(path),
        line_start: 1,
        line_end: 1,
        in_main_file: false,
    })
}

fn node(kind: NodeKind, name: Option<&str>, loc: Option<Location>, children: Vec<Node>) -> Node {
    Node {
        kind,
        name: name.map(String::from),
        loc,
        arg_count: 0,
        ref_name: None,
        children,
    }
}

fn block(children: Vec<Node>) -> Node {
    node(NodeKind::CompoundStmt, None, None, children)
}

fn plain_fn(name: &str, args: usize, start: u32, end: u32, body: Vec<Node>) -> Node {
    let mut f = node(NodeKind::FunctionDecl, Some(name), main_loc(start, end), vec![block(body)]);
    f.arg_count = args;
    f
}

fn root(children: Vec<Node>) -> Node {
    node(NodeKind::Other, None, None, children)
}

#[test]
fn simple_function_record() {
    let tree = root(vec![plain_fn("f", 2, 10, 14, vec![
        node(NodeKind::Other, None, None, vec![]),
        node(NodeKind::Other, None, None, vec![]),
    ])]);
    let recs = analyze_tree(&tree, &Filter::MainFile);
    assert_eq!(recs.len(), 1);
    let r = &recs[0];
    assert_eq!(r.module, "/proj/src");
    assert_eq!(r.file, "main.cpp");
    assert_eq!(r.qualified_name, "f");
    assert_eq!(r.arg_count, 2);
    assert_eq!(r.line_count, 5);
    assert_eq!(r.score, 0);
}

#[test]
fn qualification_out_of_line_method() {
    // namespace ns { class Foo; void ns::Foo::bar() { ... } }
    // The out-of-line method's first reference child resolves to Foo.
    let mut bar = node(NodeKind::Method, Some("bar"), main_loc(5, 7), vec![]);
    let mut type_ref = node(NodeKind::Other, None, main_loc(5, 5), vec![]);
    type_ref.ref_name = Some(String::from("Foo"));
    bar.children = vec![type_ref, block(vec![])];
    let ns = node(NodeKind::Namespace, Some("ns"), main_loc(1, 20), vec![bar]);
    let tree = root(vec![ns]);
    let recs = analyze_tree(&tree, &Filter::MainFile);
    assert_eq!(recs.len(), 1);
    assert_eq!(recs[0].qualified_name, "ns::Foo::bar");
}

#[test]
fn qualification_inline_method() {
    // namespace ns { class Foo { void bar() { ... } }; }
    // The inline method has no reference child: the scope context alone
    // qualifies it, never duplicating the class name.
    let bar = node(NodeKind::Method, Some("bar"), main_loc(3, 4), vec![block(vec![])]);
    let foo = node(NodeKind::ClassDecl, Some("Foo"), main_loc(2, 5), vec![bar]);
    let ns = node(NodeKind::Namespace, Some("ns"), main_loc(1, 6), vec![foo]);
    let tree = root(vec![ns]);
    let recs = analyze_tree(&tree, &Filter::MainFile);
    assert_eq!(recs.len(), 1);
    assert_eq!(recs[0].qualified_name, "ns::Foo::bar");
}

#[test]
fn anonymous_scope_named_anonymous() {
    let f = plain_fn("f", 0, 2, 3, vec![]);
    let ns = node(NodeKind::Namespace, None, main_loc(1, 4), vec![f]);
    let tree = root(vec![ns]);
    let recs = analyze_tree(&tree, &Filter::MainFile);
    assert_eq!(recs.len(), 1);
    assert_eq!(recs[0].qualified_name, "anonymous::f");
}

#[test]
fn main_file_mode_excludes_header_declarations() {
    let mut g = plain_fn("g", 0, 1, 1, vec![]);
    g.loc = header_loc("/proj/include/util.hpp");
    let tree = root(vec![g, plain_fn("f", 0, 2, 3, vec![])]);
    let recs = analyze_tree(&tree, &Filter::MainFile);
    assert_eq!(recs.len(), 1);
    assert_eq!(recs[0].qualified_name, "f");
}

#[test]
fn main_file_mode_never_enters_excluded_scope() {
    // A class defined in an excluded header is never entered, regardless of
    // what it contains.
    let hidden = plain_fn("hidden", 0, 1, 1, vec![]);
    let mut cls = node(NodeKind::ClassDecl, Some("C"), header_loc("/hdr/a.hpp"), vec![hidden]);
    // even a child that itself claims to be in the main file stays unseen
    cls.children[0].loc = main_loc(1, 1);
    let tree = root(vec![cls]);
    let recs = analyze_tree(&tree, &Filter::MainFile);
    assert_eq!(recs.len(), 0);
}

#[test]
fn path_regex_mode_follows_the_pattern() {
    let filter = Filter::by_path("^/proj/include/.*").unwrap();
    let mut g = plain_fn("g", 0, 1, 1, vec![]);
    g.loc = header_loc("/proj/include/util.hpp");
    let tree = root(vec![g, plain_fn("f", 0, 2, 3, vec![])]);
    let recs = analyze_tree(&tree, &filter);
    // strictly by the regex: the header function is in, the main-file one out
    assert_eq!(recs.len(), 1);
    assert_eq!(recs[0].qualified_name, "g");
}

#[test]
fn invalid_pattern_is_rejected() {
    assert!(Filter::by_path("(unclosed").is_none());
}

#[test]
fn missing_location_is_excluded() {
    let mut f = plain_fn("f", 0, 1, 1, vec![]);
    f.loc = None;
    let tree = root(vec![f]);
    assert_eq!(analyze_tree(&tree, &Filter::MainFile).len(), 0);
    let filter = Filter::by_path(".*").unwrap();
    let mut g = plain_fn("g", 0, 1, 1, vec![]);
    g.loc = None;
    let tree2 = root(vec![g]);
    assert_eq!(analyze_tree(&tree2, &filter).len(), 0);
}

#[test]
fn prototype_produces_no_record() {
    // a declaration with no body at all
    let proto = node(NodeKind::FunctionDecl, Some("f"), main_loc(1, 1), vec![]);
    let tree = root(vec![proto]);
    assert_eq!(analyze_tree(&tree, &Filter::MainFile).len(), 0);
}

#[test]
fn non_block_body_produces_no_record() {
    // last child is not a compound statement
    let f = node(
        NodeKind::FunctionDecl,
        Some("f"),
        main_loc(1, 1),
        vec![node(NodeKind::Other, None, None, vec![])],
    );
    let tree = root(vec![f]);
    assert_eq!(analyze_tree(&tree, &Filter::MainFile).len(), 0);
}

#[test]
fn nested_functions_inside_bodies_stay_undiscovered() {
    // the engine never descends into a function's body
    let inner = plain_fn("inner", 0, 2, 3, vec![]);
    let outer = node(
        NodeKind::FunctionDecl,
        Some("outer"),
        main_loc(1, 5),
        vec![block(vec![inner])],
    );
    let tree = root(vec![outer]);
    let recs = analyze_tree(&tree, &Filter::MainFile);
    assert_eq!(recs.len(), 1);
    assert_eq!(recs[0].qualified_name, "outer");
}

#[test]
fn records_come_in_preorder() {
    let a = plain_fn("a", 0, 1, 1, vec![]);
    let b = plain_fn("b", 0, 3, 3, vec![]);
    let c = plain_fn("c", 0, 5, 5, vec![]);
    let ns = node(NodeKind::Namespace, Some("n"), main_loc(2, 4), vec![b]);
    let tree = root(vec![a, ns, c]);
    let names: Vec<String> = analyze_tree(&tree, &Filter::MainFile)
        .into_iter()
        .map(|r| r.qualified_name)
        .collect();
    assert_eq!(names, vec!["a", "n::b", "c"]);
}

#[test]
fn rerun_is_identical() {
    let complex_fn = plain_fn("f", 1, 1, 9, vec![
        node(NodeKind::IfStmt, None, None, vec![
            node(NodeKind::Other, None, None, vec![]),
            block(vec![node(NodeKind::Other, None, None, vec![])]),
        ]),
        node(NodeKind::Other, None, None, vec![]),
    ]);
    let ns = node(NodeKind::Namespace, Some("n"), main_loc(1, 10), vec![complex_fn]);
    let tree = root(vec![ns]);
    let first: Vec<FunctionRecord> = analyze_tree(&tree, &Filter::MainFile);
    let second: Vec<FunctionRecord> = analyze_tree(&tree, &Filter::MainFile);
    assert_eq!(first, second);
    assert_eq!(first.len(), 1);
    assert_eq!(first[0].score, 1);
}

#[test]
fn filename_and_module_split_paths() {
    let p = String::from("/proj/src/main.cpp");
    assert_eq!(get_filename(&p), Some("main.cpp"));
    assert_eq!(get_module(&p), Some("/proj/src"));

    let bare = String::from("main.cpp");
    assert_eq!(get_filename(&bare), Some("main.cpp"));
    assert_eq!(get_module(&bare), Some(""));

    let in_root = String::from("/main.cpp");
    assert_eq!(get_filename(&in_root), Some("main.cpp"));
    assert_eq!(get_module(&in_root), Some("/"));

    let trailing = String::from("dir/");
    assert_eq!(get_filename(&trailing), None);

    let empty = String::from("");
    assert_eq!(get_filename(&empty), None);
    assert_eq!(get_module(&empty), None);
}

#[test]
fn tokenize_drops_empty_tokens() {
    let toks = tokenize("cc  -O2   a.c");
    assert_eq!(toks, vec!["cc", "-O2", "a.c"]);
    assert_eq!(tokenize(""), Vec::<String>::new());
    assert_eq!(tokenize("   "), Vec::<String>::new());
}

#[test]
fn compile_flags_drop_head_and_tail() {
    let entry = CompilationEntry {
        directory: String::from("/proj"),
        command: String::from("g++ -O2 -Iinclude -c main.cpp -o main.o -MD -MF main.d"),
        file: String::from("main.cpp"),
    };
    let flags = compile_flags(entry.command.as_str()).unwrap();
    assert_eq!(flags, vec!["-O2", "-Iinclude", "-c", "main.cpp", "-o"]);
}

#[test]
fn too_short_command_yields_none() {
    assert!(compile_flags("g++ -c main.cpp").is_none());
    assert!(compile_flags("").is_none());
    assert!(compile_flags("a b c d e").map(|v| v.is_empty()).unwrap_or(false));
}
