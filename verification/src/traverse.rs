//! The scope-qualified traversal engine: a depth-first, pre-order walk of an
//! entity tree that discovers function-like nodes, qualifies their names by
//! the namespace/class scopes they sit in, and folds each body through the
//! complexity calculator into one `FunctionRecord` per discovered function.

use vstd::prelude::*;
use vstd::string::StringExecFns;
use crate::ast::{Location, Node, NodeKind, is_function_kind, is_scope_kind};
use crate::complexity::{counts, cyclomatic_complexity, wf_stmt};
use crate::paths::{get_filename, get_module, spec_filename, spec_module};
use crate::pathfilter::{Filter, FilterView, in_scope, spec_in_scope};

verus! {

/// What one record holds, as contracts see it.
pub struct RecordView {
    pub module: Seq<char>,
    pub file: Seq<char>,
    pub qualified_name: Seq<char>,
    pub arg_count: int,
    pub line_count: int,
    pub score: int,
}

/// One emitted record: where the function lives, its qualified name, its
/// formal-parameter count, its source line span, and its score, the
/// simplified McCabe measure `edges - nodes` of its body.
#[derive(Clone, Debug, PartialEq, Eq)]
pub struct FunctionRecord {
    pub module: String,
    pub file: String,
    pub qualified_name: String,
    pub arg_count: usize,
    pub line_count: u32,
    pub score: i64,
}

impl View for FunctionRecord {
    type V = RecordView;

    open spec fn view(&self) -> RecordView {
        RecordView {
            module: self.module@,
            file: self.file@,
            qualified_name: self.qualified_name@,
            arg_count: self.arg_count as int,
            line_count: self.line_count as int,
            score: self.score as int,
        }
    }
}

/// The views of a sequence of records.
pub open spec fn records_view(s: Seq<FunctionRecord>) -> Seq<RecordView> {
    s.map_values(|r: FunctionRecord| r@)
}

/// A scope's display name: its declared name, or `"anonymous"` if it has
/// none.
pub open spec fn display_name(n: Node) -> Seq<char> {
    match n.name {
        Some(s) => s@,
        None => "anonymous"@,
    }
}

/// A name appended to a scope context: the name itself on an empty context,
/// else the context, `::`, and the name.
pub open spec fn spec_push(ns: Seq<char>, name: Seq<char>) -> Seq<char> {
    if ns.len() == 0 {
        name
    } else {
        ns + "::"@ + name
    }
}

/// The declared name of the first reference child's target, if any child is
/// a reference.
pub open spec fn first_ref_name(s: Seq<Node>) -> Option<Seq<char>>
    decreases s.len(),
{
    if s.len() == 0 {
        None
    } else {
        match s[0].ref_name {
            Some(cn) => Some(cn@),
            None => first_ref_name(s.drop_first()),
        }
    }
}

/// A function's name before the scope context is applied: its declared name,
/// prefixed for a method by the class its first reference child names —
/// the owning class of an out-of-line method definition.
pub open spec fn spec_base_name(n: Node) -> Seq<char> {
    let base = match n.name {
        Some(s) => s@,
        None => Seq::<char>::empty(),
    };
    if n.kind == NodeKind::Method {
        match first_ref_name(n.children@) {
            Some(cls) => cls + "::"@ + base,
            None => base,
        }
    } else {
        base
    }
}

/// The fully qualified name: the scope context joined with `::` around the
/// (possibly class-prefixed) declared name.
pub open spec fn spec_qualified_name(n: Node, ns: Seq<char>) -> Seq<char> {
    spec_push(ns, spec_base_name(n))
}

/// What a usable location must satisfy: lines are one-based and ordered, and
/// the file path has a base name.
pub open spec fn wf_loc(l: Location) -> bool {
    &&& 1 <= l.line_start <= l.line_end
    &&& spec_filename(l.file@) matches Some(_)
}

/// Whether a function-like node has a block body: at least one child, the
/// last being a `{...}` block.
pub open spec fn has_body(n: Node) -> bool {
    n.children@.len() > 0 && n.children@[n.children@.len() - 1].kind == NodeKind::CompoundStmt
}

/// What record extraction asks of a function-like node: a declared name, a
/// usable location if any, and — when it has a block body — a well-formed
/// body whose counts fit the result type.
pub open spec fn wf_fn_node(n: Node) -> bool {
    &&& n.name matches Some(_)
    &&& match n.loc {
        Some(l) => wf_loc(l),
        None => true,
    }
    &&& has_body(n) ==> {
        &&& wf_stmt(n.children@[n.children@.len() - 1])
        &&& counts(n.children@[n.children@.len() - 1]).1 <= u32::MAX
    }
}

/// The record extracted from a function-like node under a scope context, or
/// `None` for a bodiless declaration or a non-block body.
pub open spec fn spec_record(n: Node, ns: Seq<char>) -> Option<RecordView> {
    if !has_body(n) {
        None
    } else {
        match n.loc {
            None => None,
            Some(l) => {
                let c = counts(n.children@[n.children@.len() - 1]);
                Some(RecordView {
                    module: match spec_module(l.file@) {
                        Some(m) => m,
                        None => Seq::empty(),
                    },
                    file: match spec_filename(l.file@) {
                        Some(f) => f,
                        None => Seq::empty(),
                    },
                    qualified_name: spec_qualified_name(n, ns),
                    arg_count: n.arg_count as int,
                    line_count: l.line_end - l.line_start + 1,
                    score: c.1 - c.0,
                })
            },
        }
    }
}

/// What one child of a visited node contributes to the output: nothing when
/// the filter keeps it out (its whole subtree stays unvisited); the records
/// of its children under a pushed scope name when it introduces a scope; its
/// own record when it is function-like; nothing otherwise.
pub open spec fn spec_child_records(c: Node, ns: Seq<char>, f: FilterView) -> Seq<RecordView>
    decreases c, 2int, 0int,
{
    if !spec_in_scope(c.loc, f) {
        Seq::empty()
    } else if is_scope_kind(c.kind) {
        spec_node_records(c, spec_push(ns, display_name(c)), f)
    } else if is_function_kind(c.kind) {
        match spec_record(c, ns) {
            Some(r) => seq![r],
            None => Seq::empty(),
        }
    } else {
        Seq::empty()
    }
}

/// The records contributed by the first `i` children of `n`, in source
/// order.
pub open spec fn spec_records_prefix(n: Node, ns: Seq<char>, f: FilterView, i: int) -> Seq<
    RecordView,
>
    decreases n, 0int, i,
{
    if 0 < i <= n.children@.len() {
        spec_records_prefix(n, ns, f, i - 1) + spec_child_records(n.children@[i - 1], ns, f)
    } else {
        Seq::empty()
    }
}

/// The records the traversal emits for the children of `n`, visited in
/// source order under scope context `ns` and filter `f`.
pub open spec fn spec_node_records(n: Node, ns: Seq<char>, f: FilterView) -> Seq<RecordView>
    decreases n, 1int, 0int,
{
    spec_records_prefix(n, ns, f, n.children@.len() as int)
}

/// Well-formedness of one child as the traversal meets it: nothing is asked
/// of an out-of-scope child (it is never entered); a scope child must have
/// well-formed children in turn; a function-like child must satisfy record
/// extraction's conditions.
pub open spec fn wf_entity(c: Node, f: FilterView) -> bool
    decreases c, 1int, 0int,
{
    spec_in_scope(c.loc, f) ==> {
        if is_scope_kind(c.kind) {
            wf_children(c, f, c.children@.len() as int)
        } else if is_function_kind(c.kind) {
            wf_fn_node(c)
        } else {
            true
        }
    }
}

/// Well-formedness of the first `i` children of `n`.
pub open spec fn wf_children(n: Node, f: FilterView, i: int) -> bool
    decreases n, 0int, i,
{
    if 0 < i <= n.children@.len() {
        wf_children(n, f, i - 1) && wf_entity(n.children@[i - 1], f)
    } else {
        true
    }
}

proof fn lemma_wf_children_prefix(n: Node, f: FilterView, i: int, j: int)
    requires
        0 <= i <= j <= n.children@.len(),
        wf_children(n, f, j),
    ensures
        wf_children(n, f, i),
    decreases j - i,
{
    if i < j {
        lemma_wf_children_prefix(n, f, i, j - 1);
    }
}

/// The number of source lines a location spans, both ends inclusive.
pub fn count_lines(l: &Location) -> (r: u32)
    requires
        1 <= l.line_start <= l.line_end,
    ensures
        r as int == l.line_end - l.line_start + 1,
{
    l.line_end - l.line_start + 1
}

/// The file path of a node's location, if it has one.
pub fn get_file_location<'a>(node: &'a Node) -> (r: Option<&'a String>)
    ensures
        (r is Some) == (node.loc is Some),
        r matches Some(p) ==> node.loc matches Some(l) && p@ == l.file@,
{
    match &node.loc {
        Some(l) => Some(&l.file),
        None => None,
    }
}

/// The declared name of the target of `node`'s first reference child.
fn first_ref_class<'a>(node: &'a Node) -> (r: Option<&'a String>)
    ensures
        match r {
            Some(s) => first_ref_name(node.children@) == Some(s@),
            None => first_ref_name(node.children@) is None,
        },
{
    let mut i: usize = 0;
    proof {
        assert(node.children@.skip(0) =~= node.children@);
    }
    while i < node.children.len()
        invariant
            0 <= i <= node.children@.len(),
            first_ref_name(node.children@) == first_ref_name(node.children@.skip(i as int)),
        decreases node.children@.len() - i,
    {
        proof {
            assert(node.children@.skip(i as int)[0] == node.children@[i as int]);
        }
        match &node.children[i].ref_name {
            Some(cn) => {
                return Some(cn);
            },
            None => {
                proof {
                    assert(node.children@.skip(i as int).drop_first() =~= node.children@.skip(
                        i as int + 1,
                    ));
                }
            },
        }
        i = i + 1;
    }
    proof {
        assert(node.children@.skip(i as int).len() == 0);
    }
    None
}

/// The traversal's running scope context: the names of the enclosing
/// namespaces/classes, outer to inner, already joined with `::`.
pub struct ProcessCtx {
    pub namespaces: String,
}

impl ProcessCtx {
    /// The empty context a walk starts from.
    pub fn new() -> (r: ProcessCtx)
        ensures
            r.namespaces@ == Seq::<char>::empty(),
    {
        ProcessCtx { namespaces: String::new() }
    }

    /// Appends one scope name to the context.
    pub fn push_name(&mut self, name: &str)
        ensures
            final(self).namespaces@ == spec_push(old(self).namespaces@, name@),
    {
        if self.namespaces.as_str().is_empty() {
            self.namespaces = name.to_owned();
        } else {
            self.namespaces.append("::");
            self.namespaces.append(name);
        }
    }

    /// The fully qualified name of a function-like node under this context:
    /// the declared name, class-prefixed for a method whose first reference
    /// child names its owning class, joined onto the context with `::`.
    pub fn get_qualified_name(&self, node: &Node) -> (r: String)
        requires
            node.name matches Some(_),
        ensures
            r@ == spec_qualified_name(*node, self.namespaces@),
    {
        let base: String = match &node.name {
            Some(s) => s.clone(),
            None => unreached(),
        };
        let name: String = if node.kind == NodeKind::Method {
            match first_ref_class(node) {
                Some(cls) => {
                    let mut q = cls.clone();
                    q.append("::");
                    q.append(base.as_str());
                    q
                },
                None => base,
            }
        } else {
            base
        };
        if self.namespaces.as_str().is_empty() {
            name
        } else {
            let mut q = self.namespaces.clone();
            q.append("::");
            q.append(name.as_str());
            q
        }
    }

    /// Record extraction: one record for a function-like node with a block
    /// body, and nothing for a bodiless declaration or a non-block body.
    pub fn process_fn(&self, fun: &Node) -> (r: Option<FunctionRecord>)
        requires
            wf_fn_node(*fun),
            fun.loc matches Some(_),
        ensures
            match r {
                Some(rec) => spec_record(*fun, self.namespaces@) == Some(rec@),
                None => spec_record(*fun, self.namespaces@) is None,
            },
    {
        if fun.children.len() == 0 {
            return None;
        }
        let body = &fun.children[fun.children.len() - 1];
        if body.kind != NodeKind::CompoundStmt {
            return None;
        }
        let path: &String = match get_file_location(fun) {
            Some(p) => p,
            None => unreached(),
        };
        proof {
            crate::paths::lemma_basename_start_bounds(path@);
        }
        let file: String = match get_filename(path) {
            Some(s) => s.to_owned(),
            None => unreached(),
        };
        let module: String = match get_module(path) {
            Some(s) => s.to_owned(),
            None => unreached(),
        };
        let name = self.get_qualified_name(fun);
        let lines = match &fun.loc {
            Some(l) => count_lines(l),
            None => unreached(),
        };
        let (n, e) = cyclomatic_complexity(body);
        let score = e as i64 - n as i64;
        Some(
            FunctionRecord {
                module,
                file,
                qualified_name: name,
                arg_count: fun.arg_count,
                line_count: lines,
                score,
            },
        )
    }

    /// Visits a scope-introducing node: pushes its display name onto a copy
    /// of the context and walks its children under the new context. The
    /// caller's own context is unaffected.
    pub fn process_named_nested(&self, node: &Node, filter: &Filter, out: &mut Vec<FunctionRecord>)
        requires
            wf_children(*node, filter@, node.children@.len() as int),
        ensures
            records_view(final(out)@) == records_view(old(out)@) + spec_node_records(
                *node,
                spec_push(self.namespaces@, display_name(*node)),
                filter@,
            ),
        decreases *node, 2int, 0int,
    {
        let mut new_ctx = ProcessCtx { namespaces: self.namespaces.clone() };
        let name: &str = match &node.name {
            Some(s) => s.as_str(),
            None => "anonymous",
        };
        new_ctx.push_name(name);
        new_ctx.process_node(node, filter, out);
    }

    /// The walk itself: examines each child of `node` in source order. An
    /// out-of-scope child is skipped whole; a scope child is entered under a
    /// pushed name; a function-like child may yield a record; anything else
    /// is skipped without descending.
    pub fn process_node(&self, node: &Node, filter: &Filter, out: &mut Vec<FunctionRecord>)
        requires
            wf_children(*node, filter@, node.children@.len() as int),
        ensures
            records_view(final(out)@) == records_view(old(out)@) + spec_node_records(
                *node,
                self.namespaces@,
                filter@,
            ),
        decreases *node, 1int, 0int,
    {
        let ghost out0 = out@;
        let mut i: usize = 0;
        while i < node.children.len()
            invariant
                wf_children(*node, filter@, node.children@.len() as int),
                0 <= i <= node.children@.len(),
                records_view(out@) == records_view(out0) + spec_records_prefix(
                    *node,
                    self.namespaces@,
                    filter@,
                    i as int,
                ),
            decreases node.children@.len() - i,
        {
            proof {
                lemma_wf_children_prefix(
                    *node,
                    filter@,
                    i as int + 1,
                    node.children@.len() as int,
                );
                assert(wf_children(*node, filter@, i as int + 1));
                assert(wf_entity(node.children@[i as int], filter@));
            }
            let child = &node.children[i];
            let ghost pre = out@;
            if in_scope(filter, &child.loc) {
                match child.kind {
                    NodeKind::Namespace
                    | NodeKind::ClassDecl
                    | NodeKind::StructDecl
                    | NodeKind::UnionDecl => {
                        self.process_named_nested(child, filter, out);
                    },
                    NodeKind::FunctionDecl | NodeKind::Method => {
                        match self.process_fn(child) {
                            Some(rec) => {
                                out.push(rec);
                                proof {
                                    assert(records_view(out@) =~= records_view(pre).push(rec@));
                                    assert(spec_child_records(
                                        *child,
                                        self.namespaces@,
                                        filter@,
                                    ) == seq![rec@]);
                                    assert(records_view(pre).push(rec@) =~= records_view(pre)
                                        + seq![rec@]);
                                }
                            },
                            None => {},
                        }
                    },
                    _ => {},
                }
            }
            proof {
                let step_records = spec_child_records(node.children@[i as int], self.namespaces@,
                    filter@);
                assert(records_view(out@) =~= records_view(pre) + step_records);
                assert(spec_records_prefix(*node, self.namespaces@, filter@, i as int + 1)
                    == spec_records_prefix(*node, self.namespaces@, filter@, i as int) + step_records);
                assert(records_view(out@) =~= records_view(out0) + spec_records_prefix(
                    *node,
                    self.namespaces@,
                    filter@,
                    i as int + 1,
                ));
            }
            i = i + 1;
        }
    }
}

/// Walks a whole translation unit: the records of every function-like node
/// discovered under `root`, in pre-order visitation order, starting from an
/// empty scope context.
pub fn analyze_tree(root: &Node, filter: &Filter) -> (r: Vec<FunctionRecord>)
    requires
        wf_children(*root, filter@, root.children@.len() as int),
    ensures
        records_view(r@) == spec_node_records(*root, Seq::<char>::empty(), filter@),
{
    let ctx = ProcessCtx::new();
    let mut out: Vec<FunctionRecord> = Vec::new();
    ctx.process_node(root, filter, &mut out);
    proof {
        assert(records_view(out@) =~= spec_node_records(*root, Seq::<char>::empty(), filter@));
    }
    out
}

/// A child the filter keeps out contributes nothing: its whole subtree,
/// whatever it declares, is invisible to the traversal.
pub proof fn lemma_out_of_scope_excluded(c: Node, ns: Seq<char>, f: FilterView)
    requires
        !spec_in_scope(c.loc, f),
    ensures
        spec_child_records(c, ns, f) == Seq::<RecordView>::empty(),
{
}

/// A bodiless declaration (a prototype) yields no record.
pub proof fn lemma_declaration_only_skipped(n: Node, ns: Seq<char>)
    requires
        n.children@.len() == 0,
    ensures
        spec_record(n, ns) is None,
{
}

/// The traversal is a pure function of the tree and the filter: any two runs
/// over the same tree with the same filter produce the same records.
pub proof fn lemma_traversal_deterministic(
    root: Node,
    f: FilterView,
    r1: Seq<RecordView>,
    r2: Seq<RecordView>,
)
    requires
        r1 == spec_node_records(root, Seq::<char>::empty(), f),
        r2 == spec_node_records(root, Seq::<char>::empty(), f),
    ensures
        r1 == r2,
{
}

} // verus!
