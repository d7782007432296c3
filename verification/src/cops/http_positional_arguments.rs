//! `Rails/HttpPositionalArguments`: test requests take keyword arguments
//! (`params:`, `session:`), not positional ones (Rails 5.0 and later).

use vstd::prelude::*;
use crate::ast::{NodeId, NodeKind, Range, SourceFile};
use crate::cops::not_null_column::pair_sym_key;
use crate::cops::read_write_attribute::src_of;
use crate::cops::reversible_migration::block_call_of;
use crate::ast::method_of;
use crate::report::{Edit, Finding, Offense};
use crate::text::{concat3, join_sep, lemma_filter_push, str_eq};

verus! {

/// Reports request helpers called with positional data arguments.
#[derive(Debug, Default)]
pub struct HttpPositionalArguments;

/// The request helpers.
pub open spec fn is_http_verb(m: Seq<char>) -> bool {
    m == "get"@ || m == "post"@ || m == "put"@ || m == "patch"@ || m == "delete"@ || m == "head"@
}

/// The keywords of the keyword-argument style.
pub open spec fn is_keyword_arg(k: Seq<char>) -> bool {
    ||| k == "method"@
    ||| k == "params"@
    ||| k == "session"@
    ||| k == "body"@
    ||| k == "flash"@
    ||| k == "xhr"@
    ||| k == "as"@
    ||| k == "headers"@
    ||| k == "env"@
    ||| k == "to"@
}

/// `**x`, `**nil` or `...` among the elements of a hash.
pub open spec fn is_splat_like(k: NodeKind) -> bool {
    k is Kwsplat || k is Kwnilarg || k is ForwardedArgs
}

/// The pairs among the elements `l` of a hash.
pub open spec fn pairs_among(file: &SourceFile, l: Seq<NodeId>) -> Seq<NodeId> {
    l.filter(|c: NodeId| file.kind(c) is Pair)
}

/// A pair keyed by a keyword of the new style, or (as the only pair) by `format`.
pub open spec fn is_style_marker(file: &SourceFile, p: NodeId, single: bool) -> bool {
    match pair_sym_key(file, p) {
        Some(k) => is_keyword_arg(k) || (single && k == "format"@),
        None => false,
    }
}

/// The first data argument is positional: not `...`, and not a hash that
/// splats or already names a keyword (or only `format`).
pub open spec fn needs_conversion(file: &SourceFile, data: NodeId) -> bool {
    match file.kind(data) {
        NodeKind::ForwardedArgs => false,
        NodeKind::Hash(l) => {
            let pairs = pairs_among(file, l@);
            if exists|i: int| 0 <= i < l@.len() && is_splat_like(file.kind(#[trigger] l@[i])) {
                false
            } else if pairs.len() == 0 {
                true
            } else {
                !(exists|i: int| 0 <= i < pairs.len() && is_style_marker(file, #[trigger] pairs[i], pairs.len() == 1))
            }
        },
        _ => true,
    }
}

/// The node is a block of `draw` or `routes`.
pub open spec fn is_routing_block(file: &SourceFile, a: NodeId) -> bool {
    match block_call_of(file.kind(a)) {
        Some(c) => method_of(file.kind(c)) == Some("draw"@) || method_of(file.kind(c)) == Some("routes"@),
        None => false,
    }
}

/// `is_routing_block` as a predicate value.
pub open spec fn routing_pred(file: &SourceFile) -> spec_fn(NodeId) -> bool {
    |a: NodeId| is_routing_block(file, a)
}

/// A constant `name` whose scope satisfies `scope_ok`.
pub open spec fn const_named(file: &SourceFile, n: NodeId, name: Seq<char>) -> Option<Option<NodeId>> {
    match file.kind(n) {
        NodeKind::Const { scope, name: s } => if s@ == name { Some(scope) } else { None },
        _ => None,
    }
}

/// `include Rack::Test::Methods` (also `::Rack`).
pub open spec fn is_rack_test_include(file: &SourceFile, id: NodeId) -> bool {
    match file.kind(id) {
        NodeKind::Send { receiver: None, method, args } => {
            &&& method@ == "include"@
            &&& args@.len() == 1
            &&& const_named(file, args@[0], "Methods"@) matches Some(Some(t))
            &&& const_named(file, t, "Test"@) matches Some(Some(r))
            &&& const_named(file, r, "Rack"@) matches Some(sc)
            &&& match sc {
                None => true,
                Some(c) => file.kind(c) is Cbase,
            }
        },
        _ => false,
    }
}

/// The file includes `Rack::Test::Methods` somewhere.
pub open spec fn uses_rack_test(file: &SourceFile) -> bool {
    exists|i: NodeId| i < file.nodes@.len() && #[trigger] is_rack_test_include(file, i)
}

/// A data argument as a keyword argument `kind:`: a hash's pairs in braces
/// (nothing for an empty hash), anything else by its source.
pub open spec fn convert_data(file: &SourceFile, data: NodeId, kind: Seq<char>) -> Seq<char> {
    match file.kind(data) {
        NodeKind::Hash(l) => {
            let pairs = pairs_among(file, l@);
            if pairs.len() == 0 {
                Seq::empty()
            } else {
                ", "@ + kind + ": { "@ + join_sep(pairs.map_values(|p: NodeId| src_of(file, p)), ", "@) + " }"@
            }
        },
        _ => ", "@ + kind + ": "@ + src_of(file, data),
    }
}

/// The call rewritten with `params:` for the first data argument and
/// `session:` for the last of several.
pub open spec fn http_correction(file: &SourceFile, node: NodeId, verb: Seq<char>, args: Seq<NodeId>) -> Seq<char> {
    let params = convert_data(file, args[1], "params"@);
    let session = if args.len() > 2 { convert_data(file, args.last(), "session"@) } else { Seq::empty() };
    if file.nodes@[node as int].parenthesized {
        verb + "("@ + src_of(file, args[0]) + params + session + ")"@
    } else {
        verb + " "@ + src_of(file, args[0]) + params + session
    }
}

/// What `HttpPositionalArguments::check_send` reports for `node`: the data
/// arguments, with the rewrite of the call.
pub open spec fn http_finding(file: &SourceFile, node: NodeId) -> Option<Finding> {
    match file.kind(node) {
        NodeKind::Send { receiver: None, method, args } => {
            let a = args@;
            if file.rails_at_least(5, 0) && is_http_verb(method@) && a.len() >= 2 && needs_conversion(file, a[1])
                && !file.some_ancestor(node, routing_pred(file)) && !uses_rack_test(file) {
                let range = Range { start: file.range(a[1]).start, end: file.range(a.last()).end };
                Some(Finding {
                    range,
                    message: "Use keyword arguments instead of positional arguments for http call: `"@ + method@ + "`."@,
                    edits: seq![(file.range(node), http_correction(file, node, method@, a))],
                })
            } else {
                None
            }
        },
        _ => None,
    }
}

/// Decides `is_keyword_arg`.
fn keyword_arg(k: &str) -> (r: bool)
    ensures
        r == is_keyword_arg(k@),
{
    str_eq(k, "method") || str_eq(k, "params") || str_eq(k, "session") || str_eq(k, "body") || str_eq(k, "flash")
        || str_eq(k, "xhr") || str_eq(k, "as") || str_eq(k, "headers") || str_eq(k, "env") || str_eq(k, "to")
}

/// The pairs among the elements of the hash `h`.
pub(crate) fn hash_pairs(file: &SourceFile, h: NodeId) -> (r: Vec<NodeId>)
    requires
        file.valid(h),
        file.kind(h) is Hash,
    ensures
        r@ == pairs_among(file, file.kind(h)->Hash_0@),
        forall|i: int| 0 <= i < r@.len() ==> file.children(h).contains(#[trigger] r@[i]),
{
    let list = match &file.nodes[h].kind {
        NodeKind::Hash(l) => l,
        _ => return Vec::new(),
    };
    let ghost pred = |c: NodeId| file.kind(c) is Pair;
    let mut out: Vec<NodeId> = Vec::new();
    let mut i: usize = 0;
    assert(out@ =~= list@.subrange(0, 0).filter(pred));
    while i < list.len()
        invariant
            file.valid(h),
            file.kind(h) == NodeKind::Hash(*list),
            pred == (|c: NodeId| file.kind(c) is Pair),
            i <= list@.len(),
            out@ == list@.subrange(0, i as int).filter(pred),
            forall|j: int| 0 <= j < out@.len() ==> file.children(h).contains(#[trigger] out@[j]),
        decreases list@.len() - i,
    {
        let c = list[i];
        assert(file.children(h)[i as int] == c);
        proof {
            let t = list@.subrange(0, i + 1);
            lemma_filter_push(t, pred);
            assert(t.drop_last() =~= list@.subrange(0, i as int));
        }
        match &file.nodes[c].kind {
            NodeKind::Pair { .. } => out.push(c),
            _ => {},
        }
        i = i + 1;
    }
    assert(list@.subrange(0, list@.len() as int) =~= list@);
    out
}

/// Decides `needs_conversion`.
fn needs_conversion_exec(file: &SourceFile, data: NodeId) -> (r: bool)
    requires
        file.valid(data),
    ensures
        r == needs_conversion(file, data),
{
    let list = match &file.nodes[data].kind {
        NodeKind::ForwardedArgs => return false,
        NodeKind::Hash(l) => l,
        _ => return true,
    };
    let mut i: usize = 0;
    while i < list.len()
        invariant
            file.valid(data),
            file.kind(data) == NodeKind::Hash(*list),
            i <= list@.len(),
            forall|j: int| 0 <= j < i ==> !is_splat_like(file.kind(#[trigger] list@[j])),
        decreases list@.len() - i,
    {
        let c = list[i];
        assert(file.children(data)[i as int] == c);
        match &file.nodes[c].kind {
            NodeKind::Kwsplat(_) | NodeKind::Kwnilarg | NodeKind::ForwardedArgs => {
                assert(is_splat_like(file.kind(list@[i as int])));
                return false;
            },
            _ => {},
        }
        i = i + 1;
    }
    let pairs = hash_pairs(file, data);
    if pairs.len() == 0 {
        return true;
    }
    let single = pairs.len() == 1;
    let mut k: usize = 0;
    while k < pairs.len()
        invariant
            file.wf(),
            data < file.nodes@.len(),
            single == (pairs@.len() == 1),
            file.kind(data) == NodeKind::Hash(*list),
            forall|j: int| 0 <= j < list@.len() ==> !is_splat_like(file.kind(#[trigger] list@[j])),
            pairs@ == pairs_among(file, list@),
            forall|j: int| 0 <= j < pairs@.len() ==> file.children(data).contains(#[trigger] pairs@[j]),
            k <= pairs@.len(),
            forall|j: int| 0 <= j < k ==> !is_style_marker(file, #[trigger] pairs@[j], single),
        decreases pairs@.len() - k,
    {
        let p = pairs[k];
        proof {
            assert(file.children(data).contains(pairs@[k as int]));
            let x = choose|x: int| 0 <= x < file.children(data).len() && file.children(data)[x] == p;
            assert(file.children(data)[x] == p);
        }
        match &file.nodes[p].kind {
            NodeKind::Pair { key, .. } => {
                assert(file.children(p)[0] == *key);
                match &file.nodes[*key].kind {
                    NodeKind::Sym(s) => {
                        if keyword_arg(s.as_str()) || (single && str_eq(s.as_str(), "format")) {
                            assert(is_style_marker(file, pairs@[k as int], single));
                            return false;
                        }
                    },
                    _ => {},
                }
            },
            _ => {},
        }
        k = k + 1;
    }
    true
}

/// Decides `some_ancestor` for `routing_pred`.
fn in_routing_block(file: &SourceFile, n: NodeId) -> (r: bool)
    requires
        file.valid(n),
    ensures
        r == file.some_ancestor(n, routing_pred(file)),
{
    let ghost pred = routing_pred(file);
    let mut cur = n;
    loop
        invariant
            file.wf(),
            cur < file.nodes@.len(),
            pred == routing_pred(file),
            file.some_ancestor(n, pred) == file.some_ancestor(cur, pred),
        decreases cur,
    {
        match file.nodes[cur].parent {
            Some(a) => {
                assert(a < cur);
                let call = match &file.nodes[a].kind {
                    NodeKind::Block { call, .. } => Some(*call),
                    NodeKind::Numblock { send, .. } | NodeKind::Itblock { send, .. } => Some(*send),
                    _ => None,
                };
                let hit = match call {
                    Some(c) => {
                        assert(file.children(a)[0] == c);
                        match file.method_name(c) {
                            Some(m) => str_eq(m, "draw") || str_eq(m, "routes"),
                            None => false,
                        }
                    },
                    None => false,
                };
                if hit {
                    assert(pred(a));
                    return true;
                }
                assert(!pred(a));
                cur = a;
            },
            None => return false,
        }
    }
}

/// Computes `const_named`.
fn const_named_exec(file: &SourceFile, n: NodeId, name: &str) -> (r: Option<Option<NodeId>>)
    requires
        file.valid(n),
    ensures
        r == const_named(file, n, name@),
        r matches Some(Some(s)) ==> s < file.nodes@.len(),
{
    match &file.nodes[n].kind {
        NodeKind::Const { scope, name: s } => {
            if !str_eq(s.as_str(), name) {
                return None;
            }
            proof {
                if scope is Some {
                    assert(file.children(n)[0] == scope->0);
                }
            }
            Some(*scope)
        },
        _ => None,
    }
}

/// Decides `is_rack_test_include`.
fn is_rack_test_include_exec(file: &SourceFile, id: NodeId) -> (r: bool)
    requires
        file.valid(id),
    ensures
        r == is_rack_test_include(file, id),
{
    let args = match &file.nodes[id].kind {
        NodeKind::Send { receiver: None, method, args } => {
            if !str_eq(method.as_str(), "include") || args.len() != 1 {
                return false;
            }
            args
        },
        _ => return false,
    };
    assert(file.children(id)[0] == args@[0]);
    let t = match const_named_exec(file, args[0], "Methods") {
        Some(Some(t)) => t,
        _ => return false,
    };
    let r = match const_named_exec(file, t, "Test") {
        Some(Some(r)) => r,
        _ => return false,
    };
    match const_named_exec(file, r, "Rack") {
        Some(None) => true,
        Some(Some(c)) => match &file.nodes[c].kind {
            NodeKind::Cbase => true,
            _ => false,
        },
        None => false,
    }
}

/// Decides `uses_rack_test`.
fn uses_rack_test_methods(file: &SourceFile) -> (r: bool)
    requires
        file.wf(),
    ensures
        r == uses_rack_test(file),
{
    let mut i: usize = 0;
    while i < file.nodes.len()
        invariant
            file.wf(),
            i <= file.nodes@.len(),
            forall|j: NodeId| j < i ==> !#[trigger] is_rack_test_include(file, j),
        decreases file.nodes@.len() - i,
    {
        if is_rack_test_include_exec(file, i) {
            return true;
        }
        i = i + 1;
    }
    false
}

/// Computes `convert_data`.
fn convert_hash_data(file: &SourceFile, data: NodeId, kind: &str) -> (r: String)
    requires
        file.valid(data),
    ensures
        r@ == convert_data(file, data, kind@),
{
    match &file.nodes[data].kind {
        NodeKind::Hash(_) => {},
        _ => {
            let mut s = concat3(", ", kind, ": ");
            s.append(file.raw_source(file.nodes[data].range));
            return s;
        },
    }
    let pairs = hash_pairs(file, data);
    if pairs.len() == 0 {
        return String::new();
    }
    let ghost parts = pairs@.map_values(|p: NodeId| src_of(file, p));
    let mut s = concat3(", ", kind, ": { ");
    let ghost head = s@;
    let mut joined = String::new();
    let mut j: usize = 0;
    while j < pairs.len()
        invariant
            file.wf(),
            data < file.nodes@.len(),
            forall|k: int| 0 <= k < pairs@.len() ==> file.children(data).contains(#[trigger] pairs@[k]),
            parts == pairs@.map_values(|p: NodeId| src_of(file, p)),
            j <= pairs@.len(),
            joined@ == join_sep(parts.subrange(0, j as int), ", "@),
        decreases pairs@.len() - j,
    {
        let p = pairs[j];
        proof {
            assert(file.children(data).contains(pairs@[j as int]));
            let x = choose|x: int| 0 <= x < file.children(data).len() && file.children(data)[x] == p;
            assert(file.children(data)[x] == p);
        }
        if j > 0 {
            joined.append(", ");
        }
        joined.append(file.raw_source(file.nodes[p].range));
        proof {
            let ps = parts.subrange(0, j + 1);
            assert(ps.drop_last() =~= parts.subrange(0, j as int));
            assert(ps.last() == src_of(file, p));
            if j == 0 {
                assert(joined@ =~= ps[0]);
            } else {
                assert(joined@ =~= join_sep(ps.drop_last(), ", "@) + ", "@ + ps.last());
            }
        }
        j = j + 1;
    }
    assert(parts.subrange(0, pairs@.len() as int) =~= parts);
    s.append(joined.as_str());
    s.append(" }");
    s
}

impl HttpPositionalArguments {
    /// Reports a request helper whose data arguments are positional, with
    /// the rewrite to `params:`/`session:`.
    pub fn check_send(&self, file: &SourceFile, node: NodeId) -> (r: Option<Offense>)
        requires
            file.valid(node),
        ensures
            r.deep_view() == http_finding(file, node),
    {
        if !file.rails_version_at_least(5, 0) {
            return None;
        }
        let (verb, args) = match &file.nodes[node].kind {
            NodeKind::Send { receiver: None, method, args } => (method.as_str(), args),
            _ => return None,
        };
        let is_verb = str_eq(verb, "get") || str_eq(verb, "post") || str_eq(verb, "put") || str_eq(verb, "patch")
            || str_eq(verb, "delete") || str_eq(verb, "head");
        let n = args.len();
        if !is_verb || n < 2 {
            return None;
        }
        assert(file.children(node)[0] == args@[0]);
        assert(file.children(node)[1] == args@[1]);
        assert(file.children(node)[n - 1] == args@[n - 1]);
        if !needs_conversion_exec(file, args[1]) {
            return None;
        }
        if in_routing_block(file, node) || uses_rack_test_methods(file) {
            return None;
        }
        let range = Range { start: file.nodes[args[1]].range.start, end: file.nodes[args[n - 1]].range.end };
        let msg = concat3("Use keyword arguments instead of positional arguments for http call: `", verb, "`.");
        let params = convert_hash_data(file, args[1], "params");
        let session = if n > 2 {
            convert_hash_data(file, args[n - 1], "session")
        } else {
            String::new()
        };
        let action = file.raw_source(file.nodes[args[0]].range);
        let mut fix = String::from_str(verb);
        if file.nodes[node].parenthesized {
            fix.append("(");
            fix.append(action);
            fix.append(params.as_str());
            fix.append(session.as_str());
            fix.append(")");
        } else {
            fix.append(" ");
            fix.append(action);
            fix.append(params.as_str());
            fix.append(session.as_str());
        }
        assert(fix@ =~= http_correction(file, node, verb@, args@));
        let mut edits: Vec<Edit> = Vec::new();
        edits.push(Edit { range: file.nodes[node].range, replacement: fix });
        let o = Offense { range, message: msg, edits };
        assert(o.deep_view().edits =~= http_finding(file, node)->Some_0.edits);
        Some(o)
    }
}

} // verus!
