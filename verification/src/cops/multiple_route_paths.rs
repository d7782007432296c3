//! `Rails/MultipleRoutePaths`: separate routes instead of several paths in one route.

use vstd::prelude::*;
use crate::ast::{call_receiver_of, method_of, NodeId, NodeKind, SourceFile};
use crate::cops::read_write_attribute::src_of;
use crate::cops::redundant_foreign_key::blank;
use crate::report::{finding1, offense1, Finding, Offense};
use crate::text::{join_sep, lemma_prefix_len, lemma_suffix_len, not_char, prefix_len, push_char, str_eq, suffix_len};

verus! {

/// Checks HTTP-verb routes inside `routes.draw` blocks.
#[derive(Debug, Default)]
pub struct MultipleRoutePaths;

/// `get`, `post`, `put`, `patch` or `delete`.
pub open spec fn http_method(m: Seq<char>) -> bool {
    m == "get"@ || m == "post"@ || m == "put"@ || m == "patch"@ || m == "delete"@
}

/// A block whose call is `<x>.routes.draw`.
pub open spec fn routes_block(file: &SourceFile) -> spec_fn(NodeKind) -> bool {
    |k: NodeKind| {
        let call = match k {
            NodeKind::Block { call, .. } => Some(call),
            NodeKind::Numblock { send, .. } => Some(send),
            NodeKind::Itblock { send, .. } => Some(send),
            _ => None,
        };
        match call {
            Some(c) => method_of(file.kind(c)) == Some("draw"@) && match call_receiver_of(file.kind(c)) {
                Some(r) => method_of(file.kind(r)) == Some("routes"@),
                None => false,
            },
            None => false,
        }
    }
}

/// The arguments that are paths: all but arrays, hashes and `**` splats.
pub open spec fn route_paths(file: &SourceFile, args: Seq<NodeId>) -> Seq<NodeId> {
    args.filter(|a: NodeId| !(file.kind(a) is Array || file.kind(a) is Hash || file.kind(a) is Kwsplat))
}

/// The blanks that begin the line holding offset `off`.
pub open spec fn indent_at(src: Seq<char>, off: int) -> Seq<char> {
    let ls = off - suffix_len(src.subrange(0, off), not_char('\n'));
    src.subrange(ls, ls + prefix_len(src.subrange(ls, src.len() as int), blank()))
}

/// One route per path: `<method> <path><rest of the call>`, joined by a
/// newline and the route's indentation.
pub open spec fn route_correction(file: &SourceFile, node: NodeId, method: Seq<char>, paths: Seq<NodeId>) -> Seq<char> {
    let rest = file.source@.subrange(file.range(paths.last()).end as int, file.range(node).end as int);
    let lines = paths.map_values(|p: NodeId| method + " "@ + src_of(file, p) + rest);
    join_sep(lines, "\n"@ + indent_at(file.source@, file.range(node).start as int))
}

/// What `MultipleRoutePaths::check_send` reports for `node`.
pub open spec fn multiple_route_paths_finding(file: &SourceFile, node: NodeId) -> Option<Finding> {
    match file.kind(node) {
        NodeKind::Send { method, args, .. } => {
            let paths = route_paths(file, args@);
            if http_method(method@) && file.nearest_ancestor(node, routes_block(file)) is Some && paths.len() >= 2 {
                Some(finding1(
                    file.range(node),
                    "Use separate routes instead of combining multiple route paths in a single route."@,
                    file.range(node),
                    route_correction(file, node, method@, paths),
                ))
            } else {
                None
            }
        },
        _ => None,
    }
}

/// Whether some ancestor is a `routes.draw` block.
pub fn within_routes(file: &SourceFile, n: NodeId) -> (r: bool)
    requires
        file.valid(n),
    ensures
        r == (file.nearest_ancestor(n, routes_block(file)) is Some),
{
    let ghost pred = routes_block(file);
    let mut cur = n;
    loop
        invariant
            file.wf(),
            cur <= n < file.nodes@.len(),
            pred == routes_block(file),
            file.nearest_ancestor(n, pred) == file.nearest_ancestor(cur, pred),
        decreases cur,
    {
        match file.nodes[cur].parent {
            Some(p) => {
                assert(p < cur);
                let call = match &file.nodes[p].kind {
                    NodeKind::Block { call, .. } => {
                        assert(file.children(p)[0] == *call);
                        Some(*call)
                    },
                    NodeKind::Numblock { send, .. } | NodeKind::Itblock { send, .. } => {
                        assert(file.children(p)[0] == *send);
                        Some(*send)
                    },
                    _ => None,
                };
                let hit = match call {
                    Some(c) => {
                        let draw = match file.method_name(c) {
                            Some(m) => str_eq(m, "draw"),
                            None => false,
                        };
                        draw && match file.call_receiver(c) {
                            Some(r) => {
                                assert(file.children(c)[0] == r);
                                match file.method_name(r) {
                                    Some(m) => str_eq(m, "routes"),
                                    None => false,
                                }
                            },
                            None => false,
                        }
                    },
                    None => false,
                };
                if hit {
                    assert(pred(file.kind(p)));
                    return true;
                }
                assert(!pred(file.kind(p)));
                cur = p;
            },
            None => return false,
        }
    }
}

/// The indentation of the line holding offset `off`.
pub fn indentation_of(src: &str, off: usize) -> (r: String)
    requires
        off <= src@.len(),
    ensures
        r@ == indent_at(src@, off as int),
{
    let n = src.unicode_len();
    let mut ls = off;
    while ls > 0 && src.get_char(ls - 1) != '\n'
        invariant
            ls <= off <= src@.len(),
            forall|j: int| ls <= j < off ==> not_char('\n')(#[trigger] src@[j]),
        decreases ls,
    {
        ls = ls - 1;
    }
    proof {
        let t = src@.subrange(0, off as int);
        assert forall|j: int| ls <= j < t.len() implies not_char('\n')(#[trigger] t[j]) by {
            assert(t[j] == src@[j]);
        }
        lemma_suffix_len(t, not_char('\n'), ls as int);
    }
    let mut out = String::new();
    let mut i = ls;
    while i < n && (src.get_char(i) == ' ' || src.get_char(i) == '\t')
        invariant
            n == src@.len(),
            ls <= i <= n,
            forall|j: int| ls <= j < i ==> blank()(#[trigger] src@[j]),
            out@ == src@.subrange(ls as int, i as int),
        decreases n - i,
    {
        push_char(&mut out, src.get_char(i));
        i = i + 1;
        assert(out@ =~= src@.subrange(ls as int, i as int));
    }
    proof {
        let t = src@.subrange(ls as int, n as int);
        assert forall|j: int| 0 <= j < i - ls implies blank()(#[trigger] t[j]) by {
            assert(t[j] == src@[ls + j]);
        }
        lemma_prefix_len(t, blank(), i - ls);
    }
    out
}

impl MultipleRoutePaths {
    /// Reports a route with several paths, with the edit that splits it.
    pub fn check_send(&self, file: &SourceFile, node: NodeId) -> (r: Option<Offense>)
        requires
            file.valid(node),
        ensures
            r.deep_view() == multiple_route_paths_finding(file, node),
    {
        let (method, args) = match &file.nodes[node].kind {
            NodeKind::Send { method, args, .. } => (method.as_str(), args),
            _ => return None,
        };
        if !(str_eq(method, "get") || str_eq(method, "post") || str_eq(method, "put") || str_eq(method, "patch")
            || str_eq(method, "delete")) {
            return None;
        }
        if !within_routes(file, node) {
            return None;
        }
        let ghost keep = |a: NodeId| !(file.kind(a) is Array || file.kind(a) is Hash || file.kind(a) is Kwsplat);
        let mut paths: Vec<NodeId> = Vec::new();
        let mut i: usize = 0;
        while i < args.len()
            invariant
                file.valid(node),
                file.kind(node) matches NodeKind::Send { args: a, .. } && a@ == args@,
                keep == (|a: NodeId| !(file.kind(a) is Array || file.kind(a) is Hash || file.kind(a) is Kwsplat)),
                i <= args@.len(),
                paths@ == args@.subrange(0, i as int).filter(keep),
                forall|k: int| 0 <= k < paths@.len() ==> file.children(node).contains(#[trigger] paths@[k]),
            decreases args@.len() - i,
        {
            proof { crate::ast::lemma_args_are_children(file, node, i as int); }
            let a = args[i];
            assert(args@.subrange(0, i + 1).drop_last() =~= args@.subrange(0, i as int));
            proof { crate::text::lemma_filter_push(args@.subrange(0, i + 1), keep); }
            match &file.nodes[a].kind {
                NodeKind::Array(_) | NodeKind::Hash(_) | NodeKind::Kwsplat(_) => {},
                _ => {
                    paths.push(a);
                    proof {
                        let k = crate::ast::opt_seq(crate::ast::call_receiver_of(file.kind(node))).len() + i;
                        assert(file.children(node)[k as int] == a);
                    }
                },
            }
            i = i + 1;
        }
        assert(args@.subrange(0, args@.len() as int) =~= args@);
        if paths.len() < 2 {
            return None;
        }
        let nr = file.nodes[node].range;
        let last = paths[paths.len() - 1];
        proof {
            assert(file.children(node).contains(last));
            let k = choose|k: int| 0 <= k < file.children(node).len() && file.children(node)[k] == last;
            assert(file.children(node)[k] == last);
        }
        let rest = file.raw_source(crate::ast::Range { start: file.nodes[last].range.end, end: nr.end });
        let indent = indentation_of(file.source.as_str(), nr.start);
        let mut sep = String::from_str("\n");
        sep.append(indent.as_str());
        let ghost lines = paths@.map_values(|p: NodeId| method@ + " "@ + src_of(file, p) + rest@);
        let mut out = String::new();
        let mut j: usize = 0;
        while j < paths.len()
            invariant
                file.wf(),
                j <= paths@.len(),
                forall|k: int| 0 <= k < paths@.len() ==> file.children(node).contains(#[trigger] paths@[k]),
                node < file.nodes@.len(),
                lines == paths@.map_values(|p: NodeId| method@ + " "@ + src_of(file, p) + rest@),
                out@ == join_sep(lines.subrange(0, j as int), sep@),
            decreases paths@.len() - j,
        {
            let p = paths[j];
            proof {
                assert(file.children(node).contains(p));
                let k = choose|k: int| 0 <= k < file.children(node).len() && file.children(node)[k] == p;
                assert(file.children(node)[k] == p);
            }
            if j > 0 {
                out.append(sep.as_str());
            }
            out.append(method);
            out.append(" ");
            out.append(file.raw_source(file.nodes[p].range));
            out.append(rest);
            proof {
                let pre = lines.subrange(0, j + 1);
                assert(pre.drop_last() =~= lines.subrange(0, j as int));
                assert(pre.last() == lines[j as int]);
            }
            j = j + 1;
        }
        assert(lines.subrange(0, lines.len() as int) =~= lines);
        Some(offense1(
            nr,
            String::from_str("Use separate routes instead of combining multiple route paths in a single route."),
            nr,
            out,
        ))
    }
}

} // verus!
