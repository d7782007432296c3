//! `Rails/MatchRoute`: define routes with the HTTP method, not `match`.

use vstd::prelude::*;
use crate::ast::{NodeId, NodeKind, SourceFile};
use crate::cops::multiple_route_paths::{http_method, routes_block, within_routes};
use crate::cops::not_null_column::pair_sym_key;
use crate::cops::read_write_attribute::src_of;
use crate::cops::redundant_foreign_key::{sym_or_str, text_of};
use crate::report::{offense1, Finding, Offense};
use crate::text::{concat3, join_sep, lemma_filter_push, lower_str, str_eq, to_lower_str};

verus! {

/// Reports `match` routes that one HTTP method serves.
#[derive(Debug, Default)]
pub struct MatchRoute;

/// The first `via:` pair among the elements `l` of a hash.
pub open spec fn via_pair(file: &SourceFile, l: Seq<NodeId>) -> Option<NodeId>
    decreases l.len(),
{
    if l.len() == 0 {
        None
    } else if pair_sym_key(file, l[0]) == Some("via"@) {
        Some(l[0])
    } else {
        via_pair(file, l.drop_first())
    }
}

/// The texts of the symbols and strings `l`, when all are such.
pub open spec fn literal_texts(file: &SourceFile, l: Seq<NodeId>) -> Option<Seq<Seq<char>>>
    decreases l.len(),
{
    if l.len() == 0 {
        Some(Seq::empty())
    } else {
        match (literal_texts(file, l.drop_last()), sym_or_str(file.kind(l.last()))) {
            (Some(ts), Some(t)) => Some(ts.push(t)),
            _ => None,
        }
    }
}

/// The methods a `via:` value names, when it is literal.
pub open spec fn via_values(file: &SourceFile, v: NodeId) -> Option<Seq<Seq<char>>> {
    match file.kind(v) {
        NodeKind::Sym(s) => Some(seq![s@]),
        NodeKind::Str(s) => Some(seq![s@]),
        NodeKind::Array(l) => literal_texts(file, l@),
        _ => None,
    }
}

/// The method a `via:` option names, when it names exactly one HTTP method.
pub open spec fn single_http_method(file: &SourceFile, via: NodeId) -> Option<Seq<char>> {
    match file.kind(via) {
        NodeKind::Pair { value, .. } => match via_values(file, value) {
            Some(vs) => if vs.len() == 1 && http_method(lower_str(vs[0])) { Some(lower_str(vs[0])) } else { None },
            None => None,
        },
        _ => None,
    }
}

/// All elements but `x`, as a predicate value.
pub open spec fn other_than(x: NodeId) -> spec_fn(NodeId) -> bool {
    |p: NodeId| p != x
}

/// The sources of the elements of `l` other than the `via:` pair.
pub open spec fn rest_sources(file: &SourceFile, l: Seq<NodeId>) -> Seq<Seq<char>> {
    let rest = match via_pair(file, l) {
        Some(v) => l.filter(other_than(v)),
        None => l,
    };
    rest.map_values(|p: NodeId| src_of(file, p))
}

/// What `MatchRoute::check_send` reports for `node`, with the route
/// rewritten to the method without `via:`.
pub open spec fn match_route_finding(file: &SourceFile, node: NodeId) -> Option<Finding> {
    match file.kind(node) {
        NodeKind::Send { receiver: None, method, args } => {
            let a = args@;
            if method@ == "match"@ && file.nearest_ancestor(node, routes_block(file)) is Some && (a.len() == 1
                || (a.len() == 2 && file.kind(a[1]) is Hash)) {
                let path = a[0];
                let hash = a.last();
                match file.kind(hash) {
                    NodeKind::Hash(l) => {
                        let http = match via_pair(file, l@) {
                            Some(v) => single_http_method(file, v),
                            None => Some("get"@),
                        };
                        match http {
                            Some(h) => {
                                let rest = rest_sources(file, l@);
                                let rep = if a.len() == 1 {
                                    h + " "@ + join_sep(rest, ", "@)
                                } else if rest.len() == 0 {
                                    h + " "@ + src_of(file, path)
                                } else {
                                    h + " "@ + src_of(file, path) + ", "@ + join_sep(rest, ", "@)
                                };
                                Some(Finding {
                                    range: file.range(node),
                                    message: "Use `"@ + h + "` instead of `match` to define a route."@,
                                    edits: seq![(file.range(node), rep)],
                                })
                            },
                            None => None,
                        }
                    },
                    _ => {
                        let rep = "get"@ + " "@ + src_of(file, path);
                        Some(Finding {
                            range: file.range(node),
                            message: "Use `"@ + "get"@ + "` instead of `match` to define a route."@,
                            edits: seq![(file.range(node), rep)],
                        })
                    },
                }
            } else {
                None
            }
        },
        _ => None,
    }
}

/// Computes `via_pair` for the hash `h`.
fn via_pair_id(file: &SourceFile, h: NodeId) -> (r: Option<NodeId>)
    requires
        file.valid(h),
        file.kind(h) is Hash,
    ensures
        r == via_pair(file, file.kind(h)->Hash_0@),
        r matches Some(v) ==> v < file.nodes@.len() && file.kind(h)->Hash_0@.contains(v),
{
    let list = match &file.nodes[h].kind {
        NodeKind::Hash(l) => l,
        _ => return None,
    };
    let mut i: usize = 0;
    assert(list@.subrange(0, list@.len() as int) =~= list@);
    while i < list.len()
        invariant
            file.valid(h),
            file.kind(h) == NodeKind::Hash(*list),
            i <= list@.len(),
            via_pair(file, list@) == via_pair(file, list@.subrange(i as int, list@.len() as int)),
        decreases list@.len() - i,
    {
        let p = list[i];
        assert(file.children(h)[i as int] == p);
        assert(list@.subrange(i as int, list@.len() as int).drop_first() =~= list@.subrange(i + 1, list@.len() as int));
        assert(list@.subrange(i as int, list@.len() as int)[0] == p);
        let hit = match &file.nodes[p].kind {
            NodeKind::Pair { key, .. } => {
                assert(file.children(p)[0] == *key);
                match &file.nodes[*key].kind {
                    NodeKind::Sym(s) => str_eq(s.as_str(), "via"),
                    _ => false,
                }
            },
            _ => false,
        };
        if hit {
            assert(list@[i as int] == p);
            return Some(p);
        }
        i = i + 1;
    }
    None
}

/// Computes `single_http_method` for the pair `via`.
fn single_http_method_exec(file: &SourceFile, via: NodeId) -> (r: Option<String>)
    requires
        file.valid(via),
    ensures
        crate::ast::opt_string_view(r) == single_http_method(file, via),
{
    let value = match &file.nodes[via].kind {
        NodeKind::Pair { value, .. } => *value,
        _ => return None,
    };
    assert(file.children(via)[1] == value);
    let only: &str = match &file.nodes[value].kind {
        NodeKind::Sym(s) | NodeKind::Str(s) => s.as_str(),
        NodeKind::Array(l) => {
            let mut i: usize = 0;
            let mut first: Option<&str> = None;
            let ghost mut texts: Seq<Seq<char>> = Seq::empty();
            assert(literal_texts(file, l@.subrange(0, 0)) == Some(texts));
            while i < l.len()
                invariant
                    file.valid(value),
                    file.nodes@.len() > via,
                    file.kind(via) matches NodeKind::Pair { value: v, .. } && v == value,
                    file.kind(value) == NodeKind::Array(*l),
                    i <= l@.len(),
                    literal_texts(file, l@.subrange(0, i as int)) == Some(texts),
                    texts.len() == i,
                    i > 0 ==> (first matches Some(f) && f@ == texts[0]),
                decreases l@.len() - i,
            {
                let e = l[i];
                assert(file.children(value)[i as int] == e);
                assert(l@.subrange(0, i + 1).drop_last() =~= l@.subrange(0, i as int));
                assert(l@.subrange(0, i + 1).last() == e);
                match text_of(&file.nodes[e].kind) {
                    Some(t) => {
                        if i == 0 {
                            first = Some(t);
                        }
                        proof { texts = texts.push(t@); }
                    },
                    None => {
                        proof { lemma_literal_texts_none(file, l@, i as int + 1); }
                        return None;
                    },
                }
                i = i + 1;
            }
            assert(l@.subrange(0, l@.len() as int) =~= l@);
            if l.len() != 1 {
                return None;
            }
            match first {
                Some(f) => f,
                None => return None,
            }
        },
        _ => return None,
    };
    let lowered = to_lower_str(only);
    let l = lowered.as_str();
    if str_eq(l, "get") || str_eq(l, "post") || str_eq(l, "put") || str_eq(l, "patch") || str_eq(l, "delete") {
        Some(lowered)
    } else {
        None
    }
}

/// Once an element is not a symbol or string, no longer prefix has texts.
proof fn lemma_literal_texts_none(file: &SourceFile, l: Seq<NodeId>, i: int)
    requires
        0 < i <= l.len(),
        literal_texts(file, l.subrange(0, i)) is None,
    ensures
        literal_texts(file, l) is None,
    decreases l.len() - i,
{
    if i < l.len() {
        assert(l.subrange(0, i + 1).drop_last() =~= l.subrange(0, i));
        lemma_literal_texts_none(file, l, i + 1);
    } else {
        assert(l.subrange(0, i) =~= l);
    }
}

/// The sources of the elements of the hash `h` other than its `via:` pair,
/// joined by commas; and how many there are.
fn rest_joined(file: &SourceFile, h: NodeId) -> (r: (String, usize))
    requires
        file.valid(h),
        file.kind(h) is Hash,
    ensures
        r.0@ == join_sep(rest_sources(file, file.kind(h)->Hash_0@), ", "@),
        r.1 == rest_sources(file, file.kind(h)->Hash_0@).len(),
{
    let list = match &file.nodes[h].kind {
        NodeKind::Hash(l) => l,
        _ => return (String::new(), 0),
    };
    let via = via_pair_id(file, h);
    let ghost keep = match via {
        Some(v) => other_than(v),
        None => |p: NodeId| true,
    };
    let mut rest: Vec<NodeId> = Vec::new();
    let mut i: usize = 0;
    assert(rest@ =~= list@.subrange(0, 0).filter(keep));
    while i < list.len()
        invariant
            file.valid(h),
            file.kind(h) == NodeKind::Hash(*list),
            keep == match via {
                Some(v) => other_than(v),
                None => |p: NodeId| true,
            },
            i <= list@.len(),
            rest@ == list@.subrange(0, i as int).filter(keep),
            forall|j: int| 0 <= j < rest@.len() ==> #[trigger] rest@[j] < file.nodes@.len(),
        decreases list@.len() - i,
    {
        let p = list[i];
        assert(file.children(h)[i as int] == p);
        proof {
            let t = list@.subrange(0, i + 1);
            lemma_filter_push(t, keep);
            assert(t.drop_last() =~= list@.subrange(0, i as int));
        }
        let skip = match via {
            Some(v) => v == p,
            None => false,
        };
        if !skip {
            rest.push(p);
        }
        i = i + 1;
    }
    assert(list@.subrange(0, list@.len() as int) =~= list@);
    proof {
        if via is None {
            assert(list@.filter(keep) =~= list@) by {
                assert(forall|x: NodeId| #[trigger] keep(x));
                crate::cops::match_route::lemma_filter_all(list@, keep);
            }
        }
    }
    let ghost parts = rest@.map_values(|p: NodeId| src_of(file, p));
    assert(parts == rest_sources(file, list@));
    let mut joined = String::new();
    let mut j: usize = 0;
    while j < rest.len()
        invariant
            file.wf(),
            forall|k: int| 0 <= k < rest@.len() ==> #[trigger] rest@[k] < file.nodes@.len(),
            parts == rest@.map_values(|p: NodeId| src_of(file, p)),
            j <= rest@.len(),
            joined@ == join_sep(parts.subrange(0, j as int), ", "@),
        decreases rest@.len() - j,
    {
        let p = rest[j];
        if j > 0 {
            joined.append(", ");
        }
        joined.append(file.raw_source(file.nodes[p].range));
        proof {
            let ps = parts.subrange(0, j + 1);
            assert(ps.drop_last() =~= parts.subrange(0, j as int));
            assert(ps.last() == src_of(file, p));
            if j == 0 {
                assert(joined@ =~= ps[0]);
            } else {
                assert(joined@ =~= join_sep(ps.drop_last(), ", "@) + ", "@ + ps.last());
            }
        }
        j = j + 1;
    }
    assert(parts.subrange(0, rest@.len() as int) =~= parts);
    (joined, rest.len())
}

/// Filtering by a predicate that keeps everything changes nothing.
pub proof fn lemma_filter_all<A>(s: Seq<A>, p: spec_fn(A) -> bool)
    requires
        forall|x: A| #[trigger] p(x),
    ensures
        s.filter(p) == s,
    decreases s.len(),
{
    if s.len() > 0 {
        lemma_filter_push(s, p);
        lemma_filter_all(s.drop_last(), p);
        assert(s.drop_last().push(s.last()) =~= s);
    } else {
        assert(s.filter(p) =~= s);
    }
}

impl MatchRoute {
    /// Reports a `match` route in a `routes.draw` block that one HTTP method
    /// serves, with its rewrite.
    pub fn check_send(&self, file: &SourceFile, node: NodeId) -> (r: Option<Offense>)
        requires
            file.valid(node),
        ensures
            r.deep_view() == match_route_finding(file, node),
    {
        let args = match &file.nodes[node].kind {
            NodeKind::Send { receiver: None, method, args } => {
                if !str_eq(method.as_str(), "match") {
                    return None;
                }
                args
            },
            _ => return None,
        };
        if !within_routes(file, node) {
            return None;
        }
        let n = args.len();
        if n == 0 || n > 2 {
            return None;
        }
        let path = args[0];
        let hash = args[n - 1];
        assert(file.children(node)[0] == path);
        assert(file.children(node)[n - 1] == hash);
        let is_hash = match &file.nodes[hash].kind {
            NodeKind::Hash(_) => true,
            _ => false,
        };
        if n == 2 && !is_hash {
            return None;
        }
        let path_src = file.raw_source(file.nodes[path].range);
        let range = file.nodes[node].range;
        if !is_hash {
            let rep = concat3("get", " ", path_src);
            let msg = concat3("Use `", "get", "` instead of `match` to define a route.");
            return Some(offense1(range, msg, range, rep));
        }
        let http = match via_pair_id(file, hash) {
            Some(v) => match single_http_method_exec(file, v) {
                Some(h) => h,
                None => return None,
            },
            None => String::from_str("get"),
        };
        let (joined, count) = rest_joined(file, hash);
        let mut rep = concat3(http.as_str(), " ", "");
        proof { reveal_strlit(""); }
        assert(rep@ =~= http@ + " "@);
        if n == 1 {
            rep.append(joined.as_str());
        } else if count == 0 {
            rep.append(path_src);
        } else {
            rep.append(path_src);
            rep.append(", ");
            rep.append(joined.as_str());
        }
        let msg = concat3("Use `", http.as_str(), "` instead of `match` to define a route.");
        Some(offense1(range, msg, range, rep))
    }
}

} // verus!
