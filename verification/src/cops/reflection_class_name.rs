//! `Rails/ReflectionClassName`: `class_name:` takes a string, not a constant.

use vstd::prelude::*;
use crate::ast::{call_receiver_of, method_of, NodeId, NodeKind, SourceFile};
use crate::cops::read_write_attribute::src_of;
use crate::report::{Finding, Offense, Edit};
use crate::text::{concat3, str_eq};

verus! {

/// Checks `class_name:` options of association macros.
#[derive(Debug, Default)]
pub struct ReflectionClassName;

/// A pair keyed by the symbol `:class_name`.
pub open spec fn is_class_name_pair(file: &SourceFile, p: NodeId) -> bool {
    match file.kind(p) {
        NodeKind::Pair { key, .. } => file.kind(key) matches NodeKind::Sym(s) && s@ == "class_name"@,
        _ => false,
    }
}

/// A string, symbol or interpolated string.
pub open spec fn is_string_like(k: NodeKind) -> bool {
    k is Str || k is Sym || k is Dstr
}

/// A child of `a` assigns a string-like value to the local `lvar`.
pub open spec fn assigns_string(file: &SourceFile, a: NodeId, lvar: Seq<char>) -> bool {
    exists|j: int| 0 <= j < file.children(a).len() && (file.kind(#[trigger] file.children(a)[j]) matches NodeKind::Lvasgn { name, value: Some(v) }
        && name@ == lvar && is_string_like(file.kind(v)))
}

/// `assigns_string` as a predicate value.
pub open spec fn assigns_string_pred(file: &SourceFile, lvar: Seq<char>) -> spec_fn(NodeId) -> bool {
    |a: NodeId| assigns_string(file, a, lvar)
}

/// Whether the pair's value is reported, and with which correction: a
/// constant or `Const.name`/`Const.to_s` (quoted), or a local variable not
/// assigned a string in an enclosing scope (no correction).
pub open spec fn check_pair(file: &SourceFile, pair: NodeId) -> Option<Option<Seq<char>>> {
    match file.kind(pair) {
        NodeKind::Pair { value, .. } => {
            let k = file.kind(value);
            if is_string_like(k) {
                None
            } else if k is Send || k is Csend {
                match call_receiver_of(k) {
                    Some(r) => if file.kind(r) is Const && (method_of(k) == Some("name"@) || method_of(k) == Some("to_s"@)) {
                        Some(Some("\""@ + src_of(file, r) + "\""@))
                    } else {
                        None
                    },
                    None => None,
                }
            } else {
                match k {
                    NodeKind::Lvar(name) => if file.some_ancestor(pair, assigns_string_pred(file, name@)) {
                        None
                    } else {
                        Some(None)
                    },
                    NodeKind::Const { .. } => Some(Some("\""@ + src_of(file, value) + "\""@)),
                    _ => None,
                }
            }
        },
        _ => None,
    }
}

/// The finding for one pair.
pub open spec fn pair_finding(file: &SourceFile, p: NodeId) -> Seq<Finding> {
    if is_class_name_pair(file, p) {
        match check_pair(file, p) {
            Some(fix) => seq![Finding {
                range: file.range(p),
                message: "Use a string value for `class_name`."@,
                edits: match (fix, file.kind(p)) {
                    (Some(rep), NodeKind::Pair { value, .. }) => seq![(file.range(value), rep)],
                    _ => Seq::empty(),
                },
            }],
            None => Seq::empty(),
        }
    } else {
        Seq::empty()
    }
}

/// Findings for the pairs `pairs`, in order.
pub open spec fn pairs_findings(file: &SourceFile, pairs: Seq<NodeId>) -> Seq<Finding>
    decreases pairs.len(),
{
    if pairs.len() == 0 {
        Seq::empty()
    } else {
        pairs_findings(file, pairs.drop_last()) + pair_finding(file, pairs.last())
    }
}

/// Findings for the hash arguments among `args`, in order.
pub open spec fn args_findings(file: &SourceFile, args: Seq<NodeId>) -> Seq<Finding>
    decreases args.len(),
{
    if args.len() == 0 {
        Seq::empty()
    } else {
        args_findings(file, args.drop_last()) + match file.kind(args.last()) {
            NodeKind::Hash(l) => pairs_findings(file, l@),
            _ => Seq::empty(),
        }
    }
}

/// What `ReflectionClassName::check_send` reports for `node`.
pub open spec fn reflection_findings(file: &SourceFile, node: NodeId) -> Seq<Finding> {
    match file.kind(node) {
        NodeKind::Send { receiver: None, method, args } =>
            if method@ == "has_many"@ || method@ == "has_one"@ || method@ == "belongs_to"@ {
                args_findings(file, args@)
            } else {
                Seq::empty()
            },
        _ => Seq::empty(),
    }
}

/// Whether an enclosing node has a child assigning a string to `lvar`.
fn str_assigned(file: &SourceFile, pair: NodeId, lvar: &str) -> (r: bool)
    requires
        file.valid(pair),
    ensures
        r == file.some_ancestor(pair, assigns_string_pred(file, lvar@)),
{
    let ghost pred = assigns_string_pred(file, lvar@);
    let mut cur = pair;
    loop
        invariant
            file.wf(),
            cur < file.nodes@.len(),
            pred == assigns_string_pred(file, lvar@),
            file.some_ancestor(pair, pred) == file.some_ancestor(cur, pred),
        decreases cur,
    {
        match file.nodes[cur].parent {
            Some(a) => {
                assert(a < cur);
                let kids = file.children_of(a);
                let mut j: usize = 0;
                while j < kids.len()
                    invariant
                        file.wf(),
                        a < file.nodes@.len(),
                        pred == assigns_string_pred(file, lvar@),
                        cur < file.nodes@.len(),
                        file.parent(cur) == Some(a),
                        a < cur,
                        file.some_ancestor(pair, pred) == file.some_ancestor(cur, pred),
                        kids@ == file.children(a),
                        j <= kids@.len(),
                        forall|k: int| 0 <= k < j ==> !(file.kind(#[trigger] kids@[k]) matches NodeKind::Lvasgn { name, value: Some(v) }
                            && name@ == lvar@ && is_string_like(file.kind(v))),
                    decreases kids@.len() - j,
                {
                    let c = kids[j];
                    assert(file.children(a)[j as int] == c);
                    if let NodeKind::Lvasgn { name, value: Some(v) } = &file.nodes[c].kind {
                        assert(file.children(c)[0] == *v);
                        if str_eq(name.as_str(), lvar) {
                            match &file.nodes[*v].kind {
                                NodeKind::Str(_) | NodeKind::Sym(_) | NodeKind::Dstr(_) => {
                                    assert(file.kind(file.children(a)[j as int]) matches NodeKind::Lvasgn { name, value: Some(v) }
                                        && name@ == lvar@ && is_string_like(file.kind(v)));
                                    assert(assigns_string(file, a, lvar@));
                                    assert(pred(a));
                                    return true;
                                },
                                _ => {},
                            }
                        }
                    }
                    j = j + 1;
                }
                assert(!assigns_string(file, a, lvar@));
                assert(!pred(a));
                cur = a;
            },
            None => return false,
        }
    }
}

/// Computes `check_pair`.
fn check_one_pair(file: &SourceFile, pair: NodeId) -> (r: Option<Option<String>>)
    requires
        file.valid(pair),
    ensures
        match r {
            Some(Some(s)) => check_pair(file, pair) == Some(Some(s@)),
            Some(None) => check_pair(file, pair) == Some(None::<Seq<char>>),
            None => check_pair(file, pair) is None,
        },
{
    let value = match &file.nodes[pair].kind {
        NodeKind::Pair { value, .. } => *value,
        _ => return None,
    };
    assert(file.children(pair)[1] == value);
    match &file.nodes[value].kind {
        NodeKind::Str(_) | NodeKind::Sym(_) | NodeKind::Dstr(_) => None,
        NodeKind::Send { .. } | NodeKind::Csend { .. } => {
            let r = match file.call_receiver(value) {
                Some(r) => r,
                None => return None,
            };
            assert(file.children(value)[0] == r);
            match &file.nodes[r].kind {
                NodeKind::Const { .. } => {},
                _ => return None,
            }
            let named = match file.method_name(value) {
                Some(m) => str_eq(m, "name") || str_eq(m, "to_s"),
                None => false,
            };
            if named {
                Some(Some(concat3("\"", file.raw_source(file.nodes[r].range), "\"")))
            } else {
                None
            }
        },
        NodeKind::Lvar(name) => {
            if str_assigned(file, pair, name.as_str()) {
                None
            } else {
                Some(None)
            }
        },
        NodeKind::Const { .. } => Some(Some(concat3("\"", file.raw_source(file.nodes[value].range), "\""))),
        _ => None,
    }
}

impl ReflectionClassName {
    /// Reports each `class_name:` pair whose value is not a string.
    pub fn check_send(&self, file: &SourceFile, node: NodeId) -> (r: Vec<Offense>)
        requires
            file.valid(node),
        ensures
            r.deep_view() == reflection_findings(file, node),
    {
        let mut out: Vec<Offense> = Vec::new();
        let args = match &file.nodes[node].kind {
            NodeKind::Send { receiver: None, method, args } => {
                if !(str_eq(method.as_str(), "has_many") || str_eq(method.as_str(), "has_one")
                    || str_eq(method.as_str(), "belongs_to")) {
                    assert(out.deep_view() =~= Seq::<Finding>::empty());
                    return out;
                }
                args
            },
            _ => {
                assert(out.deep_view() =~= Seq::<Finding>::empty());
                return out;
            },
        };
        let mut i: usize = 0;
        assert(out.deep_view() =~= args_findings(file, args@.subrange(0, 0)));
        while i < args.len()
            invariant
                file.valid(node),
                file.kind(node) matches NodeKind::Send { args: a, .. } && a@ == args@,
                i <= args@.len(),
                out.deep_view() == args_findings(file, args@.subrange(0, i as int)),
            decreases args@.len() - i,
        {
            proof { crate::ast::lemma_args_are_children(file, node, i as int); }
            let a = args[i];
            assert(args@.subrange(0, i + 1).drop_last() =~= args@.subrange(0, i as int));
            let ghost before = out.deep_view();
            if let NodeKind::Hash(list) = &file.nodes[a].kind {
                let mut j: usize = 0;
                assert(before + pairs_findings(file, list@.subrange(0, 0)) =~= before);
                while j < list.len()
                    invariant
                        file.wf(),
                        a < file.nodes@.len(),
                        file.kind(a) == NodeKind::Hash(*list),
                        j <= list@.len(),
                        out.deep_view() == before + pairs_findings(file, list@.subrange(0, j as int)),
                    decreases list@.len() - j,
                {
                    let p = list[j];
                    assert(file.children(a)[j as int] == p);
                    assert(list@.subrange(0, j + 1).drop_last() =~= list@.subrange(0, j as int));
                    let ghost mid = out.deep_view();
                    let is_cn = match &file.nodes[p].kind {
                        NodeKind::Pair { key, .. } => {
                            assert(file.children(p)[0] == *key);
                            match &file.nodes[*key].kind {
                                NodeKind::Sym(s) => str_eq(s.as_str(), "class_name"),
                                _ => false,
                            }
                        },
                        _ => false,
                    };
                    if is_cn {
                        match check_one_pair(file, p) {
                            Some(fix) => {
                                let mut edits: Vec<Edit> = Vec::new();
                                match fix {
                                    Some(rep) => {
                                        match &file.nodes[p].kind {
                                            NodeKind::Pair { value, .. } => {
                                                edits.push(Edit { range: file.nodes[*value].range, replacement: rep });
                                            },
                                            _ => {},
                                        }
                                    },
                                    None => {},
                                }
                                let o = Offense {
                                    range: file.nodes[p].range,
                                    message: String::from_str("Use a string value for `class_name`."),
                                    edits,
                                };
                                proof {
                                    assert(o.deep_view().edits =~= pair_finding(file, p)[0].edits);
                                }
                                out.push(o);
                                assert(out.deep_view() =~= mid + pair_finding(file, p));
                            },
                            None => {
                                assert(out.deep_view() =~= mid + pair_finding(file, p));
                            },
                        }
                    } else {
                        assert(out.deep_view() =~= mid + pair_finding(file, p));
                    }
                    j = j + 1;
                }
                assert(list@.subrange(0, list@.len() as int) =~= list@);
            }
            assert(out.deep_view() =~= args_findings(file, args@.subrange(0, i + 1)));
            i = i + 1;
        }
        assert(args@.subrange(0, args@.len() as int) =~= args@);
        out
    }
}

} // verus!
