//! `Rails/Pick`: prefer `pick(...)` to `pluck(...).first` (Rails 6.0 and later).

use vstd::prelude::*;
use crate::ast::{args_of, call_receiver_of, method_of, NodeId, NodeKind, Range, SourceFile};
use crate::cops::read_write_attribute::src_of;
use crate::report::{Edit, Finding, Offense};
use crate::text::{join_sep, str_eq};

verus! {

/// Reports `pluck(...).first`.
#[derive(Debug, Default)]
pub struct Pick;

/// A call (with or without `&.`).
pub open spec fn is_call_kind(k: NodeKind) -> bool {
    k is Send || k is Csend
}

/// `x.pluck(a, ...).first` (either call may use `&.`): the `pluck` call.
pub open spec fn pluck_first(file: &SourceFile, node: NodeId) -> Option<NodeId> {
    let k = file.kind(node);
    if is_call_kind(k) && method_of(k) == Some("first"@) && args_of(k).len() == 0 {
        match call_receiver_of(k) {
            Some(inner) => if is_call_kind(file.kind(inner)) && method_of(file.kind(inner)) == Some("pluck"@)
                && args_of(file.kind(inner)).len() >= 1 {
                Some(inner)
            } else {
                None
            },
            None => None,
        }
    } else {
        None
    }
}

/// The source from the `pluck` selector to the end of `first`, or the
/// whole call when those do not make a span.
pub open spec fn current_source(file: &SourceFile, node: NodeId, inner: NodeId) -> Seq<char> {
    let s = file.name_range(inner).start;
    let e = file.name_range(node).end;
    if s > 0 && e > s {
        file.source@.subrange(s as int, e as int)
    } else {
        src_of(file, node)
    }
}

/// What `Pick` reports for `node` (a `Send`, or with `csend` a `Csend`):
/// the call, with the edits that rename `pluck` and drop `.first`.
pub open spec fn pick_finding(file: &SourceFile, node: NodeId, csend: bool) -> Option<Finding> {
    if file.rails_at_least(6, 0) && ((!csend && file.kind(node) is Send) || (csend && file.kind(node) is Csend)) {
        match pluck_first(file, node) {
            Some(inner) => {
                let args = args_of(file.kind(inner)).map_values(|a: NodeId| src_of(file, a));
                Some(Finding {
                    range: file.range(node),
                    message: "Prefer `pick("@ + join_sep(args, ", "@) + ")` over `"@ + current_source(file, node, inner) + "`."@,
                    edits: seq![
                        (file.name_range(inner), "pick"@),
                        (Range { start: file.range(inner).end, end: file.range(node).end }, Seq::empty()),
                    ],
                })
            },
            None => None,
        }
    } else {
        None
    }
}

/// Computes `pluck_first`.
fn match_pluck_first(file: &SourceFile, node: NodeId) -> (r: Option<NodeId>)
    requires
        file.valid(node),
    ensures
        r == pluck_first(file, node),
        r matches Some(i) ==> i < file.nodes@.len(),
{
    let is_call = match &file.nodes[node].kind {
        NodeKind::Send { .. } | NodeKind::Csend { .. } => true,
        _ => false,
    };
    let first = match file.method_name(node) {
        Some(m) => str_eq(m, "first"),
        None => false,
    };
    if !is_call || !first || file.call_arguments(node).len() != 0 {
        return None;
    }
    let inner = match file.call_receiver(node) {
        Some(i) => i,
        None => return None,
    };
    assert(file.children(node)[0] == inner);
    let inner_call = match &file.nodes[inner].kind {
        NodeKind::Send { .. } | NodeKind::Csend { .. } => true,
        _ => false,
    };
    let pluck = match file.method_name(inner) {
        Some(m) => str_eq(m, "pluck"),
        None => false,
    };
    if inner_call && pluck && file.call_arguments(inner).len() >= 1 {
        Some(inner)
    } else {
        None
    }
}

/// The shared check of `Send` and `Csend` nodes.
fn check_pick(file: &SourceFile, node: NodeId, csend: bool) -> (r: Option<Offense>)
    requires
        file.valid(node),
    ensures
        r.deep_view() == pick_finding(file, node, csend),
{
    if !file.rails_version_at_least(6, 0) {
        return None;
    }
    let kind_ok = match &file.nodes[node].kind {
        NodeKind::Send { .. } => !csend,
        NodeKind::Csend { .. } => csend,
        _ => false,
    };
    if !kind_ok {
        return None;
    }
    let inner = match match_pluck_first(file, node) {
        Some(i) => i,
        None => return None,
    };
    let args = file.call_arguments(inner);
    let ghost parts = args@.map_values(|a: NodeId| src_of(file, a));
    let mut joined = String::new();
    let mut j: usize = 0;
    while j < args.len()
        invariant
            file.valid(inner),
            args@ == args_of(file.kind(inner)),
            parts == args@.map_values(|a: NodeId| src_of(file, a)),
            j <= args@.len(),
            joined@ == join_sep(parts.subrange(0, j as int), ", "@),
        decreases args@.len() - j,
    {
        proof { crate::ast::lemma_args_are_children(file, inner, j as int); }
        let a = args[j];
        if j > 0 {
            joined.append(", ");
        }
        joined.append(file.raw_source(file.nodes[a].range));
        proof {
            let ps = parts.subrange(0, j + 1);
            assert(ps.drop_last() =~= parts.subrange(0, j as int));
            assert(ps.last() == src_of(file, a));
            if j == 0 {
                assert(joined@ =~= ps[0]);
            } else {
                assert(joined@ =~= join_sep(ps.drop_last(), ", "@) + ", "@ + ps.last());
            }
        }
        j = j + 1;
    }
    assert(parts.subrange(0, args@.len() as int) =~= parts);
    let s = file.nodes[inner].name_range.start;
    let e = file.nodes[node].name_range.end;
    let current = if s > 0 && e > s {
        file.raw_source(Range { start: s, end: e })
    } else {
        file.raw_source(file.nodes[node].range)
    };
    let mut msg = String::from_str("Prefer `pick(");
    msg.append(joined.as_str());
    msg.append(")` over `");
    msg.append(current);
    msg.append("`.");
    let mut edits: Vec<Edit> = Vec::new();
    edits.push(Edit { range: file.nodes[inner].name_range, replacement: String::from_str("pick") });
    edits.push(Edit { range: Range { start: file.nodes[inner].range.end, end: file.nodes[node].range.end }, replacement: String::new() });
    let o = Offense { range: file.nodes[node].range, message: msg, edits };
    assert(o.deep_view().edits =~= pick_finding(file, node, csend)->Some_0.edits);
    assert(o.deep_view().message =~= pick_finding(file, node, csend)->Some_0.message);
    Some(o)
}

impl Pick {
    /// Reports `x.pluck(...).first`, with its rewrite to `x.pick(...)`.
    pub fn check_send(&self, file: &SourceFile, node: NodeId) -> (r: Option<Offense>)
        requires
            file.valid(node),
        ensures
            r.deep_view() == pick_finding(file, node, false),
    {
        check_pick(file, node, false)
    }

    /// Reports `x.pluck(...)&.first`.
    pub fn check_csend(&self, file: &SourceFile, node: NodeId) -> (r: Option<Offense>)
        requires
            file.valid(node),
        ensures
            r.deep_view() == pick_finding(file, node, true),
    {
        check_pick(file, node, true)
    }
}

} // verus!
