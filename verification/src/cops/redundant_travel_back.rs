//! `Rails/RedundantTravelBack`: `travel_back` in `teardown`/`after` is redundant (Rails 5.2+).

use vstd::prelude::*;
use crate::ast::{method_of, NodeId, NodeKind, SourceFile};
use crate::report::{finding1, offense1, Finding, Offense};
use crate::text::{line_span, str_eq, whole_lines};

verus! {

/// Checks `travel_back` calls.
#[derive(Debug, Default)]
pub struct RedundantTravelBack;

/// A `def teardown`, or a block passed to `after`.
pub open spec fn teardown_or_after(file: &SourceFile) -> spec_fn(NodeKind) -> bool {
    |k: NodeKind| match k {
        NodeKind::Def { name, .. } => name@ == "teardown"@,
        NodeKind::Block { call, .. } => method_of(file.kind(call)) == Some("after"@),
        _ => false,
    }
}

/// What `RedundantTravelBack::check_send` reports for `node`: a
/// `travel_back` call inside `teardown` or `after`, removed with its lines.
pub open spec fn travel_back_finding(file: &SourceFile, node: NodeId) -> Option<Finding> {
    match file.kind(node) {
        NodeKind::Send { method, .. } => {
            if file.rails_at_least(5, 2) && method@ == "travel_back"@
                && file.nearest_ancestor(node, teardown_or_after(file)) is Some {
                let r = file.range(node);
                let (s, e) = whole_lines(file.source@, r.start as int, r.end as int);
                Some(finding1(r, "Redundant `travel_back` detected."@, crate::ast::Range { start: s as usize, end: e as usize }, Seq::empty()))
            } else {
                None
            }
        },
        _ => None,
    }
}

/// Whether some ancestor of `n` is a `def teardown` or an `after` block.
fn in_teardown_or_after(file: &SourceFile, n: NodeId) -> (r: bool)
    requires
        file.valid(n),
    ensures
        r == (file.nearest_ancestor(n, teardown_or_after(file)) is Some),
{
    let ghost pred = teardown_or_after(file);
    let mut cur = n;
    loop
        invariant
            file.wf(),
            cur <= n < file.nodes@.len(),
            pred == teardown_or_after(file),
            file.nearest_ancestor(n, pred) == file.nearest_ancestor(cur, pred),
        decreases cur,
    {
        match file.nodes[cur].parent {
            Some(p) => {
                assert(p < cur);
                let hit = match &file.nodes[p].kind {
                    NodeKind::Def { name, .. } => str_eq(name.as_str(), "teardown"),
                    NodeKind::Block { call, .. } => {
                        assert(file.children(p)[0] == *call);
                        match file.method_name(*call) {
                            Some(m) => str_eq(m, "after"),
                            None => false,
                        }
                    },
                    _ => false,
                };
                if hit {
                    assert(pred(file.kind(p)));
                    return true;
                }
                assert(!pred(file.kind(p)));
                cur = p;
            },
            None => return false,
        }
    }
}

impl RedundantTravelBack {
    /// Reports the call and deletes its whole lines.
    pub fn check_send(&self, file: &SourceFile, node: NodeId) -> (r: Option<Offense>)
        requires
            file.valid(node),
        ensures
            r.deep_view() == travel_back_finding(file, node),
    {
        if !file.rails_version_at_least(5, 2) {
            return None;
        }
        match &file.nodes[node].kind {
            NodeKind::Send { method, .. } => {
                if !str_eq(method.as_str(), "travel_back") || !in_teardown_or_after(file, node) {
                    return None;
                }
                let r = file.nodes[node].range;
                let (s, e) = line_span(file.source.as_str(), r.start, r.end);
                Some(offense1(
                    r,
                    String::from_str("Redundant `travel_back` detected."),
                    crate::ast::Range { start: s, end: e },
                    String::new(),
                ))
            },
            _ => None,
        }
    }
}

} // verus!
