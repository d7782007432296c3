//! `Rails/OrderById`: do not order by the `id` column.

use vstd::prelude::*;
use crate::ast::{args_of, method_of, NodeId, NodeKind, Range, SourceFile};
use crate::report::{offense0, Finding, Offense};
use crate::text::str_eq;

verus! {

/// Checks `order` calls with a single argument.
#[derive(Debug, Default)]
pub struct OrderById;

/// A call `primary_key` without arguments.
pub open spec fn is_primary_key_send(file: &SourceFile, n: NodeId) -> bool {
    match file.kind(n) {
        NodeKind::Send { method, args, .. } => method@ == "primary_key"@ && args@.len() == 0,
        _ => false,
    }
}

/// `:id`, `id: ...`/`primary_key => ...` as the only pair, or `primary_key`.
pub open spec fn is_order_by_id_arg(file: &SourceFile, a: NodeId) -> bool {
    match file.kind(a) {
        NodeKind::Sym(s) => s@ == "id"@,
        NodeKind::Hash(list) => list@.len() == 1 && match file.kind(list@[0]) {
            NodeKind::Pair { key, .. } => (file.kind(key) matches NodeKind::Sym(s) && s@ == "id"@)
                || is_primary_key_send(file, key),
            _ => false,
        },
        _ => is_primary_key_send(file, a),
    }
}

/// What `OrderById::check_send` reports for `node`: from the selector to the
/// end of the call.
pub open spec fn order_by_id_finding(file: &SourceFile, node: NodeId) -> Option<Finding> {
    let args = args_of(file.kind(node));
    if file.kind(node) is Send && method_of(file.kind(node)) == Some("order"@) && args.len() == 1
        && is_order_by_id_arg(file, args[0]) {
        Some(Finding {
            range: Range { start: file.name_range(node).start, end: file.range(node).end },
            message: "Do not use the `id` column for ordering. Use a timestamp column to order chronologically."@,
            edits: Seq::empty(),
        })
    } else {
        None
    }
}

/// Decides `is_primary_key_send`.
fn primary_key_send(file: &SourceFile, n: NodeId) -> (r: bool)
    requires
        file.valid(n),
    ensures
        r == is_primary_key_send(file, n),
{
    match &file.nodes[n].kind {
        NodeKind::Send { method, args, .. } => str_eq(method.as_str(), "primary_key") && args.len() == 0,
        _ => false,
    }
}

impl OrderById {
    /// Reports `order(:id)` and its equivalents.
    pub fn check_send(&self, file: &SourceFile, node: NodeId) -> (r: Option<Offense>)
        requires
            file.valid(node),
        ensures
            r.deep_view() == order_by_id_finding(file, node),
    {
        let args = match &file.nodes[node].kind {
            NodeKind::Send { method, args, .. } => {
                if !str_eq(method.as_str(), "order") {
                    return None;
                }
                args
            },
            _ => return None,
        };
        if args.len() != 1 {
            return None;
        }
        let a = args[0];
        proof { crate::ast::lemma_args_are_children(file, node, 0); }
        let hit = match &file.nodes[a].kind {
            NodeKind::Sym(s) => str_eq(s.as_str(), "id"),
            NodeKind::Hash(list) => {
                if list.len() != 1 {
                    false
                } else {
                    assert(file.children(a)[0] == list@[0]);
                    match &file.nodes[list[0]].kind {
                        NodeKind::Pair { key, .. } => {
                            assert(file.children(list@[0])[0] == *key);
                            let sym_id = match &file.nodes[*key].kind {
                                NodeKind::Sym(s) => str_eq(s.as_str(), "id"),
                                _ => false,
                            };
                            sym_id || primary_key_send(file, *key)
                        },
                        _ => false,
                    }
                }
            },
            _ => primary_key_send(file, a),
        };
        if !hit {
            return None;
        }
        Some(offense0(
            Range { start: file.nodes[node].name_range.start, end: file.nodes[node].range.end },
            String::from_str("Do not use the `id` column for ordering. Use a timestamp column to order chronologically."),
        ))
    }
}

} // verus!
