//! `Rails/PluckId`: `ids` instead of `pluck(:id)` or `pluck(primary_key)`.

use vstd::prelude::*;
use crate::ast::{args_of, call_pred, call_receiver_of, is_call, method_of, NodeId, NodeKind, Range, SourceFile};
use crate::report::{finding1, offense1, Finding, Offense};
use crate::text::{concat3, str_eq};

verus! {

/// Checks `pluck` calls.
#[derive(Debug, Default)]
pub struct PluckId;

/// `:id`, or a bare argument-less `primary_key`.
pub open spec fn is_id_arg(file: &SourceFile, a: NodeId) -> bool {
    match file.kind(a) {
        NodeKind::Sym(s) => s@ == "id"@,
        NodeKind::Send { receiver: None, method, args } => method@ == "primary_key"@ && args@.len() == 0,
        _ => false,
    }
}

/// `where`/`rewhere`.
pub open spec fn is_where_name(m: Option<Seq<char>>) -> bool {
    m == Some("where"@) || m == Some("rewhere"@)
}

/// The nearest enclosing call is `where`/`rewhere` with `node` not its
/// receiver, or `not` on a `where`/`rewhere` call.
pub open spec fn in_where(file: &SourceFile, node: NodeId) -> bool {
    match file.nearest_ancestor(node, call_pred()) {
        Some(a) => {
            let m = method_of(file.kind(a));
            if is_where_name(m) {
                call_receiver_of(file.kind(a)) != Some(node)
            } else if m == Some("not"@) {
                match call_receiver_of(file.kind(a)) {
                    Some(r) => is_call(file.kind(r)) && is_where_name(method_of(file.kind(r))),
                    None => false,
                }
            } else {
                false
            }
        },
        None => false,
    }
}

/// What `PluckId::check_send` reports for `node`: from the selector to the
/// end of the call, replaced by `ids`.
pub open spec fn pluck_id_finding(file: &SourceFile, node: NodeId) -> Option<Finding> {
    let args = args_of(file.kind(node));
    if method_of(file.kind(node)) == Some("pluck"@) && args.len() == 1 && is_id_arg(file, args[0]) && !in_where(file, node) {
        let span = Range { start: file.name_range(node).start, end: file.range(node).end };
        let text = file.source@.subrange(span.start as int, span.end as int);
        Some(finding1(span, "Use `ids` instead of `"@ + text + "`."@, span, "ids"@))
    } else {
        None
    }
}

/// Decides `is_where_name`.
fn where_name(m: Option<&str>) -> (r: bool)
    ensures
        r == is_where_name(crate::text::opt_str_view(m)),
{
    match m {
        Some(s) => str_eq(s, "where") || str_eq(s, "rewhere"),
        None => false,
    }
}

/// Decides `in_where`.
pub fn inside_where(file: &SourceFile, node: NodeId) -> (r: bool)
    requires
        file.valid(node),
    ensures
        r == in_where(file, node),
{
    let a = match file.enclosing_call(node) {
        Some(a) => a,
        None => return false,
    };
    let m = file.method_name(a);
    if where_name(m) {
        return file.call_receiver(a) != Some(node);
    }
    let is_not = match m {
        Some(s) => str_eq(s, "not"),
        None => false,
    };
    if is_not {
        match file.call_receiver(a) {
            Some(r) => {
                assert(file.children(a)[0] == r);
                match &file.nodes[r].kind {
                    NodeKind::Send { .. } | NodeKind::Csend { .. } => where_name(file.method_name(r)),
                    _ => false,
                }
            },
            None => false,
        }
    } else {
        false
    }
}

impl PluckId {
    /// Reports `pluck(:id)` with the edit to `ids`.
    pub fn check_send(&self, file: &SourceFile, node: NodeId) -> (r: Option<Offense>)
        requires
            file.valid(node),
        ensures
            r.deep_view() == pluck_id_finding(file, node),
    {
        match file.method_name(node) {
            Some(m) => {
                if !str_eq(m, "pluck") {
                    return None;
                }
            },
            None => return None,
        }
        let args = file.call_arguments(node);
        if args.len() != 1 {
            return None;
        }
        proof { crate::ast::lemma_args_are_children(file, node, 0); }
        let id_arg = match &file.nodes[args[0]].kind {
            NodeKind::Sym(s) => str_eq(s.as_str(), "id"),
            NodeKind::Send { receiver: None, method, args: a2 } => str_eq(method.as_str(), "primary_key") && a2.len() == 0,
            _ => false,
        };
        if !id_arg || inside_where(file, node) {
            return None;
        }
        let span = Range { start: file.nodes[node].name_range.start, end: file.nodes[node].range.end };
        let msg = concat3("Use `ids` instead of `", file.raw_source(span), "`.");
        Some(offense1(span, msg, span, String::from_str("ids")))
    }

    /// Same as `check_send`, for `&.pluck`.
    pub fn check_csend(&self, file: &SourceFile, node: NodeId) -> (r: Option<Offense>)
        requires
            file.valid(node),
        ensures
            r.deep_view() == pluck_id_finding(file, node),
    {
        self.check_send(file, node)
    }
}

} // verus!
