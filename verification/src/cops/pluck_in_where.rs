//! `Rails/PluckInWhere`: `select` instead of `pluck` inside `where`.

use vstd::prelude::*;
use crate::ast::{call_receiver_of, is_call, method_of, NodeId, NodeKind, SourceFile};
use crate::cops::pluck_id::in_where;
use crate::report::{finding1, offense1, Finding, Offense};
use crate::text::str_eq;

verus! {

/// Checks `pluck`/`ids` calls inside `where` conditions.
#[derive(Debug, Default)]
pub struct PluckInWhere;

/// Options of `PluckInWhere`.
#[derive(Debug)]
pub struct PluckInWhereOptions {
    /// `EnforcedStyle`: `conservative` (the default; only calls rooted at a
    /// constant) or `aggressive`.
    pub enforced_style: PluckInWhereStyle,
}

/// Which receivers are reported.
#[derive(Clone, Copy, Debug, PartialEq, Eq, Structural)]
pub enum PluckInWhereStyle {
    Conservative,
    Aggressive,
}

impl Default for PluckInWhereOptions {
    fn default() -> (o: Self)
        ensures
            o.enforced_style == PluckInWhereStyle::Conservative,
    {
        PluckInWhereOptions { enforced_style: PluckInWhereStyle::Conservative }
    }
}

/// The chain of receivers from `n` ends in a constant.
pub open spec fn root_is_const(file: &SourceFile, n: NodeId) -> bool
    decreases file.nodes@.len() - n,
{
    match call_receiver_of(file.kind(n)) {
        Some(r) => if is_call(file.kind(r)) {
            n < r < file.nodes@.len() && root_is_const(file, r)
        } else {
            file.kind(r) is Const
        },
        None => false,
    }
}

/// What `PluckInWhere::check_send` reports for `node`: the selector, to become
/// `select` (or `select(:id)` for `ids`).
pub open spec fn pluck_in_where_finding(file: &SourceFile, node: NodeId, style: PluckInWhereStyle) -> Option<Finding> {
    match method_of(file.kind(node)) {
        Some(m) => if (m == "pluck"@ || m == "ids"@) && in_where(file, node)
            && (style == PluckInWhereStyle::Aggressive || root_is_const(file, node)) {
            let sel = file.name_range(node);
            if m == "ids"@ {
                Some(finding1(sel, "Use `select(:id)` instead of `ids` within `where` query method."@, sel, "select(:id)"@))
            } else {
                Some(finding1(sel, "Use `select` instead of `pluck` within `where` query method."@, sel, "select"@))
            }
        } else {
            None
        },
        None => None,
    }
}

/// Decides `root_is_const`.
fn root_const(file: &SourceFile, n: NodeId) -> (r: bool)
    requires
        file.valid(n),
    ensures
        r == root_is_const(file, n),
{
    let mut cur = n;
    loop
        invariant
            file.valid(cur),
            root_is_const(file, n) == root_is_const(file, cur),
        decreases file.nodes@.len() - cur,
    {
        let recv = match file.call_receiver(cur) {
            Some(r) => r,
            None => return false,
        };
        assert(file.children(cur)[0] == recv);
        match &file.nodes[recv].kind {
            NodeKind::Send { .. } | NodeKind::Csend { .. } => {
                cur = recv;
            },
            NodeKind::Const { .. } => return true,
            _ => return false,
        }
    }
}

impl PluckInWhere {
    /// Reports the selector with the edit to `select`.
    pub fn check_send(&self, file: &SourceFile, node: NodeId, options: &PluckInWhereOptions) -> (r: Option<Offense>)
        requires
            file.valid(node),
        ensures
            r.deep_view() == pluck_in_where_finding(file, node, options.enforced_style),
    {
        let m = match file.method_name(node) {
            Some(m) => m,
            None => return None,
        };
        let is_ids = str_eq(m, "ids");
        if !(str_eq(m, "pluck") || is_ids) {
            return None;
        }
        if !crate::cops::pluck_id::inside_where(file, node) {
            return None;
        }
        if options.enforced_style == PluckInWhereStyle::Conservative && !root_const(file, node) {
            return None;
        }
        let sel = file.nodes[node].name_range;
        if is_ids {
            Some(offense1(
                sel,
                String::from_str("Use `select(:id)` instead of `ids` within `where` query method."),
                sel,
                String::from_str("select(:id)"),
            ))
        } else {
            Some(offense1(
                sel,
                String::from_str("Use `select` instead of `pluck` within `where` query method."),
                sel,
                String::from_str("select"),
            ))
        }
    }

    /// Same as `check_send`, for `&.` calls.
    pub fn check_csend(&self, file: &SourceFile, node: NodeId, options: &PluckInWhereOptions) -> (r: Option<Offense>)
        requires
            file.valid(node),
        ensures
            r.deep_view() == pluck_in_where_finding(file, node, options.enforced_style),
    {
        self.check_send(file, node, options)
    }
}

} // verus!
