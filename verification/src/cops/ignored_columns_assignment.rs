//! `Rails/IgnoredColumnsAssignment`: append to `ignored_columns` with `+=`.

use vstd::prelude::*;
use crate::ast::{NodeId, NodeKind, SourceFile};
use crate::report::{finding1, offense1, Finding, Offense};
use crate::text::str_eq;

verus! {

/// Checks `self.ignored_columns = ...` assignments.
#[derive(Debug, Default)]
pub struct IgnoredColumnsAssignment;

/// What `IgnoredColumnsAssignment::check_send` reports for `node`: the `=`
/// of an `ignored_columns=` call, to become `+=`.
pub open spec fn ignored_columns_finding(file: &SourceFile, node: NodeId) -> Option<Finding> {
    match file.kind(node) {
        NodeKind::Send { method, .. } => {
            if method@ == "ignored_columns="@ {
                match file.nodes@[node as int].operator_range {
                    Some(op) => Some(finding1(op, "Use `+=` instead of `=`."@, op, "+="@)),
                    None => None,
                }
            } else {
                None
            }
        },
        _ => None,
    }
}

impl IgnoredColumnsAssignment {
    /// Reports the assignment operator with the edit that makes it `+=`.
    pub fn check_send(&self, file: &SourceFile, node: NodeId) -> (r: Option<Offense>)
        requires
            file.valid(node),
        ensures
            r.deep_view() == ignored_columns_finding(file, node),
    {
        match &file.nodes[node].kind {
            NodeKind::Send { method, .. } => {
                if !str_eq(method.as_str(), "ignored_columns=") {
                    return None;
                }
                match file.nodes[node].operator_range {
                    Some(op) => Some(offense1(
                        op,
                        String::from_str("Use `+=` instead of `=`."),
                        op,
                        String::from_str("+="),
                    )),
                    None => None,
                }
            },
            _ => None,
        }
    }
}

} // verus!
