//! `Rails/HelperInstanceVariable`: no instance variables in helpers.

use vstd::prelude::*;
use crate::ast::{class_pred, names_within, NodeId, NodeKind, Range, SourceFile};
use crate::report::{offense0, Finding, Offense};

verus! {

/// Checks instance variable reads and assignments outside classes.
#[derive(Debug, Default)]
pub struct HelperInstanceVariable;

/// The message of every finding of this rule.
pub open spec fn ivar_message() -> Seq<char> {
    "Do not use instance variables in helpers."@
}

/// What `HelperInstanceVariable::check_ivar` reports: an instance variable
/// read with no enclosing class.
pub open spec fn ivar_finding(file: &SourceFile, node: NodeId) -> Option<Finding> {
    if file.kind(node) is Ivar && file.nearest_ancestor(node, class_pred()) is None {
        Some(Finding { range: file.range(node), message: ivar_message(), edits: Seq::empty() })
    } else {
        None
    }
}

/// What `HelperInstanceVariable::check_ivasgn` reports: an instance variable
/// assignment, not the target of `||=`, with no enclosing class; the span is
/// the `@name` at the start of the assignment.
pub open spec fn ivasgn_finding(file: &SourceFile, node: NodeId) -> Option<Finding> {
    match file.kind(node) {
        NodeKind::Ivasgn { name, .. } => {
            let memo = match file.parent(node) {
                Some(p) => file.kind(p) is OrAsgn,
                None => false,
            };
            if !memo && file.nearest_ancestor(node, class_pred()) is None {
                let r = file.range(node);
                Some(Finding {
                    range: Range { start: r.start, end: (r.start + name@.len()) as usize },
                    message: ivar_message(),
                    edits: Seq::empty(),
                })
            } else {
                None
            }
        },
        _ => None,
    }
}

impl HelperInstanceVariable {
    /// Reports an instance variable read outside any class.
    pub fn check_ivar(&self, file: &SourceFile, node: NodeId) -> (r: Option<Offense>)
        requires
            file.valid(node),
        ensures
            r.deep_view() == ivar_finding(file, node),
    {
        match &file.nodes[node].kind {
            NodeKind::Ivar(_) => {},
            _ => return None,
        }
        if file.inside_class(node) {
            return None;
        }
        Some(offense0(file.nodes[node].range, String::from_str("Do not use instance variables in helpers.")))
    }

    /// Reports an instance variable assignment outside any class, unless it memoizes.
    pub fn check_ivasgn(&self, file: &SourceFile, node: NodeId) -> (r: Option<Offense>)
        requires
            file.valid(node),
        ensures
            r.deep_view() == ivasgn_finding(file, node),
    {
        assert(names_within(file.nodes@[node as int]));
        let name = match &file.nodes[node].kind {
            NodeKind::Ivasgn { name, .. } => name,
            _ => return None,
        };
        match file.nodes[node].parent {
            Some(p) => {
                match &file.nodes[p].kind {
                    NodeKind::OrAsgn { .. } => return None,
                    _ => {},
                }
            },
            None => {},
        }
        if file.inside_class(node) {
            return None;
        }
        let r = file.nodes[node].range;
        let len = name.as_str().unicode_len();
        Some(offense0(
            Range { start: r.start, end: r.start + len },
            String::from_str("Do not use instance variables in helpers."),
        ))
    }
}

} // verus!
