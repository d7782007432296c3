//! `Rails/HasAndBelongsToMany`: prefer `has_many :through`.

use vstd::prelude::*;
use crate::ast::{NodeId, NodeKind, SourceFile};
use crate::report::{offense0, Finding, Offense};
use crate::text::str_eq;

verus! {

/// Checks bare `has_and_belongs_to_many` declarations.
#[derive(Debug, Default)]
pub struct HasAndBelongsToMany;

/// What `HasAndBelongsToMany::check_send` reports for `node`.
pub open spec fn habtm_finding(file: &SourceFile, node: NodeId) -> Option<Finding> {
    match file.kind(node) {
        NodeKind::Send { receiver: None, method, .. } => {
            if method@ == "has_and_belongs_to_many"@ {
                Some(Finding {
                    range: file.name_range(node),
                    message: "Prefer `has_many :through` to `has_and_belongs_to_many`."@,
                    edits: Seq::empty(),
                })
            } else {
                None
            }
        },
        _ => None,
    }
}

impl HasAndBelongsToMany {
    /// Reports the selector of a bare `has_and_belongs_to_many` call.
    pub fn check_send(&self, file: &SourceFile, node: NodeId) -> (r: Option<Offense>)
        requires
            file.valid(node),
        ensures
            r.deep_view() == habtm_finding(file, node),
    {
        match &file.nodes[node].kind {
            NodeKind::Send { receiver: None, method, .. } => {
                if str_eq(method.as_str(), "has_and_belongs_to_many") {
                    Some(offense0(
                        file.nodes[node].name_range,
                        String::from_str("Prefer `has_many :through` to `has_and_belongs_to_many`."),
                    ))
                } else {
                    None
                }
            },
            _ => None,
        }
    }
}

} // verus!
