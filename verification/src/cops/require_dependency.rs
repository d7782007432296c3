//! `Rails/RequireDependency`: no `require_dependency` under Zeitwerk (Rails 6.0+).

use vstd::prelude::*;
use crate::ast::{NodeId, NodeKind, SourceFile};
use crate::report::{offense0, Finding, Offense};
use crate::text::str_eq;

verus! {

/// Checks `require_dependency` calls.
#[derive(Debug, Default)]
pub struct RequireDependency;

/// What `RequireDependency::check_send` reports for `node`: a
/// `require_dependency` call, bare or on `Kernel`, with an argument, when
/// the target Rails version is 6.0 or later.
pub open spec fn require_dependency_finding(file: &SourceFile, node: NodeId) -> Option<Finding> {
    match file.kind(node) {
        NodeKind::Send { receiver, method, args } => {
            let receiver_ok = match receiver {
                None => true,
                Some(r) => file.const_path(r) == Some("Kernel"@),
            };
            if file.rails_at_least(6, 0) && method@ == "require_dependency"@ && receiver_ok && args@.len() > 0 {
                Some(Finding {
                    range: file.range(node),
                    message: "Do not use `require_dependency` with Zeitwerk mode."@,
                    edits: Seq::empty(),
                })
            } else {
                None
            }
        },
        _ => None,
    }
}

impl RequireDependency {
    /// Reports the whole call.
    pub fn check_send(&self, file: &SourceFile, node: NodeId) -> (r: Option<Offense>)
        requires
            file.valid(node),
        ensures
            r.deep_view() == require_dependency_finding(file, node),
    {
        if !file.rails_version_at_least(6, 0) {
            return None;
        }
        match &file.nodes[node].kind {
            NodeKind::Send { receiver, method, args } => {
                if !str_eq(method.as_str(), "require_dependency") {
                    return None;
                }
                match receiver {
                    None => {},
                    Some(r) => {
                        assert(file.children(node)[0] == *r);
                        match file.const_name(*r) {
                            Some(c) => {
                                if !str_eq(c.as_str(), "Kernel") {
                                    return None;
                                }
                            },
                            None => return None,
                        }
                    },
                }
                if args.len() == 0 {
                    return None;
                }
                Some(offense0(
                    file.nodes[node].range,
                    String::from_str("Do not use `require_dependency` with Zeitwerk mode."),
                ))
            },
            _ => None,
        }
    }
}

} // verus!
