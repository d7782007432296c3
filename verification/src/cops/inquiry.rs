//! `Rails/Inquiry`: no Active Support `inquiry` on string or array literals.

use vstd::prelude::*;
use crate::ast::{args_of, call_receiver_of, method_of, NodeId, NodeKind, SourceFile};
use crate::report::{offense0, Finding, Offense};
use crate::text::str_eq;

verus! {

/// Checks `inquiry` calls.
#[derive(Debug, Default)]
pub struct Inquiry;

/// What `Inquiry::check_send` reports for `node`: an argument-less
/// `inquiry` (or `&.inquiry`) on a string or array literal.
pub open spec fn inquiry_finding(file: &SourceFile, node: NodeId) -> Option<Finding> {
    if method_of(file.kind(node)) == Some("inquiry"@) && args_of(file.kind(node)).len() == 0 {
        match call_receiver_of(file.kind(node)) {
            Some(r) => if file.kind(r) is Str || file.kind(r) is Array {
                Some(Finding {
                    range: file.name_range(node),
                    message: "Prefer Ruby's comparison operators over Active Support's `inquiry`."@,
                    edits: Seq::empty(),
                })
            } else {
                None
            },
            None => None,
        }
    } else {
        None
    }
}

impl Inquiry {
    /// Reports the `inquiry` selector.
    pub fn check_send(&self, file: &SourceFile, node: NodeId) -> (r: Option<Offense>)
        requires
            file.valid(node),
        ensures
            r.deep_view() == inquiry_finding(file, node),
    {
        match file.method_name(node) {
            Some(m) => {
                if !str_eq(m, "inquiry") {
                    return None;
                }
            },
            None => return None,
        }
        if file.call_arguments(node).len() != 0 {
            return None;
        }
        let recv = match file.call_receiver(node) {
            Some(r) => r,
            None => return None,
        };
        assert(file.children(node)[0] == recv);
        match &file.nodes[recv].kind {
            NodeKind::Str(_) | NodeKind::Array(_) => Some(offense0(
                file.nodes[node].name_range,
                String::from_str("Prefer Ruby's comparison operators over Active Support's `inquiry`."),
            )),
            _ => None,
        }
    }

    /// Same as `check_send`, for `&.inquiry`.
    pub fn check_csend(&self, file: &SourceFile, node: NodeId) -> (r: Option<Offense>)
        requires
            file.valid(node),
        ensures
            r.deep_view() == inquiry_finding(file, node),
    {
        self.check_send(file, node)
    }
}

} // verus!
