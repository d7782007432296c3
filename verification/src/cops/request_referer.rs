//! `Rails/RequestReferer`: one spelling of the request referer accessor.

use vstd::prelude::*;
use crate::ast::{NodeId, NodeKind, SourceFile};
use crate::report::{finding1, offense1, Finding, Offense};
use crate::text::{concat2, concat5, str_eq};

verus! {

/// Checks `request.referer` / `request.referrer` for the spelling not enforced.
#[derive(Debug, Default)]
pub struct RequestReferer;

/// Options of `RequestReferer`.
#[derive(Debug)]
pub struct RequestRefererOptions {
    /// `EnforcedStyle`: `referer` (the default) or `referrer`.
    pub enforced_style: RequestRefererStyle,
}

/// The enforced accessor spelling.
#[derive(Clone, Copy, Debug, PartialEq, Eq, Structural)]
pub enum RequestRefererStyle {
    Referer,
    Referrer,
}

impl Default for RequestRefererOptions {
    fn default() -> (o: Self)
        ensures
            o.enforced_style == RequestRefererStyle::Referer,
    {
        RequestRefererOptions { enforced_style: RequestRefererStyle::Referer }
    }
}

/// `(send (send nil? :request) :<accessor>)`, both without arguments.
pub open spec fn is_request_accessor(file: &SourceFile, node: NodeId, accessor: Seq<char>) -> bool {
    match file.kind(node) {
        NodeKind::Send { receiver: Some(r), method, args } => {
            &&& method@ == accessor
            &&& args@.len() == 0
            &&& file.kind(r) matches NodeKind::Send { receiver: None, method: m2, args: a2 }
            &&& m2@ == "request"@
            &&& a2@.len() == 0
        },
        _ => false,
    }
}

/// The (preferred, written) spellings when `node` uses the other one.
pub open spec fn offending_spelling(file: &SourceFile, node: NodeId, style: RequestRefererStyle) -> Option<(Seq<char>, Seq<char>)> {
    match style {
        RequestRefererStyle::Referer => if is_request_accessor(file, node, "referrer"@) {
            Some(("referer"@, "referrer"@))
        } else {
            None
        },
        RequestRefererStyle::Referrer => if is_request_accessor(file, node, "referer"@) {
            Some(("referrer"@, "referer"@))
        } else {
            None
        },
    }
}

/// What `RequestReferer::check_send` reports for `node`.
pub open spec fn request_referer_finding(file: &SourceFile, node: NodeId, style: RequestRefererStyle) -> Option<Finding> {
    match offending_spelling(file, node, style) {
        Some((preferred, actual)) => Some(finding1(
            file.range(node),
            "Use `request."@ + preferred + "` instead of `request."@ + actual + "`."@,
            file.range(node),
            "request."@ + preferred,
        )),
        None => None,
    }
}

/// Decides `is_request_accessor`.
fn request_accessor(file: &SourceFile, node: NodeId, accessor: &str) -> (r: bool)
    requires
        file.valid(node),
    ensures
        r == is_request_accessor(file, node, accessor@),
{
    match &file.nodes[node].kind {
        NodeKind::Send { receiver: Some(r), method, args } => {
            assert(file.children(node)[0] == *r);
            if !str_eq(method.as_str(), accessor) || args.len() != 0 {
                return false;
            }
            match &file.nodes[*r].kind {
                NodeKind::Send { receiver: None, method: m2, args: a2 } => str_eq(m2.as_str(), "request") && a2.len() == 0,
                _ => false,
            }
        },
        _ => false,
    }
}

impl RequestReferer {
    /// Reports the accessor call with the edit to the enforced spelling.
    pub fn check_send(&self, file: &SourceFile, node: NodeId, options: &RequestRefererOptions) -> (r: Option<Offense>)
        requires
            file.valid(node),
        ensures
            r.deep_view() == request_referer_finding(file, node, options.enforced_style),
    {
        let (preferred, actual) = match options.enforced_style {
            RequestRefererStyle::Referer => if request_accessor(file, node, "referrer") {
                ("referer", "referrer")
            } else {
                return None;
            },
            RequestRefererStyle::Referrer => if request_accessor(file, node, "referer") {
                ("referrer", "referer")
            } else {
                return None;
            },
        };
        let r = file.nodes[node].range;
        let msg = concat5("Use `request.", preferred, "` instead of `request.", actual, "`.");
        Some(offense1(r, msg, r, concat2("request.", preferred)))
    }
}

} // verus!
