//! `Rails/ResponseParsedBody`: prefer `response.parsed_body` to parsing
//! `response.body` by hand.

use vstd::prelude::*;
use crate::ast::{args_of, call_receiver_of, method_of, NodeId, NodeKind, SourceFile};
use crate::report::{offense1, Finding, Offense};
use crate::text::str_eq;

verus! {

/// Reports hand-parsed response bodies.
#[derive(Debug, Default)]
pub struct ResponseParsedBody;

/// A bare call `name` without arguments.
pub open spec fn is_bare_call(file: &SourceFile, n: NodeId, name: Seq<char>) -> bool {
    file.kind(n) matches NodeKind::Send { receiver: None, method, args } && method@ == name && args@.len() == 0
}

/// `response.body`.
pub open spec fn is_response_body(file: &SourceFile, n: NodeId) -> bool {
    file.kind(n) matches NodeKind::Send { receiver: Some(r), method, args } && method@ == "body"@ && args@.len() == 0
        && is_bare_call(file, r, "response"@)
}

/// A call with the single argument `response.body`: its receiver and method.
pub open spec fn parses_response_body(file: &SourceFile, n: NodeId) -> Option<(NodeId, Seq<char>)> {
    let k = file.kind(n);
    let a = args_of(k);
    if k is Send && a.len() == 1 && is_response_body(file, a[0]) {
        match (call_receiver_of(k), method_of(k)) {
            (Some(r), Some(m)) => Some((r, m)),
            _ => None,
        }
    } else {
        None
    }
}

/// `JSON.parse(response.body)`, or (Rails 7.1 on) `Nokogiri::HTML(...)`,
/// `Nokogiri::HTML.parse(...)` and `Nokogiri::HTML::Document.parse(...)`
/// in their HTML4 and HTML5 forms too.
pub open spec fn is_hand_parsed(file: &SourceFile, n: NodeId) -> bool {
    match parses_response_body(file, n) {
        Some((r, m)) => {
            let c = file.const_path(r);
            ||| m == "parse"@ && c == Some("JSON"@)
            ||| file.rails_at_least(7, 1) && (m == "HTML"@ || m == "HTML4"@ || m == "HTML5"@) && c == Some("Nokogiri"@)
            ||| file.rails_at_least(7, 1) && m == "parse"@ && (c == Some("Nokogiri::HTML"@) || c == Some("Nokogiri::HTML4"@)
                || c == Some("Nokogiri::HTML5"@) || c == Some("Nokogiri::HTML::Document"@)
                || c == Some("Nokogiri::HTML4::Document"@) || c == Some("Nokogiri::HTML5::Document"@))
        },
        None => false,
    }
}

/// What `ResponseParsedBody::check_send` reports for `node`.
pub open spec fn parsed_body_finding(file: &SourceFile, node: NodeId) -> Option<Finding> {
    if file.rails_at_least(5, 0) && is_hand_parsed(file, node) {
        Some(Finding {
            range: file.range(node),
            message: "Prefer `response.parsed_body`."@,
            edits: seq![(file.range(node), "response.parsed_body"@)],
        })
    } else {
        None
    }
}

/// Decides `is_bare_call`.
fn is_bare_call_exec(file: &SourceFile, n: NodeId, name: &str) -> (r: bool)
    requires
        n < file.nodes@.len(),
    ensures
        r == is_bare_call(file, n, name@),
{
    match &file.nodes[n].kind {
        NodeKind::Send { receiver: None, method, args } => str_eq(method.as_str(), name) && args.len() == 0,
        _ => false,
    }
}

/// Decides `is_response_body`.
fn is_response_body_exec(file: &SourceFile, n: NodeId) -> (r: bool)
    requires
        file.valid(n),
    ensures
        r == is_response_body(file, n),
{
    match &file.nodes[n].kind {
        NodeKind::Send { receiver: Some(r), method, args } => {
            assert(file.children(n)[0] == *r);
            str_eq(method.as_str(), "body") && args.len() == 0 && is_bare_call_exec(file, *r, "response")
        },
        _ => false,
    }
}

/// The constant path is `s`.
fn const_is(x: &Option<String>, s: &str) -> (b: bool)
    ensures
        b == (crate::ast::opt_string_view(*x) == Some(s@)),
{
    match x {
        Some(v) => str_eq(v.as_str(), s),
        None => false,
    }
}

impl ResponseParsedBody {
    /// Reports a hand-parsed `response.body`, with its replacement.
    pub fn check_send(&self, file: &SourceFile, node: NodeId) -> (r: Option<Offense>)
        requires
            file.valid(node),
        ensures
            r.deep_view() == parsed_body_finding(file, node),
    {
        if !file.rails_version_at_least(5, 0) {
            return None;
        }
        let (recv, method, args) = match &file.nodes[node].kind {
            NodeKind::Send { receiver: Some(r), method, args } => (*r, method.as_str(), args),
            _ => return None,
        };
        assert(file.children(node)[0] == recv);
        if args.len() != 1 {
            return None;
        }
        assert(file.children(node)[1] == args@[0]);
        if !is_response_body_exec(file, args[0]) {
            return None;
        }
        let c = file.const_name(recv);
        let v71 = file.rails_version_at_least(7, 1);
        let json = str_eq(method, "parse") && const_is(&c, "JSON");
        let html_call = v71 && (str_eq(method, "HTML") || str_eq(method, "HTML4") || str_eq(method, "HTML5")) && const_is(&c, "Nokogiri");
        let html_parse = v71 && str_eq(method, "parse") && (const_is(&c, "Nokogiri::HTML") || const_is(&c, "Nokogiri::HTML4")
            || const_is(&c, "Nokogiri::HTML5") || const_is(&c, "Nokogiri::HTML::Document") || const_is(&c, "Nokogiri::HTML4::Document")
            || const_is(&c, "Nokogiri::HTML5::Document"));
        if !(json || html_call || html_parse) {
            return None;
        }
        let range = file.nodes[node].range;
        Some(offense1(range, String::from_str("Prefer `response.parsed_body`."), range, String::from_str("response.parsed_body")))
    }
}

} // verus!
