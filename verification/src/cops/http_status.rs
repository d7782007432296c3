//! `Rails/HttpStatus`: symbolic or numeric HTTP status values, and Rack's
//! table between the two.

use vstd::prelude::*;
use crate::ast::{NodeId, NodeKind, SourceFile};
use crate::report::{finding1, offense1, splice, Finding, Offense};
use crate::cops::read_write_attribute::src_of;
use crate::text::{concat2, concat5, int_decimal, int_to_string, opt_str_view, parse_i64, parse_int, str_eq, trim, trim_str};

verus! {

/// Rack's name for a numeric HTTP status, if it has one.
pub open spec fn status_symbol(code: int) -> Option<Seq<char>> {
    if code == 100 {
        Some("continue"@)
    } else if code == 101 {
        Some("switching_protocols"@)
    } else if code == 102 {
        Some("processing"@)
    } else if code == 103 {
        Some("early_hints"@)
    } else if code == 200 {
        Some("ok"@)
    } else if code == 201 {
        Some("created"@)
    } else if code == 202 {
        Some("accepted"@)
    } else if code == 203 {
        Some("non_authoritative_information"@)
    } else if code == 204 {
        Some("no_content"@)
    } else if code == 205 {
        Some("reset_content"@)
    } else if code == 206 {
        Some("partial_content"@)
    } else if code == 207 {
        Some("multi_status"@)
    } else if code == 208 {
        Some("already_reported"@)
    } else if code == 226 {
        Some("im_used"@)
    } else if code == 300 {
        Some("multiple_choices"@)
    } else if code == 301 {
        Some("moved_permanently"@)
    } else if code == 302 {
        Some("found"@)
    } else if code == 303 {
        Some("see_other"@)
    } else if code == 304 {
        Some("not_modified"@)
    } else if code == 305 {
        Some("use_proxy"@)
    } else if code == 307 {
        Some("temporary_redirect"@)
    } else if code == 308 {
        Some("permanent_redirect"@)
    } else if code == 400 {
        Some("bad_request"@)
    } else if code == 401 {
        Some("unauthorized"@)
    } else if code == 402 {
        Some("payment_required"@)
    } else if code == 403 {
        Some("forbidden"@)
    } else if code == 404 {
        Some("not_found"@)
    } else if code == 405 {
        Some("method_not_allowed"@)
    } else if code == 406 {
        Some("not_acceptable"@)
    } else if code == 407 {
        Some("proxy_authentication_required"@)
    } else if code == 408 {
        Some("request_timeout"@)
    } else if code == 409 {
        Some("conflict"@)
    } else if code == 410 {
        Some("gone"@)
    } else if code == 411 {
        Some("length_required"@)
    } else if code == 412 {
        Some("precondition_failed"@)
    } else if code == 413 {
        Some("content_too_large"@)
    } else if code == 414 {
        Some("uri_too_long"@)
    } else if code == 415 {
        Some("unsupported_media_type"@)
    } else if code == 416 {
        Some("range_not_satisfiable"@)
    } else if code == 417 {
        Some("expectation_failed"@)
    } else if code == 421 {
        Some("misdirected_request"@)
    } else if code == 422 {
        Some("unprocessable_content"@)
    } else if code == 423 {
        Some("locked"@)
    } else if code == 424 {
        Some("failed_dependency"@)
    } else if code == 425 {
        Some("too_early"@)
    } else if code == 426 {
        Some("upgrade_required"@)
    } else if code == 428 {
        Some("precondition_required"@)
    } else if code == 429 {
        Some("too_many_requests"@)
    } else if code == 431 {
        Some("request_header_fields_too_large"@)
    } else if code == 451 {
        Some("unavailable_for_legal_reasons"@)
    } else if code == 500 {
        Some("internal_server_error"@)
    } else if code == 501 {
        Some("not_implemented"@)
    } else if code == 502 {
        Some("bad_gateway"@)
    } else if code == 503 {
        Some("service_unavailable"@)
    } else if code == 504 {
        Some("gateway_timeout"@)
    } else if code == 505 {
        Some("http_version_not_supported"@)
    } else if code == 506 {
        Some("variant_also_negotiates"@)
    } else if code == 507 {
        Some("insufficient_storage"@)
    } else if code == 508 {
        Some("loop_detected"@)
    } else if code == 511 {
        Some("network_authentication_required"@)
    } else {
        None
    }
}

/// The numeric HTTP status that Rack names `sym`, if any.
pub open spec fn status_code(sym: Seq<char>) -> Option<int> {
    if sym == "continue"@ {
        Some(100)
    } else if sym == "switching_protocols"@ {
        Some(101)
    } else if sym == "processing"@ {
        Some(102)
    } else if sym == "early_hints"@ {
        Some(103)
    } else if sym == "ok"@ {
        Some(200)
    } else if sym == "created"@ {
        Some(201)
    } else if sym == "accepted"@ {
        Some(202)
    } else if sym == "non_authoritative_information"@ {
        Some(203)
    } else if sym == "no_content"@ {
        Some(204)
    } else if sym == "reset_content"@ {
        Some(205)
    } else if sym == "partial_content"@ {
        Some(206)
    } else if sym == "multi_status"@ {
        Some(207)
    } else if sym == "already_reported"@ {
        Some(208)
    } else if sym == "im_used"@ {
        Some(226)
    } else if sym == "multiple_choices"@ {
        Some(300)
    } else if sym == "moved_permanently"@ {
        Some(301)
    } else if sym == "found"@ {
        Some(302)
    } else if sym == "see_other"@ {
        Some(303)
    } else if sym == "not_modified"@ {
        Some(304)
    } else if sym == "use_proxy"@ {
        Some(305)
    } else if sym == "temporary_redirect"@ {
        Some(307)
    } else if sym == "permanent_redirect"@ {
        Some(308)
    } else if sym == "bad_request"@ {
        Some(400)
    } else if sym == "unauthorized"@ {
        Some(401)
    } else if sym == "payment_required"@ {
        Some(402)
    } else if sym == "forbidden"@ {
        Some(403)
    } else if sym == "not_found"@ {
        Some(404)
    } else if sym == "method_not_allowed"@ {
        Some(405)
    } else if sym == "not_acceptable"@ {
        Some(406)
    } else if sym == "proxy_authentication_required"@ {
        Some(407)
    } else if sym == "request_timeout"@ {
        Some(408)
    } else if sym == "conflict"@ {
        Some(409)
    } else if sym == "gone"@ {
        Some(410)
    } else if sym == "length_required"@ {
        Some(411)
    } else if sym == "precondition_failed"@ {
        Some(412)
    } else if sym == "content_too_large"@ {
        Some(413)
    } else if sym == "uri_too_long"@ {
        Some(414)
    } else if sym == "unsupported_media_type"@ {
        Some(415)
    } else if sym == "range_not_satisfiable"@ {
        Some(416)
    } else if sym == "expectation_failed"@ {
        Some(417)
    } else if sym == "misdirected_request"@ {
        Some(421)
    } else if sym == "unprocessable_content"@ {
        Some(422)
    } else if sym == "locked"@ {
        Some(423)
    } else if sym == "failed_dependency"@ {
        Some(424)
    } else if sym == "too_early"@ {
        Some(425)
    } else if sym == "upgrade_required"@ {
        Some(426)
    } else if sym == "precondition_required"@ {
        Some(428)
    } else if sym == "too_many_requests"@ {
        Some(429)
    } else if sym == "request_header_fields_too_large"@ {
        Some(431)
    } else if sym == "unavailable_for_legal_reasons"@ {
        Some(451)
    } else if sym == "internal_server_error"@ {
        Some(500)
    } else if sym == "not_implemented"@ {
        Some(501)
    } else if sym == "bad_gateway"@ {
        Some(502)
    } else if sym == "service_unavailable"@ {
        Some(503)
    } else if sym == "gateway_timeout"@ {
        Some(504)
    } else if sym == "http_version_not_supported"@ {
        Some(505)
    } else if sym == "variant_also_negotiates"@ {
        Some(506)
    } else if sym == "insufficient_storage"@ {
        Some(507)
    } else if sym == "loop_detected"@ {
        Some(508)
    } else if sym == "network_authentication_required"@ {
        Some(511)
    } else {
        None
    }
}

/// Maps a numeric code to its symbolic name (without colon), or `None` for
/// custom or unknown codes (e.g. 550).
pub fn symbol_for_code(code: i64) -> (r: Option<&'static str>)
    ensures
        opt_str_view(r) == status_symbol(code as int),
{
    match code {
        100 => Some("continue"),
        101 => Some("switching_protocols"),
        102 => Some("processing"),
        103 => Some("early_hints"),
        200 => Some("ok"),
        201 => Some("created"),
        202 => Some("accepted"),
        203 => Some("non_authoritative_information"),
        204 => Some("no_content"),
        205 => Some("reset_content"),
        206 => Some("partial_content"),
        207 => Some("multi_status"),
        208 => Some("already_reported"),
        226 => Some("im_used"),
        300 => Some("multiple_choices"),
        301 => Some("moved_permanently"),
        302 => Some("found"),
        303 => Some("see_other"),
        304 => Some("not_modified"),
        305 => Some("use_proxy"),
        307 => Some("temporary_redirect"),
        308 => Some("permanent_redirect"),
        400 => Some("bad_request"),
        401 => Some("unauthorized"),
        402 => Some("payment_required"),
        403 => Some("forbidden"),
        404 => Some("not_found"),
        405 => Some("method_not_allowed"),
        406 => Some("not_acceptable"),
        407 => Some("proxy_authentication_required"),
        408 => Some("request_timeout"),
        409 => Some("conflict"),
        410 => Some("gone"),
        411 => Some("length_required"),
        412 => Some("precondition_failed"),
        413 => Some("content_too_large"),
        414 => Some("uri_too_long"),
        415 => Some("unsupported_media_type"),
        416 => Some("range_not_satisfiable"),
        417 => Some("expectation_failed"),
        421 => Some("misdirected_request"),
        422 => Some("unprocessable_content"),
        423 => Some("locked"),
        424 => Some("failed_dependency"),
        425 => Some("too_early"),
        426 => Some("upgrade_required"),
        428 => Some("precondition_required"),
        429 => Some("too_many_requests"),
        431 => Some("request_header_fields_too_large"),
        451 => Some("unavailable_for_legal_reasons"),
        500 => Some("internal_server_error"),
        501 => Some("not_implemented"),
        502 => Some("bad_gateway"),
        503 => Some("service_unavailable"),
        504 => Some("gateway_timeout"),
        505 => Some("http_version_not_supported"),
        506 => Some("variant_also_negotiates"),
        507 => Some("insufficient_storage"),
        508 => Some("loop_detected"),
        511 => Some("network_authentication_required"),
        _ => None,
    }
}

/// Maps a symbolic name (without colon) to its numeric code, or `None` for
/// unknown symbols; obsolete aliases such as `unprocessable_entity` are unknown.
pub fn code_for_symbol(sym: &str) -> (r: Option<i64>)
    ensures
        match r {
            Some(c) => status_code(sym@) == Some(c as int),
            None => status_code(sym@) is None,
        },
{
    if str_eq(sym, "continue") {
        Some(100)
    } else if str_eq(sym, "switching_protocols") {
        Some(101)
    } else if str_eq(sym, "processing") {
        Some(102)
    } else if str_eq(sym, "early_hints") {
        Some(103)
    } else if str_eq(sym, "ok") {
        Some(200)
    } else if str_eq(sym, "created") {
        Some(201)
    } else if str_eq(sym, "accepted") {
        Some(202)
    } else if str_eq(sym, "non_authoritative_information") {
        Some(203)
    } else if str_eq(sym, "no_content") {
        Some(204)
    } else if str_eq(sym, "reset_content") {
        Some(205)
    } else if str_eq(sym, "partial_content") {
        Some(206)
    } else if str_eq(sym, "multi_status") {
        Some(207)
    } else if str_eq(sym, "already_reported") {
        Some(208)
    } else if str_eq(sym, "im_used") {
        Some(226)
    } else if str_eq(sym, "multiple_choices") {
        Some(300)
    } else if str_eq(sym, "moved_permanently") {
        Some(301)
    } else if str_eq(sym, "found") {
        Some(302)
    } else if str_eq(sym, "see_other") {
        Some(303)
    } else if str_eq(sym, "not_modified") {
        Some(304)
    } else if str_eq(sym, "use_proxy") {
        Some(305)
    } else if str_eq(sym, "temporary_redirect") {
        Some(307)
    } else if str_eq(sym, "permanent_redirect") {
        Some(308)
    } else if str_eq(sym, "bad_request") {
        Some(400)
    } else if str_eq(sym, "unauthorized") {
        Some(401)
    } else if str_eq(sym, "payment_required") {
        Some(402)
    } else if str_eq(sym, "forbidden") {
        Some(403)
    } else if str_eq(sym, "not_found") {
        Some(404)
    } else if str_eq(sym, "method_not_allowed") {
        Some(405)
    } else if str_eq(sym, "not_acceptable") {
        Some(406)
    } else if str_eq(sym, "proxy_authentication_required") {
        Some(407)
    } else if str_eq(sym, "request_timeout") {
        Some(408)
    } else if str_eq(sym, "conflict") {
        Some(409)
    } else if str_eq(sym, "gone") {
        Some(410)
    } else if str_eq(sym, "length_required") {
        Some(411)
    } else if str_eq(sym, "precondition_failed") {
        Some(412)
    } else if str_eq(sym, "content_too_large") {
        Some(413)
    } else if str_eq(sym, "uri_too_long") {
        Some(414)
    } else if str_eq(sym, "unsupported_media_type") {
        Some(415)
    } else if str_eq(sym, "range_not_satisfiable") {
        Some(416)
    } else if str_eq(sym, "expectation_failed") {
        Some(417)
    } else if str_eq(sym, "misdirected_request") {
        Some(421)
    } else if str_eq(sym, "unprocessable_content") {
        Some(422)
    } else if str_eq(sym, "locked") {
        Some(423)
    } else if str_eq(sym, "failed_dependency") {
        Some(424)
    } else if str_eq(sym, "too_early") {
        Some(425)
    } else if str_eq(sym, "upgrade_required") {
        Some(426)
    } else if str_eq(sym, "precondition_required") {
        Some(428)
    } else if str_eq(sym, "too_many_requests") {
        Some(429)
    } else if str_eq(sym, "request_header_fields_too_large") {
        Some(431)
    } else if str_eq(sym, "unavailable_for_legal_reasons") {
        Some(451)
    } else if str_eq(sym, "internal_server_error") {
        Some(500)
    } else if str_eq(sym, "not_implemented") {
        Some(501)
    } else if str_eq(sym, "bad_gateway") {
        Some(502)
    } else if str_eq(sym, "service_unavailable") {
        Some(503)
    } else if str_eq(sym, "gateway_timeout") {
        Some(504)
    } else if str_eq(sym, "http_version_not_supported") {
        Some(505)
    } else if str_eq(sym, "variant_also_negotiates") {
        Some(506)
    } else if str_eq(sym, "insufficient_storage") {
        Some(507)
    } else if str_eq(sym, "loop_detected") {
        Some(508)
    } else if str_eq(sym, "network_authentication_required") {
        Some(511)
    } else {
        None
    }
}



/// `assert_response` shorthands permitted in numeric style; they never flag.
pub open spec fn permitted_symbol(sym: Seq<char>) -> bool {
    sym == "error"@ || sym == "success"@ || sym == "missing"@ || sym == "redirect"@
}

/// Decides `permitted_symbol`.
pub fn is_permitted_symbol(sym: &str) -> (r: bool)
    ensures
        r == permitted_symbol(sym@),
{
    str_eq(sym, "error") || str_eq(sym, "success") || str_eq(sym, "missing") || str_eq(sym, "redirect")
}

/// Checks `render`/`redirect_to`/`head`/`assert_response`/`assert_redirected_to`
/// calls for the HTTP status spelling that `EnforcedStyle` does not prefer.
#[derive(Debug, Default)]
pub struct HttpStatus;

/// Options of `HttpStatus`.
#[derive(Debug)]
pub struct HttpStatusOptions {
    /// `EnforcedStyle`: symbolic (`:ok`, the default) or numeric (`200`).
    pub enforced_style: HttpStatusStyle,
}

/// The preferred spelling of HTTP status values.
#[derive(Clone, Copy, Debug, PartialEq, Eq, Structural)]
pub enum HttpStatusStyle {
    Symbolic,
    Numeric,
}

impl Default for HttpStatusOptions {
    fn default() -> (o: Self)
        ensures
            o.enforced_style == HttpStatusStyle::Symbolic,
    {
        HttpStatusOptions { enforced_style: HttpStatusStyle::Symbolic }
    }
}

/// A value that can name a status: integer, symbol or string literal.
pub open spec fn is_status_literal(k: NodeKind) -> bool {
    k is Int || k is Sym || k is Str
}

/// The value of the first `status:` pair, among `pairs`, whose value is a status literal.
pub open spec fn status_in_pairs(file: &SourceFile, pairs: Seq<NodeId>) -> Option<NodeId>
    decreases pairs.len(),
{
    if pairs.len() == 0 {
        None
    } else {
        match file.kind(pairs[0]) {
            NodeKind::Pair { key, value } => {
                if file.kind(key) matches NodeKind::Sym(k) && k@ == "status"@ && is_status_literal(file.kind(value)) {
                    Some(value)
                } else {
                    status_in_pairs(file, pairs.drop_first())
                }
            },
            _ => status_in_pairs(file, pairs.drop_first()),
        }
    }
}

/// The first status value found in a hash among the call arguments `args`.
pub open spec fn status_in_args(file: &SourceFile, args: Seq<NodeId>) -> Option<NodeId>
    decreases args.len(),
{
    if args.len() == 0 {
        None
    } else {
        match file.kind(args[0]) {
            NodeKind::Hash(pairs) => match status_in_pairs(file, pairs@) {
                Some(v) => Some(v),
                None => status_in_args(file, args.drop_first()),
            },
            _ => status_in_args(file, args.drop_first()),
        }
    }
}

/// The status value of a bare status-taking call: the `status:` value for
/// `render`/`redirect_to`/`assert_redirected_to`, the integer or symbol first
/// argument for `head`/`assert_response`.
pub open spec fn status_target(file: &SourceFile, node: NodeId) -> Option<NodeId> {
    match file.kind(node) {
        NodeKind::Send { receiver: None, method, args } => {
            if method@ == "render"@ || method@ == "redirect_to"@ || method@ == "assert_redirected_to"@ {
                status_in_args(file, args@)
            } else if method@ == "head"@ || method@ == "assert_response"@ {
                if args@.len() > 0 && (file.kind(args@[0]) is Int || file.kind(args@[0]) is Sym) {
                    Some(args@[0])
                } else {
                    None
                }
            } else {
                None
            }
        },
        _ => None,
    }
}

/// Message that prefers the symbol `sym` over the spelling `written`.
pub open spec fn symbolic_message(sym: Seq<char>, written: Seq<char>) -> Seq<char> {
    "Prefer `:"@ + sym + "` over `"@ + written + "` to define HTTP status code."@
}

/// Message that prefers the number `code` over the symbol `sym`.
pub open spec fn numeric_message(code: Seq<char>, sym: Seq<char>) -> Seq<char> {
    "Prefer `"@ + code + "` over `:"@ + sym + "` to define HTTP status code."@
}

/// Finding for status value `v` under the symbolic style: a known numeric
/// code, written as an integer or as a (trimmed) numeric string.
pub open spec fn symbolic_finding(file: &SourceFile, v: NodeId) -> Option<Finding> {
    let r = file.range(v);
    match file.kind(v) {
        NodeKind::Int(code) => match status_symbol(code as int) {
            Some(sym) => Some(finding1(r, symbolic_message(sym, int_decimal(code as int)), r, ":"@ + sym)),
            None => None,
        },
        NodeKind::Str(text) => match parse_i64(trim(text@)) {
            Some(code) => match status_symbol(code) {
                Some(sym) => Some(finding1(r, symbolic_message(sym, trim(text@)), r, ":"@ + sym)),
                None => None,
            },
            None => None,
        },
        _ => None,
    }
}

/// Finding for status value `v` under the numeric style: a known symbol
/// other than the permitted shorthands.
pub open spec fn numeric_finding(file: &SourceFile, v: NodeId) -> Option<Finding> {
    let r = file.range(v);
    match file.kind(v) {
        NodeKind::Sym(name) => {
            if permitted_symbol(name@) {
                None
            } else {
                match status_code(name@) {
                    Some(code) => Some(finding1(r, numeric_message(int_decimal(code), name@), r, int_decimal(code))),
                    None => None,
                }
            }
        },
        _ => None,
    }
}

/// What `HttpStatus::check_send` reports for `node`.
pub open spec fn http_status_finding(file: &SourceFile, node: NodeId, style: HttpStatusStyle) -> Option<Finding> {
    match status_target(file, node) {
        Some(v) => match style {
            HttpStatusStyle::Symbolic => symbolic_finding(file, v),
            HttpStatusStyle::Numeric => numeric_finding(file, v),
        },
        None => None,
    }
}

/// Scans call arguments for a `Hash` with a `status:` pair whose value is a
/// status literal; only top-level pairs count.
fn find_status_in_args(file: &SourceFile, args: &[NodeId]) -> (r: Option<NodeId>)
    requires
        file.wf(),
        forall|i: int| 0 <= i < args@.len() ==> args@[i] < file.nodes@.len(),
    ensures
        r == status_in_args(file, args@),
        r matches Some(v) ==> v < file.nodes@.len(),
{
    let mut i: usize = 0;
    assert(args@.subrange(0, args@.len() as int) =~= args@);
    while i < args.len()
        invariant
            file.wf(),
            forall|k: int| 0 <= k < args@.len() ==> args@[k] < file.nodes@.len(),
            i <= args@.len(),
            status_in_args(file, args@) == status_in_args(file, args@.subrange(i as int, args@.len() as int)),
        decreases args@.len() - i,
    {
        let ghost rest = args@.subrange(i as int, args@.len() as int);
        assert(rest.drop_first() =~= args@.subrange(i + 1, args@.len() as int));
        let arg = args[i];
        if let NodeKind::Hash(pairs) = &file.nodes[arg].kind {
            let mut j: usize = 0;
            assert(pairs@.subrange(0, pairs@.len() as int) =~= pairs@);
            while j < pairs.len()
                invariant
                    file.wf(),
                    arg < file.nodes@.len(),
                    file.kind(arg) == NodeKind::Hash(*pairs),
                    i < args@.len(),
                    args@[i as int] == arg,
                    status_in_args(file, args@) == status_in_args(file, args@.subrange(i as int, args@.len() as int)),
                    j <= pairs@.len(),
                    status_in_pairs(file, pairs@) == status_in_pairs(file, pairs@.subrange(j as int, pairs@.len() as int)),
                decreases pairs@.len() - j,
            {
                let ghost prest = pairs@.subrange(j as int, pairs@.len() as int);
                assert(prest.drop_first() =~= pairs@.subrange(j + 1, pairs@.len() as int));
                let p = pairs[j];
                assert(file.children(arg)[j as int] == p);
                if let NodeKind::Pair { key, value } = &file.nodes[p].kind {
                    assert(file.children(p)[0] == *key);
                    assert(file.children(p)[1] == *value);
                    if let NodeKind::Sym(k) = &file.nodes[*key].kind {
                        if str_eq(k.as_str(), "status") {
                            match &file.nodes[*value].kind {
                                NodeKind::Int(_) | NodeKind::Sym(_) | NodeKind::Str(_) => {
                                    assert(status_in_pairs(file, pairs@) == Some(*value));
                                    assert(args@.subrange(i as int, args@.len() as int)[0] == arg);
                                    return Some(*value);
                                },
                                _ => {},
                            }
                        }
                    }
                }
                j = j + 1;
            }
        }
        i = i + 1;
    }
    None
}

/// Report for status value `v` under the symbolic style.
fn check_symbolic(file: &SourceFile, v: NodeId) -> (r: Option<Offense>)
    requires
        file.valid(v),
    ensures
        r.deep_view() == symbolic_finding(file, v),
{
    let r = file.nodes[v].range;
    match &file.nodes[v].kind {
        NodeKind::Int(code) => match symbol_for_code(*code) {
            Some(sym) => {
                let written = int_to_string(*code);
                let msg = concat5("Prefer `:", sym, "` over `", written.as_str(), "` to define HTTP status code.");
                Some(offense1(r, msg, r, concat2(":", sym)))
            },
            None => None,
        },
        NodeKind::Str(text) => {
            let trimmed = trim_str(text.as_str());
            match parse_int(trimmed.as_str()) {
                Some(code) => match symbol_for_code(code) {
                    Some(sym) => {
                        let msg = concat5("Prefer `:", sym, "` over `", trimmed.as_str(), "` to define HTTP status code.");
                        Some(offense1(r, msg, r, concat2(":", sym)))
                    },
                    None => None,
                },
                None => None,
            }
        },
        _ => None,
    }
}

/// Report for status value `v` under the numeric style.
fn check_numeric(file: &SourceFile, v: NodeId) -> (r: Option<Offense>)
    requires
        file.valid(v),
    ensures
        r.deep_view() == numeric_finding(file, v),
{
    let r = file.nodes[v].range;
    match &file.nodes[v].kind {
        NodeKind::Sym(name) => {
            if is_permitted_symbol(name.as_str()) {
                return None;
            }
            match code_for_symbol(name.as_str()) {
                Some(code) => {
                    let written = int_to_string(code);
                    let msg = concat5("Prefer `", written.as_str(), "` over `:", name.as_str(), "` to define HTTP status code.");
                    Some(offense1(r, msg, r, written))
                },
                None => None,
            }
        },
        _ => None,
    }
}

impl HttpStatus {
    /// Reports a status value that `options.enforced_style` does not prefer,
    /// with the edit that respells it.
    pub fn check_send(&self, file: &SourceFile, node: NodeId, options: &HttpStatusOptions) -> (r: Option<Offense>)
        requires
            file.valid(node),
        ensures
            r.deep_view() == http_status_finding(file, node, options.enforced_style),
    {
        let target = match &file.nodes[node].kind {
            NodeKind::Send { receiver: None, method, args } => {
                proof {
                    assert forall|i: int| 0 <= i < args@.len() implies args@[i] < file.nodes@.len() by {
                        assert(file.children(node)[i] == args@[i]);
                    }
                }
                if str_eq(method.as_str(), "render") || str_eq(method.as_str(), "redirect_to")
                    || str_eq(method.as_str(), "assert_redirected_to") {
                    find_status_in_args(file, args.as_slice())
                } else if str_eq(method.as_str(), "head") || str_eq(method.as_str(), "assert_response") {
                    if args.len() > 0 {
                        match &file.nodes[args[0]].kind {
                            NodeKind::Int(_) | NodeKind::Sym(_) => Some(args[0]),
                            _ => None,
                        }
                    } else {
                        None
                    }
                } else {
                    None
                }
            },
            _ => None,
        };
        assert(target == status_target(file, node));
        match target {
            Some(v) => {
                assert(v < file.nodes@.len());
                match options.enforced_style {
                    HttpStatusStyle::Symbolic => check_symbolic(file, v),
                    HttpStatusStyle::Numeric => check_numeric(file, v),
                }
            },
            None => None,
        }
    }
}

/// Rack's status table is one-to-one: the name of a known code maps back to
/// that code, and a known name maps to a code whose name it is.
pub proof fn lemma_status_table_round_trip(code: int, sym: Seq<char>)
    ensures
        status_symbol(code) matches Some(s) ==> status_code(s) == Some(code),
        status_code(sym) matches Some(c) ==> status_symbol(c) == Some(sym),
{
    reveal_strlit("continue");
    assert("continue"@.len() == 8);
    reveal_strlit("switching_protocols");
    assert("switching_protocols"@.len() == 19);
    reveal_strlit("processing");
    assert("processing"@.len() == 10);
    reveal_strlit("early_hints");
    assert("early_hints"@.len() == 11);
    reveal_strlit("ok");
    assert("ok"@.len() == 2);
    reveal_strlit("created");
    assert("created"@.len() == 7);
    reveal_strlit("accepted");
    assert("accepted"@.len() == 8);
    reveal_strlit("non_authoritative_information");
    assert("non_authoritative_information"@.len() == 29);
    reveal_strlit("no_content");
    assert("no_content"@.len() == 10);
    reveal_strlit("reset_content");
    assert("reset_content"@.len() == 13);
    reveal_strlit("partial_content");
    assert("partial_content"@.len() == 15);
    reveal_strlit("multi_status");
    assert("multi_status"@.len() == 12);
    reveal_strlit("already_reported");
    assert("already_reported"@.len() == 16);
    reveal_strlit("im_used");
    assert("im_used"@.len() == 7);
    reveal_strlit("multiple_choices");
    assert("multiple_choices"@.len() == 16);
    reveal_strlit("moved_permanently");
    assert("moved_permanently"@.len() == 17);
    reveal_strlit("found");
    assert("found"@.len() == 5);
    reveal_strlit("see_other");
    assert("see_other"@.len() == 9);
    reveal_strlit("not_modified");
    assert("not_modified"@.len() == 12);
    reveal_strlit("use_proxy");
    assert("use_proxy"@.len() == 9);
    reveal_strlit("temporary_redirect");
    assert("temporary_redirect"@.len() == 18);
    reveal_strlit("permanent_redirect");
    assert("permanent_redirect"@.len() == 18);
    reveal_strlit("bad_request");
    assert("bad_request"@.len() == 11);
    reveal_strlit("unauthorized");
    assert("unauthorized"@.len() == 12);
    reveal_strlit("payment_required");
    assert("payment_required"@.len() == 16);
    reveal_strlit("forbidden");
    assert("forbidden"@.len() == 9);
    reveal_strlit("not_found");
    assert("not_found"@.len() == 9);
    reveal_strlit("method_not_allowed");
    assert("method_not_allowed"@.len() == 18);
    reveal_strlit("not_acceptable");
    assert("not_acceptable"@.len() == 14);
    reveal_strlit("proxy_authentication_required");
    assert("proxy_authentication_required"@.len() == 29);
    reveal_strlit("request_timeout");
    assert("request_timeout"@.len() == 15);
    reveal_strlit("conflict");
    assert("conflict"@.len() == 8);
    reveal_strlit("gone");
    assert("gone"@.len() == 4);
    reveal_strlit("length_required");
    assert("length_required"@.len() == 15);
    reveal_strlit("precondition_failed");
    assert("precondition_failed"@.len() == 19);
    reveal_strlit("content_too_large");
    assert("content_too_large"@.len() == 17);
    reveal_strlit("uri_too_long");
    assert("uri_too_long"@.len() == 12);
    reveal_strlit("unsupported_media_type");
    assert("unsupported_media_type"@.len() == 22);
    reveal_strlit("range_not_satisfiable");
    assert("range_not_satisfiable"@.len() == 21);
    reveal_strlit("expectation_failed");
    assert("expectation_failed"@.len() == 18);
    reveal_strlit("misdirected_request");
    assert("misdirected_request"@.len() == 19);
    reveal_strlit("unprocessable_content");
    assert("unprocessable_content"@.len() == 21);
    reveal_strlit("locked");
    assert("locked"@.len() == 6);
    reveal_strlit("failed_dependency");
    assert("failed_dependency"@.len() == 17);
    reveal_strlit("too_early");
    assert("too_early"@.len() == 9);
    reveal_strlit("upgrade_required");
    assert("upgrade_required"@.len() == 16);
    reveal_strlit("precondition_required");
    assert("precondition_required"@.len() == 21);
    reveal_strlit("too_many_requests");
    assert("too_many_requests"@.len() == 17);
    reveal_strlit("request_header_fields_too_large");
    assert("request_header_fields_too_large"@.len() == 31);
    reveal_strlit("unavailable_for_legal_reasons");
    assert("unavailable_for_legal_reasons"@.len() == 29);
    reveal_strlit("internal_server_error");
    assert("internal_server_error"@.len() == 21);
    reveal_strlit("not_implemented");
    assert("not_implemented"@.len() == 15);
    reveal_strlit("bad_gateway");
    assert("bad_gateway"@.len() == 11);
    reveal_strlit("service_unavailable");
    assert("service_unavailable"@.len() == 19);
    reveal_strlit("gateway_timeout");
    assert("gateway_timeout"@.len() == 15);
    reveal_strlit("http_version_not_supported");
    assert("http_version_not_supported"@.len() == 26);
    reveal_strlit("variant_also_negotiates");
    assert("variant_also_negotiates"@.len() == 23);
    reveal_strlit("insufficient_storage");
    assert("insufficient_storage"@.len() == 20);
    reveal_strlit("loop_detected");
    assert("loop_detected"@.len() == 13);
    reveal_strlit("network_authentication_required");
    assert("network_authentication_required"@.len() == 31);
    if code == 100 {
    } else if code == 101 {
    } else if code == 102 {
    } else if code == 103 {
    } else if code == 200 {
    } else if code == 201 {
    } else if code == 202 {
        assert("continue"@[0] != "accepted"@[0]);
    } else if code == 203 {
    } else if code == 204 {
        assert("processing"@[0] != "no_content"@[0]);
    } else if code == 205 {
    } else if code == 206 {
    } else if code == 207 {
    } else if code == 208 {
    } else if code == 226 {
        assert("created"@[0] != "im_used"@[0]);
    } else if code == 300 {
        assert("already_reported"@[0] != "multiple_choices"@[0]);
    } else if code == 301 {
    } else if code == 302 {
    } else if code == 303 {
    } else if code == 304 {
        assert("multi_status"@[0] != "not_modified"@[0]);
    } else if code == 305 {
        assert("see_other"@[0] != "use_proxy"@[0]);
    } else if code == 307 {
    } else if code == 308 {
        assert("temporary_redirect"@[0] != "permanent_redirect"@[0]);
    } else if code == 400 {
        assert("early_hints"@[0] != "bad_request"@[0]);
    } else if code == 401 {
        assert("multi_status"@[0] != "unauthorized"@[0]);
        assert("not_modified"@[0] != "unauthorized"@[0]);
    } else if code == 402 {
        assert("already_reported"@[0] != "payment_required"@[0]);
        assert("multiple_choices"@[0] != "payment_required"@[0]);
    } else if code == 403 {
        assert("see_other"@[0] != "forbidden"@[0]);
        assert("use_proxy"@[0] != "forbidden"@[0]);
    } else if code == 404 {
        assert("see_other"@[0] != "not_found"@[0]);
        assert("use_proxy"@[0] != "not_found"@[0]);
        assert("forbidden"@[0] != "not_found"@[0]);
    } else if code == 405 {
        assert("temporary_redirect"@[0] != "method_not_allowed"@[0]);
        assert("permanent_redirect"@[0] != "method_not_allowed"@[0]);
    } else if code == 406 {
    } else if code == 407 {
        assert("non_authoritative_information"@[0] != "proxy_authentication_required"@[0]);
    } else if code == 408 {
        assert("partial_content"@[0] != "request_timeout"@[0]);
    } else if code == 409 {
        assert("continue"@[3] != "conflict"@[3]);
        assert("accepted"@[0] != "conflict"@[0]);
    } else if code == 410 {
    } else if code == 411 {
        assert("partial_content"@[0] != "length_required"@[0]);
        assert("request_timeout"@[0] != "length_required"@[0]);
    } else if code == 412 {
        assert("switching_protocols"@[0] != "precondition_failed"@[0]);
    } else if code == 413 {
        assert("moved_permanently"@[0] != "content_too_large"@[0]);
    } else if code == 414 {
        assert("multi_status"@[0] != "uri_too_long"@[0]);
        assert("not_modified"@[0] != "uri_too_long"@[0]);
        assert("unauthorized"@[1] != "uri_too_long"@[1]);
    } else if code == 415 {
    } else if code == 416 {
    } else if code == 417 {
        assert("temporary_redirect"@[0] != "expectation_failed"@[0]);
        assert("permanent_redirect"@[0] != "expectation_failed"@[0]);
        assert("method_not_allowed"@[0] != "expectation_failed"@[0]);
    } else if code == 421 {
        assert("switching_protocols"@[0] != "misdirected_request"@[0]);
        assert("precondition_failed"@[0] != "misdirected_request"@[0]);
    } else if code == 422 {
        assert("range_not_satisfiable"@[0] != "unprocessable_content"@[0]);
    } else if code == 423 {
    } else if code == 424 {
        assert("moved_permanently"@[0] != "failed_dependency"@[0]);
        assert("content_too_large"@[0] != "failed_dependency"@[0]);
    } else if code == 425 {
        assert("see_other"@[0] != "too_early"@[0]);
        assert("use_proxy"@[0] != "too_early"@[0]);
        assert("forbidden"@[0] != "too_early"@[0]);
        assert("not_found"@[0] != "too_early"@[0]);
    } else if code == 426 {
        assert("already_reported"@[0] != "upgrade_required"@[0]);
        assert("multiple_choices"@[0] != "upgrade_required"@[0]);
        assert("payment_required"@[0] != "upgrade_required"@[0]);
    } else if code == 428 {
        assert("range_not_satisfiable"@[0] != "precondition_required"@[0]);
        assert("unprocessable_content"@[0] != "precondition_required"@[0]);
    } else if code == 429 {
        assert("moved_permanently"@[0] != "too_many_requests"@[0]);
        assert("content_too_large"@[0] != "too_many_requests"@[0]);
        assert("failed_dependency"@[0] != "too_many_requests"@[0]);
    } else if code == 431 {
    } else if code == 451 {
        assert("non_authoritative_information"@[0] != "unavailable_for_legal_reasons"@[0]);
        assert("proxy_authentication_required"@[0] != "unavailable_for_legal_reasons"@[0]);
    } else if code == 500 {
        assert("range_not_satisfiable"@[0] != "internal_server_error"@[0]);
        assert("unprocessable_content"@[0] != "internal_server_error"@[0]);
        assert("precondition_required"@[0] != "internal_server_error"@[0]);
    } else if code == 501 {
        assert("partial_content"@[0] != "not_implemented"@[0]);
        assert("request_timeout"@[0] != "not_implemented"@[0]);
        assert("length_required"@[0] != "not_implemented"@[0]);
    } else if code == 502 {
        assert("early_hints"@[0] != "bad_gateway"@[0]);
        assert("bad_request"@[4] != "bad_gateway"@[4]);
    } else if code == 503 {
        assert("switching_protocols"@[1] != "service_unavailable"@[1]);
        assert("precondition_failed"@[0] != "service_unavailable"@[0]);
        assert("misdirected_request"@[0] != "service_unavailable"@[0]);
    } else if code == 504 {
        assert("partial_content"@[0] != "gateway_timeout"@[0]);
        assert("request_timeout"@[0] != "gateway_timeout"@[0]);
        assert("length_required"@[0] != "gateway_timeout"@[0]);
        assert("not_implemented"@[0] != "gateway_timeout"@[0]);
    } else if code == 505 {
    } else if code == 506 {
    } else if code == 507 {
    } else if code == 508 {
        assert("reset_content"@[0] != "loop_detected"@[0]);
    } else if code == 511 {
        assert("request_header_fields_too_large"@[0] != "network_authentication_required"@[0]);
    }
}

/// The two styles' corrections undo each other: where code `c` has the
/// name `s`, the symbolic style rewrites the number `c` as `:s`, the numeric
/// style rewrites `:s` as the decimal `c`, and neither style touches what the
/// other one writes.
pub proof fn lemma_status_styles_undo(file: &SourceFile, v: NodeId, w: NodeId, c: i64, s: Seq<char>)
    requires
        status_symbol(c as int) == Some(s),
        !permitted_symbol(s),
        file.kind(v) == NodeKind::Int(c),
        file.kind(w) matches NodeKind::Sym(name) && name@ == s,
    ensures
        symbolic_finding(file, v) matches Some(f) && f.edits == seq![(file.range(v), ":"@ + s)],
        numeric_finding(file, w) matches Some(g) && g.edits == seq![(file.range(w), int_decimal(c as int))],
        symbolic_finding(file, w) is None,
        numeric_finding(file, v) is None,
{
    lemma_status_table_round_trip(c as int, s);
}

/// Rewriting a status written as the decimal of its code to its symbol,
/// then rewriting that symbol back to a number, gives the source back; and
/// once rewritten to the symbol, the symbolic style finds nothing more. Here
/// `after` is the file as the symbolic rewrite leaves it: its source is the
/// source with the edit applied, and its call finds the symbol where the
/// number stood.
pub proof fn lemma_status_rewrites_round_trip(
    file: &SourceFile,
    node: NodeId,
    v: NodeId,
    after: &SourceFile,
    node2: NodeId,
    w: NodeId,
    c: i64,
    s: Seq<char>,
)
    requires
        file.valid(v),
        status_target(file, node) == Some(v),
        file.kind(v) == NodeKind::Int(c),
        src_of(file, v) == int_decimal(c as int),
        status_symbol(c as int) == Some(s),
        !permitted_symbol(s),
        after.source@ == splice(file.source@, file.range(v), ":"@ + s),
        status_target(after, node2) == Some(w),
        after.kind(w) matches NodeKind::Sym(name) && name@ == s,
        after.range(w).start == file.range(v).start,
        after.range(w).end == file.range(v).start + 1 + s.len(),
    ensures
        http_status_finding(file, node, HttpStatusStyle::Symbolic) matches Some(f)
            && f.edits == seq![(file.range(v), ":"@ + s)],
        http_status_finding(after, node2, HttpStatusStyle::Numeric) matches Some(g)
            && g.edits == seq![(after.range(w), int_decimal(c as int))],
        splice(after.source@, after.range(w), int_decimal(c as int)) == file.source@,
        http_status_finding(after, node2, HttpStatusStyle::Symbolic) is None,
{
    lemma_status_table_round_trip(c as int, s);
    let a = file.range(v).start as int;
    let b = file.range(v).end as int;
    let src = file.source@;
    assert(file.nodes@[v as int].range == file.range(v));
    let t = ":"@ + s;
    assert(after.source@.subrange(0, a) =~= src.subrange(0, a));
    assert(after.source@.subrange(a + t.len(), after.source@.len() as int) =~= src.subrange(b, src.len() as int));
    assert(src =~= src.subrange(0, a) + src.subrange(a, b) + src.subrange(b, src.len() as int));
    reveal_strlit(":");
}

} // verus!
