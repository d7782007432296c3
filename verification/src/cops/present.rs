//! `Rails/Present`: prefer `present?` to `!blank?`, to
//! `!nil? && !empty?` and to `unless blank?`.

use vstd::prelude::*;
use crate::ast::{args_of, call_receiver_of, method_of, IfKeyword, NodeId, NodeKind, Range, SourceFile};
use crate::cops::pick::is_call_kind;
use crate::cops::read_write_attribute::src_of;
use crate::report::{offense1, Edit, Finding, Offense};
use crate::text::{concat2, str_eq};

verus! {

/// Reports checks that `present?` expresses.
#[derive(Debug, Default)]
pub struct Present;

/// Options of `Present`; each enables one of the three checks.
#[derive(Debug)]
pub struct PresentOptions {
    /// `!foo.nil? && !foo.empty?`.
    pub not_nil_and_not_empty: bool,
    /// `!foo.blank?`.
    pub not_blank: bool,
    /// `unless foo.blank?`.
    pub unless_blank: bool,
}

impl Default for PresentOptions {
    fn default() -> (r: Self)
        ensures
            r.not_nil_and_not_empty && r.not_blank && r.unless_blank,
    {
        PresentOptions { not_nil_and_not_empty: true, not_blank: true, unless_blank: true }
    }
}

/// `recv.present?`, or `present?` without a receiver.
pub open spec fn present_for_spec(recv_src: Option<Seq<char>>) -> Seq<char> {
    match recv_src {
        Some(s) => s + ".present?"@,
        None => "present?"@,
    }
}

/// `recv.present?`, or `present?` without a receiver.
pub fn present_for(recv_src: Option<&str>) -> (r: String)
    ensures
        r@ == present_for_spec(crate::text::opt_str_view(recv_src)),
{
    match recv_src {
        Some(src) => concat2(src, ".present?"),
        None => String::from_str("present?"),
    }
}

/// A call of `name` without arguments.
pub open spec fn is_zero_arg_call(file: &SourceFile, n: NodeId, name: Seq<char>) -> bool {
    is_call_kind(file.kind(n)) && method_of(file.kind(n)) == Some(name) && args_of(file.kind(n)).len() == 0
}

/// The source of a call's receiver.
pub open spec fn receiver_source(file: &SourceFile, n: NodeId) -> Option<Seq<char>> {
    match call_receiver_of(file.kind(n)) {
        Some(r) => Some(src_of(file, r)),
        None => None,
    }
}

/// `!recv.blank?`: the source of `recv`, if any.
pub open spec fn not_blank_receiver(file: &SourceFile, n: NodeId) -> Option<Option<Seq<char>>> {
    if method_of(file.kind(n)) == Some("!"@) && args_of(file.kind(n)).len() == 0 {
        match call_receiver_of(file.kind(n)) {
            Some(inner) => if is_zero_arg_call(file, inner, "blank?"@) { Some(receiver_source(file, inner)) } else { None },
            None => None,
        }
    } else {
        None
    }
}

/// The left side of `exists && !empty`: `x != nil`, `!x.nil?`, `!!x` or
/// a bare `x`; the source of `x`.
pub open spec fn exists_receiver(file: &SourceFile, n: NodeId) -> Option<Seq<char>> {
    let k = file.kind(n);
    if k is Send && method_of(k) == Some("!="@) {
        let a = args_of(k);
        if a.len() == 1 && file.kind(a[0]) is Nil { receiver_source(file, n) } else { None }
    } else if k is Send && method_of(k) == Some("!"@) && args_of(k).len() == 0 {
        match call_receiver_of(k) {
            Some(inner) => {
                let ik = file.kind(inner);
                if is_zero_arg_call(file, inner, "nil?"@) {
                    receiver_source(file, inner)
                } else if ik is Send && method_of(ik) == Some("!"@) && args_of(ik).len() == 0 {
                    receiver_source(file, inner)
                } else {
                    None
                }
            },
            None => None,
        }
    } else {
        Some(src_of(file, n))
    }
}

/// `!x.empty?`: the source of `x`.
pub open spec fn not_empty_receiver(file: &SourceFile, n: NodeId) -> Option<Seq<char>> {
    let k = file.kind(n);
    if method_of(k) == Some("!"@) && args_of(k).len() == 0 && k is Send {
        match call_receiver_of(k) {
            Some(inner) => if is_zero_arg_call(file, inner, "empty?"@) { receiver_source(file, inner) } else { None },
            None => None,
        }
    } else {
        None
    }
}

/// The finding that replaces `node` by `prefer`.
pub open spec fn prefer_finding(file: &SourceFile, node: NodeId, prefer: Seq<char>) -> Finding {
    Finding {
        range: file.range(node),
        message: "Use `"@ + prefer + "` instead of `"@ + src_of(file, node) + "`."@,
        edits: seq![(file.range(node), prefer)],
    }
}

/// What `Present::check_send` reports for `node`.
pub open spec fn not_blank_finding(file: &SourceFile, node: NodeId, o: &PresentOptions) -> Option<Finding> {
    if o.not_blank && file.kind(node) is Send {
        match not_blank_receiver(file, node) {
            Some(rs) => Some(prefer_finding(file, node, present_for_spec(rs))),
            None => None,
        }
    } else {
        None
    }
}

/// What `Present::check_and` (with `or` false) and `Present::check_or`
/// report for `node`.
pub open spec fn exists_and_not_empty_finding(file: &SourceFile, node: NodeId, o: &PresentOptions, or: bool) -> Option<Finding> {
    let sides = match file.kind(node) {
        NodeKind::And { lhs, rhs } => if !or { Some((lhs, rhs)) } else { None },
        NodeKind::Or { lhs, rhs } => if or { Some((lhs, rhs)) } else { None },
        _ => None,
    };
    match sides {
        Some((lhs, rhs)) => if o.not_nil_and_not_empty {
            match (exists_receiver(file, lhs), not_empty_receiver(file, rhs)) {
                (Some(v), Some(e)) => if v == e { Some(prefer_finding(file, node, v + ".present?"@)) } else { None },
                _ => None,
            }
        } else {
            None
        },
        None => None,
    }
}

/// The span reported for `unless c`: from the keyword to the end for the
/// modifier form, else from the start to the end of the condition.
pub open spec fn unless_span(file: &SourceFile, node: NodeId, cond: NodeId, modifier: bool) -> Range {
    if modifier {
        Range { start: file.name_range(node).start, end: file.range(node).end }
    } else {
        Range { start: file.range(node).start, end: file.range(cond).end }
    }
}

/// What `Present::check_if` reports for `node`: `unless x.blank?` without
/// `else`, with the edits to `if x.present?`.
pub open spec fn unless_blank_finding(file: &SourceFile, node: NodeId, o: &PresentOptions) -> Option<Finding> {
    match file.kind(node) {
        NodeKind::If { cond, keyword, modifier, has_else, .. } =>
            if o.unless_blank && keyword == IfKeyword::Unless && !has_else && is_zero_arg_call(file, cond, "blank?"@) {
                let prefer = present_for_spec(receiver_source(file, cond));
                let span = unless_span(file, node, cond, modifier);
                Some(Finding {
                    range: span,
                    message: "Use `if "@ + prefer + "` instead of `"@
                        + file.source@.subrange(span.start as int, span.end as int) + "`."@,
                    edits: seq![(file.name_range(node), "if"@), (file.range(cond), prefer)],
                })
            } else {
                None
            },
        _ => None,
    }
}

/// Decides `is_zero_arg_call`.
fn is_zero_arg_call_exec(file: &SourceFile, n: NodeId, name: &str) -> (r: bool)
    requires
        n < file.nodes@.len(),
    ensures
        r == is_zero_arg_call(file, n, name@),
{
    match &file.nodes[n].kind {
        NodeKind::Send { method, args, .. } | NodeKind::Csend { method, args, .. } => str_eq(method.as_str(), name) && args.len() == 0,
        _ => false,
    }
}

/// Computes `receiver_source`.
fn call_receiver_source(file: &SourceFile, n: NodeId) -> (r: Option<&str>)
    requires
        file.valid(n),
    ensures
        crate::text::opt_str_view(r) == receiver_source(file, n),
{
    match file.call_receiver(n) {
        Some(r) => {
            assert(file.children(n)[0] == r);
            Some(file.raw_source(file.nodes[r].range))
        },
        None => None,
    }
}

/// Computes `exists_receiver`.
fn exists_receiver_exec(file: &SourceFile, n: NodeId) -> (r: Option<&str>)
    requires
        file.valid(n),
    ensures
        crate::text::opt_str_view(r) == exists_receiver(file, n),
{
    let (method, args) = match &file.nodes[n].kind {
        NodeKind::Send { method, args, .. } => (method.as_str(), args),
        _ => return Some(file.raw_source(file.nodes[n].range)),
    };
    if str_eq(method, "!=") {
        if args.len() == 1 {
            proof { crate::ast::lemma_args_are_children(file, n, 0); }
            match &file.nodes[args[0]].kind {
                NodeKind::Nil => return call_receiver_source(file, n),
                _ => return None,
            }
        }
        return None;
    }
    if str_eq(method, "!") && args.len() == 0 {
        let inner = match file.call_receiver(n) {
            Some(i) => i,
            None => return None,
        };
        assert(file.children(n)[0] == inner);
        if is_zero_arg_call_exec(file, inner, "nil?") {
            return call_receiver_source(file, inner);
        }
        let double = match &file.nodes[inner].kind {
            NodeKind::Send { method, args, .. } => str_eq(method.as_str(), "!") && args.len() == 0,
            _ => false,
        };
        if double {
            return call_receiver_source(file, inner);
        }
        return None;
    }
    Some(file.raw_source(file.nodes[n].range))
}

/// Computes `not_empty_receiver`.
fn not_empty_receiver_exec(file: &SourceFile, n: NodeId) -> (r: Option<&str>)
    requires
        file.valid(n),
    ensures
        crate::text::opt_str_view(r) == not_empty_receiver(file, n),
{
    let ok = match &file.nodes[n].kind {
        NodeKind::Send { method, args, .. } => str_eq(method.as_str(), "!") && args.len() == 0,
        _ => false,
    };
    if !ok {
        return None;
    }
    let inner = match file.call_receiver(n) {
        Some(i) => i,
        None => return None,
    };
    assert(file.children(n)[0] == inner);
    if is_zero_arg_call_exec(file, inner, "empty?") {
        call_receiver_source(file, inner)
    } else {
        None
    }
}

/// Builds `prefer_finding`.
fn prefer_offense(file: &SourceFile, node: NodeId, prefer: String) -> (r: Offense)
    requires
        file.valid(node),
    ensures
        r.deep_view() == prefer_finding(file, node, prefer@),
{
    let mut msg = String::from_str("Use `");
    msg.append(prefer.as_str());
    msg.append("` instead of `");
    msg.append(file.raw_source(file.nodes[node].range));
    msg.append("`.");
    let range = file.nodes[node].range;
    offense1(range, msg, range, prefer)
}

/// The shared check of `&&` and `||` nodes.
fn check_exists_and_not_empty(file: &SourceFile, node: NodeId, o: &PresentOptions, or: bool) -> (r: Option<Offense>)
    requires
        file.valid(node),
    ensures
        r.deep_view() == exists_and_not_empty_finding(file, node, o, or),
{
    let (lhs, rhs) = match &file.nodes[node].kind {
        NodeKind::And { lhs, rhs } => {
            if or {
                return None;
            }
            (*lhs, *rhs)
        },
        NodeKind::Or { lhs, rhs } => {
            if !or {
                return None;
            }
            (*lhs, *rhs)
        },
        _ => return None,
    };
    assert(file.children(node)[0] == lhs);
    assert(file.children(node)[1] == rhs);
    if !o.not_nil_and_not_empty {
        return None;
    }
    let v = match exists_receiver_exec(file, lhs) {
        Some(v) => v,
        None => return None,
    };
    let e = match not_empty_receiver_exec(file, rhs) {
        Some(e) => e,
        None => return None,
    };
    if !str_eq(v, e) {
        return None;
    }
    Some(prefer_offense(file, node, concat2(v, ".present?")))
}

impl Present {
    /// Reports `!x.blank?`, with its rewrite to `x.present?`.
    pub fn check_send(&self, file: &SourceFile, node: NodeId, options: &PresentOptions) -> (r: Option<Offense>)
        requires
            file.valid(node),
        ensures
            r.deep_view() == not_blank_finding(file, node, options),
    {
        if !options.not_blank {
            return None;
        }
        let ok = match &file.nodes[node].kind {
            NodeKind::Send { method, args, .. } => str_eq(method.as_str(), "!") && args.len() == 0,
            _ => false,
        };
        if !ok {
            return None;
        }
        let inner = match file.call_receiver(node) {
            Some(i) => i,
            None => return None,
        };
        assert(file.children(node)[0] == inner);
        if !is_zero_arg_call_exec(file, inner, "blank?") {
            return None;
        }
        let prefer = present_for(call_receiver_source(file, inner));
        Some(prefer_offense(file, node, prefer))
    }

    /// Reports `!x.nil? && !x.empty?` (and its variants), with its rewrite
    /// to `x.present?`.
    pub fn check_and(&self, file: &SourceFile, node: NodeId, options: &PresentOptions) -> (r: Option<Offense>)
        requires
            file.valid(node),
        ensures
            r.deep_view() == exists_and_not_empty_finding(file, node, options, false),
    {
        check_exists_and_not_empty(file, node, options, false)
    }

    /// The same check on `||` nodes.
    pub fn check_or(&self, file: &SourceFile, node: NodeId, options: &PresentOptions) -> (r: Option<Offense>)
        requires
            file.valid(node),
        ensures
            r.deep_view() == exists_and_not_empty_finding(file, node, options, true),
    {
        check_exists_and_not_empty(file, node, options, true)
    }

    /// Reports `unless x.blank?`, with the edits to `if x.present?`.
    pub fn check_if(&self, file: &SourceFile, node: NodeId, options: &PresentOptions) -> (r: Option<Offense>)
        requires
            file.valid(node),
        ensures
            r.deep_view() == unless_blank_finding(file, node, options),
    {
        let (cond, keyword, modifier, has_else) = match &file.nodes[node].kind {
            NodeKind::If { cond, keyword, modifier, has_else, .. } => (*cond, *keyword, *modifier, *has_else),
            _ => return None,
        };
        assert(file.children(node)[0] == cond);
        if !options.unless_blank || keyword != IfKeyword::Unless || has_else || !is_zero_arg_call_exec(file, cond, "blank?") {
            return None;
        }
        let prefer = present_for(call_receiver_source(file, cond));
        let span = if modifier {
            Range { start: file.nodes[node].name_range.start, end: file.nodes[node].range.end }
        } else {
            Range { start: file.nodes[node].range.start, end: file.nodes[cond].range.end }
        };
        let mut msg = String::from_str("Use `if ");
        msg.append(prefer.as_str());
        msg.append("` instead of `");
        msg.append(file.raw_source(span));
        msg.append("`.");
        let mut edits: Vec<Edit> = Vec::new();
        edits.push(Edit { range: file.nodes[node].name_range, replacement: String::from_str("if") });
        edits.push(Edit { range: file.nodes[cond].range, replacement: prefer });
        let o = Offense { range: span, message: msg, edits };
        assert(o.deep_view().edits =~= unless_blank_finding(file, node, options)->Some_0.edits);
        Some(o)
    }
}

} // verus!
