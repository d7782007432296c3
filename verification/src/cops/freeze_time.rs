//! `Rails/FreezeTime`: `freeze_time` instead of `travel_to` with the current time.

use vstd::prelude::*;
use crate::ast::{NodeId, NodeKind, SourceFile};
use crate::cops::i18n_locale_assignment::{is_top_const, top_const_named};
use crate::report::{finding1, offense1, Finding, Offense};
use crate::text::{concat3, str_eq};

verus! {

/// Checks `travel_to` calls.
#[derive(Debug, Default)]
pub struct FreezeTime;

/// `Time.zone`, on a top-level `Time`, without arguments.
pub open spec fn is_zoned_time(file: &SourceFile, n: NodeId) -> bool {
    match file.kind(n) {
        NodeKind::Send { receiver: Some(r), method, args } =>
            method@ == "zone"@ && args@.len() == 0 && is_top_const(file, r, "Time"@),
        _ => false,
    }
}

/// `now`, `new` or `current`.
pub open spec fn now_method(m: Seq<char>) -> bool {
    m == "now"@ || m == "new"@ || m == "current"@
}

/// `recv.m` reads the current time: `Time.now`, `DateTime.current`, `Time.zone.now`...
pub open spec fn current_time(file: &SourceFile, recv: NodeId, m: Seq<char>) -> bool {
    now_method(m) && if file.kind(recv) is Send {
        is_zoned_time(file, recv)
    } else {
        is_top_const(file, recv, "Time"@) || is_top_const(file, recv, "DateTime"@)
    }
}

/// `recv.m` converts the current time: `Time.now.to_time`, `Time.current.in_time_zone`.
pub open spec fn current_time_with_convert(file: &SourceFile, recv: NodeId, m: Seq<char>) -> bool {
    (m == "to_time"@ || m == "in_time_zone"@) && match file.kind(recv) {
        NodeKind::Send { receiver: Some(ir), method, args } => args@.len() == 0 && current_time(file, ir, method@),
        _ => false,
    }
}

/// What `FreezeTime::check_send` reports for `node`: `travel_to` whose first
/// argument is an argument-less current-time call, corrected to
/// `freeze_time` (keeping a trailing block-pass).
pub open spec fn freeze_time_finding(file: &SourceFile, node: NodeId) -> Option<Finding> {
    match file.kind(node) {
        NodeKind::Send { method, args, .. } => {
            if method@ == "travel_to"@ && args@.len() > 0 {
                match file.kind(args@[0]) {
                    NodeKind::Send { receiver: Some(ir), method: im, args: ia } => {
                        if ia@.len() == 0 && (current_time(file, ir, im@) || current_time_with_convert(file, ir, im@)) {
                            let span = file.send_only_span(node);
                            let last = args@.last();
                            let fix = if file.kind(last) is BlockPass {
                                "freeze_time("@ + file.source@.subrange(file.range(last).start as int, file.range(last).end as int) + ")"@
                            } else {
                                "freeze_time"@
                            };
                            Some(finding1(span, "Use `freeze_time` instead of `travel_to`."@, span, fix))
                        } else {
                            None
                        }
                    },
                    _ => None,
                }
            } else {
                None
            }
        },
        _ => None,
    }
}

/// Decides `is_zoned_time`.
fn zoned_time(file: &SourceFile, n: NodeId) -> (r: bool)
    requires
        file.valid(n),
    ensures
        r == is_zoned_time(file, n),
{
    match &file.nodes[n].kind {
        NodeKind::Send { receiver: Some(r), method, args } => {
            assert(file.children(n)[0] == *r);
            str_eq(method.as_str(), "zone") && args.len() == 0 && top_const_named(file, *r, "Time")
        },
        _ => false,
    }
}

/// Decides `current_time`.
fn is_current_time(file: &SourceFile, recv: NodeId, m: &str) -> (r: bool)
    requires
        file.valid(recv),
    ensures
        r == current_time(file, recv, m@),
{
    if !(str_eq(m, "now") || str_eq(m, "new") || str_eq(m, "current")) {
        return false;
    }
    match &file.nodes[recv].kind {
        NodeKind::Send { .. } => zoned_time(file, recv),
        _ => top_const_named(file, recv, "Time") || top_const_named(file, recv, "DateTime"),
    }
}

/// Decides `current_time_with_convert`.
fn is_current_time_with_convert(file: &SourceFile, recv: NodeId, m: &str) -> (r: bool)
    requires
        file.valid(recv),
    ensures
        r == current_time_with_convert(file, recv, m@),
{
    if !(str_eq(m, "to_time") || str_eq(m, "in_time_zone")) {
        return false;
    }
    match &file.nodes[recv].kind {
        NodeKind::Send { receiver: Some(ir), method, args } => {
            assert(file.children(recv)[0] == *ir);
            args.len() == 0 && is_current_time(file, *ir, method.as_str())
        },
        _ => false,
    }
}

impl FreezeTime {
    /// Reports `travel_to(<now>)` with the edit to `freeze_time`.
    pub fn check_send(&self, file: &SourceFile, node: NodeId) -> (r: Option<Offense>)
        requires
            file.valid(node),
        ensures
            r.deep_view() == freeze_time_finding(file, node),
    {
        let args = match &file.nodes[node].kind {
            NodeKind::Send { method, args, .. } => {
                if !str_eq(method.as_str(), "travel_to") || args.len() == 0 {
                    return None;
                }
                args
            },
            _ => return None,
        };
        let first = args[0];
        proof { crate::ast::lemma_args_are_children(file, node, 0); }
        match &file.nodes[first].kind {
            NodeKind::Send { receiver: Some(ir), method: im, args: ia } => {
                assert(file.children(first)[0] == *ir);
                if ia.len() != 0 {
                    return None;
                }
                if !(is_current_time(file, *ir, im.as_str()) || is_current_time_with_convert(file, *ir, im.as_str())) {
                    return None;
                }
            },
            _ => return None,
        }
        let span = file.send_only_range(node);
        let last = args[args.len() - 1];
        proof { crate::ast::lemma_args_are_children(file, node, args@.len() - 1); }
        let fix = match &file.nodes[last].kind {
            NodeKind::BlockPass(_) => concat3("freeze_time(", file.raw_source(file.nodes[last].range), ")"),
            _ => String::from_str("freeze_time"),
        };
        Some(offense1(span, String::from_str("Use `freeze_time` instead of `travel_to`."), span, fix))
    }
}

} // verus!
