//! `Rails/NegateInclude`: `collection.exclude?(obj)` over `!collection.include?(obj)`.

use vstd::prelude::*;
use crate::ast::{NodeId, NodeKind, Range, SourceFile};
use crate::report::{Edit, Finding, Offense};
use crate::text::str_eq;

verus! {

/// Checks negated `include?` calls.
#[derive(Debug, Default)]
pub struct NegateInclude;

/// `(send (send !nil? :include? _) :!)`: the inner call, if `node` is one.
pub open spec fn negated_include(file: &SourceFile, node: NodeId) -> Option<NodeId> {
    match file.kind(node) {
        NodeKind::Send { receiver: Some(inner), method, args } => {
            if method@ == "!"@ && args@.len() == 0 && (file.kind(inner) matches NodeKind::Send { receiver: Some(_), method: m2, args: a2 }
                && m2@ == "include?"@ && a2@.len() == 1) {
                Some(inner)
            } else {
                None
            }
        },
        _ => None,
    }
}

/// What `NegateInclude::check_send` reports for `node`: the negation,
/// corrected by deleting the negation prefix and renaming `include?` to `exclude?`.
pub open spec fn negate_include_finding(file: &SourceFile, node: NodeId) -> Option<Finding> {
    match negated_include(file, node) {
        Some(inner) => Some(Finding {
            range: file.range(node),
            message: "Use `.exclude?` and remove the negation part."@,
            edits: seq![
                (Range { start: file.range(node).start, end: file.range(inner).start }, Seq::<char>::empty()),
                (file.name_range(inner), "exclude?"@),
            ],
        }),
        None => None,
    }
}

/// The two edits that rewrite `!x.include?(y)` to `x.exclude?(y)`.
fn emit_correction(file: &SourceFile, node: NodeId, inner: NodeId) -> (r: Vec<Edit>)
    requires
        file.valid(node),
        inner < file.nodes@.len(),
    ensures
        r.deep_view() == seq![
            (Range { start: file.range(node).start, end: file.range(inner).start }, Seq::<char>::empty()),
            (file.name_range(inner), "exclude?"@),
        ],
{
    let mut edits: Vec<Edit> = Vec::new();
    edits.push(Edit {
        range: Range { start: file.nodes[node].range.start, end: file.nodes[inner].range.start },
        replacement: String::new(),
    });
    edits.push(Edit { range: file.nodes[inner].name_range, replacement: String::from_str("exclude?") });
    assert(edits.deep_view() =~= seq![
        (Range { start: file.range(node).start, end: file.range(inner).start }, Seq::<char>::empty()),
        (file.name_range(inner), "exclude?"@),
    ]);
    edits
}

impl NegateInclude {
    /// Reports `!x.include?(y)` with its correction.
    pub fn check_send(&self, file: &SourceFile, node: NodeId) -> (r: Option<Offense>)
        requires
            file.valid(node),
        ensures
            r.deep_view() == negate_include_finding(file, node),
    {
        let inner = match &file.nodes[node].kind {
            NodeKind::Send { receiver: Some(inner), method, args } => {
                if !str_eq(method.as_str(), "!") || args.len() != 0 {
                    return None;
                }
                *inner
            },
            _ => return None,
        };
        assert(file.children(node)[0] == inner);
        match &file.nodes[inner].kind {
            NodeKind::Send { receiver: Some(_), method, args } => {
                if !str_eq(method.as_str(), "include?") || args.len() != 1 {
                    return None;
                }
            },
            _ => return None,
        }
        let edits = emit_correction(file, node, inner);
        Some(Offense {
            range: file.nodes[node].range,
            message: String::from_str("Use `.exclude?` and remove the negation part."),
            edits,
        })
    }
}

} // verus!
