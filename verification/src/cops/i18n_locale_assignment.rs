//! `Rails/I18nLocaleAssignment`: use `I18n.with_locale` with a block, not `I18n.locale=`.

use vstd::prelude::*;
use crate::ast::{NodeId, NodeKind, SourceFile};
use crate::report::{offense0, Finding, Offense};
use crate::text::str_eq;

verus! {

/// Checks `I18n.locale = ...` assignments.
#[derive(Debug, Default)]
pub struct I18nLocaleAssignment;

/// A top-level constant named `name` (no scope, or `::`).
pub open spec fn is_top_const(file: &SourceFile, n: NodeId, name: Seq<char>) -> bool {
    match file.kind(n) {
        NodeKind::Const { scope: None, name: c } => c@ == name,
        NodeKind::Const { scope: Some(s), name: c } => c@ == name && file.kind(s) is Cbase,
        _ => false,
    }
}

/// `(send (const nil? :I18n) :locale= _)`.
pub open spec fn is_i18n_locale_assignment(file: &SourceFile, node: NodeId) -> bool {
    match file.kind(node) {
        NodeKind::Send { receiver: Some(r), method, args } =>
            method@ == "locale="@ && args@.len() == 1 && is_top_const(file, r, "I18n"@),
        _ => false,
    }
}

/// What `I18nLocaleAssignment::check_send` reports for `node`.
pub open spec fn locale_assignment_finding(file: &SourceFile, node: NodeId) -> Option<Finding> {
    if is_i18n_locale_assignment(file, node) {
        Some(Finding {
            range: file.range(node),
            message: "Use `I18n.with_locale` with block instead of `I18n.locale=`."@,
            edits: Seq::empty(),
        })
    } else {
        None
    }
}

/// Decides `is_top_const`.
pub fn top_const_named(file: &SourceFile, n: NodeId, name: &str) -> (r: bool)
    requires
        file.valid(n),
    ensures
        r == is_top_const(file, n, name@),
{
    match &file.nodes[n].kind {
        NodeKind::Const { scope: None, name: c } => str_eq(c.as_str(), name),
        NodeKind::Const { scope: Some(s), name: c } => {
            assert(file.children(n)[0] == *s);
            str_eq(c.as_str(), name) && match &file.nodes[*s].kind {
                NodeKind::Cbase => true,
                _ => false,
            }
        },
        _ => false,
    }
}

impl I18nLocaleAssignment {
    /// Reports the whole assignment.
    pub fn check_send(&self, file: &SourceFile, node: NodeId) -> (r: Option<Offense>)
        requires
            file.valid(node),
        ensures
            r.deep_view() == locale_assignment_finding(file, node),
    {
        match &file.nodes[node].kind {
            NodeKind::Send { receiver: Some(r), method, args } => {
                assert(file.children(node)[0] == *r);
                if str_eq(method.as_str(), "locale=") && args.len() == 1 && top_const_named(file, *r, "I18n") {
                    Some(offense0(
                        file.nodes[node].range,
                        String::from_str("Use `I18n.with_locale` with block instead of `I18n.locale=`."),
                    ))
                } else {
                    None
                }
            },
            _ => None,
        }
    }
}

} // verus!
