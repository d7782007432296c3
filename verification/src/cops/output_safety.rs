//! `Rails/OutputSafety`: `html_safe`, `raw` and `safe_concat` may be a security risk.

use vstd::prelude::*;
use crate::ast::{args_of, call_receiver_of, method_of, NodeId, NodeKind, SourceFile};
use crate::report::{offense0, Finding, Offense};
use crate::text::str_eq;

verus! {

/// Checks calls that mark strings as HTML-safe.
#[derive(Debug, Default)]
pub struct OutputSafety;

/// The receiver is a string literal, or an interpolated string made only of literal parts.
pub open spec fn non_interpolated_string(file: &SourceFile, node: NodeId) -> bool {
    match call_receiver_of(file.kind(node)) {
        Some(r) => match file.kind(r) {
            NodeKind::Str(_) => true,
            NodeKind::Dstr(l) => forall|i: int| 0 <= i < l@.len() ==> file.kind(#[trigger] l@[i]) is Str,
            _ => false,
        },
        None => false,
    }
}

/// A translation call: `t`/`translate`/`l`/`localize`, bare or on `I18n`.
pub open spec fn is_i18n_call(file: &SourceFile, id: NodeId) -> bool {
    match method_of(file.kind(id)) {
        Some(m) => (file.kind(id) is Send || file.kind(id) is Csend)
            && (m == "t"@ || m == "translate"@ || m == "l"@ || m == "localize"@)
            && match call_receiver_of(file.kind(id)) {
                None => true,
                Some(r) => file.const_path(r) == Some("I18n"@),
            },
        None => false,
    }
}

/// `is_i18n_call` as a predicate value.
pub open spec fn i18n_call_pred(file: &SourceFile) -> spec_fn(NodeId) -> bool {
    |id: NodeId| is_i18n_call(file, id)
}

/// What `OutputSafety::check_send` reports for `node`: the selector of
/// `x.html_safe`, `raw(x)` or `safe_concat(x)`, unless on a literal string
/// or around a translation.
pub open spec fn output_safety_finding(file: &SourceFile, node: NodeId) -> Option<Finding> {
    match method_of(file.kind(node)) {
        Some(m) => {
            let recv = call_receiver_of(file.kind(node));
            let n_args = args_of(file.kind(node)).len();
            let looks_like = if m == "html_safe"@ {
                recv is Some && n_args == 0
            } else if m == "raw"@ {
                recv is None && n_args == 1
            } else if m == "safe_concat"@ {
                n_args == 1
            } else {
                false
            };
            if looks_like && !non_interpolated_string(file, node) && !file.subtree_has(node, i18n_call_pred(file)) {
                Some(Finding {
                    range: file.name_range(node),
                    message: "Tagging a string as html safe may be a security risk."@,
                    edits: Seq::empty(),
                })
            } else {
                None
            }
        },
        None => None,
    }
}

/// Decides `is_i18n_call`.
fn i18n_call(file: &SourceFile, id: NodeId) -> (r: bool)
    requires
        file.valid(id),
    ensures
        r == is_i18n_call(file, id),
{
    let m = match file.method_name(id) {
        Some(m) => m,
        None => return false,
    };
    if !(str_eq(m, "t") || str_eq(m, "translate") || str_eq(m, "l") || str_eq(m, "localize")) {
        return false;
    }
    match file.call_receiver(id) {
        None => true,
        Some(r) => {
            assert(file.children(id)[0] == r);
            match file.const_name(r) {
                Some(c) => str_eq(c.as_str(), "I18n"),
                None => false,
            }
        },
    }
}

/// Whether the subtree at `n` holds a translation call.
fn contains_i18n_call(file: &SourceFile, n: NodeId) -> (r: bool)
    requires
        file.valid(n),
    ensures
        r == file.subtree_has(n, i18n_call_pred(file)),
    decreases file.nodes@.len() - n,
{
    let ghost pred = i18n_call_pred(file);
    if i18n_call(file, n) {
        return true;
    }
    let kids = file.children_of(n);
    let mut i: usize = 0;
    assert(kids@.subrange(0, kids@.len() as int) =~= kids@);
    while i < kids.len()
        invariant
            file.valid(n),
            pred == i18n_call_pred(file),
            !pred(n),
            kids@ == file.children(n),
            i <= kids@.len(),
            file.subtree_has(n, pred) == file.children_have(n, kids@.subrange(i as int, kids@.len() as int), pred),
        decreases kids@.len() - i,
    {
        assert(kids@.subrange(i as int, kids@.len() as int).drop_first() =~= kids@.subrange(i + 1, kids@.len() as int));
        let c = kids[i];
        assert(file.children(n)[i as int] == c);
        if contains_i18n_call(file, c) {
            return true;
        }
        i = i + 1;
    }
    false
}

impl OutputSafety {
    /// Reports the selector of a call that tags a string as HTML-safe.
    pub fn check_send(&self, file: &SourceFile, node: NodeId) -> (r: Option<Offense>)
        requires
            file.valid(node),
        ensures
            r.deep_view() == output_safety_finding(file, node),
    {
        let m = match file.method_name(node) {
            Some(m) => m,
            None => return None,
        };
        let recv = file.call_receiver(node);
        let n_args = file.call_arguments(node).len();
        let looks_like = if str_eq(m, "html_safe") {
            recv.is_some() && n_args == 0
        } else if str_eq(m, "raw") {
            recv.is_none() && n_args == 1
        } else if str_eq(m, "safe_concat") {
            n_args == 1
        } else {
            false
        };
        if !looks_like {
            return None;
        }
        match recv {
            Some(r) => {
                assert(file.children(node)[0] == r);
                match &file.nodes[r].kind {
                    NodeKind::Str(_) => return None,
                    NodeKind::Dstr(l) => {
                        let mut i: usize = 0;
                        let mut all_str = true;
                        while i < l.len()
                            invariant
                                file.valid(r),
                                file.kind(r) == NodeKind::Dstr(*l),
                                i <= l@.len(),
                                all_str == (forall|j: int| 0 <= j < i ==> file.kind(#[trigger] l@[j]) is Str),
                            decreases l@.len() - i,
                        {
                            assert(file.children(r)[i as int] == l@[i as int]);
                            match &file.nodes[l[i]].kind {
                                NodeKind::Str(_) => {},
                                _ => {
                                    all_str = false;
                                },
                            }
                            i = i + 1;
                        }
                        if all_str {
                            return None;
                        }
                    },
                    _ => {},
                }
            },
            None => {},
        }
        if contains_i18n_call(file, node) {
            return None;
        }
        Some(offense0(
            file.nodes[node].name_range,
            String::from_str("Tagging a string as html safe may be a security risk."),
        ))
    }

    /// Same as `check_send`, for `&.` calls.
    pub fn check_csend(&self, file: &SourceFile, node: NodeId) -> (r: Option<Offense>)
        requires
            file.valid(node),
        ensures
            r.deep_view() == output_safety_finding(file, node),
    {
        self.check_send(file, node)
    }
}

} // verus!
