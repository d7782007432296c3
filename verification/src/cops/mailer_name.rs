//! `Rails/MailerName`: mailer class names end with `Mailer`.

use vstd::prelude::*;
use crate::ast::{call_receiver_of, args_of, method_of, names_within, NodeId, NodeKind, Range, SourceFile};
use crate::cops::migration_class_name::is_top_level_const;
use crate::report::{offense1, Finding, Offense};
use crate::text::{concat2, ends_with, find_char, first_index, lemma_prefix_len_bound, not_char, str_ends_with, str_eq, trim_end, trim_end_str};

verus! {

/// Reports mailers whose names lack the `Mailer` suffix.
#[derive(Debug, Default)]
pub struct MailerName;

/// `ActionMailer::Base` or `ApplicationMailer`.
pub open spec fn is_mailer_base(file: &SourceFile, n: NodeId) -> bool {
    file.const_path(n) == Some("ActionMailer::Base"@) || file.const_path(n) == Some("ApplicationMailer"@)
}

/// The message of every finding.
pub open spec fn mailer_message() -> Seq<char> {
    "Mailer should end with `Mailer` suffix."@
}

/// What `MailerName::check_class` reports for `node`: the class name, with
/// `Mailer` appended.
pub open spec fn class_finding(file: &SourceFile, node: NodeId) -> Option<Finding> {
    match file.kind(node) {
        NodeKind::Class { name, superclass: Some(s), .. } => match file.kind(name) {
            NodeKind::Const { name: short, .. } => if is_mailer_base(file, s) && !ends_with(short@, "Mailer"@) {
                Some(Finding {
                    range: file.range(name),
                    message: mailer_message(),
                    edits: seq![(file.range(name), short@ + "Mailer"@)],
                })
            } else {
                None
            },
            _ => None,
        },
        _ => None,
    }
}

/// A constant assignment, as a predicate value on kinds.
pub open spec fn casgn_pred() -> spec_fn(NodeKind) -> bool {
    |k: NodeKind| k is Casgn
}

/// The span of the short name in the left side of `Foo::Short = ...`: the
/// end of the text before the first `=`, blanks trimmed; failing that, the
/// start of the assignment.
pub open spec fn casgn_name_span(file: &SourceFile, casgn: NodeId, short: Seq<char>) -> Range {
    let whole = file.range(casgn);
    let src = file.source@.subrange(whole.start as int, whole.end as int);
    let eq = first_index(src, '=');
    let lhs = trim_end(src.subrange(0, eq));
    let so = if lhs.len() >= short.len() { lhs.len() - short.len() } else { 0 };
    if src.len() >= so + short.len() && lhs.subrange(so as int, lhs.len() as int) == short {
        Range { start: (whole.start + so) as usize, end: (whole.start + so + short.len()) as usize }
    } else {
        Range { start: whole.start, end: (whole.start + short.len()) as usize }
    }
}

/// What `MailerName::check_send` reports for `node`: `Class.new(<mailer
/// base>)` assigned to a constant without the suffix.
pub open spec fn class_new_finding(file: &SourceFile, node: NodeId) -> Option<Finding> {
    let k = file.kind(node);
    let a = args_of(k);
    if k is Send && method_of(k) == Some("new"@) && a.len() == 1 && is_mailer_base(file, a[0]) && match call_receiver_of(k) {
        Some(r) => is_top_level_const(file, r) && (file.kind(r) matches NodeKind::Const { name, .. } && name@ == "Class"@),
        None => false,
    } {
        match file.nearest_ancestor(node, casgn_pred()) {
            Some(c) => match file.kind(c) {
                NodeKind::Casgn { name, .. } => if !ends_with(name@, "Mailer"@) {
                    let span = casgn_name_span(file, c, name@);
                    Some(Finding { range: span, message: mailer_message(), edits: seq![(span, name@ + "Mailer"@)] })
                } else {
                    None
                },
                _ => None,
            },
            None => None,
        }
    } else {
        None
    }
}

/// Decides `is_mailer_base`.
fn is_mailer_base_exec(file: &SourceFile, n: NodeId) -> (r: bool)
    requires
        file.valid(n),
    ensures
        r == is_mailer_base(file, n),
{
    match file.const_name(n) {
        Some(p) => str_eq(p.as_str(), "ActionMailer::Base") || str_eq(p.as_str(), "ApplicationMailer"),
        None => false,
    }
}

/// The nearest enclosing constant assignment.
fn enclosing_casgn(file: &SourceFile, n: NodeId) -> (r: Option<NodeId>)
    requires
        file.valid(n),
    ensures
        r == file.nearest_ancestor(n, casgn_pred()),
        r matches Some(c) ==> c < file.nodes@.len(),
{
    let ghost pred = casgn_pred();
    let mut cur = n;
    loop
        invariant
            file.wf(),
            cur <= n < file.nodes@.len(),
            pred == casgn_pred(),
            file.nearest_ancestor(n, pred) == file.nearest_ancestor(cur, pred),
        decreases cur,
    {
        match file.nodes[cur].parent {
            Some(p) => {
                assert(p < cur);
                match &file.nodes[p].kind {
                    NodeKind::Casgn { .. } => {
                        assert(pred(file.kind(p)));
                        return Some(p);
                    },
                    _ => {
                        assert(!pred(file.kind(p)));
                        cur = p;
                    },
                }
            },
            None => return None,
        }
    }
}

impl MailerName {
    /// Reports `class X < ActionMailer::Base` without the suffix, with the
    /// rename.
    pub fn check_class(&self, file: &SourceFile, node: NodeId) -> (r: Option<Offense>)
        requires
            file.valid(node),
        ensures
            r.deep_view() == class_finding(file, node),
    {
        let (name, s) = match &file.nodes[node].kind {
            NodeKind::Class { name, superclass: Some(s), .. } => (*name, *s),
            _ => return None,
        };
        assert(file.children(node)[0] == name);
        assert(file.children(node)[1] == s);
        let short = match &file.nodes[name].kind {
            NodeKind::Const { name: short, .. } => short.as_str(),
            _ => return None,
        };
        if !is_mailer_base_exec(file, s) || str_ends_with(short, "Mailer") {
            return None;
        }
        let r = file.nodes[name].range;
        Some(offense1(r, String::from_str("Mailer should end with `Mailer` suffix."), r, concat2(short, "Mailer")))
    }

    /// Reports `X = Class.new(ActionMailer::Base)` without the suffix, with
    /// the rename.
    pub fn check_send(&self, file: &SourceFile, node: NodeId) -> (r: Option<Offense>)
        requires
            file.valid(node),
        ensures
            r.deep_view() == class_new_finding(file, node),
    {
        let (recv, args) = match &file.nodes[node].kind {
            NodeKind::Send { receiver: Some(r), method, args } => {
                if !str_eq(method.as_str(), "new") {
                    return None;
                }
                (*r, args)
            },
            _ => return None,
        };
        assert(file.children(node)[0] == recv);
        if args.len() != 1 {
            return None;
        }
        assert(file.children(node)[1] == args@[0]);
        let class_const = match &file.nodes[recv].kind {
            NodeKind::Const { scope, name } => str_eq(name.as_str(), "Class") && match scope {
                None => true,
                Some(sc) => {
                    assert(file.children(recv)[0] == *sc);
                    match &file.nodes[*sc].kind {
                        NodeKind::Cbase => true,
                        _ => false,
                    }
                },
            },
            _ => false,
        };
        if !class_const || !is_mailer_base_exec(file, args[0]) {
            return None;
        }
        let c = match enclosing_casgn(file, node) {
            Some(c) => c,
            None => return None,
        };
        let short = match &file.nodes[c].kind {
            NodeKind::Casgn { name, .. } => name.as_str(),
            _ => return None,
        };
        if str_ends_with(short, "Mailer") {
            return None;
        }
        assert(names_within(file.nodes@[c as int]));
        assert(match file.nodes@[c as int].kind {
            NodeKind::Casgn { name, .. } => file.nodes@[c as int].range.start + name@.len() <= usize::MAX,
            _ => true,
        });
        let whole = file.nodes[c].range;
        let src = file.raw_source(whole);
        let eq = find_char(src, '=');
        proof { lemma_prefix_len_bound(src@, not_char('=')); }
        let lhs = trim_end_str(src.substring_char(0, eq));
        proof { crate::cops::mailer_name::lemma_trim_end_len(src@.subrange(0, eq as int)); }
        let ln = lhs.unicode_len();
        let sn = short.unicode_len();
        let so = if ln >= sn { ln - sn } else { 0 };
        let span = if src.unicode_len() >= so + sn && str_eq(lhs.substring_char(so, ln), short) {
            Range { start: whole.start + so, end: whole.start + so + sn }
        } else {
            Range { start: whole.start, end: whole.start + sn }
        };
        Some(offense1(span, String::from_str("Mailer should end with `Mailer` suffix."), span, concat2(short, "Mailer")))
    }
}

/// Trimming never lengthens.
pub proof fn lemma_trim_end_len(s: Seq<char>)
    ensures
        trim_end(s).len() <= s.len(),
    decreases s.len(),
{
    if s.len() > 0 && crate::text::is_ws(s.last()) {
        lemma_trim_end_len(s.drop_last());
    }
}

} // verus!
