//! `Rails/RedirectBackOrTo`: prefer `redirect_back_or_to(x)` to
//! `redirect_back(fallback_location: x)` (Rails 7.0 and later).

use vstd::prelude::*;
use crate::ast::{NodeId, NodeKind, Range, SourceFile};
use crate::cops::not_null_column::pair_sym_key;
use crate::cops::read_write_attribute::src_of;
use crate::cops::redundant_foreign_key::{removal_range, removal_span};
use crate::report::{Edit, Finding, Offense};
use crate::text::{concat2, str_eq};

verus! {

/// Reports `redirect_back` with `fallback_location:`.
#[derive(Debug, Default)]
pub struct RedirectBackOrTo;

/// The first `fallback_location:` pair among `l`.
pub open spec fn fallback_pair(file: &SourceFile, l: Seq<NodeId>) -> Option<NodeId>
    decreases l.len(),
{
    if l.len() == 0 {
        None
    } else if pair_sym_key(file, l[0]) == Some("fallback_location"@) && file.kind(l[0]) is Pair {
        Some(l[0])
    } else {
        fallback_pair(file, l.drop_first())
    }
}

/// The first element of `l` other than `x`.
pub open spec fn first_other(l: Seq<NodeId>, x: NodeId) -> Option<NodeId>
    decreases l.len(),
{
    if l.len() == 0 {
        None
    } else if l[0] != x {
        Some(l[0])
    } else {
        first_other(l.drop_first(), x)
    }
}

/// The edits: rename the method, pass the fallback positionally, and add
/// parentheses to a call without them.
pub open spec fn redirect_edits(file: &SourceFile, node: NodeId, h: NodeId, l: Seq<NodeId>, fp: NodeId, fv: NodeId) -> Seq<(Range, Seq<char>)> {
    let fsrc = src_of(file, fv);
    let sel = file.name_range(node);
    let moved = if l.len() == 1 {
        seq![(file.range(h), fsrc)]
    } else {
        seq![(removal_span(file.source@, file.range(fp)), Seq::<char>::empty())] + match first_other(l, fp) {
            Some(f) => seq![(Range { start: file.range(f).start, end: file.range(f).start }, fsrc + ", "@)],
            None => Seq::empty(),
        }
    };
    let parens = if !file.nodes@[node as int].parenthesized {
        seq![
            (Range { start: sel.end, end: file.range(h).start }, "("@),
            (Range { start: file.range(node).end, end: file.range(node).end }, ")"@),
        ]
    } else {
        Seq::empty()
    };
    seq![(sel, "redirect_back_or_to"@)] + moved + parens
}

/// What `RedirectBackOrTo::check_send` reports for `node`: the method name.
pub open spec fn redirect_back_finding(file: &SourceFile, node: NodeId) -> Option<Finding> {
    match file.kind(node) {
        NodeKind::Send { receiver: None, method, args } =>
            if file.rails_at_least(7, 0) && method@ == "redirect_back"@ && args@.len() == 1 {
                match file.kind(args@[0]) {
                    NodeKind::Hash(l) => match fallback_pair(file, l@) {
                        Some(fp) => match file.kind(fp) {
                            NodeKind::Pair { value, .. } => Some(Finding {
                                range: file.name_range(node),
                                message: "Use `redirect_back_or_to` instead of `redirect_back` with `:fallback_location` keyword argument."@,
                                edits: redirect_edits(file, node, args@[0], l@, fp, value),
                            }),
                            _ => None,
                        },
                        None => None,
                    },
                    _ => None,
                }
            } else {
                None
            },
        _ => None,
    }
}

/// The first `fallback_location:` pair of the hash `h`.
fn find_fallback_pair(file: &SourceFile, h: NodeId, list: &Vec<NodeId>) -> (r: Option<NodeId>)
    requires
        file.valid(h),
        file.kind(h) == NodeKind::Hash(*list),
    ensures
        r == fallback_pair(file, list@),
        r matches Some(p) ==> file.valid(p),
{
    let mut i: usize = 0;
    assert(list@.subrange(0, list@.len() as int) =~= list@);
    while i < list.len()
        invariant
            file.valid(h),
            file.kind(h) == NodeKind::Hash(*list),
            i <= list@.len(),
            fallback_pair(file, list@) == fallback_pair(file, list@.subrange(i as int, list@.len() as int)),
            forall|k: int| 0 <= k < list@.len() ==> file.children(h)[k] == list@[k],
        decreases list@.len() - i,
    {
        let p = list[i];
        assert(file.children(h)[i as int] == p);
        assert(list@.subrange(i as int, list@.len() as int).drop_first() =~= list@.subrange(i + 1, list@.len() as int));
        assert(list@.subrange(i as int, list@.len() as int)[0] == p);
        let hit = match &file.nodes[p].kind {
            NodeKind::Pair { key, .. } => {
                assert(file.children(p)[0] == *key);
                match &file.nodes[*key].kind {
                    NodeKind::Sym(s) => str_eq(s.as_str(), "fallback_location"),
                    _ => false,
                }
            },
            _ => false,
        };
        if hit {
            return Some(p);
        }
        i = i + 1;
    }
    None
}

/// Index of the first element of `list` other than `x`, or its length.
fn first_other_index(list: &Vec<NodeId>, x: NodeId) -> (j: usize)
    ensures
        j <= list@.len(),
        j < list@.len() ==> first_other(list@, x) == Some(list@[j as int]),
        j == list@.len() ==> first_other(list@, x) is None,
{
    let mut j: usize = 0;
    assert(list@.subrange(0, list@.len() as int) =~= list@);
    while j < list.len()
        invariant
            j <= list@.len(),
            first_other(list@, x) == first_other(list@.subrange(j as int, list@.len() as int), x),
        decreases list@.len() - j,
    {
        assert(list@.subrange(j as int, list@.len() as int).drop_first() =~= list@.subrange(j + 1, list@.len() as int));
        assert(list@.subrange(j as int, list@.len() as int)[0] == list@[j as int]);
        if list[j] != x {
            return j;
        }
        j = j + 1;
    }
    j
}

impl RedirectBackOrTo {
    /// Reports `redirect_back(fallback_location: x)`, with the rewrite to
    /// `redirect_back_or_to(x)`.
    pub fn check_send(&self, file: &SourceFile, node: NodeId) -> (r: Option<Offense>)
        requires
            file.valid(node),
        ensures
            r.deep_view() == redirect_back_finding(file, node),
    {
        if !file.rails_version_at_least(7, 0) {
            return None;
        }
        let args = match &file.nodes[node].kind {
            NodeKind::Send { receiver: None, method, args } => {
                if !str_eq(method.as_str(), "redirect_back") || args.len() != 1 {
                    return None;
                }
                args
            },
            _ => return None,
        };
        let h = args[0];
        assert(file.children(node)[0] == h);
        let list = match &file.nodes[h].kind {
            NodeKind::Hash(l) => l,
            _ => return None,
        };
        let fp = match find_fallback_pair(file, h, list) {
            Some(p) => p,
            None => return None,
        };
        assert(fallback_pair(file, list@) == Some(fp));
        let fv = match &file.nodes[fp].kind {
            NodeKind::Pair { value, .. } => {
                assert(file.children(fp)[1] == *value);
                *value
            },
            _ => return None,
        };
        let sel = file.nodes[node].name_range;
        let fsrc = file.raw_source(file.nodes[fv].range);
        let hr = file.nodes[h].range;
        let mut edits: Vec<Edit> = Vec::new();
        edits.push(Edit { range: sel, replacement: String::from_str("redirect_back_or_to") });
        if list.len() == 1 {
            edits.push(Edit { range: hr, replacement: String::from_str(fsrc) });
        } else {
            edits.push(Edit { range: removal_range(file.source.as_str(), file.nodes[fp].range), replacement: String::new() });
            let j = first_other_index(list, fp);
            if j < list.len() {
                let f = list[j];
                assert(first_other(list@, fp) == Some(list@[j as int]));
                assert(file.children(h)[j as int] == f);
                assert(first_other(list@, fp) == Some(f));
                let pos = file.nodes[f].range.start;
                edits.push(Edit { range: Range { start: pos, end: pos }, replacement: concat2(fsrc, ", ") });
            } else {
                assert(first_other(list@, fp) is None);
            }
        }
        if !file.nodes[node].parenthesized {
            edits.push(Edit { range: Range { start: sel.end, end: hr.start }, replacement: String::from_str("(") });
            let end = file.nodes[node].range.end;
            edits.push(Edit { range: Range { start: end, end }, replacement: String::from_str(")") });
        }
        let o = Offense {
            range: sel,
            message: String::from_str("Use `redirect_back_or_to` instead of `redirect_back` with `:fallback_location` keyword argument."),
            edits,
        };
        assert(o.deep_view().edits =~= redirect_edits(file, node, h, list@, fp, fv));
        Some(o)
    }
}

} // verus!
