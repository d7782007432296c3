//! `Rails/IgnoredSkipActionFilterOption`: `if:` is ignored beside `only:`,
//! and `except:` beside `if:`, in `skip_*` filters.

use vstd::prelude::*;
use crate::ast::{NodeId, NodeKind, SourceFile};
use crate::cops::not_null_column::pair_sym_key;
use crate::cops::redundant_foreign_key::{removal_range, removal_span};
use crate::report::{offense1, Finding, Offense};
use crate::text::str_eq;

verus! {

/// Reports options that a `skip_*` filter ignores.
#[derive(Debug, Default)]
pub struct IgnoredSkipActionFilterOption;

/// The `skip_*` filter methods.
pub open spec fn is_skip_filter(m: Seq<char>) -> bool {
    m == "skip_after_action"@ || m == "skip_around_action"@ || m == "skip_before_action"@ || m == "skip_action_callback"@
}

/// The last pair among `l` keyed by the symbol `k`.
pub open spec fn last_keyed(file: &SourceFile, l: Seq<NodeId>, k: Seq<char>) -> Option<NodeId>
    decreases l.len(),
{
    if l.len() == 0 {
        None
    } else if pair_sym_key(file, l.last()) == Some(k) {
        Some(l.last())
    } else {
        last_keyed(file, l.drop_last(), k)
    }
}

/// The ignored option and its message: `if:` beside `only:`, else
/// `except:` beside `if:`.
pub open spec fn ignored_option(file: &SourceFile, l: Seq<NodeId>) -> Option<(NodeId, Seq<char>)> {
    match (last_keyed(file, l, "if"@), last_keyed(file, l, "only"@), last_keyed(file, l, "except"@)) {
        (Some(i), Some(_), _) => Some((i, "`if` option will be ignored when `only` and `if` are used together."@)),
        (Some(_), None, Some(e)) => Some((e, "`except` option will be ignored when `if` and `except` are used together."@)),
        _ => None,
    }
}

/// What `IgnoredSkipActionFilterOption::check_send` reports for `node`:
/// the ignored pair, with the edit that removes it.
pub open spec fn ignored_option_finding(file: &SourceFile, node: NodeId) -> Option<Finding> {
    match file.kind(node) {
        NodeKind::Send { receiver: None, method, args } => if is_skip_filter(method@) && args@.len() > 0 {
            match file.kind(args@.last()) {
                NodeKind::Hash(l) => match ignored_option(file, l@) {
                    Some((p, msg)) => Some(Finding {
                        range: file.range(p),
                        message: msg,
                        edits: seq![(removal_span(file.source@, file.range(p)), Seq::empty())],
                    }),
                    None => None,
                },
                _ => None,
            }
        } else {
            None
        },
        _ => None,
    }
}

/// Computes `last_keyed` over the elements of the hash `h`.
fn last_keyed_exec(file: &SourceFile, h: NodeId, k: &str) -> (r: Option<NodeId>)
    requires
        file.valid(h),
        file.kind(h) is Hash,
    ensures
        r == last_keyed(file, file.kind(h)->Hash_0@, k@),
        r matches Some(p) ==> p < file.nodes@.len(),
{
    let list = match &file.nodes[h].kind {
        NodeKind::Hash(l) => l,
        _ => return None,
    };
    let mut i = list.len();
    assert(list@.subrange(0, i as int) =~= list@);
    while i > 0
        invariant
            file.valid(h),
            file.kind(h) == NodeKind::Hash(*list),
            i <= list@.len(),
            last_keyed(file, list@, k@) == last_keyed(file, list@.subrange(0, i as int), k@),
        decreases i,
    {
        let p = list[i - 1];
        assert(file.children(h)[i - 1] == p);
        assert(list@.subrange(0, i as int).drop_last() =~= list@.subrange(0, i - 1));
        assert(list@.subrange(0, i as int).last() == p);
        let hit = match &file.nodes[p].kind {
            NodeKind::Pair { key, .. } => {
                assert(file.children(p)[0] == *key);
                match &file.nodes[*key].kind {
                    NodeKind::Sym(s) => str_eq(s.as_str(), k),
                    _ => false,
                }
            },
            _ => false,
        };
        if hit {
            return Some(p);
        }
        i = i - 1;
    }
    None
}

impl IgnoredSkipActionFilterOption {
    /// Reports an ignored option of a `skip_*` filter, with its removal.
    pub fn check_send(&self, file: &SourceFile, node: NodeId) -> (r: Option<Offense>)
        requires
            file.valid(node),
        ensures
            r.deep_view() == ignored_option_finding(file, node),
    {
        let (method, args) = match &file.nodes[node].kind {
            NodeKind::Send { receiver: None, method, args } => (method.as_str(), args),
            _ => return None,
        };
        if !(str_eq(method, "skip_after_action") || str_eq(method, "skip_around_action")
            || str_eq(method, "skip_before_action") || str_eq(method, "skip_action_callback")) || args.len() == 0 {
            return None;
        }
        let h = args[args.len() - 1];
        assert(file.children(node)[args@.len() - 1] == h);
        match &file.nodes[h].kind {
            NodeKind::Hash(_) => {},
            _ => return None,
        }
        let i = last_keyed_exec(file, h, "if");
        let o = last_keyed_exec(file, h, "only");
        let e = last_keyed_exec(file, h, "except");
        let (p, msg) = match (i, o, e) {
            (Some(i), Some(_), _) => (i, "`if` option will be ignored when `only` and `if` are used together."),
            (Some(_), None, Some(e)) => (e, "`except` option will be ignored when `if` and `except` are used together."),
            _ => return None,
        };
        let r = file.nodes[p].range;
        Some(offense1(r, String::from_str(msg), removal_range(file.source.as_str(), r), String::new()))
    }
}

} // verus!
