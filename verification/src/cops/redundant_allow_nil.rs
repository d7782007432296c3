//! `Rails/RedundantAllowNil`: `allow_nil:` is redundant beside an
//! `allow_blank:` of the same kind, or when false beside `allow_blank: true`.

use vstd::prelude::*;
use crate::ast::{kind_tag, NodeId, NodeKind, SourceFile};
use crate::cops::not_null_column::pair_sym_key;
use crate::cops::redundant_foreign_key::{removal_range, removal_span};
use crate::cops::redundant_presence_validation_on_belongs_to::pair_value;
use crate::report::{offense1, Finding, Offense};
use crate::text::str_eq;

verus! {

/// Reports redundant `allow_nil:` options of validations.
#[derive(Debug, Default)]
pub struct RedundantAllowNil;

/// The first pair keyed `k` in the subtree at `n`, in pre-order.
pub open spec fn first_keyed_pair(file: &SourceFile, n: NodeId, k: Seq<char>) -> Option<NodeId>
    decreases file.nodes@.len() - n, 1int, 0int,
{
    if pair_sym_key(file, n) == Some(k) {
        Some(n)
    } else {
        first_keyed_in(file, n, file.children(n), k)
    }
}

/// `first_keyed_pair` over the subtrees at `ids`, children of `n`.
pub open spec fn first_keyed_in(file: &SourceFile, n: NodeId, ids: Seq<NodeId>, k: Seq<char>) -> Option<NodeId>
    decreases file.nodes@.len() - n, 0int, ids.len(),
{
    if ids.len() == 0 {
        None
    } else {
        let here = if n < ids[0] < file.nodes@.len() { first_keyed_pair(file, ids[0], k) } else { None };
        if here is Some { here } else { first_keyed_in(file, n, ids.drop_first(), k) }
    }
}

/// The redundant `allow_nil:` pair under a validation, with the message.
pub open spec fn redundant_allow_nil(file: &SourceFile, node: NodeId) -> Option<(NodeId, Seq<char>)> {
    match (first_keyed_pair(file, node, "allow_nil"@), first_keyed_pair(file, node, "allow_blank"@)) {
        (Some(an), Some(ab)) => match (pair_value(file, an), pair_value(file, ab)) {
            (Some(nv), Some(bv)) => if kind_tag(file.kind(nv)) == kind_tag(file.kind(bv)) {
                Some((an, "`allow_nil` is redundant when `allow_blank` has the same value."@))
            } else if file.kind(nv) is False && file.kind(bv) is True {
                Some((an, "`allow_nil: false` is redundant when `allow_blank` is true."@))
            } else {
                None
            },
            _ => None,
        },
        _ => None,
    }
}

/// What `RedundantAllowNil::check_send` reports for `node`: the pair, with
/// its removal.
pub open spec fn redundant_allow_nil_finding(file: &SourceFile, node: NodeId) -> Option<Finding> {
    if file.kind(node) matches NodeKind::Send { method, .. } && method@ == "validates"@ {
        match redundant_allow_nil(file, node) {
            Some((p, msg)) => Some(Finding {
                range: file.range(p),
                message: msg,
                edits: seq![(removal_span(file.source@, file.range(p)), Seq::empty())],
            }),
            None => None,
        }
    } else {
        None
    }
}

/// Computes `first_keyed_pair`.
fn search(file: &SourceFile, n: NodeId, k: &str) -> (r: Option<NodeId>)
    requires
        file.valid(n),
    ensures
        r == first_keyed_pair(file, n, k@),
        r matches Some(p) ==> p < file.nodes@.len(),
    decreases file.nodes@.len() - n,
{
    let here = match &file.nodes[n].kind {
        NodeKind::Pair { key, .. } => {
            assert(file.children(n)[0] == *key);
            match &file.nodes[*key].kind {
                NodeKind::Sym(s) => str_eq(s.as_str(), k),
                _ => false,
            }
        },
        _ => false,
    };
    if here {
        return Some(n);
    }
    let kids = file.children_of(n);
    let mut i: usize = 0;
    assert(kids@.subrange(0, kids@.len() as int) =~= kids@);
    while i < kids.len()
        invariant
            file.valid(n),
            pair_sym_key(file, n) != Some(k@),
            kids@ == file.children(n),
            i <= kids@.len(),
            first_keyed_pair(file, n, k@) == first_keyed_in(file, n, kids@.subrange(i as int, kids@.len() as int), k@),
        decreases kids@.len() - i,
    {
        assert(kids@.subrange(i as int, kids@.len() as int).drop_first() =~= kids@.subrange(i + 1, kids@.len() as int));
        let c = kids[i];
        assert(file.children(n)[i as int] == c);
        assert(kids@.subrange(i as int, kids@.len() as int)[0] == c);
        match search(file, c, k) {
            Some(p) => return Some(p),
            None => {},
        }
        i = i + 1;
    }
    None
}

impl RedundantAllowNil {
    /// Reports a redundant `allow_nil:` of `validates`, with its removal.
    pub fn check_send(&self, file: &SourceFile, node: NodeId) -> (r: Option<Offense>)
        requires
            file.valid(node),
        ensures
            r.deep_view() == redundant_allow_nil_finding(file, node),
    {
        match &file.nodes[node].kind {
            NodeKind::Send { method, .. } => {
                if !str_eq(method.as_str(), "validates") {
                    return None;
                }
            },
            _ => return None,
        }
        let an = match search(file, node, "allow_nil") {
            Some(p) => p,
            None => return None,
        };
        let ab = match search(file, node, "allow_blank") {
            Some(p) => p,
            None => return None,
        };
        let (nv, bv) = match (&file.nodes[an].kind, &file.nodes[ab].kind) {
            (NodeKind::Pair { value: nv, .. }, NodeKind::Pair { value: bv, .. }) => {
                assert(file.children(an)[1] == *nv);
                assert(file.children(ab)[1] == *bv);
                (*nv, *bv)
            },
            _ => return None,
        };
        let msg = if file.nodes[nv].kind.tag() == file.nodes[bv].kind.tag() {
            "`allow_nil` is redundant when `allow_blank` has the same value."
        } else {
            let f = match &file.nodes[nv].kind {
                NodeKind::False => true,
                _ => false,
            };
            let t = match &file.nodes[bv].kind {
                NodeKind::True => true,
                _ => false,
            };
            if f && t {
                "`allow_nil: false` is redundant when `allow_blank` is true."
            } else {
                return None;
            }
        };
        let r = file.nodes[an].range;
        Some(offense1(r, String::from_str(msg), removal_range(file.source.as_str(), r), String::new()))
    }
}

} // verus!
