//! `Rails/RenderInline`: prefer a template over `render inline:`.

use vstd::prelude::*;
use crate::ast::{args_of, call_receiver_of, method_of, NodeId, NodeKind, SourceFile};
use crate::report::{offense0, Finding, Offense};
use crate::text::str_eq;

verus! {

/// Checks bare `render` calls.
#[derive(Debug, Default)]
pub struct RenderInline;

/// A pair keyed `inline` (symbol or string).
pub open spec fn is_inline_pair(file: &SourceFile, p: NodeId) -> bool {
    match file.kind(p) {
        NodeKind::Pair { key, .. } => match file.kind(key) {
            NodeKind::Sym(s) => s@ == "inline"@,
            NodeKind::Str(s) => s@ == "inline"@,
            _ => false,
        },
        _ => false,
    }
}

/// Some hash argument among `args` has an `inline` pair.
pub open spec fn has_inline_arg(file: &SourceFile, args: Seq<NodeId>) -> bool {
    exists|i: int, j: int|
        #![trigger args[i], is_inline_pair(file, hash_pairs(file, args[i])[j])]
        0 <= i < args.len() && 0 <= j < hash_pairs(file, args[i]).len()
            && is_inline_pair(file, hash_pairs(file, args[i])[j])
}

/// The pairs of a hash node; empty for other nodes.
pub open spec fn hash_pairs(file: &SourceFile, n: NodeId) -> Seq<NodeId> {
    match file.kind(n) {
        NodeKind::Hash(l) => l@,
        _ => Seq::empty(),
    }
}

/// What `RenderInline::check_send` reports for `node`.
pub open spec fn render_inline_finding(file: &SourceFile, node: NodeId) -> Option<Finding> {
    match file.kind(node) {
        NodeKind::Send { receiver: None, method, args } => {
            if method@ == "render"@ && has_inline_arg(file, args@) {
                Some(Finding {
                    range: file.range(node),
                    message: "Prefer using a template over inline rendering."@,
                    edits: Seq::empty(),
                })
            } else {
                None
            }
        },
        _ => None,
    }
}

impl RenderInline {
    /// Reports a bare `render` with an `inline:` option.
    pub fn check_send(&self, file: &SourceFile, node: NodeId) -> (r: Option<Offense>)
        requires
            file.valid(node),
        ensures
            r.deep_view() == render_inline_finding(file, node),
    {
        let args = match &file.nodes[node].kind {
            NodeKind::Send { receiver: None, method, args } => {
                if !str_eq(method.as_str(), "render") {
                    return None;
                }
                args
            },
            _ => return None,
        };
        let mut i: usize = 0;
        while i < args.len()
            invariant
                file.valid(node),
                args_of(file.kind(node)) == args@,
                call_receiver_of(file.kind(node)) is None,
                file.kind(node) is Send,
                method_of(file.kind(node)) == Some("render"@),
                i <= args@.len(),
                forall|x: int, y: int| 0 <= x < i && 0 <= y < hash_pairs(file, args@[x]).len()
                    ==> !is_inline_pair(file, #[trigger] hash_pairs(file, args@[x])[y]),
            decreases args@.len() - i,
        {
            let a = args[i];
            assert(file.children(node)[i as int] == a);
            assert(hash_pairs(file, a) == match file.kind(a) { NodeKind::Hash(l) => l@, _ => Seq::empty() });
            if let NodeKind::Hash(list) = &file.nodes[a].kind {
                let mut j: usize = 0;
                while j < list.len()
                    invariant
                        file.valid(node),
                        args_of(file.kind(node)) == args@,
                        call_receiver_of(file.kind(node)) is None,
                        file.kind(node) is Send,
                        method_of(file.kind(node)) == Some("render"@),
                        i < args@.len(),
                        args@[i as int] == a,
                        a < file.nodes@.len(),
                        file.kind(a) == NodeKind::Hash(*list),
                        j <= list@.len(),
                        forall|y: int| 0 <= y < j ==> !is_inline_pair(file, #[trigger] list@[y]),
                    decreases list@.len() - j,
                {
                    let p = list[j];
                    assert(file.children(a)[j as int] == p);
                    if let NodeKind::Pair { key, .. } = &file.nodes[p].kind {
                        assert(file.children(p)[0] == *key);
                        let hit = match &file.nodes[*key].kind {
                            NodeKind::Sym(s) => str_eq(s.as_str(), "inline"),
                            NodeKind::Str(s) => str_eq(s.as_str(), "inline"),
                            _ => false,
                        };
                        if hit {
                            assert(is_inline_pair(file, hash_pairs(file, args@[i as int])[j as int]));
                            return Some(offense0(
                                file.nodes[node].range,
                                String::from_str("Prefer using a template over inline rendering."),
                            ));
                        }
                    }
                    j = j + 1;
                }
            }
            i = i + 1;
        }
        None
    }
}

} // verus!
