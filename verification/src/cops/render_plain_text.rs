//! `Rails/RenderPlainText`: `render plain:` instead of `render text:`.

use vstd::prelude::*;
use crate::ast::{NodeId, NodeKind, SourceFile};
use crate::cops::read_write_attribute::src_of;
use crate::report::{finding1, offense1, Finding, Offense};
use crate::text::{join_sep, str_eq};

verus! {

/// Checks bare `render` calls with a single hash argument.
#[derive(Debug, Default)]
pub struct RenderPlainText;

/// Options of `RenderPlainText`.
#[derive(Debug)]
pub struct RenderPlainTextOptions {
    /// `ContentTypeCompatibility`: with it (the default), `render text:`
    /// without a `content_type` is allowed.
    pub content_type_compatibility: bool,
}

impl Default for RenderPlainTextOptions {
    fn default() -> (o: Self)
        ensures
            o.content_type_compatibility,
    {
        RenderPlainTextOptions { content_type_compatibility: true }
    }
}

/// The key of a pair, if `p` is one.
pub open spec fn pair_key(file: &SourceFile, p: NodeId) -> Option<NodeId> {
    match file.kind(p) {
        NodeKind::Pair { key, .. } => Some(key),
        _ => None,
    }
}

/// A pair keyed by the symbol `:text`.
pub open spec fn is_text_pair(file: &SourceFile, p: NodeId) -> bool {
    match pair_key(file, p) {
        Some(k) => file.kind(k) matches NodeKind::Sym(s) && s@ == "text"@,
        None => false,
    }
}

/// A pair keyed `content_type` (symbol or string).
pub open spec fn is_content_type_pair(file: &SourceFile, p: NodeId) -> bool {
    match pair_key(file, p) {
        Some(k) => match file.kind(k) {
            NodeKind::Sym(s) => s@ == "content_type"@,
            NodeKind::Str(s) => s@ == "content_type"@,
            _ => false,
        },
        None => false,
    }
}

/// The first of `pairs` satisfying `pred`.
pub open spec fn first_pair(pairs: Seq<NodeId>, pred: spec_fn(NodeId) -> bool) -> Option<NodeId>
    decreases pairs.len(),
{
    if pairs.len() == 0 {
        None
    } else if pred(pairs[0]) {
        Some(pairs[0])
    } else {
        first_pair(pairs.drop_first(), pred)
    }
}

/// `is_text_pair` as a predicate value.
pub open spec fn text_pred(file: &SourceFile) -> spec_fn(NodeId) -> bool {
    |p: NodeId| is_text_pair(file, p)
}

/// `is_content_type_pair` as a predicate value.
pub open spec fn content_type_pred(file: &SourceFile) -> spec_fn(NodeId) -> bool {
    |p: NodeId| is_content_type_pair(file, p)
}

/// Without a `content_type`, compatibility mode must be off; with one, it
/// must be the string `text/plain`.
pub open spec fn compatible_content_type(file: &SourceFile, ct: Option<NodeId>, compat: bool) -> bool {
    match ct {
        None => !compat,
        Some(p) => match file.kind(p) {
            NodeKind::Pair { value, .. } => file.kind(value) matches NodeKind::Str(s) && s@ == "text/plain"@,
            _ => false,
        },
    }
}

/// Sources of the pairs other than `tp` and `ct`, in order.
pub open spec fn rest_sources(file: &SourceFile, pairs: Seq<NodeId>, tp: NodeId, ct: Option<NodeId>) -> Seq<Seq<char>>
    decreases pairs.len(),
{
    if pairs.len() == 0 {
        Seq::empty()
    } else {
        let rest = rest_sources(file, pairs.drop_last(), tp, ct);
        let p = pairs.last();
        if p == tp || Some(p) == ct { rest } else { rest.push(src_of(file, p)) }
    }
}

/// What `RenderPlainText::check_send` reports for `node`.
pub open spec fn render_plain_text_finding(file: &SourceFile, node: NodeId, compat: bool) -> Option<Finding> {
    match file.kind(node) {
        NodeKind::Send { receiver: None, method, args } => {
            if method@ == "render"@ && args@.len() == 1 && file.kind(args@[0]) is Hash {
                let pairs = match file.kind(args@[0]) {
                    NodeKind::Hash(l) => l@,
                    _ => Seq::empty(),
                };
                match first_pair(pairs, text_pred(file)) {
                    Some(tp) => {
                        let ct = first_pair(pairs, content_type_pred(file));
                        if compatible_content_type(file, ct, compat) {
                            let text_src = match file.kind(tp) {
                                NodeKind::Pair { value, .. } => src_of(file, value),
                                _ => Seq::empty(),
                            };
                            let rest = rest_sources(file, pairs, tp, ct);
                            let fix = if rest.len() == 0 {
                                "render plain: "@ + text_src
                            } else {
                                "render plain: "@ + text_src + ", "@ + join_sep(rest, ", "@)
                            };
                            Some(finding1(file.range(node), "Prefer `render plain:` over `render text:`."@, file.range(node), fix))
                        } else {
                            None
                        }
                    },
                    None => None,
                }
            } else {
                None
            }
        },
        _ => None,
    }
}

/// Finds the first pair of the hash `h` keyed `:text`, or keyed `content_type`.
fn find_pair(file: &SourceFile, h: NodeId, pairs: &Vec<NodeId>, content_type: bool) -> (r: Option<NodeId>)
    requires
        file.valid(h),
        file.kind(h) == NodeKind::Hash(*pairs),
    ensures
        r == first_pair(pairs@, if content_type { content_type_pred(file) } else { text_pred(file) }),
        r matches Some(p) ==> p < file.nodes@.len(),
{
    let ghost pred = if content_type { content_type_pred(file) } else { text_pred(file) };
    let mut j: usize = 0;
    assert(pairs@.subrange(0, pairs@.len() as int) =~= pairs@);
    while j < pairs.len()
        invariant
            file.valid(h),
            file.kind(h) == NodeKind::Hash(*pairs),
            pred == (if content_type { content_type_pred(file) } else { text_pred(file) }),
            j <= pairs@.len(),
            first_pair(pairs@, pred) == first_pair(pairs@.subrange(j as int, pairs@.len() as int), pred),
        decreases pairs@.len() - j,
    {
        assert(pairs@.subrange(j as int, pairs@.len() as int).drop_first() =~= pairs@.subrange(j + 1, pairs@.len() as int));
        let p = pairs[j];
        assert(file.children(h)[j as int] == p);
        let hit = match &file.nodes[p].kind {
            NodeKind::Pair { key, .. } => {
                assert(file.children(p)[0] == *key);
                match &file.nodes[*key].kind {
                    NodeKind::Sym(s) => if content_type { str_eq(s.as_str(), "content_type") } else { str_eq(s.as_str(), "text") },
                    NodeKind::Str(s) => content_type && str_eq(s.as_str(), "content_type"),
                    _ => false,
                }
            },
            _ => false,
        };
        if hit {
            assert(pred(p));
            return Some(p);
        }
        assert(!pred(p));
        j = j + 1;
    }
    None
}

impl RenderPlainText {
    /// Reports `render text:` with the edit to `render plain:`.
    pub fn check_send(&self, file: &SourceFile, node: NodeId, options: &RenderPlainTextOptions) -> (r: Option<Offense>)
        requires
            file.valid(node),
        ensures
            r.deep_view() == render_plain_text_finding(file, node, options.content_type_compatibility),
    {
        let args = match &file.nodes[node].kind {
            NodeKind::Send { receiver: None, method, args } => {
                if !str_eq(method.as_str(), "render") || args.len() != 1 {
                    return None;
                }
                args
            },
            _ => return None,
        };
        let h = args[0];
        proof { crate::ast::lemma_args_are_children(file, node, 0); }
        let pairs = match &file.nodes[h].kind {
            NodeKind::Hash(l) => l,
            _ => return None,
        };
        let tp = match find_pair(file, h, pairs, false) {
            Some(p) => p,
            None => return None,
        };
        let ct = find_pair(file, h, pairs, true);
        let compatible = match ct {
            None => !options.content_type_compatibility,
            Some(p) => match &file.nodes[p].kind {
                NodeKind::Pair { value, .. } => {
                    assert(file.children(p)[1] == *value);
                    match &file.nodes[*value].kind {
                        NodeKind::Str(s) => str_eq(s.as_str(), "text/plain"),
                        _ => false,
                    }
                },
                _ => false,
            },
        };
        if !compatible {
            return None;
        }
        let text_src = match &file.nodes[tp].kind {
            NodeKind::Pair { value, .. } => {
                assert(file.children(tp)[1] == *value);
                file.raw_source(file.nodes[*value].range)
            },
            _ => "",
        };
        proof {
            if !(file.kind(tp) is Pair) {
                reveal_strlit("");
                assert(""@ =~= Seq::<char>::empty());
            }
        }
        let mut fix = String::from_str("render plain: ");
        fix.append(text_src);
        let ghost head = fix@;
        let mut count: usize = 0;
        let mut joined = String::new();
        let mut j: usize = 0;
        while j < pairs.len()
            invariant
                file.valid(h),
                file.kind(h) == NodeKind::Hash(*pairs),
                j <= pairs@.len(),
                count <= j,
                count == rest_sources(file, pairs@.subrange(0, j as int), tp, ct).len(),
                joined@ == join_sep(rest_sources(file, pairs@.subrange(0, j as int), tp, ct), ", "@),
            decreases pairs@.len() - j,
        {
            assert(pairs@.subrange(0, j + 1).drop_last() =~= pairs@.subrange(0, j as int));
            let p = pairs[j];
            assert(file.children(h)[j as int] == p);
            let ghost prev = rest_sources(file, pairs@.subrange(0, j as int), tp, ct);
            if p != tp && Some(p) != ct {
                assert(pairs@.subrange(0, j + 1).last() == p);
                assert(prev.push(src_of(file, p)).drop_last() =~= prev);
                if count > 0 {
                    joined.append(", ");
                }
                joined.append(file.raw_source(file.nodes[p].range));
                count = count + 1;
            }
            j = j + 1;
        }
        assert(pairs@.subrange(0, pairs@.len() as int) =~= pairs@);
        if count > 0 {
            fix.append(", ");
            fix.append(joined.as_str());
        }
        let r = file.nodes[node].range;
        Some(offense1(r, String::from_str("Prefer `render plain:` over `render text:`."), r, fix))
    }
}

} // verus!
