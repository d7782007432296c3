//! `Rails/Pluck`: prefer `pluck(:key)` to `map { |x| x[:key] }` (Rails 5.0
//! and later).

use vstd::prelude::*;
use crate::ast::{args_of, call_receiver_of, method_of, NodeId, NodeKind, Range, SourceFile};
use crate::cops::index_method::single_param;
use crate::cops::pick::is_call_kind;
use crate::cops::read_write_attribute::src_of;
use crate::cops::redundant_receiver_in_with_options::{is_bare_it, is_block_kind};
use crate::cops::reversible_migration::block_call_of;
use crate::report::{offense1, Finding, Offense};
use crate::text::{concat3, str_eq};

verus! {

/// Reports `map`/`collect` blocks that only index their element.
#[derive(Debug, Default)]
pub struct Pluck;

/// Blocks of any form, as a predicate value on kinds.
pub open spec fn block_kind_pred() -> spec_fn(NodeKind) -> bool {
    |k: NodeKind| is_block_kind(k)
}

/// The nearest enclosing block is called on a receiver (an iteration).
pub open spec fn in_iteration(file: &SourceFile, node: NodeId) -> bool {
    match file.nearest_ancestor(node, block_kind_pred()) {
        Some(a) => match block_call_of(file.kind(a)) {
            Some(c) => call_receiver_of(file.kind(c)) is Some,
            None => false,
        },
        None => false,
    }
}

/// `map` or `collect` without arguments.
pub open spec fn is_map_collect_call(file: &SourceFile, call: NodeId) -> bool {
    let k = file.kind(call);
    is_call_kind(k) && (method_of(k) == Some("map"@) || method_of(k) == Some("collect"@)) && args_of(k).len() == 0
}

/// `x[key]` on a local or on `it`: the key.
pub open spec fn bracket_key(file: &SourceFile, body: NodeId) -> Option<NodeId> {
    match file.kind(body) {
        NodeKind::Send { receiver: Some(r), method, args } =>
            if method@ == "[]"@ && args@.len() == 1 && (file.kind(r) is Lvar || is_bare_it(file, r)) {
                Some(args@[0])
            } else {
                None
            },
        _ => None,
    }
}

/// The local `name`, as a predicate value.
pub open spec fn local_named(file: &SourceFile, name: Seq<char>) -> spec_fn(NodeId) -> bool {
    |n: NodeId| file.kind(n) matches NodeKind::Lvar(s) && s@ == name
}

/// The key does not use the block's element: it is not its source, and no
/// node below it reads it.
pub open spec fn block_arg_not_in_key(file: &SourceFile, name: Seq<char>, key: NodeId) -> bool {
    src_of(file, key) != name && !file.children_have(key, file.children(key), local_named(file, name))
}

/// The call, element name and body of a block of any form.
pub open spec fn pluck_parts(file: &SourceFile, node: NodeId) -> Option<(NodeId, Seq<char>, NodeId)> {
    match file.kind(node) {
        NodeKind::Block { call, args, body: Some(b) } => match single_param(file, args) {
            Some(a) => Some((call, a, b)),
            None => None,
        },
        NodeKind::Numblock { send, max_n, body: Some(b) } => if max_n == 1 { Some((send, "_1"@, b)) } else { None },
        NodeKind::Itblock { send, body: Some(b) } => Some((send, "it"@, b)),
        _ => None,
    }
}

/// What the block checks of `Pluck` report for `node`: from `map` to the
/// end of the block, replaced by `pluck(key)`.
pub open spec fn pluck_finding(file: &SourceFile, node: NodeId) -> Option<Finding> {
    if file.rails_at_least(5, 0) && !in_iteration(file, node) {
        match pluck_parts(file, node) {
            Some((call, name, body)) => if is_map_collect_call(file, call) {
                match bracket_key(file, body) {
                    Some(key) => if !(file.kind(key) is Regexp) && block_arg_not_in_key(file, name, key) {
                        let span = Range { start: file.name_range(call).start, end: file.range(node).end };
                        let rep = "pluck("@ + src_of(file, key) + ")"@;
                        Some(Finding {
                            range: span,
                            message: "Prefer `"@ + rep + "` over `"@ + file.source@.subrange(span.start as int, span.end as int) + "`."@,
                            edits: seq![(span, rep)],
                        })
                    } else {
                        None
                    },
                    None => None,
                }
            } else {
                None
            },
            None => None,
        }
    } else {
        None
    }
}

/// Decides `in_iteration`.
fn in_iteration_exec(file: &SourceFile, node: NodeId) -> (r: bool)
    requires
        file.valid(node),
    ensures
        r == in_iteration(file, node),
{
    let ghost pred = block_kind_pred();
    let mut cur = node;
    loop
        invariant
            file.wf(),
            cur <= node < file.nodes@.len(),
            pred == block_kind_pred(),
            file.nearest_ancestor(node, pred) == file.nearest_ancestor(cur, pred),
        decreases cur,
    {
        match file.nodes[cur].parent {
            Some(p) => {
                assert(p < cur);
                let call = match &file.nodes[p].kind {
                    NodeKind::Block { call, .. } => Some(*call),
                    NodeKind::Numblock { send, .. } | NodeKind::Itblock { send, .. } => Some(*send),
                    _ => None,
                };
                match call {
                    Some(c) => {
                        assert(pred(file.kind(p)));
                        assert(file.children(p)[0] == c);
                        return file.call_receiver(c).is_some();
                    },
                    None => {
                        assert(!pred(file.kind(p)));
                        cur = p;
                    },
                }
            },
            None => return false,
        }
    }
}

/// Whether some node strictly below `n` reads the local `name`.
fn below_has_local(file: &SourceFile, n: NodeId, name: &str) -> (r: bool)
    requires
        file.valid(n),
    ensures
        r == file.children_have(n, file.children(n), local_named(file, name@)),
    decreases file.nodes@.len() - n, 0int,
{
    let ghost pred = local_named(file, name@);
    let kids = file.children_of(n);
    let mut i: usize = 0;
    assert(kids@.subrange(0, kids@.len() as int) =~= kids@);
    while i < kids.len()
        invariant
            file.valid(n),
            pred == local_named(file, name@),
            kids@ == file.children(n),
            i <= kids@.len(),
            file.children_have(n, kids@, pred) == file.children_have(n, kids@.subrange(i as int, kids@.len() as int), pred),
        decreases kids@.len() - i,
    {
        assert(kids@.subrange(i as int, kids@.len() as int).drop_first() =~= kids@.subrange(i + 1, kids@.len() as int));
        let c = kids[i];
        assert(file.children(n)[i as int] == c);
        if has_local(file, c, name) {
            return true;
        }
        i = i + 1;
    }
    false
}

/// Whether the subtree at `n` reads the local `name`.
fn has_local(file: &SourceFile, n: NodeId, name: &str) -> (r: bool)
    requires
        file.valid(n),
    ensures
        r == file.subtree_has(n, local_named(file, name@)),
    decreases file.nodes@.len() - n, 1int,
{
    let here = match &file.nodes[n].kind {
        NodeKind::Lvar(s) => str_eq(s.as_str(), name),
        _ => false,
    };
    if here {
        assert(local_named(file, name@)(n));
        return true;
    }
    below_has_local(file, n, name)
}

impl Pluck {
    /// The shared check of the three block forms.
    fn check(&self, file: &SourceFile, node: NodeId) -> (r: Option<Offense>)
        requires
            file.valid(node),
        ensures
            r.deep_view() == pluck_finding(file, node),
    {
        if !file.rails_version_at_least(5, 0) || in_iteration_exec(file, node) {
            return None;
        }
        let (call, name, body): (NodeId, &str, NodeId) = match &file.nodes[node].kind {
            NodeKind::Block { call, args, body: Some(b) } => {
                assert(file.children(node)[0] == *call);
                assert(file.children(node)[1] == *args);
                assert(file.children(node)[2] == *b);
                let name = match &file.nodes[*args].kind {
                    NodeKind::Args(l) => {
                        if l.len() != 1 {
                            return None;
                        }
                        assert(file.children(*args)[0] == l@[0]);
                        match &file.nodes[l[0]].kind {
                            NodeKind::Arg(s) => s.as_str(),
                            _ => return None,
                        }
                    },
                    _ => return None,
                };
                (*call, name, *b)
            },
            NodeKind::Numblock { send, max_n, body: Some(b) } => {
                if *max_n != 1 {
                    return None;
                }
                assert(file.children(node)[0] == *send);
                assert(file.children(node)[1] == *b);
                (*send, "_1", *b)
            },
            NodeKind::Itblock { send, body: Some(b) } => {
                assert(file.children(node)[0] == *send);
                assert(file.children(node)[1] == *b);
                (*send, "it", *b)
            },
            _ => return None,
        };
        assert(pluck_parts(file, node) == Some((call, name@, body)));
        let map_call = match &file.nodes[call].kind {
            NodeKind::Send { method, args, .. } | NodeKind::Csend { method, args, .. } =>
                (str_eq(method.as_str(), "map") || str_eq(method.as_str(), "collect")) && args.len() == 0,
            _ => false,
        };
        if !map_call {
            return None;
        }
        let key = match &file.nodes[body].kind {
            NodeKind::Send { receiver: Some(r), method, args } => {
                assert(file.children(body)[0] == *r);
                if !str_eq(method.as_str(), "[]") || args.len() != 1 {
                    return None;
                }
                let recv_ok = match &file.nodes[*r].kind {
                    NodeKind::Lvar(_) => true,
                    NodeKind::Send { receiver: None, method, args } => str_eq(method.as_str(), "it") && args.len() == 0,
                    _ => false,
                };
                if !recv_ok {
                    return None;
                }
                assert(file.children(body)[1] == args@[0]);
                args[0]
            },
            _ => return None,
        };
        let is_regexp = match &file.nodes[key].kind {
            NodeKind::Regexp(_) => true,
            _ => false,
        };
        let key_src = file.raw_source(file.nodes[key].range);
        if is_regexp || str_eq(key_src, name) || below_has_local(file, key, name) {
            return None;
        }
        let span = Range { start: file.nodes[call].name_range.start, end: file.nodes[node].range.end };
        let rep = concat3("pluck(", key_src, ")");
        let mut msg = String::from_str("Prefer `");
        msg.append(rep.as_str());
        msg.append("` over `");
        msg.append(file.raw_source(span));
        msg.append("`.");
        Some(offense1(span, msg, span, rep))
    }

    /// `map { |x| x[:key] }`.
    pub fn check_block(&self, file: &SourceFile, node: NodeId) -> (r: Option<Offense>)
        requires
            file.valid(node),
        ensures
            r.deep_view() == pluck_finding(file, node),
    {
        self.check(file, node)
    }

    /// `map { _1[:key] }`.
    pub fn check_numblock(&self, file: &SourceFile, node: NodeId) -> (r: Option<Offense>)
        requires
            file.valid(node),
        ensures
            r.deep_view() == pluck_finding(file, node),
    {
        self.check(file, node)
    }

    /// `map { it[:key] }`.
    pub fn check_itblock(&self, file: &SourceFile, node: NodeId) -> (r: Option<Offense>)
        requires
            file.valid(node),
        ensures
            r.deep_view() == pluck_finding(file, node),
    {
        self.check(file, node)
    }
}

} // verus!
