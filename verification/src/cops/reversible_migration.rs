//! `Rails/ReversibleMigration`: the `change` method of a migration must be
//! reversible.

use vstd::prelude::*;
use crate::ast::{args_of, method_of, opt_string_view, NodeId, NodeKind, SourceFile};
use crate::cops::migration_class_name::{is_migration_superclass, is_top_level_const};
use crate::cops::redundant_foreign_key::{sym_or_str, text_of};
use crate::report::{offense0, Finding, Offense};
use crate::text::{concat2, str_eq};

verus! {

/// Reports calls in a migration's `change` that Rails cannot reverse.
#[derive(Debug, Default)]
pub struct ReversibleMigration;

/// The key of a hash pair, when it is a symbol or string.
pub open spec fn pair_key_name(file: &SourceFile, p: NodeId) -> Option<Seq<char>> {
    match file.kind(p) {
        NodeKind::Pair { key, .. } => sym_or_str(file.kind(key)),
        _ => None,
    }
}

/// The node is a hash literal with a `k` key.
pub open spec fn hash_has_key(file: &SourceFile, h: NodeId, k: Seq<char>) -> bool {
    file.kind(h) matches NodeKind::Hash(l) && exists|i: int| 0 <= i < l@.len() && pair_key_name(file, #[trigger] l@[i]) == Some(k)
}

/// The last argument of a call, if any.
pub open spec fn last_arg(file: &SourceFile, n: NodeId) -> Option<NodeId> {
    let a = args_of(file.kind(n));
    if a.len() > 0 { Some(a.last()) } else { None }
}

/// The methods reversible only with `from:` and `to:` (or, for `remove`, a type).
pub open spec fn is_from_to_family(m: Seq<char>) -> bool {
    m == "change"@ || m == "remove"@ || m == "change_default"@ || m == "change_column_default"@
        || m == "change_table_comment"@ || m == "change_column_comment"@
}

/// Whether a call inside `change_table` (or at the top) can be reversed:
/// `change` never, `remove` with a `type:` on Rails 6.1, the default and
/// comment changers with `from:` and `to:`; every other method can.
pub open spec fn reversible_call(file: &SourceFile, n: NodeId) -> bool {
    match method_of(file.kind(n)) {
        None => true,
        Some(m) => if m == "change"@ {
            false
        } else if m == "remove"@ {
            file.rails_at_least(6, 1) && match last_arg(file, n) {
                Some(l) => hash_has_key(file, l, "type"@),
                None => false,
            }
        } else if m == "change_default"@ || m == "change_column_default"@ || m == "change_table_comment"@ || m == "change_column_comment"@ {
            match last_arg(file, n) {
                Some(l) => hash_has_key(file, l, "from"@) && hash_has_key(file, l, "to"@),
                None => false,
            }
        } else {
            true
        },
    }
}

/// The call that a block node is attached to.
pub open spec fn block_call_of(k: NodeKind) -> Option<NodeId> {
    match k {
        NodeKind::Block { call, .. } => Some(call),
        NodeKind::Numblock { send, .. } => Some(send),
        NodeKind::Itblock { send, .. } => Some(send),
        _ => None,
    }
}

/// `class X < ActiveRecord::Migration[<version>]` with a top-level name.
pub open spec fn is_migration_class(file: &SourceFile, c: NodeId) -> bool {
    file.kind(c) matches NodeKind::Class { name, superclass: Some(s), .. }
        && is_top_level_const(file, name) && is_migration_superclass(file, s)
}

/// The ancestor tests that place a call: `0` a migration class, `1` a
/// `def change`, otherwise a `reversible`/`up_only` block.
pub open spec fn context_test(file: &SourceFile, which: int, a: NodeId) -> bool {
    if which == 0 {
        is_migration_class(file, a)
    } else if which == 1 {
        file.kind(a) matches NodeKind::Def { name, .. } && name@ == "change"@
    } else {
        match block_call_of(file.kind(a)) {
            Some(c) => method_of(file.kind(c)) == Some("reversible"@) || method_of(file.kind(c)) == Some("up_only"@),
            None => false,
        }
    }
}

/// `context_test` as a predicate value.
pub open spec fn context_pred(file: &SourceFile, which: int) -> spec_fn(NodeId) -> bool {
    |a: NodeId| context_test(file, which, a)
}

/// The node stands in `def change` of a migration, outside `reversible` and
/// `up_only` blocks.
pub open spec fn in_change_context(file: &SourceFile, n: NodeId) -> bool {
    file.some_ancestor(n, context_pred(file, 0)) && file.some_ancestor(n, context_pred(file, 1))
        && !file.some_ancestor(n, context_pred(file, 2))
}

/// The node's parent is a block.
pub open spec fn parent_is_block(file: &SourceFile, n: NodeId) -> bool {
    match file.parent(n) {
        Some(p) => block_call_of(file.kind(p)) is Some,
        None => false,
    }
}

/// The message for an irreversible call without a receiver, if it is one.
pub open spec fn send_message(file: &SourceFile, node: NodeId) -> Option<Seq<char>> {
    match file.kind(node) {
        NodeKind::Send { receiver: None, method, args } => {
            let m = method@;
            let a = args@;
            if m == "change_column"@ || m == "execute"@ {
                Some(m + " is not reversible."@)
            } else if m == "drop_table"@ {
                if a.len() > 0 && !parent_is_block(file, node) && !(file.kind(a.last()) is BlockPass) {
                    Some("drop_table(without block) is not reversible."@)
                } else {
                    None
                }
            } else if is_from_to_family(m) {
                if reversible_call(file, node) {
                    None
                } else {
                    Some(m + "(without :from and :to) is not reversible."@)
                }
            } else if m == "remove_column"@ {
                if a.len() < 3 { Some("remove_column(without type) is not reversible."@) } else { None }
            } else if m == "remove_foreign_key"@ {
                if a.len() == 2 && file.kind(a[1]) is Hash && !hash_has_key(file, a[1], "to_table"@) {
                    Some("remove_foreign_key(without table) is not reversible."@)
                } else {
                    None
                }
            } else if m == "remove_columns"@ {
                if a.len() == 0 || (hash_has_key(file, a.last(), "type"@) && file.rails_at_least(6, 1)) {
                    None
                } else if file.rails_at_least(6, 1) {
                    Some("remove_columns(without type) is not reversible."@)
                } else {
                    Some("remove_columns is not reversible."@)
                }
            } else if m == "remove_index"@ {
                if a.len() == 2 && file.kind(a[1]) is Hash && !hash_has_key(file, a[1], "column"@) {
                    Some("remove_index(without column) is not reversible."@)
                } else {
                    None
                }
            } else {
                None
            }
        },
        _ => None,
    }
}

/// What `ReversibleMigration::check_send` reports for `node`.
pub open spec fn send_finding(file: &SourceFile, node: NodeId) -> Option<Finding> {
    if in_change_context(file, node) {
        match send_message(file, node) {
            Some(msg) => Some(Finding { range: file.range(node), message: msg, edits: Seq::empty() }),
            None => None,
        }
    } else {
        None
    }
}

/// The message for an irreversible call inside `change_table`.
pub open spec fn table_call_message(file: &SourceFile, t: NodeId) -> Seq<char> {
    let m = match method_of(file.kind(t)) {
        Some(m) => m,
        None => Seq::empty(),
    };
    if m == "remove"@ {
        if file.rails_at_least(6, 1) { "t.remove (without type) is not reversible."@ } else { "t.remove is not reversible."@ }
    } else {
        "change_table(with "@ + m + ") is not reversible."@
    }
}

/// Findings for the irreversible calls among `targets`, in order.
pub open spec fn table_findings(file: &SourceFile, targets: Seq<NodeId>) -> Seq<Finding>
    decreases targets.len(),
{
    if targets.len() == 0 {
        Seq::empty()
    } else {
        let t = targets.last();
        table_findings(file, targets.drop_last()) + if file.kind(t) is Send && !reversible_call(file, t) {
            seq![Finding { range: file.range(t), message: table_call_message(file, t), edits: Seq::empty() }]
        } else {
            Seq::empty()
        }
    }
}

/// The statements of a block body: the body itself when it is one call,
/// else its children.
pub open spec fn body_targets(file: &SourceFile, body: NodeId) -> Seq<NodeId> {
    if file.kind(body) is Send { seq![body] } else { file.children(body) }
}

/// `change_table :t` called without a receiver.
pub open spec fn is_change_table(file: &SourceFile, call: NodeId) -> bool {
    file.kind(call) matches NodeKind::Send { receiver: None, method, args } && method@ == "change_table"@ && args@.len() > 0
}

/// What the block checks report for `node`.
pub open spec fn block_findings(file: &SourceFile, node: NodeId) -> Seq<Finding> {
    let k = file.kind(node);
    let body = match k {
        NodeKind::Block { body, .. } => body,
        NodeKind::Numblock { body, .. } => body,
        NodeKind::Itblock { body, .. } => body,
        _ => None,
    };
    match (block_call_of(k), body) {
        (Some(call), Some(b)) => if in_change_context(file, node) && is_change_table(file, call) {
            table_findings(file, body_targets(file, b))
        } else {
            Seq::empty()
        },
        _ => Seq::empty(),
    }
}

/// Decides `hash_has_key`.
fn hash_has_key_exec(file: &SourceFile, h: NodeId, k: &str) -> (r: bool)
    requires
        file.valid(h),
    ensures
        r == hash_has_key(file, h, k@),
{
    let list = match &file.nodes[h].kind {
        NodeKind::Hash(l) => l,
        _ => return false,
    };
    let mut i: usize = 0;
    while i < list.len()
        invariant
            file.valid(h),
            file.kind(h) == NodeKind::Hash(*list),
            i <= list@.len(),
            forall|j: int| 0 <= j < i ==> pair_key_name(file, #[trigger] list@[j]) != Some(k@),
        decreases list@.len() - i,
    {
        let p = list[i];
        assert(file.children(h)[i as int] == p);
        match &file.nodes[p].kind {
            NodeKind::Pair { key, .. } => {
                assert(file.children(p)[0] == *key);
                match text_of(&file.nodes[*key].kind) {
                    Some(t) => {
                        if str_eq(t, k) {
                            return true;
                        }
                    },
                    None => {},
                }
            },
            _ => {},
        }
        i = i + 1;
    }
    false
}

/// Computes `last_arg`.
fn last_argument(file: &SourceFile, n: NodeId) -> (r: Option<NodeId>)
    requires
        file.valid(n),
    ensures
        r == last_arg(file, n),
        r matches Some(l) ==> l < file.nodes@.len(),
{
    let a = file.call_arguments(n);
    if a.len() == 0 {
        return None;
    }
    proof { crate::ast::lemma_args_are_children(file, n, a@.len() - 1); }
    Some(a[a.len() - 1])
}

/// Decides `reversible_call`.
fn reversible_change_table_call(file: &SourceFile, n: NodeId) -> (r: bool)
    requires
        file.valid(n),
    ensures
        r == reversible_call(file, n),
{
    let m = match file.method_name(n) {
        Some(m) => m,
        None => return true,
    };
    if str_eq(m, "change") {
        false
    } else if str_eq(m, "remove") {
        if !file.rails_version_at_least(6, 1) {
            return false;
        }
        match last_argument(file, n) {
            Some(l) => hash_has_key_exec(file, l, "type"),
            None => false,
        }
    } else if str_eq(m, "change_default") || str_eq(m, "change_column_default") || str_eq(m, "change_table_comment")
        || str_eq(m, "change_column_comment") {
        match last_argument(file, n) {
            Some(l) => hash_has_key_exec(file, l, "from") && hash_has_key_exec(file, l, "to"),
            None => false,
        }
    } else {
        true
    }
}

/// Decides `is_migration_class`.
pub(crate) fn is_migration_class_exec(file: &SourceFile, c: NodeId) -> (r: bool)
    requires
        file.valid(c),
    ensures
        r == is_migration_class(file, c),
{
    let (name, sup) = match &file.nodes[c].kind {
        NodeKind::Class { name, superclass: Some(s), .. } => (*name, *s),
        _ => return false,
    };
    assert(file.children(c)[0] == name);
    assert(file.children(c)[1] == sup);
    let top = match &file.nodes[name].kind {
        NodeKind::Const { scope: None, .. } => true,
        NodeKind::Const { scope: Some(s), .. } => {
            assert(file.children(name)[0] == *s);
            match &file.nodes[*s].kind {
                NodeKind::Cbase => true,
                _ => false,
            }
        },
        _ => false,
    };
    if !top {
        return false;
    }
    match &file.nodes[sup].kind {
        NodeKind::Send { receiver: Some(recv), method, args } => {
            assert(file.children(sup)[0] == *recv);
            if !str_eq(method.as_str(), "[]") {
                return false;
            }
            match file.const_name(*recv) {
                Some(p) => {
                    if !str_eq(p.as_str(), "ActiveRecord::Migration") {
                        return false;
                    }
                },
                None => return false,
            }
            if args.len() != 1 {
                return false;
            }
            assert(file.children(sup)[1] == args@[0]);
            match &file.nodes[args[0]].kind {
                NodeKind::Float { .. } => true,
                _ => false,
            }
        },
        _ => false,
    }
}

/// Decides `context_test`.
fn context_test_exec(file: &SourceFile, which: u8, a: NodeId) -> (r: bool)
    requires
        file.valid(a),
    ensures
        r == context_test(file, which as int, a),
{
    if which == 0 {
        is_migration_class_exec(file, a)
    } else if which == 1 {
        match &file.nodes[a].kind {
            NodeKind::Def { name, .. } => str_eq(name.as_str(), "change"),
            _ => false,
        }
    } else {
        let call = match &file.nodes[a].kind {
            NodeKind::Block { call, .. } => *call,
            NodeKind::Numblock { send, .. } => *send,
            NodeKind::Itblock { send, .. } => *send,
            _ => return false,
        };
        assert(file.children(a)[0] == call);
        match file.method_name(call) {
            Some(m) => str_eq(m, "reversible") || str_eq(m, "up_only"),
            None => false,
        }
    }
}

/// Decides `some_ancestor` for `context_pred(which)`.
fn any_ancestor(file: &SourceFile, n: NodeId, which: u8) -> (r: bool)
    requires
        file.valid(n),
    ensures
        r == file.some_ancestor(n, context_pred(file, which as int)),
{
    let ghost pred = context_pred(file, which as int);
    let mut cur = n;
    loop
        invariant
            file.wf(),
            cur < file.nodes@.len(),
            pred == context_pred(file, which as int),
            file.some_ancestor(n, pred) == file.some_ancestor(cur, pred),
        decreases cur,
    {
        match file.nodes[cur].parent {
            Some(a) => {
                assert(a < cur);
                if context_test_exec(file, which, a) {
                    assert(pred(a));
                    return true;
                }
                assert(!pred(a));
                cur = a;
            },
            None => return false,
        }
    }
}

/// Decides `in_change_context`.
fn in_change_context_exec(file: &SourceFile, n: NodeId) -> (r: bool)
    requires
        file.valid(n),
    ensures
        r == in_change_context(file, n),
{
    any_ancestor(file, n, 0) && any_ancestor(file, n, 1) && !any_ancestor(file, n, 2)
}

/// Computes `send_message`.
fn irreversible_message(file: &SourceFile, node: NodeId) -> (r: Option<String>)
    requires
        file.valid(node),
    ensures
        opt_string_view(r) == send_message(file, node),
{
    let (method, args) = match &file.nodes[node].kind {
        NodeKind::Send { receiver: None, method, args } => (method.as_str(), args),
        _ => return None,
    };
    let n = args.len();
    if str_eq(method, "change_column") || str_eq(method, "execute") {
        return Some(concat2(method, " is not reversible."));
    }
    if str_eq(method, "drop_table") {
        if n == 0 {
            return None;
        }
        assert(file.children(node)[n - 1] == args@[n - 1]);
        let in_block = match file.nodes[node].parent {
            Some(p) => match &file.nodes[p].kind {
                NodeKind::Block { .. } | NodeKind::Numblock { .. } | NodeKind::Itblock { .. } => true,
                _ => false,
            },
            None => false,
        };
        let pass = match &file.nodes[args[n - 1]].kind {
            NodeKind::BlockPass(_) => true,
            _ => false,
        };
        if in_block || pass {
            return None;
        }
        return Some(String::from_str("drop_table(without block) is not reversible."));
    }
    if str_eq(method, "change") || str_eq(method, "remove") || str_eq(method, "change_default")
        || str_eq(method, "change_column_default") || str_eq(method, "change_table_comment")
        || str_eq(method, "change_column_comment") {
        if reversible_change_table_call(file, node) {
            return None;
        }
        return Some(concat2(method, "(without :from and :to) is not reversible."));
    }
    if str_eq(method, "remove_column") {
        if n < 3 {
            return Some(String::from_str("remove_column(without type) is not reversible."));
        }
        return None;
    }
    if str_eq(method, "remove_foreign_key") {
        if n != 2 {
            return None;
        }
        assert(file.children(node)[1] == args@[1]);
        match &file.nodes[args[1]].kind {
            NodeKind::Hash(_) => {},
            _ => return None,
        }
        if hash_has_key_exec(file, args[1], "to_table") {
            return None;
        }
        return Some(String::from_str("remove_foreign_key(without table) is not reversible."));
    }
    if str_eq(method, "remove_columns") {
        if n == 0 {
            return None;
        }
        assert(file.children(node)[n - 1] == args@[n - 1]);
        let typed = hash_has_key_exec(file, args[n - 1], "type");
        let v61 = file.rails_version_at_least(6, 1);
        if typed && v61 {
            return None;
        }
        if v61 {
            return Some(String::from_str("remove_columns(without type) is not reversible."));
        }
        return Some(String::from_str("remove_columns is not reversible."));
    }
    if str_eq(method, "remove_index") {
        if n != 2 {
            return None;
        }
        assert(file.children(node)[1] == args@[1]);
        match &file.nodes[args[1]].kind {
            NodeKind::Hash(_) => {},
            _ => return None,
        }
        if hash_has_key_exec(file, args[1], "column") {
            return None;
        }
        return Some(String::from_str("remove_index(without column) is not reversible."));
    }
    None
}

/// The message for an irreversible call inside `change_table`.
fn table_message(file: &SourceFile, t: NodeId) -> (r: String)
    requires
        file.valid(t),
        file.kind(t) is Send,
    ensures
        r@ == table_call_message(file, t),
{
    let m = match &file.nodes[t].kind {
        NodeKind::Send { method, .. } => method.as_str(),
        _ => return String::new(),
    };
    if str_eq(m, "remove") {
        if file.rails_version_at_least(6, 1) {
            String::from_str("t.remove (without type) is not reversible.")
        } else {
            String::from_str("t.remove is not reversible.")
        }
    } else {
        let mut s = String::from_str("change_table(with ");
        s.append(m);
        s.append(") is not reversible.");
        s
    }
}

impl ReversibleMigration {
    /// Reports an irreversible call without a receiver in `def change`.
    pub fn check_send(&self, file: &SourceFile, node: NodeId) -> (r: Option<Offense>)
        requires
            file.valid(node),
        ensures
            r.deep_view() == send_finding(file, node),
    {
        match &file.nodes[node].kind {
            NodeKind::Send { .. } => {},
            _ => return None,
        }
        if !in_change_context_exec(file, node) {
            return None;
        }
        match irreversible_message(file, node) {
            Some(msg) => Some(offense0(file.nodes[node].range, msg)),
            None => None,
        }
    }

    /// Reports the irreversible calls in a `change_table` block.
    pub fn check_block(&self, file: &SourceFile, node: NodeId) -> (r: Vec<Offense>)
        requires
            file.valid(node),
        ensures
            r.deep_view() == block_findings(file, node),
    {
        let mut out: Vec<Offense> = Vec::new();
        let (call, body) = match &file.nodes[node].kind {
            NodeKind::Block { call, body: Some(b), .. } => {
                assert(file.children(node)[0] == *call);
                assert(file.children(node)[2] == *b);
                (*call, *b)
            },
            NodeKind::Numblock { send, body: Some(b), .. } | NodeKind::Itblock { send, body: Some(b) } => {
                assert(file.children(node)[0] == *send);
                assert(file.children(node)[1] == *b);
                (*send, *b)
            },
            _ => {
                assert(out.deep_view() =~= block_findings(file, node));
                return out;
            },
        };
        let is_ct = match &file.nodes[call].kind {
            NodeKind::Send { receiver: None, method, args } => str_eq(method.as_str(), "change_table") && args.len() > 0,
            _ => false,
        };
        if !is_ct || !in_change_context_exec(file, node) {
            assert(out.deep_view() =~= block_findings(file, node));
            return out;
        }
        let targets: Vec<NodeId> = match &file.nodes[body].kind {
            NodeKind::Send { .. } => {
                let mut v: Vec<NodeId> = Vec::new();
                v.push(body);
                v
            },
            _ => file.children_of(body),
        };
        assert(targets@ == body_targets(file, body));
        let mut i: usize = 0;
        assert(out.deep_view() =~= table_findings(file, targets@.subrange(0, 0)));
        while i < targets.len()
            invariant
                file.wf(),
                body < file.nodes@.len(),
                targets@ == body_targets(file, body),
                i <= targets@.len(),
                out.deep_view() == table_findings(file, targets@.subrange(0, i as int)),
            decreases targets@.len() - i,
        {
            let t = targets[i];
            proof {
                if !(file.kind(body) is Send) {
                    assert(file.children(body)[i as int] == t);
                }
            }
            assert(targets@.subrange(0, i + 1).drop_last() =~= targets@.subrange(0, i as int));
            let ghost before = out.deep_view();
            let is_send = match &file.nodes[t].kind {
                NodeKind::Send { .. } => true,
                _ => false,
            };
            if is_send && !reversible_change_table_call(file, t) {
                let msg = table_message(file, t);
                out.push(offense0(file.nodes[t].range, msg));
            }
            assert(out.deep_view() =~= table_findings(file, targets@.subrange(0, i + 1)));
            i = i + 1;
        }
        assert(targets@.subrange(0, targets@.len() as int) =~= targets@);
        out
    }

    /// As `check_block`, for a block using `_1`.
    pub fn check_numblock(&self, file: &SourceFile, node: NodeId) -> (r: Vec<Offense>)
        requires
            file.valid(node),
        ensures
            r.deep_view() == block_findings(file, node),
    {
        self.check_block(file, node)
    }

    /// As `check_block`, for a block using `it`.
    pub fn check_itblock(&self, file: &SourceFile, node: NodeId) -> (r: Vec<Offense>)
        requires
            file.valid(node),
        ensures
            r.deep_view() == block_findings(file, node),
    {
        self.check_block(file, node)
    }
}

} // verus!
