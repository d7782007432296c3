//! `Rails/LexicallyScopedActionFilter`: the actions named in a filter's
//! `only:`/`except:` must be defined in the same class or module.

use vstd::prelude::*;
use crate::ast::{class_or_module, NodeId, NodeKind, SourceFile};
use crate::cops::not_null_column::pair_sym_key;
use crate::cops::redundant_foreign_key::{sym_or_str, text_of};
use crate::report::{offense0, Finding, Offense};
use crate::text::{join_sep, lemma_filter_push, str_eq};

verus! {

/// Checks that filtered actions are defined where the filter stands.
#[derive(Debug, Default)]
pub struct LexicallyScopedActionFilter;

/// The action-filter methods.
pub open spec fn is_filter_method(m: Seq<char>) -> bool {
    ||| m == "after_action"@
    ||| m == "append_after_action"@
    ||| m == "append_around_action"@
    ||| m == "append_before_action"@
    ||| m == "around_action"@
    ||| m == "before_action"@
    ||| m == "prepend_after_action"@
    ||| m == "prepend_around_action"@
    ||| m == "prepend_before_action"@
    ||| m == "skip_after_action"@
    ||| m == "skip_around_action"@
    ||| m == "skip_before_action"@
    ||| m == "skip_action_callback"@
}

/// The value of the first `only:`/`except:` pair among `pairs`.
pub open spec fn pairs_filter_value(file: &SourceFile, pairs: Seq<NodeId>) -> Option<NodeId>
    decreases pairs.len(),
{
    if pairs.len() == 0 {
        None
    } else {
        match file.kind(pairs[0]) {
            NodeKind::Pair { key, value } =>
                if file.kind(key) matches NodeKind::Sym(k) && (k@ == "only"@ || k@ == "except"@) {
                    Some(value)
                } else {
                    pairs_filter_value(file, pairs.drop_first())
                },
            _ => pairs_filter_value(file, pairs.drop_first()),
        }
    }
}

/// The value of the first `only:`/`except:` pair of the hash arguments `args`.
pub open spec fn args_filter_value(file: &SourceFile, args: Seq<NodeId>) -> Option<NodeId>
    decreases args.len(),
{
    if args.len() == 0 {
        None
    } else {
        let here = match file.kind(args[0]) {
            NodeKind::Hash(l) => pairs_filter_value(file, l@),
            _ => None,
        };
        if here is Some { here } else { args_filter_value(file, args.drop_first()) }
    }
}

/// The texts of the symbols and strings among `l`, in order.
pub open spec fn names_of(file: &SourceFile, l: Seq<NodeId>) -> Seq<Seq<char>>
    decreases l.len(),
{
    if l.len() == 0 {
        Seq::empty()
    } else {
        names_of(file, l.drop_last()) + match sym_or_str(file.kind(l.last())) {
            Some(x) => seq![x],
            None => Seq::empty(),
        }
    }
}

/// The actions an `only:`/`except:` value names.
pub open spec fn action_names(file: &SourceFile, v: NodeId) -> Seq<Seq<char>> {
    match file.kind(v) {
        NodeKind::Sym(s) => seq![s@],
        NodeKind::Str(s) => seq![s@],
        NodeKind::Array(l) => names_of(file, l@),
        _ => Seq::empty(),
    }
}

/// The statements of a class or module body written as a sequence.
pub open spec fn scope_statements(file: &SourceFile, scope: NodeId) -> Seq<NodeId> {
    let body = match file.kind(scope) {
        NodeKind::Class { body, .. } => body,
        NodeKind::Module { body, .. } => body,
        _ => None,
    };
    match body {
        Some(b) => match file.kind(b) {
            NodeKind::Begin(l) => l@,
            _ => Seq::empty(),
        },
        None => Seq::empty(),
    }
}

/// The names of the instance methods defined among `stmts`.
pub open spec fn defs_of(file: &SourceFile, stmts: Seq<NodeId>) -> Seq<Seq<char>>
    decreases stmts.len(),
{
    if stmts.len() == 0 {
        Seq::empty()
    } else {
        defs_of(file, stmts.drop_last()) + match file.kind(stmts.last()) {
            NodeKind::Def { name, .. } => seq![name@],
            _ => Seq::empty(),
        }
    }
}

/// The texts of the symbols `l` (each of which is one).
pub open spec fn sym_names(file: &SourceFile, l: Seq<NodeId>) -> Seq<Seq<char>>
    decreases l.len(),
{
    if l.len() == 0 {
        Seq::empty()
    } else {
        sym_names(file, l.drop_last()) + match file.kind(l.last()) {
            NodeKind::Sym(s) => seq![s@],
            _ => Seq::empty(),
        }
    }
}

/// A hash literal with a `to:` key.
pub open spec fn has_to_pair(file: &SourceFile, h: NodeId) -> bool {
    file.kind(h) matches NodeKind::Hash(l) && exists|i: int| 0 <= i < l@.len() && pair_sym_key(file, #[trigger] l@[i]) == Some("to"@)
}

/// The methods `delegate :a, :b, to: :x` defines.
pub open spec fn delegated_names(file: &SourceFile, s: NodeId) -> Seq<Seq<char>> {
    match file.kind(s) {
        NodeKind::Send { receiver: None, method, args } => {
            let a = args@;
            if method@ == "delegate"@ && a.len() >= 2 && (forall|i: int| 0 <= i < a.len() - 1 ==> file.kind(#[trigger] a[i]) is Sym)
                && has_to_pair(file, a.last()) {
                sym_names(file, a.drop_last())
            } else {
                Seq::empty()
            }
        },
        _ => Seq::empty(),
    }
}

/// The delegated methods of all `stmts`, in order.
pub open spec fn delegated_all(file: &SourceFile, stmts: Seq<NodeId>) -> Seq<Seq<char>>
    decreases stmts.len(),
{
    if stmts.len() == 0 {
        Seq::empty()
    } else {
        delegated_all(file, stmts.drop_last()) + delegated_names(file, stmts.last())
    }
}

/// An alias statement as (old name, new name): `alias_method :new, :old`
/// or `alias new old`.
pub open spec fn alias_entry(file: &SourceFile, s: NodeId) -> Option<(Seq<char>, Seq<char>)> {
    match file.kind(s) {
        NodeKind::Send { receiver: None, method, args } => if method@ == "alias_method"@ && args@.len() == 2 {
            match (sym_or_str(file.kind(args@[0])), sym_or_str(file.kind(args@[1]))) {
                (Some(n), Some(o)) => Some((o, n)),
                _ => None,
            }
        } else {
            None
        },
        NodeKind::Alias { new_name, old_name } => match (file.kind(new_name), file.kind(old_name)) {
            (NodeKind::Sym(n), NodeKind::Sym(o)) => Some((o@, n@)),
            _ => None,
        },
        _ => None,
    }
}

/// The new name the last alias of `old` among `stmts` gives it.
pub open spec fn alias_of(file: &SourceFile, stmts: Seq<NodeId>, old: Seq<char>) -> Option<Seq<char>>
    decreases stmts.len(),
{
    if stmts.len() == 0 {
        None
    } else {
        match alias_entry(file, stmts.last()) {
            Some((o, n)) => if o == old { Some(n) } else { alias_of(file, stmts.drop_last(), old) },
            None => alias_of(file, stmts.drop_last(), old),
        }
    }
}

/// The aliases of the names `ds`, in order.
pub open spec fn aliased(file: &SourceFile, stmts: Seq<NodeId>, ds: Seq<Seq<char>>) -> Seq<Seq<char>>
    decreases ds.len(),
{
    if ds.len() == 0 {
        Seq::empty()
    } else {
        aliased(file, stmts, ds.drop_last()) + match alias_of(file, stmts, ds.last()) {
            Some(n) => seq![n],
            None => Seq::empty(),
        }
    }
}

/// The actions the statements define: methods, delegated methods, and the
/// aliases of those.
pub open spec fn defined_names(file: &SourceFile, stmts: Seq<NodeId>) -> Seq<Seq<char>> {
    let base = defs_of(file, stmts) + delegated_all(file, stmts);
    base + aliased(file, stmts, base)
}

/// The referenced actions that are not defined.
pub open spec fn undefined_actions(refs: Seq<Seq<char>>, defined: Seq<Seq<char>>) -> Seq<Seq<char>> {
    refs.filter(|r: Seq<char>| !defined.contains(r))
}

/// An action name in backquotes.
pub open spec fn quoted(u: Seq<char>) -> Seq<char> {
    "`"@ + u + "`"@
}

/// The message for the undefined actions `u` on a `class` or `module`.
pub open spec fn undefined_message(u: Seq<Seq<char>>, word: Seq<char>) -> Seq<char> {
    if u.len() == 1 {
        quoted(u[0]) + " is not explicitly defined on the "@ + word + "."@
    } else {
        join_sep(u.map_values(|x: Seq<char>| quoted(x)), ", "@) + " are not explicitly defined on the "@ + word + "."@
    }
}

/// What `LexicallyScopedActionFilter::check_send` reports for `node`.
pub open spec fn action_filter_finding(file: &SourceFile, node: NodeId) -> Option<Finding> {
    match file.kind(node) {
        NodeKind::Send { receiver: None, method, args } => if is_filter_method(method@) {
            match (args_filter_value(file, args@), file.nearest_ancestor(node, class_or_module())) {
                (Some(v), Some(scope)) => {
                    let u = undefined_actions(action_names(file, v), defined_names(file, scope_statements(file, scope)));
                    let word = if file.kind(scope) is Class { "class"@ } else { "module"@ };
                    if u.len() > 0 {
                        Some(Finding { range: file.range(node), message: undefined_message(u, word), edits: Seq::empty() })
                    } else {
                        None
                    }
                },
                _ => None,
            }
        } else {
            None
        },
        _ => None,
    }
}

/// Decides `is_filter_method`.
fn filter_method(m: &str) -> (r: bool)
    ensures
        r == is_filter_method(m@),
{
    str_eq(m, "after_action") || str_eq(m, "append_after_action") || str_eq(m, "append_around_action")
        || str_eq(m, "append_before_action") || str_eq(m, "around_action") || str_eq(m, "before_action")
        || str_eq(m, "prepend_after_action") || str_eq(m, "prepend_around_action")
        || str_eq(m, "prepend_before_action") || str_eq(m, "skip_after_action")
        || str_eq(m, "skip_around_action") || str_eq(m, "skip_before_action") || str_eq(m, "skip_action_callback")
}

/// Computes `pairs_filter_value` for the pairs of the hash `h`.
fn hash_filter_value(file: &SourceFile, h: NodeId) -> (r: Option<NodeId>)
    requires
        file.valid(h),
        file.kind(h) is Hash,
    ensures
        r == pairs_filter_value(file, file.kind(h)->Hash_0@),
        r matches Some(v) ==> v < file.nodes@.len(),
{
    let list = match &file.nodes[h].kind {
        NodeKind::Hash(l) => l,
        _ => return None,
    };
    let mut i: usize = 0;
    assert(list@.subrange(0, list@.len() as int) =~= list@);
    while i < list.len()
        invariant
            file.valid(h),
            file.kind(h) == NodeKind::Hash(*list),
            i <= list@.len(),
            pairs_filter_value(file, list@) == pairs_filter_value(file, list@.subrange(i as int, list@.len() as int)),
        decreases list@.len() - i,
    {
        let p = list[i];
        assert(file.children(h)[i as int] == p);
        assert(list@.subrange(i as int, list@.len() as int).drop_first() =~= list@.subrange(i + 1, list@.len() as int));
        assert(list@.subrange(i as int, list@.len() as int)[0] == p);
        match &file.nodes[p].kind {
            NodeKind::Pair { key, value } => {
                assert(file.children(p)[0] == *key);
                assert(file.children(p)[1] == *value);
                let hit = match &file.nodes[*key].kind {
                    NodeKind::Sym(k) => str_eq(k.as_str(), "only") || str_eq(k.as_str(), "except"),
                    _ => false,
                };
                if hit {
                    return Some(*value);
                }
            },
            _ => {},
        }
        i = i + 1;
    }
    None
}

/// Computes `args_filter_value`.
fn only_or_except_value(file: &SourceFile, node: NodeId) -> (r: Option<NodeId>)
    requires
        file.valid(node),
    ensures
        r == args_filter_value(file, crate::ast::args_of(file.kind(node))),
        r matches Some(v) ==> v < file.nodes@.len(),
{
    let args = file.call_arguments(node);
    let mut i: usize = 0;
    assert(args@.subrange(0, args@.len() as int) =~= args@);
    while i < args.len()
        invariant
            file.valid(node),
            args@ == crate::ast::args_of(file.kind(node)),
            i <= args@.len(),
            args_filter_value(file, args@) == args_filter_value(file, args@.subrange(i as int, args@.len() as int)),
        decreases args@.len() - i,
    {
        proof { crate::ast::lemma_args_are_children(file, node, i as int); }
        let a = args[i];
        assert(args@.subrange(i as int, args@.len() as int).drop_first() =~= args@.subrange(i + 1, args@.len() as int));
        assert(args@.subrange(i as int, args@.len() as int)[0] == a);
        match &file.nodes[a].kind {
            NodeKind::Hash(_) => {
                match hash_filter_value(file, a) {
                    Some(v) => return Some(v),
                    None => {},
                }
            },
            _ => {},
        }
        i = i + 1;
    }
    None
}

/// Computes `action_names`.
fn array_values(file: &SourceFile, v: NodeId) -> (r: Vec<&str>)
    requires
        file.valid(v),
    ensures
        r.deep_view() == action_names(file, v),
{
    let mut out: Vec<&str> = Vec::new();
    match &file.nodes[v].kind {
        NodeKind::Sym(s) | NodeKind::Str(s) => {
            out.push(s.as_str());
            assert(out.deep_view() =~= action_names(file, v));
        },
        NodeKind::Array(l) => {
            let mut i: usize = 0;
            assert(out.deep_view() =~= names_of(file, l@.subrange(0, 0)));
            while i < l.len()
                invariant
                    file.valid(v),
                    file.kind(v) == NodeKind::Array(*l),
                    i <= l@.len(),
                    out.deep_view() == names_of(file, l@.subrange(0, i as int)),
                decreases l@.len() - i,
            {
                let e = l[i];
                assert(file.children(v)[i as int] == e);
                assert(l@.subrange(0, i + 1).drop_last() =~= l@.subrange(0, i as int));
                match text_of(&file.nodes[e].kind) {
                    Some(t) => out.push(t),
                    None => {},
                }
                assert(out.deep_view() =~= names_of(file, l@.subrange(0, i + 1)));
                i = i + 1;
            }
            assert(l@.subrange(0, l@.len() as int) =~= l@);
        },
        _ => {
            assert(out.deep_view() =~= action_names(file, v));
        },
    }
    out
}

/// Computes `delegated_names` onto the end of `out`.
fn push_delegated<'a>(file: &'a SourceFile, s: NodeId, out: &mut Vec<&'a str>)
    requires
        file.valid(s),
    ensures
        final(out).deep_view() == old(out).deep_view() + delegated_names(file, s),
{
    let args = match &file.nodes[s].kind {
        NodeKind::Send { receiver: None, method, args } => {
            if !str_eq(method.as_str(), "delegate") {
                assert(out.deep_view() =~= old(out).deep_view() + delegated_names(file, s));
                return;
            }
            args
        },
        _ => {
            assert(out.deep_view() =~= old(out).deep_view() + delegated_names(file, s));
            return;
        },
    };
    let n = args.len();
    if n < 2 {
        assert(out.deep_view() =~= old(out).deep_view() + delegated_names(file, s));
        return;
    }
    let mut i: usize = 0;
    while i < n - 1
        invariant
            file.valid(s),
            file.kind(s) matches NodeKind::Send { receiver: None, args: a, .. } && a@ == args@,
            n == args@.len(),
            n >= 2,
            i <= n - 1,
            forall|j: int| 0 <= j < i ==> file.kind(#[trigger] args@[j]) is Sym,
        decreases n - 1 - i,
    {
        assert(file.children(s)[i as int] == args@[i as int]);
        match &file.nodes[args[i]].kind {
            NodeKind::Sym(_) => {},
            _ => {
                assert(out.deep_view() =~= old(out).deep_view() + delegated_names(file, s));
                return;
            },
        }
        i = i + 1;
    }
    let last = args[n - 1];
    assert(file.children(s)[n - 1] == last);
    let has_to = match &file.nodes[last].kind {
        NodeKind::Hash(l) => {
            let mut j: usize = 0;
            let mut found = false;
            while j < l.len()
                invariant
                    file.valid(last),
                    file.kind(last) == NodeKind::Hash(*l),
                    j <= l@.len(),
                    found == exists|k: int| 0 <= k < j && pair_sym_key(file, #[trigger] l@[k]) == Some("to"@),
                decreases l@.len() - j,
            {
                let p = l[j];
                assert(file.children(last)[j as int] == p);
                let is_to = match &file.nodes[p].kind {
                    NodeKind::Pair { key, .. } => {
                        assert(file.children(p)[0] == *key);
                        match &file.nodes[*key].kind {
                            NodeKind::Sym(k) => str_eq(k.as_str(), "to"),
                            _ => false,
                        }
                    },
                    _ => false,
                };
                if is_to {
                    assert(pair_sym_key(file, l@[j as int]) == Some("to"@));
                }
                found = found || is_to;
                j = j + 1;
            }
            found
        },
        _ => false,
    };
    if !has_to {
        assert(out.deep_view() =~= old(out).deep_view() + delegated_names(file, s));
        return;
    }
    let ghost base = out.deep_view();
    let mut k: usize = 0;
    assert(out.deep_view() =~= base + sym_names(file, args@.subrange(0, 0)));
    while k < n - 1
        invariant
            file.valid(s),
            file.kind(s) matches NodeKind::Send { receiver: None, args: a, .. } && a@ == args@,
            n == args@.len(),
            n >= 2,
            k <= n - 1,
            out.deep_view() == base + sym_names(file, args@.subrange(0, k as int)),
        decreases n - 1 - k,
    {
        let e = args[k];
        assert(file.children(s)[k as int] == e);
        assert(args@.subrange(0, k + 1).drop_last() =~= args@.subrange(0, k as int));
        let ghost before = out.deep_view();
        assert(args@.subrange(0, k + 1).last() == e);
        match &file.nodes[e].kind {
            NodeKind::Sym(x) => {
                out.push(x.as_str());
                assert(out.deep_view() =~= before.push(x@));
            },
            _ => {},
        }
        assert(out.deep_view() =~= base + sym_names(file, args@.subrange(0, k + 1)));
        k = k + 1;
    }
    assert(args@.subrange(0, n - 1) =~= args@.drop_last());
}

/// Computes `alias_entry`.
fn alias_entry_exec(file: &SourceFile, s: NodeId) -> (r: Option<(&str, &str)>)
    requires
        file.valid(s),
    ensures
        match r {
            Some((o, n)) => alias_entry(file, s) == Some((o@, n@)),
            None => alias_entry(file, s) is None,
        },
{
    match &file.nodes[s].kind {
        NodeKind::Send { receiver: None, method, args } => {
            if !str_eq(method.as_str(), "alias_method") || args.len() != 2 {
                return None;
            }
            assert(file.children(s)[0] == args@[0]);
            assert(file.children(s)[1] == args@[1]);
            match (text_of(&file.nodes[args[0]].kind), text_of(&file.nodes[args[1]].kind)) {
                (Some(n), Some(o)) => Some((o, n)),
                _ => None,
            }
        },
        NodeKind::Alias { new_name, old_name } => {
            assert(file.children(s)[0] == *new_name);
            assert(file.children(s)[1] == *old_name);
            match (&file.nodes[*new_name].kind, &file.nodes[*old_name].kind) {
                (NodeKind::Sym(n), NodeKind::Sym(o)) => Some((o.as_str(), n.as_str())),
                _ => None,
            }
        },
        _ => None,
    }
}

/// Computes `alias_of`.
fn alias_of_exec<'a>(file: &'a SourceFile, stmts: &Vec<NodeId>, old: &str) -> (r: Option<&'a str>)
    requires
        file.wf(),
        forall|i: int| 0 <= i < stmts@.len() ==> #[trigger] stmts@[i] < file.nodes@.len(),
    ensures
        crate::text::opt_str_view(r) == alias_of(file, stmts@, old@),
{
    let mut i = stmts.len();
    assert(stmts@.subrange(0, i as int) =~= stmts@);
    while i > 0
        invariant
            file.wf(),
            forall|j: int| 0 <= j < stmts@.len() ==> #[trigger] stmts@[j] < file.nodes@.len(),
            i <= stmts@.len(),
            alias_of(file, stmts@, old@) == alias_of(file, stmts@.subrange(0, i as int), old@),
        decreases i,
    {
        let s = stmts[i - 1];
        assert(stmts@.subrange(0, i as int).drop_last() =~= stmts@.subrange(0, i - 1));
        assert(stmts@.subrange(0, i as int).last() == s);
        match alias_entry_exec(file, s) {
            Some((o, n)) => {
                if str_eq(o, old) {
                    return Some(n);
                }
            },
            None => {},
        }
        i = i - 1;
    }
    None
}

/// Computes `defined_names` of `stmts`.
fn defined_action_methods<'a>(file: &'a SourceFile, stmts: &Vec<NodeId>) -> (r: Vec<&'a str>)
    requires
        file.wf(),
        forall|i: int| 0 <= i < stmts@.len() ==> #[trigger] stmts@[i] < file.nodes@.len(),
    ensures
        r.deep_view() == defined_names(file, stmts@),
{
    let mut defined: Vec<&str> = Vec::new();
    let mut i: usize = 0;
    assert(defined.deep_view() =~= defs_of(file, stmts@.subrange(0, 0)));
    while i < stmts.len()
        invariant
            file.wf(),
            forall|j: int| 0 <= j < stmts@.len() ==> #[trigger] stmts@[j] < file.nodes@.len(),
            i <= stmts@.len(),
            defined.deep_view() == defs_of(file, stmts@.subrange(0, i as int)),
        decreases stmts@.len() - i,
    {
        let s = stmts[i];
        assert(stmts@.subrange(0, i + 1).drop_last() =~= stmts@.subrange(0, i as int));
        match &file.nodes[s].kind {
            NodeKind::Def { name, .. } => defined.push(name.as_str()),
            _ => {},
        }
        assert(defined.deep_view() =~= defs_of(file, stmts@.subrange(0, i + 1)));
        i = i + 1;
    }
    assert(stmts@.subrange(0, stmts@.len() as int) =~= stmts@);
    let ghost defs = defined.deep_view();
    let mut k: usize = 0;
    assert(defined.deep_view() =~= defs + delegated_all(file, stmts@.subrange(0, 0)));
    while k < stmts.len()
        invariant
            file.wf(),
            forall|j: int| 0 <= j < stmts@.len() ==> #[trigger] stmts@[j] < file.nodes@.len(),
            k <= stmts@.len(),
            defined.deep_view() == defs + delegated_all(file, stmts@.subrange(0, k as int)),
        decreases stmts@.len() - k,
    {
        let s = stmts[k];
        assert(stmts@.subrange(0, k + 1).drop_last() =~= stmts@.subrange(0, k as int));
        push_delegated(file, s, &mut defined);
        assert(defined.deep_view() =~= defs + delegated_all(file, stmts@.subrange(0, k + 1)));
        k = k + 1;
    }
    let ghost base = defined.deep_view();
    assert(base == defs_of(file, stmts@) + delegated_all(file, stmts@));
    let count = defined.len();
    let mut m: usize = 0;
    assert(defined.deep_view() =~= base + aliased(file, stmts@, base.subrange(0, 0)));
    while m < count
        invariant
            file.wf(),
            forall|j: int| 0 <= j < stmts@.len() ==> #[trigger] stmts@[j] < file.nodes@.len(),
            count == base.len(),
            m <= count,
            defined@.len() >= count,
            defined.deep_view() == base + aliased(file, stmts@, base.subrange(0, m as int)),
        decreases count - m,
    {
        let d = defined[m];
        assert(defined.deep_view()[m as int] == d@);
        assert(base.subrange(0, m + 1).drop_last() =~= base.subrange(0, m as int));
        assert(base.subrange(0, m + 1).last() == d@);
        let ghost before = defined.deep_view();
        let ghost ds = base.subrange(0, m + 1);
        assert(aliased(file, stmts@, ds) == aliased(file, stmts@, ds.drop_last()) + match alias_of(file, stmts@, ds.last()) {
            Some(n) => seq![n],
            None => Seq::empty(),
        });
        match alias_of_exec(file, stmts, d) {
            Some(n) => {
                defined.push(n);
                assert(defined.deep_view() =~= before.push(n@));
            },
            None => {},
        }
        assert(defined.deep_view() =~= base + aliased(file, stmts@, base.subrange(0, m + 1)));
        m = m + 1;
    }
    assert(base.subrange(0, count as int) =~= base);
    defined
}

/// Whether `x` is among `names`.
fn contains_name(names: &Vec<&str>, x: &str) -> (r: bool)
    ensures
        r == names.deep_view().contains(x@),
{
    let mut i: usize = 0;
    while i < names.len()
        invariant
            i <= names@.len(),
            forall|j: int| 0 <= j < i ==> names.deep_view()[j] != x@,
        decreases names@.len() - i,
    {
        if str_eq(names[i], x) {
            assert(names.deep_view()[i as int] == x@);
            return true;
        }
        i = i + 1;
    }
    false
}

impl LexicallyScopedActionFilter {
    /// Reports a filter whose `only:`/`except:` names actions that the
    /// enclosing class or module does not define.
    pub fn check_send(&self, file: &SourceFile, node: NodeId) -> (r: Option<Offense>)
        requires
            file.valid(node),
        ensures
            r.deep_view() == action_filter_finding(file, node),
    {
        match &file.nodes[node].kind {
            NodeKind::Send { receiver: None, method, .. } => {
                if !filter_method(method.as_str()) {
                    return None;
                }
            },
            _ => return None,
        }
        let value = match only_or_except_value(file, node) {
            Some(v) => v,
            None => return None,
        };
        let referenced = array_values(file, value);
        let scope = match file.enclosing_class_or_module(node) {
            Some(s) => s,
            None => return None,
        };
        let (is_class, body) = match &file.nodes[scope].kind {
            NodeKind::Class { body, .. } => {
                proof { if body is Some { assert(file.children(scope).last() == body->0); } }
                (true, *body)
            },
            NodeKind::Module { body, .. } => {
                proof { if body is Some { assert(file.children(scope).last() == body->0); } }
                (false, *body)
            },
            _ => return None,
        };
        let stmts: Vec<NodeId> = match body {
            Some(b) => match &file.nodes[b].kind {
                NodeKind::Begin(l) => {
                    proof {
                        assert forall|j: int| 0 <= j < l@.len() implies #[trigger] l@[j] < file.nodes@.len() by {
                            assert(file.children(b)[j] == l@[j]);
                        }
                    }
                    l.clone()
                },
                _ => Vec::new(),
            },
            None => Vec::new(),
        };
        assert(stmts@ == scope_statements(file, scope));
        let defined = defined_action_methods(file, &stmts);
        let ghost pred = |r: Seq<char>| !defined.deep_view().contains(r);
        let mut unmatched: Vec<&str> = Vec::new();
        let mut i: usize = 0;
        assert(unmatched.deep_view() =~= referenced.deep_view().subrange(0, 0).filter(pred));
        while i < referenced.len()
            invariant
                i <= referenced@.len(),
                pred == (|r: Seq<char>| !defined.deep_view().contains(r)),
                unmatched.deep_view() == referenced.deep_view().subrange(0, i as int).filter(pred),
            decreases referenced@.len() - i,
        {
            let x = referenced[i];
            proof {
                let t = referenced.deep_view().subrange(0, i + 1);
                lemma_filter_push(t, pred);
                assert(t.drop_last() =~= referenced.deep_view().subrange(0, i as int));
                assert(t.last() == x@);
            }
            if !contains_name(&defined, x) {
                unmatched.push(x);
            }
            assert(unmatched.deep_view() =~= referenced.deep_view().subrange(0, i + 1).filter(pred));
            i = i + 1;
        }
        assert(referenced.deep_view().subrange(0, referenced@.len() as int) =~= referenced.deep_view());
        let ghost u = unmatched.deep_view();
        assert(u == undefined_actions(action_names(file, value), defined_names(file, scope_statements(file, scope))));
        if unmatched.len() == 0 {
            return None;
        }
        let word = if is_class { "class" } else { "module" };
        let mut msg = String::new();
        if unmatched.len() == 1 {
            msg.append("`");
            msg.append(unmatched[0]);
            msg.append("`");
            msg.append(" is not explicitly defined on the ");
            msg.append(word);
            msg.append(".");
            assert(msg@ =~= undefined_message(u, word@));
        } else {
            let ghost parts = u.map_values(|x: Seq<char>| quoted(x));
            let mut j: usize = 0;
            while j < unmatched.len()
                invariant
                    unmatched.deep_view() == u,
                    parts == u.map_values(|x: Seq<char>| quoted(x)),
                    j <= u.len(),
                    msg@ == join_sep(parts.subrange(0, j as int), ", "@),
                decreases u.len() - j,
            {
                let ghost before = msg@;
                if j > 0 {
                    msg.append(", ");
                }
                msg.append("`");
                msg.append(unmatched[j]);
                msg.append("`");
                proof {
                    let ps = parts.subrange(0, j + 1);
                    assert(ps.drop_last() =~= parts.subrange(0, j as int));
                    assert(ps.last() == quoted(u[j as int]));
                    if j == 0 {
                        assert(msg@ =~= ps[0]);
                    } else {
                        assert(msg@ =~= join_sep(ps.drop_last(), ", "@) + ", "@ + ps.last());
                    }
                }
                j = j + 1;
            }
            assert(parts.subrange(0, u.len() as int) =~= parts);
            msg.append(" are not explicitly defined on the ");
            msg.append(word);
            msg.append(".");
            assert(msg@ =~= undefined_message(u, word@));
        }
        Some(offense0(file.nodes[node].range, msg))
    }
}

/// The callbacks Rails' `AbstractController::Callbacks` defines for actions.
pub open spec fn action_callbacks() -> Seq<Seq<char>> {
    seq![
        "after_action"@, "append_after_action"@, "append_around_action"@, "append_before_action"@,
        "around_action"@, "before_action"@, "prepend_after_action"@, "prepend_around_action"@,
        "prepend_before_action"@, "skip_after_action"@, "skip_around_action"@, "skip_before_action"@,
        "skip_action_callback"@,
    ]
}

/// Every action callback is checked alike: a receiverless call to any of
/// them inside a class or module, whose `only:`/`except:` names methods the
/// scope does not define, is reported on the call with those names.
pub proof fn lemma_every_callback_checked(file: &SourceFile, node: NodeId, v: NodeId, scope: NodeId)
    requires
        file.kind(node) matches NodeKind::Send { receiver: None, method, args }
            && action_callbacks().contains(method@) && args_filter_value(file, args@) == Some(v),
        file.nearest_ancestor(node, class_or_module()) == Some(scope),
        undefined_actions(action_names(file, v), defined_names(file, scope_statements(file, scope))).len() > 0,
    ensures
        action_filter_finding(file, node) matches Some(f) && f.range == file.range(node) && f.message == undefined_message(
            undefined_actions(action_names(file, v), defined_names(file, scope_statements(file, scope))),
            if file.kind(scope) is Class { "class"@ } else { "module"@ },
        ),
{
    let m = file.kind(node)->Send_method@;
    let k = choose|k: int| 0 <= k < action_callbacks().len() && action_callbacks()[k] == m;
    assert(action_callbacks()[k] == m);
}

} // verus!
