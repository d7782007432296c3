//! `Rails/RedundantPresenceValidationOnBelongsTo`: since Rails 5.0 a
//! required `belongs_to` validates presence itself.

use vstd::prelude::*;
use crate::ast::{call_receiver_of, method_of, args_of, NodeId, NodeKind, Range, SourceFile};
use crate::cops::multiple_route_paths::{indent_at, indentation_of};
use crate::cops::not_null_column::pair_sym_key;
use crate::cops::redundant_foreign_key::{removal_range, removal_span};
use crate::report::{Edit, Finding, Offense};
use crate::text::{opt_str_view, ends_with, join_sep, lemma_filter_push, line_span, str_ends_with, str_eq, whole_lines};

verus! {

/// Reports `validates ..., presence: true` made redundant by `belongs_to`.
#[derive(Debug, Default)]
pub struct RedundantPresenceValidationOnBelongsTo;

/// The value of a pair.
pub open spec fn pair_value(file: &SourceFile, p: NodeId) -> Option<NodeId> {
    match file.kind(p) {
        NodeKind::Pair { value, .. } => Some(value),
        _ => None,
    }
}

/// `presence: true`.
pub open spec fn is_presence_true(file: &SourceFile, p: NodeId) -> bool {
    pair_sym_key(file, p) == Some("presence"@) && (pair_value(file, p) matches Some(v) && file.kind(v) is True)
}

/// The first `presence: true` among `pairs`.
pub open spec fn first_presence(file: &SourceFile, pairs: Seq<NodeId>) -> Option<NodeId>
    decreases pairs.len(),
{
    if pairs.len() == 0 {
        None
    } else if is_presence_true(file, pairs[0]) {
        Some(pairs[0])
    } else {
        first_presence(file, pairs.drop_first())
    }
}

/// `strict: true` or `strict: SomeError`.
pub open spec fn is_strict(file: &SourceFile, p: NodeId) -> bool {
    pair_sym_key(file, p) == Some("strict"@) && (pair_value(file, p) matches Some(v) && (file.kind(v) is True || file.kind(v) is Const))
}

/// An `if:` or `unless:` option.
pub open spec fn is_conditional(file: &SourceFile, p: NodeId) -> bool {
    pair_sym_key(file, p) == Some("if"@) || pair_sym_key(file, p) == Some("unless"@)
}

/// Options that are not validations.
pub open spec fn is_non_validation(k: Seq<char>) -> bool {
    k == "if"@ || k == "unless"@ || k == "on"@ || k == "allow_blank"@ || k == "allow_nil"@ || k == "strict"@
}

/// Presence is the only validation, with other options beside it.
pub open spec fn only_presence_with_extras(file: &SourceFile, pairs: Seq<NodeId>) -> bool {
    pairs.len() > 1 && forall|i: int| 0 <= i < pairs.len() ==> match pair_sym_key(file, #[trigger] pairs[i]) {
        Some(k) => is_non_validation(k) || k == "presence"@,
        None => true,
    }
}

/// The statements beside a statement whose parent is `parent`.
pub open spec fn sibling_statements(file: &SourceFile, parent: NodeId) -> Seq<NodeId> {
    match file.kind(parent) {
        NodeKind::Begin(l) => l@,
        NodeKind::Class { body: Some(b), .. } | NodeKind::Module { body: Some(b), .. } => match file.kind(b) {
            NodeKind::Begin(l) => l@,
            _ => seq![b],
        },
        _ => Seq::empty(),
    }
}

/// A pair test on the options of an association: `0` keyed `foreign_key`,
/// `1` `foreign_key: :<x>`, otherwise `optional: true` or `required: false`.
pub open spec fn pair_test(file: &SourceFile, p: NodeId, which: int, x: Seq<char>) -> bool {
    let k = pair_sym_key(file, p);
    let v = pair_value(file, p);
    if which == 0 {
        k == Some("foreign_key"@)
    } else if which == 1 {
        k == Some("foreign_key"@) && (v matches Some(n) && file.kind(n) matches NodeKind::Sym(s) && s@ == x)
    } else {
        (k == Some("optional"@) && (v matches Some(n) && file.kind(n) is True))
            || (k == Some("required"@) && (v matches Some(n) && file.kind(n) is False))
    }
}

/// Some element of `l` passes `pair_test`.
pub open spec fn pairs_any(file: &SourceFile, l: Seq<NodeId>, which: int, x: Seq<char>) -> bool
    decreases l.len(),
{
    l.len() > 0 && (pairs_any(file, l.drop_last(), which, x) || pair_test(file, l.last(), which, x))
}

/// Some hash among the arguments `a` has a pair passing `pair_test`.
pub open spec fn args_any(file: &SourceFile, a: Seq<NodeId>, which: int, x: Seq<char>) -> bool
    decreases a.len(),
{
    a.len() > 0 && (args_any(file, a.drop_last(), which, x) || match file.kind(a.last()) {
        NodeKind::Hash(l) => pairs_any(file, l@, which, x),
        _ => false,
    })
}

/// `belongs_to` without a receiver.
pub open spec fn is_belongs_to_call(file: &SourceFile, s: NodeId) -> bool {
    file.kind(s) is Send && method_of(file.kind(s)) == Some("belongs_to"@) && call_receiver_of(file.kind(s)) is None
}

/// The association named by a symbol first argument.
pub open spec fn first_arg_name(file: &SourceFile, s: NodeId) -> Option<Seq<char>> {
    let a = args_of(file.kind(s));
    if a.len() > 0 {
        match file.kind(a[0]) {
            NodeKind::Sym(n) => Some(n@),
            _ => None,
        }
    } else {
        None
    }
}

/// The association that owns the attribute `key`: for `<base>_id`, the
/// first `belongs_to :<base>` without `foreign_key:` or with
/// `foreign_key: :<key>`; otherwise the first `belongs_to :<key>`.
pub open spec fn belongs_to_for(file: &SourceFile, sibs: Seq<NodeId>, key: Seq<char>) -> Option<NodeId>
    decreases sibs.len(),
{
    if sibs.len() == 0 {
        None
    } else {
        let s = sibs[0];
        let a = args_of(file.kind(s));
        let hit = if ends_with(key, "_id"@) {
            let base = key.subrange(0, key.len() - 3);
            (first_arg_name(file, s) == Some(base) && !args_any(file, a, 0, Seq::empty())) || args_any(file, a, 1, key)
        } else {
            first_arg_name(file, s) == Some(key)
        };
        if is_belongs_to_call(file, s) && hit {
            Some(s)
        } else {
            belongs_to_for(file, sibs.drop_first(), key)
        }
    }
}

/// The attribute belongs to a required association.
pub open spec fn has_required_belongs_to(file: &SourceFile, sibs: Seq<NodeId>, key: Seq<char>) -> bool {
    match belongs_to_for(file, sibs, key) {
        Some(t) => !args_any(file, args_of(file.kind(t)), 2, Seq::empty()),
        None => false,
    }
}

/// The attribute names among the leading arguments, when all are symbols.
pub open spec fn leading_keys(file: &SourceFile, a: Seq<NodeId>) -> Option<Seq<Seq<char>>>
    decreases a.len(),
{
    if a.len() == 0 {
        Some(Seq::empty())
    } else {
        match (leading_keys(file, a.drop_last()), file.kind(a.last())) {
            (Some(ks), NodeKind::Sym(s)) => Some(ks.push(s@)),
            _ => None,
        }
    }
}

/// The first argument that is the symbol `key`.
pub open spec fn find_key_arg(file: &SourceFile, a: Seq<NodeId>, key: Seq<char>) -> Option<NodeId>
    decreases a.len(),
{
    if a.len() == 0 {
        None
    } else if file.kind(a[0]) matches NodeKind::Sym(s) && s@ == key {
        Some(a[0])
    } else {
        find_key_arg(file, a.drop_first(), key)
    }
}

/// Edits removing the symbol arguments for `keys`, in order.
pub open spec fn key_removals(file: &SourceFile, a: Seq<NodeId>, keys: Seq<Seq<char>>) -> Seq<(Range, Seq<char>)>
    decreases keys.len(),
{
    if keys.len() == 0 {
        Seq::empty()
    } else {
        key_removals(file, a, keys.drop_last()) + match find_key_arg(file, a, keys.last()) {
            Some(k) => seq![(removal_span(file.source@, file.range(k)), Seq::empty())],
            None => Seq::empty(),
        }
    }
}

/// The span of a statement with its whole lines and final newline.
pub open spec fn statement_lines(file: &SourceFile, n: NodeId) -> Range {
    let w = whole_lines(file.source@, file.range(n).start as int, file.range(n).end as int);
    Range { start: w.0 as usize, end: w.1 as usize }
}

/// `n` spaces.
pub open spec fn spaces(n: nat) -> Seq<char> {
    Seq::new(n, |i: int| ' ')
}

/// A new `validates` line for the keys `keys` with the other options `residual`.
pub open spec fn split_validation(indent: Seq<char>, keys: Seq<Seq<char>>, residual: Seq<Seq<char>>) -> Seq<char> {
    indent + "validates "@ + join_sep(keys.map_values(|k: Seq<char>| ":"@ + k), ", "@)
        + (if residual.len() == 0 { Seq::empty() } else { ", "@ + join_sep(residual, ", "@) })
        + "\n"@
}

/// The sources of the pairs other than `presence:`, in order.
pub open spec fn residual_options(file: &SourceFile, pairs: Seq<NodeId>) -> Seq<Seq<char>>
    decreases pairs.len(),
{
    if pairs.len() == 0 {
        Seq::empty()
    } else {
        let p = pairs.last();
        residual_options(file, pairs.drop_last()) + if pair_sym_key(file, p) != Some("presence"@) {
            seq![file.source@.subrange(file.range(p).start as int, file.range(p).end as int)]
        } else {
            Seq::empty()
        }
    }
}

/// The correction: drop the statement, the keys, or the `presence:` option,
/// or move the redundant keys to a validation of their own.
pub open spec fn presence_edits(file: &SourceFile, node: NodeId, all: Seq<Seq<char>>, keys: Seq<Seq<char>>, pairs: Seq<NodeId>, presence: NodeId) -> Seq<(Range, Seq<char>)> {
    let a = args_of(file.kind(node));
    if pairs.len() == 1 {
        if keys == all {
            seq![(statement_lines(file, node), Seq::empty())]
        } else {
            key_removals(file, a, keys)
        }
    } else if keys == all {
        seq![(removal_span(file.source@, file.range(presence)), Seq::empty())]
    } else {
        let end = statement_lines(file, node).end;
        let indent = spaces(indent_at(file.source@, file.range(node).start as int).len());
        key_removals(file, a, keys) + seq![(Range { start: end, end }, split_validation(indent, keys, residual_options(file, pairs)))]
    }
}

/// What `RedundantPresenceValidationOnBelongsTo::check_send` reports for `node`.
pub open spec fn presence_finding(file: &SourceFile, node: NodeId) -> Option<Finding> {
    match file.kind(node) {
        NodeKind::Send { receiver: None, method, args } => {
            let a = args@;
            if file.rails_at_least(5, 0) && method@ == "validates"@ && a.len() > 0 {
                match (file.kind(a.last()), leading_keys(file, a.drop_last()), file.parent(node)) {
                    (NodeKind::Hash(l), Some(all), Some(parent)) => {
                        let pairs = l@;
                        let sibs = sibling_statements(file, parent);
                        let keys = all.filter(|k: Seq<char>| has_required_belongs_to(file, sibs, k));
                        match first_presence(file, pairs) {
                            Some(p) => if all.len() > 0
                                && !(exists|i: int| 0 <= i < pairs.len() && is_strict(file, #[trigger] pairs[i]))
                                && !(exists|i: int| 0 <= i < pairs.len() && is_conditional(file, #[trigger] pairs[i]))
                                && !only_presence_with_extras(file, pairs) && sibs.len() > 0 && keys.len() > 0 {
                                Some(Finding {
                                    range: file.range(p),
                                    message: "Remove explicit presence validation for "@
                                        + join_sep(keys.map_values(|k: Seq<char>| "`"@ + k + "`"@), "/"@) + "."@,
                                    edits: presence_edits(file, node, all, keys, pairs, p),
                                })
                            } else {
                                None
                            },
                            None => None,
                        }
                    },
                    _ => None,
                }
            } else {
                None
            }
        },
        _ => None,
    }
}


/// Computes `pair_sym_key`.
fn pair_key_sym(file: &SourceFile, p: NodeId) -> (r: Option<&str>)
    requires
        file.valid(p),
    ensures
        opt_str_view(r) == pair_sym_key(file, p),
{
    match &file.nodes[p].kind {
        NodeKind::Pair { key, .. } => {
            assert(file.children(p)[0] == *key);
            match &file.nodes[*key].kind {
                NodeKind::Sym(s) => Some(s.as_str()),
                _ => None,
            }
        },
        _ => None,
    }
}

/// Computes `pair_value`, with the value's kind tests the rule needs.
fn value_of(file: &SourceFile, p: NodeId) -> (r: Option<NodeId>)
    requires
        file.valid(p),
    ensures
        r == pair_value(file, p),
        r matches Some(v) ==> v < file.nodes@.len(),
{
    match &file.nodes[p].kind {
        NodeKind::Pair { value, .. } => {
            assert(file.children(p)[1] == *value);
            Some(*value)
        },
        _ => None,
    }
}

/// Decides `pair_test`.
fn pair_test_exec(file: &SourceFile, p: NodeId, which: u8, x: &str) -> (r: bool)
    requires
        file.valid(p),
    ensures
        r == pair_test(file, p, which as int, x@),
{
    let k = pair_key_sym(file, p);
    let v = value_of(file, p);
    if which == 0 {
        match k {
            Some(k) => str_eq(k, "foreign_key"),
            None => false,
        }
    } else if which == 1 {
        let is_fk = match k {
            Some(k) => str_eq(k, "foreign_key"),
            None => false,
        };
        is_fk && match v {
            Some(n) => match &file.nodes[n].kind {
                NodeKind::Sym(s) => str_eq(s.as_str(), x),
                _ => false,
            },
            None => false,
        }
    } else {
        let (opt, req) = match k {
            Some(k) => (str_eq(k, "optional"), str_eq(k, "required")),
            None => (false, false),
        };
        let (t, f) = match v {
            Some(n) => match &file.nodes[n].kind {
                NodeKind::True => (true, false),
                NodeKind::False => (false, true),
                _ => (false, false),
            },
            None => (false, false),
        };
        (opt && t) || (req && f)
    }
}

/// Decides `args_any` for the arguments of the call `n`.
fn args_any_exec(file: &SourceFile, n: NodeId, which: u8, x: &str) -> (r: bool)
    requires
        file.valid(n),
    ensures
        r == args_any(file, args_of(file.kind(n)), which as int, x@),
{
    let a = file.call_arguments(n);
    let mut i: usize = 0;
    let mut found = false;
    while i < a.len()
        invariant
            file.valid(n),
            a@ == args_of(file.kind(n)),
            i <= a@.len(),
            found == args_any(file, a@.subrange(0, i as int), which as int, x@),
        decreases a@.len() - i,
    {
        proof { crate::ast::lemma_args_are_children(file, n, i as int); }
        let h = a[i];
        assert(a@.subrange(0, i + 1).drop_last() =~= a@.subrange(0, i as int));
        let here = match &file.nodes[h].kind {
            NodeKind::Hash(l) => {
                let mut j: usize = 0;
                let mut hit = false;
                while j < l.len()
                    invariant
                        file.valid(h),
                        file.kind(h) == NodeKind::Hash(*l),
                        j <= l@.len(),
                        hit == pairs_any(file, l@.subrange(0, j as int), which as int, x@),
                    decreases l@.len() - j,
                {
                    let p = l[j];
                    assert(file.children(h)[j as int] == p);
                    assert(l@.subrange(0, j + 1).drop_last() =~= l@.subrange(0, j as int));
                    hit = hit || pair_test_exec(file, p, which, x);
                    j = j + 1;
                }
                assert(l@.subrange(0, l@.len() as int) =~= l@);
                hit
            },
            _ => false,
        };
        found = found || here;
        i = i + 1;
    }
    assert(a@.subrange(0, a@.len() as int) =~= a@);
    found
}

/// Computes `first_arg_name`.
fn first_arg(file: &SourceFile, s: NodeId) -> (r: Option<&str>)
    requires
        file.valid(s),
    ensures
        opt_str_view(r) == first_arg_name(file, s),
{
    let a = file.call_arguments(s);
    if a.len() == 0 {
        return None;
    }
    proof { crate::ast::lemma_args_are_children(file, s, 0); }
    match &file.nodes[a[0]].kind {
        NodeKind::Sym(n) => Some(n.as_str()),
        _ => None,
    }
}

/// Computes `belongs_to_for`.
fn belongs_to_for_exec(file: &SourceFile, sibs: &Vec<NodeId>, key: &str) -> (r: Option<NodeId>)
    requires
        file.wf(),
        forall|i: int| 0 <= i < sibs@.len() ==> #[trigger] sibs@[i] < file.nodes@.len(),
    ensures
        r == belongs_to_for(file, sibs@, key@),
        r matches Some(t) ==> t < file.nodes@.len(),
{
    let by_fk = str_ends_with(key, "_id");
    let base = if by_fk {
        proof { reveal_strlit("_id"); }
        key.substring_char(0, key.unicode_len() - 3)
    } else {
        key
    };
    proof { reveal_strlit(""); assert(""@ =~= Seq::<char>::empty()); }
    let mut i: usize = 0;
    assert(sibs@.subrange(0, sibs@.len() as int) =~= sibs@);
    while i < sibs.len()
        invariant
            file.wf(),
            forall|j: int| 0 <= j < sibs@.len() ==> #[trigger] sibs@[j] < file.nodes@.len(),
            by_fk == ends_with(key@, "_id"@),
            by_fk ==> base@ == key@.subrange(0, key@.len() - 3),
            !by_fk ==> base == key,
            ""@ =~= Seq::<char>::empty(),
            i <= sibs@.len(),
            belongs_to_for(file, sibs@, key@) == belongs_to_for(file, sibs@.subrange(i as int, sibs@.len() as int), key@),
        decreases sibs@.len() - i,
    {
        let s = sibs[i];
        assert(sibs@.subrange(i as int, sibs@.len() as int).drop_first() =~= sibs@.subrange(i + 1, sibs@.len() as int));
        assert(sibs@.subrange(i as int, sibs@.len() as int)[0] == s);
        let is_bt = match &file.nodes[s].kind {
            NodeKind::Send { receiver: None, method, .. } => str_eq(method.as_str(), "belongs_to"),
            _ => false,
        };
        let hit = if by_fk {
            let named = match first_arg(file, s) {
                Some(n) => str_eq(n, base),
                None => false,
            };
            (named && !args_any_exec(file, s, 0, "")) || args_any_exec(file, s, 1, key)
        } else {
            match first_arg(file, s) {
                Some(n) => str_eq(n, key),
                None => false,
            }
        };
        proof { reveal_strlit(""); assert(""@ =~= Seq::<char>::empty()); }
        if is_bt && hit {
            return Some(s);
        }
        i = i + 1;
    }
    None
}

/// Decides `has_required_belongs_to`.
fn has_non_optional_belongs_to(file: &SourceFile, sibs: &Vec<NodeId>, key: &str) -> (r: bool)
    requires
        file.wf(),
        forall|i: int| 0 <= i < sibs@.len() ==> #[trigger] sibs@[i] < file.nodes@.len(),
    ensures
        r == has_required_belongs_to(file, sibs@, key@),
{
    match belongs_to_for_exec(file, sibs, key) {
        Some(t) => {
            proof { reveal_strlit(""); assert(""@ =~= Seq::<char>::empty()); }
            !args_any_exec(file, t, 2, "")
        },
        None => false,
    }
}



/// Once a leading argument is not a symbol, no longer prefix has keys.
proof fn lemma_leading_keys_none(file: &SourceFile, a: Seq<NodeId>, i: int)
    requires
        0 < i <= a.len(),
        leading_keys(file, a.subrange(0, i)) is None,
    ensures
        leading_keys(file, a) is None,
    decreases a.len() - i,
{
    if i < a.len() {
        assert(a.subrange(0, i + 1).drop_last() =~= a.subrange(0, i));
        lemma_leading_keys_none(file, a, i + 1);
    } else {
        assert(a.subrange(0, i) =~= a);
    }
}

/// The parts `parts`, each between `pre` and `post`, joined by `sep`.
fn join_wrapped(parts: &Vec<&str>, pre: &str, post: &str, sep: &str) -> (r: String)
    ensures
        r@ == join_sep(parts.deep_view().map_values(|k: Seq<char>| pre@ + k + post@), sep@),
{
    let ghost all = parts.deep_view().map_values(|k: Seq<char>| pre@ + k + post@);
    let mut out = String::new();
    let mut j: usize = 0;
    while j < parts.len()
        invariant
            all == parts.deep_view().map_values(|k: Seq<char>| pre@ + k + post@),
            j <= parts@.len(),
            out@ == join_sep(all.subrange(0, j as int), sep@),
        decreases parts@.len() - j,
    {
        if j > 0 {
            out.append(sep);
        }
        out.append(pre);
        out.append(parts[j]);
        out.append(post);
        proof {
            let ps = all.subrange(0, j + 1);
            assert(ps.drop_last() =~= all.subrange(0, j as int));
            assert(ps.last() == pre@ + parts@[j as int]@ + post@);
            if j == 0 {
                assert(out@ =~= ps[0]);
            } else {
                assert(out@ =~= join_sep(ps.drop_last(), sep@) + sep@ + ps.last());
            }
        }
        j = j + 1;
    }
    assert(all.subrange(0, parts@.len() as int) =~= all);
    out
}

/// Computes `find_key_arg` over the arguments of `n`.
fn find_key_arg_exec(file: &SourceFile, n: NodeId, key: &str) -> (r: Option<NodeId>)
    requires
        file.valid(n),
    ensures
        r == find_key_arg(file, args_of(file.kind(n)), key@),
        r matches Some(k) ==> k < file.nodes@.len(),
{
    let a = file.call_arguments(n);
    let mut i: usize = 0;
    assert(a@.subrange(0, a@.len() as int) =~= a@);
    while i < a.len()
        invariant
            file.valid(n),
            a@ == args_of(file.kind(n)),
            i <= a@.len(),
            find_key_arg(file, a@, key@) == find_key_arg(file, a@.subrange(i as int, a@.len() as int), key@),
        decreases a@.len() - i,
    {
        proof { crate::ast::lemma_args_are_children(file, n, i as int); }
        let x = a[i];
        assert(a@.subrange(i as int, a@.len() as int).drop_first() =~= a@.subrange(i + 1, a@.len() as int));
        assert(a@.subrange(i as int, a@.len() as int)[0] == x);
        match &file.nodes[x].kind {
            NodeKind::Sym(s) => {
                if str_eq(s.as_str(), key) {
                    return Some(x);
                }
            },
            _ => {},
        }
        i = i + 1;
    }
    None
}

/// Computes `key_removals` onto the end of `edits`.
fn push_key_removals(file: &SourceFile, n: NodeId, keys: &Vec<&str>, edits: &mut Vec<Edit>)
    requires
        file.valid(n),
    ensures
        final(edits).deep_view() == old(edits).deep_view() + key_removals(file, args_of(file.kind(n)), keys.deep_view()),
{
    let ghost base = edits.deep_view();
    let ghost a = args_of(file.kind(n));
    let mut i: usize = 0;
    assert(edits.deep_view() =~= base + key_removals(file, a, keys.deep_view().subrange(0, 0)));
    while i < keys.len()
        invariant
            file.valid(n),
            a == args_of(file.kind(n)),
            i <= keys@.len(),
            edits.deep_view() == base + key_removals(file, a, keys.deep_view().subrange(0, i as int)),
        decreases keys@.len() - i,
    {
        let ghost ks = keys.deep_view().subrange(0, i + 1);
        assert(ks.drop_last() =~= keys.deep_view().subrange(0, i as int));
        assert(ks.last() == keys[i as int]@);
        let ghost before = edits.deep_view();
        match find_key_arg_exec(file, n, keys[i]) {
            Some(k) => {
                let r = removal_range(file.source.as_str(), file.nodes[k].range);
                edits.push(Edit { range: r, replacement: String::new() });
                assert(edits.deep_view() =~= before.push((r, Seq::<char>::empty())));
            },
            None => {},
        }
        assert(edits.deep_view() =~= base + key_removals(file, a, keys.deep_view().subrange(0, i + 1)));
        i = i + 1;
    }
    assert(keys.deep_view().subrange(0, keys@.len() as int) =~= keys.deep_view());
}

impl RedundantPresenceValidationOnBelongsTo {
    /// Reports `presence: true` on attributes of required `belongs_to`
    /// associations, with the edits that drop it.
    pub fn check_send(&self, file: &SourceFile, node: NodeId) -> (r: Option<Offense>)
        requires
            file.valid(node),
        ensures
            r.deep_view() == presence_finding(file, node),
    {
        if !file.rails_version_at_least(5, 0) {
            return None;
        }
        let (method, args) = match &file.nodes[node].kind {
            NodeKind::Send { receiver: None, method, args } => (method.as_str(), args),
            _ => return None,
        };
        let n = args.len();
        if !str_eq(method, "validates") || n == 0 {
            return None;
        }
        let h = args[n - 1];
        assert(file.children(node)[n - 1] == h);
        let list = match &file.nodes[h].kind {
            NodeKind::Hash(l) => l,
            _ => return None,
        };
        let mut all: Vec<&str> = Vec::new();
        let mut i: usize = 0;
        while i < n - 1
            invariant
                file.valid(node),
                file.kind(node) matches NodeKind::Send { receiver: None, args: a, .. } && a@ == args@,
                n == args@.len(),
                n > 0,
                i <= n - 1,
                leading_keys(file, args@.subrange(0, i as int)) == Some(all.deep_view()),
            decreases n - 1 - i,
        {
            let x = args[i];
            assert(file.children(node)[i as int] == x);
            assert(args@.subrange(0, i + 1).drop_last() =~= args@.subrange(0, i as int));
            match &file.nodes[x].kind {
                NodeKind::Sym(s) => {
                    let ghost before = all.deep_view();
                    all.push(s.as_str());
                    assert(all.deep_view() =~= before.push(s@));
                },
                _ => {
                    assert(args@.drop_last().subrange(0, i + 1) =~= args@.subrange(0, i + 1));
                    proof { lemma_leading_keys_none(file, args@.drop_last(), i as int + 1); }
                    return None;
                },
            }
            i = i + 1;
        }
        assert(args@.subrange(0, n - 1) =~= args@.drop_last());
        let parent = match file.nodes[node].parent {
            Some(p) => p,
            None => return None,
        };
        assert(parent < node);
        let sibs: Vec<NodeId> = match &file.nodes[parent].kind {
            NodeKind::Begin(l) => {
                proof {
                    assert forall|j: int| 0 <= j < l@.len() implies #[trigger] l@[j] < file.nodes@.len() by {
                        assert(file.children(parent)[j] == l@[j]);
                    }
                }
                l.clone()
            },
            NodeKind::Class { body: Some(b), .. } | NodeKind::Module { body: Some(b), .. } => {
                assert(file.children(parent).last() == *b);
                match &file.nodes[*b].kind {
                    NodeKind::Begin(l) => {
                        proof {
                            assert forall|j: int| 0 <= j < l@.len() implies #[trigger] l@[j] < file.nodes@.len() by {
                                assert(file.children(*b)[j] == l@[j]);
                            }
                        }
                        l.clone()
                    },
                    _ => {
                        let mut v: Vec<NodeId> = Vec::new();
                        v.push(*b);
                        v
                    },
                }
            },
            _ => Vec::new(),
        };
        assert(sibs@ == sibling_statements(file, parent));
        let ghost pred = |k: Seq<char>| has_required_belongs_to(file, sibs@, k);
        let mut keys: Vec<&str> = Vec::new();
        let mut all_kept = true;
        let mut k: usize = 0;
        while k < all.len()
            invariant
                file.wf(),
                forall|j: int| 0 <= j < sibs@.len() ==> #[trigger] sibs@[j] < file.nodes@.len(),
                pred == (|k: Seq<char>| has_required_belongs_to(file, sibs@, k)),
                k <= all@.len(),
                keys.deep_view() == all.deep_view().subrange(0, k as int).filter(pred),
                all_kept ==> keys.deep_view() == all.deep_view().subrange(0, k as int),
                !all_kept ==> keys.deep_view().len() < k,
            decreases all@.len() - k,
        {
            let x = all[k];
            proof {
                let t = all.deep_view().subrange(0, k + 1);
                lemma_filter_push(t, pred);
                assert(t.drop_last() =~= all.deep_view().subrange(0, k as int));
                assert(t.last() == x@);
            }
            let ghost before = keys.deep_view();
            if has_non_optional_belongs_to(file, &sibs, x) {
                keys.push(x);
                assert(keys.deep_view() =~= before.push(x@));
            } else {
                all_kept = false;
            }
            assert(keys.deep_view() =~= all.deep_view().subrange(0, k + 1).filter(pred));
            proof {
                if all_kept {
                    assert(keys.deep_view() =~= all.deep_view().subrange(0, k + 1));
                }
            }
            k = k + 1;
        }
        assert(all.deep_view().subrange(0, all@.len() as int) =~= all.deep_view());
        let ghost kv = keys.deep_view();
        let ghost av = all.deep_view();
        assert(all_kept == (kv == av));
        // The first `presence: true`, and the options that block the report.
        let mut presence: Option<NodeId> = None;
        let mut strict = false;
        let mut cond = false;
        let mut only_extras = true;
        let mut j: usize = 0;
        assert(list@.subrange(0, list@.len() as int) =~= list@);
        while j < list.len()
            invariant
                file.valid(h),
                file.kind(h) == NodeKind::Hash(*list),
                j <= list@.len(),
                match presence {
                    Some(p) => first_presence(file, list@) == Some(p) && p < file.nodes@.len(),
                    None => first_presence(file, list@) == first_presence(file, list@.subrange(j as int, list@.len() as int)),
                },
                strict == exists|x: int| 0 <= x < j && is_strict(file, #[trigger] list@[x]),
                cond == exists|x: int| 0 <= x < j && is_conditional(file, #[trigger] list@[x]),
                only_extras == forall|x: int| 0 <= x < j ==> match pair_sym_key(file, #[trigger] list@[x]) {
                    Some(k) => is_non_validation(k) || k == "presence"@,
                    None => true,
                },
            decreases list@.len() - j,
        {
            let p = list[j];
            assert(file.children(h)[j as int] == p);
            let key = pair_key_sym(file, p);
            let val = value_of(file, p);
            let (is_true, is_const) = match val {
                Some(v) => match &file.nodes[v].kind {
                    NodeKind::True => (true, false),
                    NodeKind::Const { .. } => (false, true),
                    _ => (false, false),
                },
                None => (false, false),
            };
            let (kp, ks, kc, kn) = match key {
                Some(k) => (
                    str_eq(k, "presence"),
                    str_eq(k, "strict"),
                    str_eq(k, "if") || str_eq(k, "unless"),
                    str_eq(k, "if") || str_eq(k, "unless") || str_eq(k, "on") || str_eq(k, "allow_blank")
                        || str_eq(k, "allow_nil") || str_eq(k, "strict") || str_eq(k, "presence"),
                ),
                None => (false, false, false, true),
            };
            assert(list@.subrange(j as int, list@.len() as int).drop_first() =~= list@.subrange(j + 1, list@.len() as int));
            assert(list@.subrange(j as int, list@.len() as int)[0] == p);
            if presence.is_none() && kp && is_true {
                presence = Some(p);
            }
            if ks && (is_true || is_const) {
                assert(is_strict(file, list@[j as int]));
            }
            if kc {
                assert(is_conditional(file, list@[j as int]));
            }
            strict = strict || (ks && (is_true || is_const));
            cond = cond || kc;
            only_extras = only_extras && kn;
            j = j + 1;
        }
        let p = match presence {
            Some(p) => p,
            None => return None,
        };
        let only_extras = only_extras && list.len() > 1;
        if all.len() == 0 || strict || cond || only_extras || sibs.len() == 0 || keys.len() == 0 {
            return None;
        }
        let msg_keys = join_wrapped(&keys, "`", "`", "/");
        let mut msg = String::from_str("Remove explicit presence validation for ");
        msg.append(msg_keys.as_str());
        msg.append(".");
        assert(kv.map_values(|k: Seq<char>| "`"@ + k + "`"@) =~= kv.map_values(|k: Seq<char>| "`"@ + k + "`"@));
        let mut edits: Vec<Edit> = Vec::new();
        let nr = file.nodes[node].range;
        if list.len() == 1 {
            if all_kept {
                let (s0, e0) = line_span(file.source.as_str(), nr.start, nr.end);
                edits.push(Edit { range: Range { start: s0, end: e0 }, replacement: String::new() });
            } else {
                push_key_removals(file, node, &keys, &mut edits);
            }
        } else if all_kept {
            let r = removal_range(file.source.as_str(), file.nodes[p].range);
            edits.push(Edit { range: r, replacement: String::new() });
        } else {
            push_key_removals(file, node, &keys, &mut edits);
            let (_s0, e0) = line_span(file.source.as_str(), nr.start, nr.end);
            let ind = indentation_of(file.source.as_str(), nr.start);
            let width = ind.unicode_len();
            let mut text = String::new();
            let mut w: usize = 0;
            while w < width
                invariant
                    w <= width,
                    text@ =~= spaces(w as nat),
                decreases width - w,
            {
                crate::text::push_char(&mut text, ' ');
                w = w + 1;
                assert(text@ =~= spaces(w as nat));
            }
            text.append("validates ");
            let names = join_wrapped(&keys, ":", "", ", ");
            assert(kv.map_values(|k: Seq<char>| ":"@ + k + ""@) =~= kv.map_values(|k: Seq<char>| ":"@ + k)) by {
                reveal_strlit("");
            }
            text.append(names.as_str());
            // The options other than `presence:`.
            let mut residual = String::new();
            let mut parts: Vec<&str> = Vec::new();
            let mut q: usize = 0;
            assert(parts.deep_view() =~= residual_options(file, list@.subrange(0, 0)));
            while q < list.len()
                invariant
                    file.valid(h),
                    file.kind(h) == NodeKind::Hash(*list),
                    q <= list@.len(),
                    parts.deep_view() == residual_options(file, list@.subrange(0, q as int)),
                decreases list@.len() - q,
            {
                let x = list[q];
                assert(file.children(h)[q as int] == x);
                assert(list@.subrange(0, q + 1).drop_last() =~= list@.subrange(0, q as int));
                let keep = match pair_key_sym(file, x) {
                    Some(k) => !str_eq(k, "presence"),
                    None => true,
                };
                let ghost before = parts.deep_view();
                if keep {
                    let src = file.raw_source(file.nodes[x].range);
                    parts.push(src);
                    assert(parts.deep_view() =~= before.push(src@));
                }
                assert(parts.deep_view() =~= residual_options(file, list@.subrange(0, q + 1)));
                q = q + 1;
            }
            assert(list@.subrange(0, list@.len() as int) =~= list@);
            if parts.len() > 0 {
                residual.append(", ");
                let joined = join_wrapped(&parts, "", "", ", ");
                assert(parts.deep_view().map_values(|k: Seq<char>| ""@ + k + ""@) =~= parts.deep_view()) by {
                    reveal_strlit("");
                }
                residual.append(joined.as_str());
            }
            text.append(residual.as_str());
            text.append("\n");
            assert(text@ =~= split_validation(spaces(ind@.len()), kv, residual_options(file, list@)));
            edits.push(Edit { range: Range { start: e0, end: e0 }, replacement: text });
        }
        let o = Offense { range: file.nodes[p].range, message: msg, edits };
        assert(o.deep_view().edits =~= presence_edits(file, node, av, kv, list@, p));
        Some(o)
    }
}

/// An attribute `<base>_id` is owned by a plain `belongs_to :<base>`: when
/// the first receiverless `belongs_to` among the sibling statements names
/// `<base>` and has no `foreign_key:` option and no `optional: true` /
/// `required: false`, the attribute belongs to a required association.
pub proof fn lemma_base_id_owned_by_belongs_to(file: &SourceFile, sibs: Seq<NodeId>, j: int, base: Seq<char>)
    requires
        0 <= j < sibs.len(),
        forall|i: int| 0 <= i < j ==> !is_belongs_to_call(file, #[trigger] sibs[i]),
        is_belongs_to_call(file, sibs[j]),
        first_arg_name(file, sibs[j]) == Some(base),
        !args_any(file, args_of(file.kind(sibs[j])), 0, Seq::empty()),
        !args_any(file, args_of(file.kind(sibs[j])), 2, Seq::empty()),
    ensures
        belongs_to_for(file, sibs, base + "_id"@) == Some(sibs[j]),
        has_required_belongs_to(file, sibs, base + "_id"@),
    decreases j,
{
    let key = base + "_id"@;
    reveal_strlit("_id");
    assert(key.subrange(key.len() - 3, key.len() as int) =~= "_id"@);
    assert(ends_with(key, "_id"@));
    assert(key.subrange(0, key.len() - 3) =~= base);
    if j > 0 {
        assert forall|i: int| 0 <= i < j - 1 implies !is_belongs_to_call(file, #[trigger] sibs.drop_first()[i]) by {
            assert(sibs.drop_first()[i] == sibs[i + 1]);
        }
        lemma_base_id_owned_by_belongs_to(file, sibs.drop_first(), j - 1, base);
        assert(!is_belongs_to_call(file, sibs[0]));
    }
}

} // verus!
