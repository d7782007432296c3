//! `Rails/InverseOf`: associations whose inverse Rails cannot infer need
//! `inverse_of:`.

use vstd::prelude::*;
use crate::ast::{args_of, method_of, NodeId, NodeKind, SourceFile};
use crate::cops::not_null_column::pair_sym_key;
use crate::cops::redundant_presence_validation_on_belongs_to::pair_value;
use crate::cops::redundant_receiver_in_with_options::is_block_kind;
use crate::cops::reversible_migration::block_call_of;
use crate::report::{offense0, Finding, Offense};
use crate::text::{lemma_filter_push, str_eq};

verus! {

/// Reports associations that need `inverse_of:`.
#[derive(Debug, Default)]
pub struct InverseOf;

/// Options of `InverseOf`.
#[derive(Debug, Default)]
pub struct InverseOfOptions {
    /// A scope block alone does not call for `inverse_of:`.
    pub ignore_scopes: bool,
}

/// The pairs among the elements of a hash argument (none for other nodes).
pub open spec fn hash_arg_pairs(file: &SourceFile, a: NodeId) -> Seq<NodeId> {
    match file.kind(a) {
        NodeKind::Hash(l) => l@.filter(|c: NodeId| file.kind(c) is Pair),
        _ => Seq::empty(),
    }
}

/// A hash argument with a `**x` element.
pub open spec fn hash_arg_kwsplat(file: &SourceFile, a: NodeId) -> bool {
    file.kind(a) matches NodeKind::Hash(l) && exists|i: int| 0 <= i < l@.len() && file.kind(#[trigger] l@[i]) is Kwsplat
}

/// The pairs of the hash arguments among `args`, in order.
pub open spec fn args_pairs(file: &SourceFile, args: Seq<NodeId>) -> Seq<NodeId>
    decreases args.len(),
{
    if args.len() == 0 {
        Seq::empty()
    } else {
        args_pairs(file, args.drop_last()) + hash_arg_pairs(file, args.last())
    }
}

/// Some hash argument among `args` has a `**x` element.
pub open spec fn args_kwsplat(file: &SourceFile, args: Seq<NodeId>) -> bool {
    exists|i: int| 0 <= i < args.len() && hash_arg_kwsplat(file, #[trigger] args[i])
}

/// The name of a block's first parameter, when it is a plain one.
pub open spec fn first_param(file: &SourceFile, blk: NodeId) -> Option<Seq<char>> {
    match file.kind(blk) {
        NodeKind::Block { args, .. } => match file.kind(args) {
            NodeKind::Args(l) => if l@.len() > 0 {
                match file.kind(l@[0]) {
                    NodeKind::Arg(s) => Some(s@),
                    _ => None,
                }
            } else {
                None
            },
            _ => None,
        },
        _ => None,
    }
}

/// A `with_options` block applies to the association: both without a
/// receiver and a block parameter, or the receiver is the parameter.
pub open spec fn same_context(file: &SourceFile, blk: NodeId, recv: Option<NodeId>) -> bool {
    match (first_param(file, blk), recv) {
        (None, None) => true,
        (Some(a), Some(r)) => file.kind(r) matches NodeKind::Lvar(s) && s@ == a,
        _ => false,
    }
}

/// The call of a `with_options` block that applies to the association.
pub open spec fn applying_with_options(file: &SourceFile, a: NodeId, recv: Option<NodeId>) -> Option<NodeId> {
    match block_call_of(file.kind(a)) {
        Some(c) => if method_of(file.kind(c)) == Some("with_options"@) && same_context(file, a, recv) { Some(c) } else { None },
        None => None,
    }
}

/// The option pairs of the applying `with_options` blocks around `n`,
/// nearest first.
pub open spec fn ancestor_pairs(file: &SourceFile, n: NodeId, recv: Option<NodeId>) -> Seq<NodeId>
    decreases n,
{
    match file.parent(n) {
        Some(p) => if p < n {
            (match applying_with_options(file, p, recv) {
                Some(c) => args_pairs(file, args_of(file.kind(c))),
                None => Seq::empty(),
            }) + ancestor_pairs(file, p, recv)
        } else {
            Seq::empty()
        },
        None => Seq::empty(),
    }
}

/// Some applying `with_options` block around `n` has a `**x` option.
pub open spec fn ancestor_kwsplat(file: &SourceFile, n: NodeId, recv: Option<NodeId>) -> bool
    decreases n,
{
    match file.parent(n) {
        Some(p) => p < n && ((match applying_with_options(file, p, recv) {
            Some(c) => args_kwsplat(file, args_of(file.kind(c))),
            None => false,
        }) || ancestor_kwsplat(file, p, recv)),
        None => false,
    }
}

/// A pair test: `0` `through:`/`polymorphic:` set, `1` `conditions:`/
/// `foreign_key:` set, `2` `as:` set, `3` `inverse_of:` set, otherwise
/// `inverse_of: nil`. "Set" means with a value other than `nil`.
pub open spec fn option_test(file: &SourceFile, p: NodeId, which: int) -> bool {
    let k = pair_sym_key(file, p);
    let set = pair_value(file, p) matches Some(v) && !(file.kind(v) is Nil);
    if which == 0 {
        (k == Some("through"@) || k == Some("polymorphic"@)) && set
    } else if which == 1 {
        (k == Some("conditions"@) || k == Some("foreign_key"@)) && set
    } else if which == 2 {
        k == Some("as"@) && set
    } else if which == 3 {
        k == Some("inverse_of"@) && set
    } else {
        k == Some("inverse_of"@) && (pair_value(file, p) matches Some(v) && file.kind(v) is Nil)
    }
}

/// Some pair passes `option_test(which)`.
pub open spec fn any_option(file: &SourceFile, pairs: Seq<NodeId>, which: int) -> bool {
    exists|i: int| 0 <= i < pairs.len() && option_test(file, #[trigger] pairs[i], which)
}

/// All options of the association: its own, then those of the applying
/// `with_options` blocks.
pub open spec fn all_pairs(file: &SourceFile, node: NodeId) -> Seq<NodeId> {
    let a = args_of(file.kind(node));
    args_pairs(file, a.drop_first()) + ancestor_pairs(file, node, crate::ast::call_receiver_of(file.kind(node)))
}

/// What `InverseOf::check_send` reports for `node`.
pub open spec fn inverse_of_finding(file: &SourceFile, node: NodeId, ignore_scopes: bool) -> Option<Finding> {
    match file.kind(node) {
        NodeKind::Send { receiver, method, args } => {
            let a = args@;
            let pairs = all_pairs(file, node);
            let kwsplat = args_kwsplat(file, a.drop_first()) || ancestor_kwsplat(file, node, receiver);
            let has_scope = !ignore_scopes && exists|i: int| 1 <= i < a.len() && is_block_kind(file.kind(#[trigger] a[i]));
            let needs = any_option(file, pairs, 1) || (!file.rails_at_least(5, 2) && any_option(file, pairs, 2));
            if (method@ == "has_many"@ || method@ == "has_one"@ || method@ == "belongs_to"@) && a.len() > 0
                && !any_option(file, pairs, 0) && (has_scope || needs) && !any_option(file, pairs, 3)
                && !(kwsplat && !any_option(file, pairs, 4)) {
                Some(Finding {
                    range: file.name_range(node),
                    message: if any_option(file, pairs, 4) {
                        "You specified `inverse_of: nil`, you probably meant to use `inverse_of: false`."@
                    } else {
                        "Specify an `:inverse_of` option."@
                    },
                    edits: Seq::empty(),
                })
            } else {
                None
            }
        },
        _ => None,
    }
}

/// Appends `hash_arg_pairs(a)` to `out`; whether `a` has a `**x` element.
fn collect_hash_pairs(file: &SourceFile, a: NodeId, out: &mut Vec<NodeId>) -> (k: bool)
    requires
        file.valid(a),
        forall|i: int| 0 <= i < old(out)@.len() ==> #[trigger] old(out)@[i] < file.nodes@.len(),
    ensures
        final(out)@ == old(out)@ + hash_arg_pairs(file, a),
        forall|i: int| 0 <= i < final(out)@.len() ==> #[trigger] final(out)@[i] < file.nodes@.len(),
        k == hash_arg_kwsplat(file, a),
{
    let list = match &file.nodes[a].kind {
        NodeKind::Hash(l) => l,
        _ => {
            assert(out@ =~= old(out)@ + hash_arg_pairs(file, a));
            return false;
        },
    };
    let ghost base = out@;
    let ghost pred = |c: NodeId| file.kind(c) is Pair;
    let mut kw = false;
    let mut i: usize = 0;
    assert(out@ =~= base + list@.subrange(0, 0).filter(pred));
    while i < list.len()
        invariant
            file.valid(a),
            file.kind(a) == NodeKind::Hash(*list),
            pred == (|c: NodeId| file.kind(c) is Pair),
            i <= list@.len(),
            out@ == base + list@.subrange(0, i as int).filter(pred),
            forall|j: int| 0 <= j < out@.len() ==> #[trigger] out@[j] < file.nodes@.len(),
            kw == exists|j: int| 0 <= j < i && file.kind(#[trigger] list@[j]) is Kwsplat,
        decreases list@.len() - i,
    {
        let c = list[i];
        assert(file.children(a)[i as int] == c);
        proof {
            let t = list@.subrange(0, i + 1);
            lemma_filter_push(t, pred);
            assert(t.drop_last() =~= list@.subrange(0, i as int));
        }
        let ghost before = out@;
        match &file.nodes[c].kind {
            NodeKind::Pair { .. } => {
                out.push(c);
                assert(out@ =~= before.push(c));
            },
            NodeKind::Kwsplat(_) => {
                assert(file.kind(list@[i as int]) is Kwsplat);
                kw = true;
            },
            _ => {},
        }
        assert(out@ =~= base + list@.subrange(0, i + 1).filter(pred));
        i = i + 1;
    }
    assert(list@.subrange(0, list@.len() as int) =~= list@);
    kw
}

/// Appends `args_pairs` of the arguments of the call `n` from index
/// `from` on; whether one of them has a `**x` element.
fn collect_args_pairs(file: &SourceFile, n: NodeId, from: usize, out: &mut Vec<NodeId>) -> (k: bool)
    requires
        file.valid(n),
        forall|i: int| 0 <= i < old(out)@.len() ==> #[trigger] old(out)@[i] < file.nodes@.len(),
    ensures
        final(out)@ == old(out)@ + args_pairs(file, args_of(file.kind(n)).subrange(
            if from <= args_of(file.kind(n)).len() { from as int } else { args_of(file.kind(n)).len() as int },
            args_of(file.kind(n)).len() as int)),
        forall|i: int| 0 <= i < final(out)@.len() ==> #[trigger] final(out)@[i] < file.nodes@.len(),
        k == args_kwsplat(file, args_of(file.kind(n)).subrange(
            if from <= args_of(file.kind(n)).len() { from as int } else { args_of(file.kind(n)).len() as int },
            args_of(file.kind(n)).len() as int)),
{
    let args = file.call_arguments(n);
    let start = if from <= args.len() { from } else { args.len() };
    let ghost base = out@;
    let mut kw = false;
    let mut i = start;
    assert(out@ =~= base + args_pairs(file, args@.subrange(start as int, start as int)));
    while i < args.len()
        invariant
            file.valid(n),
            args@ == args_of(file.kind(n)),
            start <= i <= args@.len(),
            out@ == base + args_pairs(file, args@.subrange(start as int, i as int)),
            forall|j: int| 0 <= j < out@.len() ==> #[trigger] out@[j] < file.nodes@.len(),
            kw == exists|j: int| start <= j < i && hash_arg_kwsplat(file, #[trigger] args@[j]),
        decreases args@.len() - i,
    {
        proof { crate::ast::lemma_args_are_children(file, n, i as int); }
        let a = args[i];
        assert(args@.subrange(start as int, i + 1).drop_last() =~= args@.subrange(start as int, i as int));
        let k = collect_hash_pairs(file, a, out);
        if k {
            assert(hash_arg_kwsplat(file, args@[i as int]));
        }
        kw = kw || k;
        i = i + 1;
    }
    proof {
        let s = args@.subrange(start as int, args@.len() as int);
        if kw {
            let j = choose|j: int| start <= j < args@.len() && hash_arg_kwsplat(file, #[trigger] args@[j]);
            assert(s[j - start] == args@[j]);
        } else {
            assert forall|j: int| 0 <= j < s.len() implies !hash_arg_kwsplat(file, #[trigger] s[j]) by {
                assert(s[j] == args@[j + start]);
            }
        }
    }
    kw
}

/// Computes `first_param`.
fn first_param_exec(file: &SourceFile, blk: NodeId) -> (r: Option<&str>)
    requires
        file.valid(blk),
    ensures
        crate::text::opt_str_view(r) == first_param(file, blk),
{
    match &file.nodes[blk].kind {
        NodeKind::Block { args, .. } => {
            assert(file.children(blk)[1] == *args);
            match &file.nodes[*args].kind {
                NodeKind::Args(l) => {
                    if l.len() == 0 {
                        return None;
                    }
                    assert(file.children(*args)[0] == l@[0]);
                    match &file.nodes[l[0]].kind {
                        NodeKind::Arg(s) => Some(s.as_str()),
                        _ => None,
                    }
                },
                _ => None,
            }
        },
        _ => None,
    }
}

/// Computes `applying_with_options`.
fn applying_with_options_exec(file: &SourceFile, a: NodeId, recv: Option<NodeId>) -> (r: Option<NodeId>)
    requires
        file.valid(a),
        recv matches Some(x) ==> x < file.nodes@.len(),
    ensures
        r == applying_with_options(file, a, recv),
        r matches Some(c) ==> c < file.nodes@.len(),
{
    let call = match &file.nodes[a].kind {
        NodeKind::Block { call, .. } => *call,
        NodeKind::Numblock { send, .. } => *send,
        NodeKind::Itblock { send, .. } => *send,
        _ => return None,
    };
    assert(file.children(a)[0] == call);
    let wo = match file.method_name(call) {
        Some(m) => str_eq(m, "with_options"),
        None => false,
    };
    if !wo {
        return None;
    }
    let same = match (first_param_exec(file, a), recv) {
        (None, None) => true,
        (Some(p), Some(r)) => match &file.nodes[r].kind {
            NodeKind::Lvar(s) => str_eq(s.as_str(), p),
            _ => false,
        },
        _ => false,
    };
    if same { Some(call) } else { None }
}

/// Decides `any_option` over `pairs`.
fn any_option_exec(file: &SourceFile, pairs: &Vec<NodeId>, which: u8) -> (r: bool)
    requires
        file.wf(),
        forall|i: int| 0 <= i < pairs@.len() ==> #[trigger] pairs@[i] < file.nodes@.len(),
    ensures
        r == any_option(file, pairs@, which as int),
{
    let mut i: usize = 0;
    while i < pairs.len()
        invariant
            file.wf(),
            forall|j: int| 0 <= j < pairs@.len() ==> #[trigger] pairs@[j] < file.nodes@.len(),
            i <= pairs@.len(),
            forall|j: int| 0 <= j < i ==> !option_test(file, #[trigger] pairs@[j], which as int),
        decreases pairs@.len() - i,
    {
        let p = pairs[i];
        let (key, value) = match &file.nodes[p].kind {
            NodeKind::Pair { key, value } => (*key, *value),
            _ => {
                i = i + 1;
                continue;
            },
        };
        assert(file.children(p)[0] == key);
        assert(file.children(p)[1] == value);
        let k = match &file.nodes[key].kind {
            NodeKind::Sym(s) => s.as_str(),
            _ => {
                i = i + 1;
                continue;
            },
        };
        let nil = match &file.nodes[value].kind {
            NodeKind::Nil => true,
            _ => false,
        };
        let hit = if which == 0 {
            (str_eq(k, "through") || str_eq(k, "polymorphic")) && !nil
        } else if which == 1 {
            (str_eq(k, "conditions") || str_eq(k, "foreign_key")) && !nil
        } else if which == 2 {
            str_eq(k, "as") && !nil
        } else if which == 3 {
            str_eq(k, "inverse_of") && !nil
        } else {
            str_eq(k, "inverse_of") && nil
        };
        if hit {
            assert(option_test(file, pairs@[i as int], which as int));
            return true;
        }
        i = i + 1;
    }
    false
}

impl InverseOf {
    /// Reports an association whose options (or a scope block) keep Rails
    /// from inferring its inverse, unless `inverse_of:` is given.
    pub fn check_send(&self, file: &SourceFile, node: NodeId, options: &InverseOfOptions) -> (r: Option<Offense>)
        requires
            file.valid(node),
        ensures
            r.deep_view() == inverse_of_finding(file, node, options.ignore_scopes),
    {
        let (receiver, method, args) = match &file.nodes[node].kind {
            NodeKind::Send { receiver, method, args } => (*receiver, method.as_str(), args),
            _ => return None,
        };
        if !(str_eq(method, "has_many") || str_eq(method, "has_one") || str_eq(method, "belongs_to")) || args.len() == 0 {
            return None;
        }
        proof {
            if receiver is Some {
                assert(file.children(node)[0] == receiver->0);
            }
        }
        let mut pairs: Vec<NodeId> = Vec::new();
        let mut kwsplat = collect_args_pairs(file, node, 1, &mut pairs);
        assert(args@.subrange(1, args@.len() as int) =~= args@.drop_first());
        let ghost direct = pairs@;
        let mut cur = node;
        loop
            invariant
                file.wf(),
                cur <= node < file.nodes@.len(),
                receiver == crate::ast::call_receiver_of(file.kind(node)),
                receiver matches Some(x) ==> x < file.nodes@.len(),
                pairs@ + ancestor_pairs(file, cur, receiver) == direct + ancestor_pairs(file, node, receiver),
                forall|j: int| 0 <= j < pairs@.len() ==> #[trigger] pairs@[j] < file.nodes@.len(),
                (kwsplat || ancestor_kwsplat(file, cur, receiver))
                    == (args_kwsplat(file, args@.drop_first()) || ancestor_kwsplat(file, node, receiver)),
            ensures
                pairs@ == direct + ancestor_pairs(file, node, receiver),
                forall|j: int| 0 <= j < pairs@.len() ==> #[trigger] pairs@[j] < file.nodes@.len(),
                kwsplat == (args_kwsplat(file, args@.drop_first()) || ancestor_kwsplat(file, node, receiver)),
            decreases cur,
        {
            match file.nodes[cur].parent {
                Some(p) => {
                    assert(p < cur);
                    let ghost before = pairs@;
                    match applying_with_options_exec(file, p, receiver) {
                        Some(c) => {
                            let k = collect_args_pairs(file, c, 0, &mut pairs);
                            assert(args_of(file.kind(c)).subrange(0, args_of(file.kind(c)).len() as int) =~= args_of(file.kind(c)));
                            kwsplat = kwsplat || k;
                        },
                        None => {},
                    }
                    assert(before + ancestor_pairs(file, cur, receiver) =~= pairs@ + ancestor_pairs(file, p, receiver));
                    cur = p;
                },
                None => {
                    assert(pairs@ + ancestor_pairs(file, cur, receiver) =~= pairs@);
                    assert(!ancestor_kwsplat(file, cur, receiver));
                    break;
                },
            }
        }
        assert(pairs@ =~= all_pairs(file, node));
        if any_option_exec(file, &pairs, 0) {
            return None;
        }
        let mut has_scope = false;
        if !options.ignore_scopes {
            let mut i: usize = 1;
            while i < args.len()
                invariant
                    file.valid(node),
                    file.kind(node) matches NodeKind::Send { args: a, .. } && a@ == args@,
                    1 <= i <= args@.len(),
                    has_scope == exists|j: int| 1 <= j < i && is_block_kind(file.kind(#[trigger] args@[j])),
                decreases args@.len() - i,
            {
                proof { crate::ast::lemma_args_are_children(file, node, i as int); }
                let b = match &file.nodes[args[i]].kind {
                    NodeKind::Block { .. } | NodeKind::Numblock { .. } | NodeKind::Itblock { .. } => true,
                    _ => false,
                };
                if b {
                    assert(is_block_kind(file.kind(args@[i as int])));
                }
                has_scope = has_scope || b;
                i = i + 1;
            }
        }
        let needs = any_option_exec(file, &pairs, 1) || (!file.rails_version_at_least(5, 2) && any_option_exec(file, &pairs, 2));
        if !(has_scope || needs) || any_option_exec(file, &pairs, 3) {
            return None;
        }
        let nil_given = any_option_exec(file, &pairs, 4);
        if kwsplat && !nil_given {
            return None;
        }
        let msg = if nil_given {
            "You specified `inverse_of: nil`, you probably meant to use `inverse_of: false`."
        } else {
            "Specify an `:inverse_of` option."
        };
        Some(offense0(file.nodes[node].name_range, String::from_str(msg)))
    }
}

} // verus!
