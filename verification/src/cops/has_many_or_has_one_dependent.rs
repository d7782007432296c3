//! `Rails/HasManyOrHasOneDependent`: `has_many` and `has_one` should say
//! what happens to the associated records (`dependent:`).

use vstd::prelude::*;
use crate::ast::{args_of, class_or_module, NodeId, NodeKind, SourceFile};

use crate::report::{offense0, Finding, Offense};
use crate::text::str_eq;

verus! {

/// Reports associations without a `dependent:` option.
#[derive(Debug, Default)]
pub struct HasManyOrHasOneDependent;

/// A class inheriting `ActiveResource::Base`.
pub open spec fn is_active_resource_class(file: &SourceFile, a: NodeId) -> bool {
    file.kind(a) matches NodeKind::Class { superclass: Some(s), .. } && file.const_path(s) == Some("ActiveResource::Base"@)
}

/// `is_active_resource_class` as a predicate value.
pub open spec fn active_resource_pred(file: &SourceFile) -> spec_fn(NodeId) -> bool {
    |a: NodeId| is_active_resource_class(file, a)
}

/// `def readonly?; true; end`.
pub open spec fn is_readonly_def(file: &SourceFile, d: NodeId) -> bool {
    file.kind(d) matches NodeKind::Def { name, args, body: Some(b) } && name@ == "readonly?"@
        && (file.kind(args) matches NodeKind::Args(l) && l@.len() == 0) && file.kind(b) is True
}

/// `is_readonly_def` as a predicate value.
pub open spec fn readonly_pred(file: &SourceFile) -> spec_fn(NodeId) -> bool {
    |d: NodeId| is_readonly_def(file, d)
}

/// The nearest enclosing class or module defines `readonly?` as `true`.
pub open spec fn in_readonly_model(file: &SourceFile, node: NodeId) -> bool {
    match file.nearest_ancestor(node, class_or_module()) {
        Some(scope) => file.subtree_has(scope, readonly_pred(file)),
        None => false,
    }
}

/// An option that settles the question: `dependent:` with any value, or
/// `through:` with a value other than `nil`.
pub open spec fn is_settling_option(file: &SourceFile, p: NodeId) -> bool {
    match file.kind(p) {
        NodeKind::Pair { key, value } => match file.kind(key) {
            NodeKind::Sym(k) => k@ == "dependent"@ || (k@ == "through"@ && !(file.kind(value) is Nil)),
            _ => false,
        },
        _ => false,
    }
}

/// Some element of `pairs` settles the question.
pub open spec fn inner_valid(file: &SourceFile, pairs: Seq<NodeId>) -> bool {
    exists|i: int| 0 <= i < pairs.len() && is_settling_option(file, #[trigger] pairs[i])
}

/// The options settle the question; a leading `**{...}` is read through.
pub open spec fn valid_option_pairs(file: &SourceFile, pairs: Seq<NodeId>) -> bool {
    if pairs.len() > 0 && file.kind(pairs[0]) is Kwsplat {
        match file.kind(pairs[0]) {
            NodeKind::Kwsplat(inner) => match file.kind(inner) {
                NodeKind::Hash(ip) => inner_valid(file, ip@),
                _ => false,
            },
            _ => false,
        }
    } else {
        inner_valid(file, pairs)
    }
}

/// The call's trailing hash settles the question.
pub open spec fn has_valid_trailing_options(file: &SourceFile, node: NodeId) -> bool {
    let a = args_of(file.kind(node));
    a.len() > 0 && match file.kind(a.last()) {
        NodeKind::Hash(l) => valid_option_pairs(file, l@),
        _ => false,
    }
}

/// `with_options <hash> do |x| ... end` whose options settle the question.
pub open spec fn is_valid_with_options_block(file: &SourceFile, a: NodeId) -> bool {
    match file.kind(a) {
        NodeKind::Block { call, args, .. } => match file.kind(call) {
            NodeKind::Send { receiver: None, method, args: ca } => {
                &&& method@ == "with_options"@
                &&& file.kind(args) matches NodeKind::Args(l) && l@.len() <= 1
                &&& ca@.len() > 0
                &&& file.kind(ca@[0]) matches NodeKind::Hash(p) && valid_option_pairs(file, p@)
            },
            _ => false,
        },
        _ => false,
    }
}

/// `is_valid_with_options_block` as a predicate value.
pub open spec fn with_options_pred(file: &SourceFile) -> spec_fn(NodeId) -> bool {
    |a: NodeId| is_valid_with_options_block(file, a)
}

/// What `HasManyOrHasOneDependent::check_send` reports for `node`: the
/// method name of an association without a settling option.
pub open spec fn dependent_finding(file: &SourceFile, node: NodeId) -> Option<Finding> {
    match file.kind(node) {
        NodeKind::Send { method, .. } => if (method@ == "has_many"@ || method@ == "has_one"@)
            && !file.some_ancestor(node, active_resource_pred(file)) && !in_readonly_model(file, node)
            && !has_valid_trailing_options(file, node) && !file.some_ancestor(node, with_options_pred(file)) {
            Some(Finding { range: file.name_range(node), message: "Specify a `:dependent` option."@, edits: Seq::empty() })
        } else {
            None
        },
        _ => None,
    }
}

/// Decides `inner_valid` for the elements of the hash `h`.
fn inner_valid_exec(file: &SourceFile, h: NodeId) -> (r: bool)
    requires
        file.valid(h),
        file.kind(h) is Hash,
    ensures
        r == inner_valid(file, file.kind(h)->Hash_0@),
{
    let list = match &file.nodes[h].kind {
        NodeKind::Hash(l) => l,
        _ => return false,
    };
    let mut i: usize = 0;
    while i < list.len()
        invariant
            file.valid(h),
            file.kind(h) == NodeKind::Hash(*list),
            i <= list@.len(),
            forall|j: int| 0 <= j < i ==> !is_settling_option(file, #[trigger] list@[j]),
        decreases list@.len() - i,
    {
        let p = list[i];
        assert(file.children(h)[i as int] == p);
        match &file.nodes[p].kind {
            NodeKind::Pair { key, value } => {
                assert(file.children(p)[0] == *key);
                assert(file.children(p)[1] == *value);
                match &file.nodes[*key].kind {
                    NodeKind::Sym(k) => {
                        let nil = match &file.nodes[*value].kind {
                            NodeKind::Nil => true,
                            _ => false,
                        };
                        if str_eq(k.as_str(), "dependent") || (str_eq(k.as_str(), "through") && !nil) {
                            assert(is_settling_option(file, list@[i as int]));
                            return true;
                        }
                    },
                    _ => {},
                }
            },
            _ => {},
        }
        i = i + 1;
    }
    false
}

/// Decides `valid_option_pairs` for the elements of the hash `h`.
fn valid_option_pairs_exec(file: &SourceFile, h: NodeId) -> (r: bool)
    requires
        file.valid(h),
        file.kind(h) is Hash,
    ensures
        r == valid_option_pairs(file, file.kind(h)->Hash_0@),
{
    let list = match &file.nodes[h].kind {
        NodeKind::Hash(l) => l,
        _ => return false,
    };
    if list.len() > 0 {
        assert(file.children(h)[0] == list@[0]);
        match &file.nodes[list[0]].kind {
            NodeKind::Kwsplat(inner) => {
                assert(file.children(list@[0])[0] == *inner);
                return match &file.nodes[*inner].kind {
                    NodeKind::Hash(_) => inner_valid_exec(file, *inner),
                    _ => false,
                };
            },
            _ => {},
        }
    }
    inner_valid_exec(file, h)
}

/// Decides `is_valid_with_options_block`.
fn is_valid_with_options_block_exec(file: &SourceFile, a: NodeId) -> (r: bool)
    requires
        file.valid(a),
    ensures
        r == is_valid_with_options_block(file, a),
{
    let (call, args) = match &file.nodes[a].kind {
        NodeKind::Block { call, args, .. } => (*call, *args),
        _ => return false,
    };
    assert(file.children(a)[0] == call);
    assert(file.children(a)[1] == args);
    let ca = match &file.nodes[call].kind {
        NodeKind::Send { receiver: None, method, args: ca } => {
            if !str_eq(method.as_str(), "with_options") {
                return false;
            }
            ca
        },
        _ => return false,
    };
    let few = match &file.nodes[args].kind {
        NodeKind::Args(l) => l.len() <= 1,
        _ => false,
    };
    if !few || ca.len() == 0 {
        return false;
    }
    assert(file.children(call)[0] == ca@[0]);
    match &file.nodes[ca[0]].kind {
        NodeKind::Hash(_) => valid_option_pairs_exec(file, ca[0]),
        _ => false,
    }
}

/// Decides `is_active_resource_class`.
fn is_active_resource_exec(file: &SourceFile, a: NodeId) -> (r: bool)
    requires
        file.valid(a),
    ensures
        r == is_active_resource_class(file, a),
{
    match &file.nodes[a].kind {
        NodeKind::Class { superclass: Some(s), .. } => {
            assert(file.children(a)[1] == *s);
            match file.const_name(*s) {
                Some(p) => str_eq(p.as_str(), "ActiveResource::Base"),
                None => false,
            }
        },
        _ => false,
    }
}

/// Decides `some_ancestor` for the active-resource test (`which` false)
/// or the `with_options` test (`which` true).
fn any_ancestor(file: &SourceFile, n: NodeId, which: bool) -> (r: bool)
    requires
        file.valid(n),
    ensures
        r == file.some_ancestor(n, if which { with_options_pred(file) } else { active_resource_pred(file) }),
{
    let ghost pred = if which { with_options_pred(file) } else { active_resource_pred(file) };
    let mut cur = n;
    loop
        invariant
            file.wf(),
            cur < file.nodes@.len(),
            pred == if which { with_options_pred(file) } else { active_resource_pred(file) },
            file.some_ancestor(n, pred) == file.some_ancestor(cur, pred),
        decreases cur,
    {
        match file.nodes[cur].parent {
            Some(a) => {
                assert(a < cur);
                let hit = if which { is_valid_with_options_block_exec(file, a) } else { is_active_resource_exec(file, a) };
                if hit {
                    assert(pred(a));
                    return true;
                }
                assert(!pred(a));
                cur = a;
            },
            None => return false,
        }
    }
}

/// Whether the subtree at `n` defines `readonly?` as `true`.
fn contains_readonly_def(file: &SourceFile, n: NodeId) -> (r: bool)
    requires
        file.valid(n),
    ensures
        r == file.subtree_has(n, readonly_pred(file)),
    decreases file.nodes@.len() - n,
{
    let ghost pred = readonly_pred(file);
    let here = match &file.nodes[n].kind {
        NodeKind::Def { name, args, body: Some(b) } => {
            assert(file.children(n)[0] == *args);
            assert(file.children(n)[1] == *b);
            str_eq(name.as_str(), "readonly?") && match &file.nodes[*args].kind {
                NodeKind::Args(l) => l.len() == 0,
                _ => false,
            } && match &file.nodes[*b].kind {
                NodeKind::True => true,
                _ => false,
            }
        },
        _ => false,
    };
    if here {
        assert(pred(n));
        return true;
    }
    assert(!pred(n));
    let kids = file.children_of(n);
    let mut i: usize = 0;
    assert(kids@.subrange(0, kids@.len() as int) =~= kids@);
    while i < kids.len()
        invariant
            file.valid(n),
            pred == readonly_pred(file),
            !pred(n),
            kids@ == file.children(n),
            i <= kids@.len(),
            file.subtree_has(n, pred) == file.children_have(n, kids@.subrange(i as int, kids@.len() as int), pred),
        decreases kids@.len() - i,
    {
        assert(kids@.subrange(i as int, kids@.len() as int).drop_first() =~= kids@.subrange(i + 1, kids@.len() as int));
        let c = kids[i];
        assert(file.children(n)[i as int] == c);
        if contains_readonly_def(file, c) {
            return true;
        }
        i = i + 1;
    }
    false
}

impl HasManyOrHasOneDependent {
    /// Reports `has_many`/`has_one` that neither its options, an enclosing
    /// `with_options`, a read-only model nor an Active Resource class excuses.
    pub fn check_send(&self, file: &SourceFile, node: NodeId) -> (r: Option<Offense>)
        requires
            file.valid(node),
        ensures
            r.deep_view() == dependent_finding(file, node),
    {
        match &file.nodes[node].kind {
            NodeKind::Send { method, .. } => {
                if !(str_eq(method.as_str(), "has_many") || str_eq(method.as_str(), "has_one")) {
                    return None;
                }
            },
            _ => return None,
        }
        if any_ancestor(file, node, false) {
            return None;
        }
        let readonly = match file.enclosing_class_or_module(node) {
            Some(scope) => contains_readonly_def(file, scope),
            None => false,
        };
        if readonly {
            return None;
        }
        let a = file.call_arguments(node);
        let trailing = if a.len() > 0 {
            proof { crate::ast::lemma_args_are_children(file, node, a@.len() - 1); }
            match &file.nodes[a[a.len() - 1]].kind {
                NodeKind::Hash(_) => valid_option_pairs_exec(file, a[a.len() - 1]),
                _ => false,
            }
        } else {
            false
        };
        if trailing || any_ancestor(file, node, true) {
            return None;
        }
        Some(offense0(file.nodes[node].name_range, String::from_str("Specify a `:dependent` option.")))
    }
}

} // verus!
