//! The matching shared by `Rails/IndexBy` and `Rails/IndexWith`: a hash built
//! entry by entry, where one side of each entry is the element itself and the
//! other side is computed from it. `by` selects the side that is computed:
//! the key (`index_by`) or the value (`index_with`).

use vstd::prelude::*;
use crate::ast::{args_of, call_receiver_of, method_of, range_ok, NodeId, NodeKind, Range, SourceFile};
use crate::cops::multiple_route_paths::{indent_at, indentation_of};
use crate::cops::read_write_attribute::src_of;
use crate::report::{Edit, Finding, Offense};
use crate::text::{
    concat3, contains_seq, find_char, first_index, lemma_prefix_len_bound, not_char, opt_str_view, starts_with,
    str_contains, str_eq, str_starts_with, trim_start, trim_start_str,
};

verus! {

/// What a match captured: the call that takes the block, the element's
/// name, whether the block names it as `|el|`, the computed side of the
/// entry, and the block whose source decides between `do ... end` and braces.
pub struct IndexMatch {
    pub call: NodeId,
    pub el: Seq<char>,
    pub named: bool,
    pub picked: NodeId,
    pub block: NodeId,
}

/// The executable form of `IndexMatch`.
pub struct Capture {
    pub call: NodeId,
    pub el: String,
    pub named: bool,
    pub picked: NodeId,
    pub block: NodeId,
}

impl DeepView for Capture {
    type V = IndexMatch;

    open spec fn deep_view(&self) -> IndexMatch {
        IndexMatch { call: self.call, el: self.el@, named: self.named, picked: self.picked, block: self.block }
    }
}

/// The captured nodes are nodes of the file.
pub open spec fn capture_in(file: &SourceFile, m: IndexMatch) -> bool {
    m.call < file.nodes@.len() && m.picked < file.nodes@.len() && m.block < file.nodes@.len()
}

/// The node is the block's element: the local `el`, or the implicit `it`
/// (a bare call without arguments).
pub open spec fn refers_to_el(file: &SourceFile, n: NodeId, el: Seq<char>, it_form: bool) -> bool {
    if it_form {
        file.kind(n) matches NodeKind::Send { receiver: None, method, args } && method@ == "it"@ && args@.len() == 0
    } else {
        file.kind(n) matches NodeKind::Lvar(s) && s@ == el
    }
}

/// Of the entry `[a, b]`, the computed side, when the other side is the
/// element and the computed one is not (`[el, el]` changes nothing).
pub open spec fn pick_side(file: &SourceFile, a: NodeId, b: NodeId, el: Seq<char>, it_form: bool, by: bool) -> Option<NodeId> {
    let fixed = if by { b } else { a };
    let picked = if by { a } else { b };
    if refers_to_el(file, fixed, el, it_form) && !refers_to_el(file, picked, el, it_form) {
        Some(picked)
    } else {
        None
    }
}

/// `pick_side` of a two-element array literal.
pub open spec fn array_pick(file: &SourceFile, body: NodeId, el: Seq<char>, it_form: bool, by: bool) -> Option<NodeId> {
    match file.kind(body) {
        NodeKind::Array(l) => if l@.len() == 2 {
            pick_side(file, l@[0], l@[1], el, it_form, by)
        } else {
            None
        },
        _ => None,
    }
}

/// The call takes the block in question: `to_h` without arguments, or
/// `map`/`collect`.
pub open spec fn takes_block(k: NodeKind, to_h: bool) -> bool {
    if to_h {
        method_of(k) == Some("to_h"@) && args_of(k).len() == 0
    } else {
        method_of(k) == Some("map"@) || method_of(k) == Some("collect"@)
    }
}

/// The name of a block's only parameter.
pub open spec fn single_param(file: &SourceFile, args: NodeId) -> Option<Seq<char>> {
    match file.kind(args) {
        NodeKind::Args(l) => if l@.len() == 1 {
            match file.kind(l@[0]) {
                NodeKind::Arg(s) => Some(s@),
                _ => None,
            }
        } else {
            None
        },
        _ => None,
    }
}

/// A block of `to_h` (or of `map`/`collect`) whose body is the entry
/// `[key, value]`: with a named parameter, with `_1`, or with `it`.
pub open spec fn block_match(file: &SourceFile, blk: NodeId, to_h: bool, by: bool) -> Option<IndexMatch> {
    match file.kind(blk) {
        NodeKind::Block { call, args, body: Some(body) } => if takes_block(file.kind(call), to_h) {
            match single_param(file, args) {
                Some(el) => match array_pick(file, body, el, false, by) {
                    Some(p) => Some(IndexMatch { call, el, named: true, picked: p, block: blk }),
                    None => None,
                },
                None => None,
            }
        } else {
            None
        },
        NodeKind::Numblock { send, max_n, body: Some(body) } => if takes_block(file.kind(send), to_h) && max_n == 1 {
            match array_pick(file, body, "_1"@, false, by) {
                Some(p) => Some(IndexMatch { call: send, el: "_1"@, named: false, picked: p, block: blk }),
                None => None,
            }
        } else {
            None
        },
        NodeKind::Itblock { send, body: Some(body) } => if takes_block(file.kind(send), to_h) {
            match array_pick(file, body, "it"@, true, by) {
                Some(p) => Some(IndexMatch { call: send, el: "it"@, named: false, picked: p, block: blk }),
                None => None,
            }
        } else {
            None
        },
        _ => None,
    }
}

/// The names of a block's two parameters.
pub open spec fn two_params(file: &SourceFile, args: NodeId) -> Option<(Seq<char>, Seq<char>)> {
    match file.kind(args) {
        NodeKind::Args(l) => if l@.len() == 2 {
            match (file.kind(l@[0]), file.kind(l@[1])) {
                (NodeKind::Arg(a), NodeKind::Arg(b)) => Some((a@, b@)),
                _ => None,
            }
        } else {
            None
        },
        _ => None,
    }
}

/// The node reads the local `name`.
pub open spec fn is_local(file: &SourceFile, n: NodeId, name: Seq<char>) -> bool {
    file.kind(n) matches NodeKind::Lvar(s) && s@ == name
}

/// `is_local` as a predicate value.
pub open spec fn local_pred(file: &SourceFile, name: Seq<char>) -> spec_fn(NodeId) -> bool {
    |n: NodeId| is_local(file, n, name)
}

/// `each_with_object({}) { |el, memo| memo[key] = value }`, where the
/// computed side does not read the memo.
pub open spec fn each_with_object_match(file: &SourceFile, node: NodeId, by: bool) -> Option<IndexMatch> {
    match file.kind(node) {
        NodeKind::Block { call, args, body: Some(body) } => {
            let ca = args_of(file.kind(call));
            if method_of(file.kind(call)) == Some("each_with_object"@) && ca.len() == 1 && file.kind(ca[0]) is Hash {
                match two_params(file, args) {
                    Some((el, memo)) => match file.kind(body) {
                        NodeKind::Send { receiver: Some(r), method, args: ba } =>
                            if method@ == "[]="@ && is_local(file, r, memo) && ba@.len() == 2 {
                                match pick_side(file, ba@[0], ba@[1], el, false, by) {
                                    Some(p) => if !file.subtree_has(p, local_pred(file, memo)) {
                                        Some(IndexMatch { call, el, named: true, picked: p, block: node })
                                    } else {
                                        None
                                    },
                                    None => None,
                                }
                            } else {
                                None
                            },
                        _ => None,
                    },
                    None => None,
                }
            } else {
                None
            }
        },
        _ => None,
    }
}

/// `<map block>.to_h` (also with `&.`).
pub open spec fn map_to_h_match(file: &SourceFile, node: NodeId, by: bool) -> Option<IndexMatch> {
    let k = file.kind(node);
    if method_of(k) == Some("to_h"@) && args_of(k).len() == 0 {
        match call_receiver_of(k) {
            Some(r) => block_match(file, r, false, by),
            None => None,
        }
    } else {
        None
    }
}

/// The constant `Hash` or `::Hash`.
pub open spec fn is_hash_const(file: &SourceFile, r: NodeId) -> bool {
    file.kind(r) matches NodeKind::Const { scope, name } && name@ == "Hash"@ && match scope {
        None => true,
        Some(s) => file.kind(s) is Cbase,
    }
}

/// `Hash[<map block>]`.
pub open spec fn hash_brackets_match(file: &SourceFile, node: NodeId, by: bool) -> Option<IndexMatch> {
    match file.kind(node) {
        NodeKind::Send { receiver: Some(r), method, args } =>
            if method@ == "[]"@ && is_hash_const(file, r) && args@.len() == 1 {
                block_match(file, args@[0], false, by)
            } else {
                None
            },
        _ => None,
    }
}

/// The suggested method.
pub open spec fn method_word(by: bool) -> Seq<char> {
    if by { "index_by"@ } else { "index_with"@ }
}

/// The first line of a span: up to its first newline.
pub open spec fn first_line(src: Seq<char>, r: Range) -> Range {
    let i = first_index(src.subrange(r.start as int, r.end as int), '\n');
    if i < r.end - r.start {
        Range { start: r.start, end: (r.start + i) as usize }
    } else {
        r
    }
}

/// The block is written with `do ... end`.
pub open spec fn is_do_source(s: Seq<char>) -> bool {
    contains_seq(s, " do "@) || contains_seq(s, " do|"@) || contains_seq(s, "\ndo "@) || contains_seq(s, "\ndo|"@)
}

/// The source of the computed side; a value that is a hash without braces
/// gets them.
pub open spec fn picked_source(file: &SourceFile, p: NodeId, by: bool) -> Seq<char> {
    let s = src_of(file, p);
    if !by && file.kind(p) is Hash && !(starts_with(trim_start(s), "{"@) || starts_with(trim_start(s), "}"@)) {
        "{ "@ + s + " }"@
    } else {
        s
    }
}

/// The `|el|` of a named block parameter.
pub open spec fn param_part(m: IndexMatch, do_form: bool) -> Seq<char> {
    if !m.named {
        Seq::empty()
    } else if do_form {
        " |"@ + m.el + "|"@
    } else {
        "|"@ + m.el + "| "@
    }
}

/// `recv.index_by { |el| key }` (or `&.`, or `do ... end` over three lines
/// indented as the expression it replaces).
pub open spec fn index_replacement(file: &SourceFile, outer: NodeId, m: IndexMatch, recv: NodeId, by: bool) -> Seq<char> {
    let op = if file.kind(m.call) is Csend { "&."@ } else { "."@ };
    let head = src_of(file, recv) + op + method_word(by);
    let body = picked_source(file, m.picked, by);
    if is_do_source(src_of(file, m.block)) {
        head + " do"@ + param_part(m, true) + "\n"@ + indent_at(file.source@, file.range(m.picked).start as int) + body
            + "\n"@ + indent_at(file.source@, file.range(outer).start as int) + "end"@
    } else {
        head + " { "@ + param_part(m, false) + body + " }"@
    }
}

/// The finding for a match at `outer`: its first line, and the rewrite of
/// the whole expression when the call has a receiver.
pub open spec fn index_finding(file: &SourceFile, outer: NodeId, m: IndexMatch, by: bool, message: Seq<char>) -> Finding {
    Finding {
        range: first_line(file.source@, file.range(outer)),
        message,
        edits: match call_receiver_of(file.kind(m.call)) {
            Some(r) => seq![(file.range(outer), index_replacement(file, outer, m, r, by))],
            None => Seq::empty(),
        },
    }
}

/// Message for `each_with_object`.
pub open spec fn ewo_message(by: bool) -> Seq<char> {
    if by { "Prefer `index_by` over `each_with_object`."@ } else { "Prefer `index_with` over `each_with_object`."@ }
}

/// Message for `to_h { ... }`.
pub open spec fn to_h_message(by: bool) -> Seq<char> {
    if by { "Prefer `index_by` over `to_h { ... }`."@ } else { "Prefer `index_with` over `to_h { ... }`."@ }
}

/// Message for `map { ... }.to_h`.
pub open spec fn map_to_h_message(by: bool) -> Seq<char> {
    if by { "Prefer `index_by` over `map { ... }.to_h`."@ } else { "Prefer `index_with` over `map { ... }.to_h`."@ }
}

/// Message for `Hash[map { ... }]`.
pub open spec fn hash_brackets_message(by: bool) -> Seq<char> {
    if by { "Prefer `index_by` over `Hash[map { ... }]`."@ } else { "Prefer `index_with` over `Hash[map { ... }]`."@ }
}

/// The finding for a `{ ... }`/`do ... end` block with named parameters.
pub open spec fn block_finding(file: &SourceFile, node: NodeId, by: bool) -> Option<Finding> {
    if file.kind(node) is Block {
        match each_with_object_match(file, node, by) {
            Some(m) => Some(index_finding(file, node, m, by, ewo_message(by))),
            None => match block_match(file, node, true, by) {
                Some(m) => Some(index_finding(file, node, m, by, to_h_message(by))),
                None => None,
            },
        }
    } else {
        None
    }
}

/// The finding for a `to_h` block using `_1` or `it`; `numbered` selects which.
pub open spec fn implicit_block_finding(file: &SourceFile, node: NodeId, by: bool, numbered: bool) -> Option<Finding> {
    if (numbered && file.kind(node) is Numblock) || (!numbered && file.kind(node) is Itblock) {
        match block_match(file, node, true, by) {
            Some(m) => Some(index_finding(file, node, m, by, to_h_message(by))),
            None => None,
        }
    } else {
        None
    }
}

/// The finding for a call: `map { ... }.to_h` or `Hash[map { ... }]`; with
/// `&.` only the first.
pub open spec fn call_finding(file: &SourceFile, node: NodeId, by: bool, safe_nav: bool) -> Option<Finding> {
    if (!safe_nav && file.kind(node) is Send) || (safe_nav && file.kind(node) is Csend) {
        match map_to_h_match(file, node, by) {
            Some(m) => Some(index_finding(file, node, m, by, map_to_h_message(by))),
            None => if safe_nav {
                None
            } else {
                match hash_brackets_match(file, node, by) {
                    Some(m) => Some(index_finding(file, node, m, by, hash_brackets_message(by))),
                    None => None,
                }
            },
        }
    } else {
        None
    }
}

/// Decides `refers_to_el`.
fn is_el(file: &SourceFile, n: NodeId, el: &str, it_form: bool) -> (r: bool)
    requires
        n < file.nodes@.len(),
    ensures
        r == refers_to_el(file, n, el@, it_form),
{
    match &file.nodes[n].kind {
        NodeKind::Send { receiver, method, args } => it_form && receiver.is_none() && str_eq(method.as_str(), "it") && args.len() == 0,
        NodeKind::Lvar(s) => !it_form && str_eq(s.as_str(), el),
        _ => false,
    }
}

/// Computes `array_pick`.
fn array_pick_exec(file: &SourceFile, body: NodeId, el: &str, it_form: bool, by: bool) -> (r: Option<NodeId>)
    requires
        file.valid(body),
    ensures
        r == array_pick(file, body, el@, it_form, by),
        r matches Some(p) ==> p < file.nodes@.len(),
{
    match &file.nodes[body].kind {
        NodeKind::Array(l) => {
            if l.len() != 2 {
                return None;
            }
            let a = l[0];
            let b = l[1];
            assert(file.children(body)[0] == a);
            assert(file.children(body)[1] == b);
            let (fixed, picked) = if by { (b, a) } else { (a, b) };
            if is_el(file, fixed, el, it_form) && !is_el(file, picked, el, it_form) {
                Some(picked)
            } else {
                None
            }
        },
        _ => None,
    }
}

/// Decides `takes_block` for the call `call`.
fn takes_block_exec(file: &SourceFile, call: NodeId, to_h: bool) -> (r: bool)
    requires
        call < file.nodes@.len(),
    ensures
        r == takes_block(file.kind(call), to_h),
{
    match file.method_name(call) {
        Some(m) => if to_h {
            str_eq(m, "to_h") && file.call_arguments(call).len() == 0
        } else {
            str_eq(m, "map") || str_eq(m, "collect")
        },
        None => false,
    }
}

/// Computes `single_param`.
fn single_param_exec(file: &SourceFile, args: NodeId) -> (r: Option<&str>)
    requires
        file.valid(args),
    ensures
        opt_str_view(r) == single_param(file, args),
{
    match &file.nodes[args].kind {
        NodeKind::Args(l) => {
            if l.len() != 1 {
                return None;
            }
            let p = l[0];
            assert(file.children(args)[0] == p);
            match &file.nodes[p].kind {
                NodeKind::Arg(s) => Some(s.as_str()),
                _ => None,
            }
        },
        _ => None,
    }
}

/// Computes `block_match`: a `to_h` block, or (with `to_h` false) a
/// `map`/`collect` block.
fn block_capture(file: &SourceFile, blk: NodeId, to_h: bool, by: bool) -> (r: Option<Capture>)
    requires
        file.valid(blk),
    ensures
        r.deep_view() == block_match(file, blk, to_h, by),
        r matches Some(c) ==> capture_in(file, c.deep_view()),
{
    match &file.nodes[blk].kind {
        NodeKind::Block { call, args, body } => {
            let call = *call;
            let args = *args;
            assert(file.children(blk)[0] == call);
            assert(file.children(blk)[1] == args);
            let body = match body {
                Some(b) => {
                    assert(file.children(blk)[2] == *b);
                    *b
                },
                None => return None,
            };
            if !takes_block_exec(file, call, to_h) {
                return None;
            }
            let el = match single_param_exec(file, args) {
                Some(e) => e,
                None => return None,
            };
            match array_pick_exec(file, body, el, false, by) {
                Some(p) => Some(Capture { call, el: String::from_str(el), named: true, picked: p, block: blk }),
                None => None,
            }
        },
        NodeKind::Numblock { send, max_n, body } => {
            let send = *send;
            assert(file.children(blk)[0] == send);
            let body = match body {
                Some(b) => {
                    assert(file.children(blk)[1] == *b);
                    *b
                },
                None => return None,
            };
            if !takes_block_exec(file, send, to_h) || *max_n != 1 {
                return None;
            }
            match array_pick_exec(file, body, "_1", false, by) {
                Some(p) => Some(Capture { call: send, el: String::from_str("_1"), named: false, picked: p, block: blk }),
                None => None,
            }
        },
        NodeKind::Itblock { send, body } => {
            let send = *send;
            assert(file.children(blk)[0] == send);
            let body = match body {
                Some(b) => {
                    assert(file.children(blk)[1] == *b);
                    *b
                },
                None => return None,
            };
            if !takes_block_exec(file, send, to_h) {
                return None;
            }
            match array_pick_exec(file, body, "it", true, by) {
                Some(p) => Some(Capture { call: send, el: String::from_str("it"), named: false, picked: p, block: blk }),
                None => None,
            }
        },
        _ => None,
    }
}

/// Computes `block_match` for a `to_h` block.
fn match_to_h_block(file: &SourceFile, node: NodeId, by: bool) -> (r: Option<Capture>)
    requires
        file.valid(node),
    ensures
        r.deep_view() == block_match(file, node, true, by),
        r matches Some(c) ==> capture_in(file, c.deep_view()),
{
    block_capture(file, node, true, by)
}

/// Computes `block_match` for a `map`/`collect` block.
fn inner_map_block(file: &SourceFile, node: NodeId, by: bool) -> (r: Option<Capture>)
    requires
        file.valid(node),
    ensures
        r.deep_view() == block_match(file, node, false, by),
        r matches Some(c) ==> capture_in(file, c.deep_view()),
{
    block_capture(file, node, false, by)
}

/// Whether the subtree at `root` reads the local `name`.
fn contains_lvar(file: &SourceFile, root: NodeId, name: &str) -> (r: bool)
    requires
        file.valid(root),
    ensures
        r == file.subtree_has(root, local_pred(file, name@)),
    decreases file.nodes@.len() - root,
{
    let ghost pred = local_pred(file, name@);
    let hit = match &file.nodes[root].kind {
        NodeKind::Lvar(s) => str_eq(s.as_str(), name),
        _ => false,
    };
    if hit {
        assert(pred(root));
        return true;
    }
    assert(!pred(root));
    let kids = file.children_of(root);
    let mut i: usize = 0;
    assert(kids@.subrange(0, kids@.len() as int) =~= kids@);
    while i < kids.len()
        invariant
            file.valid(root),
            pred == local_pred(file, name@),
            !pred(root),
            kids@ == file.children(root),
            i <= kids@.len(),
            file.subtree_has(root, pred) == file.children_have(root, kids@.subrange(i as int, kids@.len() as int), pred),
        decreases kids@.len() - i,
    {
        assert(kids@.subrange(i as int, kids@.len() as int).drop_first() =~= kids@.subrange(i + 1, kids@.len() as int));
        let c = kids[i];
        assert(file.children(root)[i as int] == c);
        if contains_lvar(file, c, name) {
            return true;
        }
        i = i + 1;
    }
    false
}

/// Computes `each_with_object_match`.
fn match_each_with_object_block(file: &SourceFile, node: NodeId, by: bool) -> (r: Option<Capture>)
    requires
        file.valid(node),
    ensures
        r.deep_view() == each_with_object_match(file, node, by),
        r matches Some(c) ==> capture_in(file, c.deep_view()),
{
    let (call, args, body) = match &file.nodes[node].kind {
        NodeKind::Block { call, args, body: Some(body) } => (*call, *args, *body),
        _ => return None,
    };
    assert(file.children(node)[0] == call);
    assert(file.children(node)[1] == args);
    assert(file.children(node)[2] == body);
    let is_ewo = match file.method_name(call) {
        Some(m) => str_eq(m, "each_with_object"),
        None => false,
    };
    if !is_ewo {
        return None;
    }
    let ca = file.call_arguments(call);
    if ca.len() != 1 {
        return None;
    }
    proof { crate::ast::lemma_args_are_children(file, call, 0); }
    match &file.nodes[ca[0]].kind {
        NodeKind::Hash(_) => {},
        _ => return None,
    }
    let (el, memo) = match &file.nodes[args].kind {
        NodeKind::Args(l) => {
            if l.len() != 2 {
                return None;
            }
            assert(file.children(args)[0] == l[0]);
            assert(file.children(args)[1] == l[1]);
            match (&file.nodes[l[0]].kind, &file.nodes[l[1]].kind) {
                (NodeKind::Arg(a), NodeKind::Arg(b)) => (a.as_str(), b.as_str()),
                _ => return None,
            }
        },
        _ => return None,
    };
    let (recv, bargs) = match &file.nodes[body].kind {
        NodeKind::Send { receiver: Some(r), method, args } => {
            if !str_eq(method.as_str(), "[]=") {
                return None;
            }
            (*r, args)
        },
        _ => return None,
    };
    assert(file.children(body)[0] == recv);
    let memo_read = match &file.nodes[recv].kind {
        NodeKind::Lvar(s) => str_eq(s.as_str(), memo),
        _ => false,
    };
    if !memo_read || bargs.len() != 2 {
        return None;
    }
    let a = bargs[0];
    let b = bargs[1];
    assert(file.children(body)[1] == a);
    assert(file.children(body)[2] == b);
    let (fixed, picked) = if by { (b, a) } else { (a, b) };
    if !(is_el(file, fixed, el, false) && !is_el(file, picked, el, false)) {
        return None;
    }
    if contains_lvar(file, picked, memo) {
        return None;
    }
    Some(Capture { call, el: String::from_str(el), named: true, picked, block: node })
}

/// Computes `map_to_h_match`.
fn match_map_to_h(file: &SourceFile, node: NodeId, by: bool) -> (r: Option<Capture>)
    requires
        file.valid(node),
    ensures
        r.deep_view() == map_to_h_match(file, node, by),
        r matches Some(c) ==> capture_in(file, c.deep_view()),
{
    let is_to_h = match file.method_name(node) {
        Some(m) => str_eq(m, "to_h"),
        None => false,
    };
    if !is_to_h || file.call_arguments(node).len() != 0 {
        return None;
    }
    match file.call_receiver(node) {
        Some(r) => {
            assert(file.children(node)[0] == r);
            inner_map_block(file, r, by)
        },
        None => None,
    }
}

/// Computes `hash_brackets_match`.
fn match_hash_brackets(file: &SourceFile, node: NodeId, by: bool) -> (r: Option<Capture>)
    requires
        file.valid(node),
    ensures
        r.deep_view() == hash_brackets_match(file, node, by),
        r matches Some(c) ==> capture_in(file, c.deep_view()),
{
    let (recv, args) = match &file.nodes[node].kind {
        NodeKind::Send { receiver: Some(r), method, args } => {
            if !str_eq(method.as_str(), "[]") {
                return None;
            }
            (*r, args)
        },
        _ => return None,
    };
    assert(file.children(node)[0] == recv);
    let hash_const = match &file.nodes[recv].kind {
        NodeKind::Const { scope, name } => {
            str_eq(name.as_str(), "Hash") && match scope {
                None => true,
                Some(s) => {
                    assert(file.children(recv)[0] == *s);
                    match &file.nodes[*s].kind {
                        NodeKind::Cbase => true,
                        _ => false,
                    }
                },
            }
        },
        _ => false,
    };
    if !hash_const || args.len() != 1 {
        return None;
    }
    let inner = args[0];
    assert(file.children(node)[1] == inner);
    inner_map_block(file, inner, by)
}

/// Computes `first_line`.
fn first_line_range(file: &SourceFile, r: Range) -> (o: Range)
    requires
        range_ok(r, file.source@.len()),
    ensures
        o == first_line(file.source@, r),
{
    let s = file.raw_source(r);
    let i = find_char(s, '\n');
    proof { lemma_prefix_len_bound(s@, not_char('\n')); }
    if i < s.unicode_len() {
        Range { start: r.start, end: r.start + i }
    } else {
        r
    }
}

/// Decides `is_do_source`.
fn is_do_block(s: &str) -> (r: bool)
    ensures
        r == is_do_source(s@),
{
    str_contains(s, " do ") || str_contains(s, " do|") || str_contains(s, "\ndo ") || str_contains(s, "\ndo|")
}

/// Computes `picked_source`.
fn picked_text(file: &SourceFile, p: NodeId, by: bool) -> (r: String)
    requires
        file.valid(p),
    ensures
        r@ == picked_source(file, p, by),
{
    let s = file.raw_source(file.nodes[p].range);
    let is_hash = match &file.nodes[p].kind {
        NodeKind::Hash(_) => true,
        _ => false,
    };
    if !by && is_hash {
        let t = trim_start_str(s);
        if !(str_starts_with(t, "{") || str_starts_with(t, "}")) {
            return concat3("{ ", s, " }");
        }
    }
    String::from_str(s)
}

/// Computes `index_replacement`.
fn replacement_text(file: &SourceFile, outer: NodeId, m: &Capture, recv: NodeId, by: bool) -> (r: String)
    requires
        file.valid(outer),
        capture_in(file, m.deep_view()),
        recv < file.nodes@.len(),
    ensures
        r@ == index_replacement(file, outer, m.deep_view(), recv, by),
{
    let ghost mv = m.deep_view();
    let mut s = String::from_str(file.raw_source(file.nodes[recv].range));
    match &file.nodes[m.call].kind {
        NodeKind::Csend { .. } => s.append("&."),
        _ => s.append("."),
    }
    if by {
        s.append("index_by");
    } else {
        s.append("index_with");
    }
    let ghost head = s@;
    let body = picked_text(file, m.picked, by);
    if is_do_block(file.raw_source(file.nodes[m.block].range)) {
        s.append(" do");
        if m.named {
            s.append(" |");
            s.append(m.el.as_str());
            s.append("|");
        }
        assert(s@ =~= head + " do"@ + param_part(mv, true));
        s.append("\n");
        let bind = indentation_of(file.source.as_str(), file.nodes[m.picked].range.start);
        s.append(bind.as_str());
        s.append(body.as_str());
        s.append("\n");
        let base = indentation_of(file.source.as_str(), file.nodes[outer].range.start);
        s.append(base.as_str());
        s.append("end");
        assert(s@ =~= index_replacement(file, outer, mv, recv, by));
    } else {
        s.append(" { ");
        if m.named {
            s.append("|");
            s.append(m.el.as_str());
            s.append("| ");
        }
        assert(s@ =~= head + " { "@ + param_part(mv, false));
        s.append(body.as_str());
        s.append(" }");
        assert(s@ =~= index_replacement(file, outer, mv, recv, by));
    }
    s
}

/// Builds `index_finding`.
fn index_offense(file: &SourceFile, outer: NodeId, m: &Capture, by: bool, message: &str) -> (r: Offense)
    requires
        file.valid(outer),
        capture_in(file, m.deep_view()),
    ensures
        r.deep_view() == index_finding(file, outer, m.deep_view(), by, message@),
{
    let whole = file.nodes[outer].range;
    let range = first_line_range(file, whole);
    let mut edits: Vec<Edit> = Vec::new();
    match file.call_receiver(m.call) {
        Some(r) => {
            assert(file.children(m.call)[0] == r);
            let rep = replacement_text(file, outer, m, r, by);
            edits.push(Edit { range: whole, replacement: rep });
        },
        None => {},
    }
    let o = Offense { range, message: String::from_str(message), edits };
    assert(o.deep_view().edits =~= index_finding(file, outer, m.deep_view(), by, message@).edits);
    o
}

/// Checks a `{ ... }`/`do ... end` block.
pub fn check_block(file: &SourceFile, node: NodeId, by: bool) -> (r: Option<Offense>)
    requires
        file.valid(node),
    ensures
        r.deep_view() == block_finding(file, node, by),
{
    match &file.nodes[node].kind {
        NodeKind::Block { .. } => {},
        _ => return None,
    }
    match match_each_with_object_block(file, node, by) {
        Some(c) => {
            let msg = if by { "Prefer `index_by` over `each_with_object`." } else { "Prefer `index_with` over `each_with_object`." };
            return Some(index_offense(file, node, &c, by, msg));
        },
        None => {},
    }
    match match_to_h_block(file, node, by) {
        Some(c) => {
            let msg = if by { "Prefer `index_by` over `to_h { ... }`." } else { "Prefer `index_with` over `to_h { ... }`." };
            Some(index_offense(file, node, &c, by, msg))
        },
        None => None,
    }
}

/// Checks a `to_h` block that uses `_1` (`numbered`) or `it`.
pub fn check_implicit_block(file: &SourceFile, node: NodeId, by: bool, numbered: bool) -> (r: Option<Offense>)
    requires
        file.valid(node),
    ensures
        r.deep_view() == implicit_block_finding(file, node, by, numbered),
{
    let kind_ok = match &file.nodes[node].kind {
        NodeKind::Numblock { .. } => numbered,
        NodeKind::Itblock { .. } => !numbered,
        _ => false,
    };
    if !kind_ok {
        return None;
    }
    match match_to_h_block(file, node, by) {
        Some(c) => {
            let msg = if by { "Prefer `index_by` over `to_h { ... }`." } else { "Prefer `index_with` over `to_h { ... }`." };
            Some(index_offense(file, node, &c, by, msg))
        },
        None => None,
    }
}

/// Checks a call: `map { ... }.to_h`, or (without `&.`) `Hash[map { ... }]`.
pub fn check_call(file: &SourceFile, node: NodeId, by: bool, safe_nav: bool) -> (r: Option<Offense>)
    requires
        file.valid(node),
    ensures
        r.deep_view() == call_finding(file, node, by, safe_nav),
{
    let kind_ok = match &file.nodes[node].kind {
        NodeKind::Send { .. } => !safe_nav,
        NodeKind::Csend { .. } => safe_nav,
        _ => false,
    };
    if !kind_ok {
        return None;
    }
    match match_map_to_h(file, node, by) {
        Some(c) => {
            let msg = if by { "Prefer `index_by` over `map { ... }.to_h`." } else { "Prefer `index_with` over `map { ... }.to_h`." };
            return Some(index_offense(file, node, &c, by, msg));
        },
        None => {},
    }
    if safe_nav {
        return None;
    }
    match match_hash_brackets(file, node, by) {
        Some(c) => {
            let msg = if by { "Prefer `index_by` over `Hash[map { ... }]`." } else { "Prefer `index_with` over `Hash[map { ... }]`." };
            Some(index_offense(file, node, &c, by, msg))
        },
        None => None,
    }
}

/// An entry whose two sides both are the element (`[el, el]`, or
/// `memo[el] = el`) changes nothing and is never picked, for either method.
pub proof fn lemma_noop_entry_never_picked(file: &SourceFile, a: NodeId, b: NodeId, el: Seq<char>, it_form: bool, by: bool)
    requires
        refers_to_el(file, a, el, it_form),
        refers_to_el(file, b, el, it_form),
    ensures
        pick_side(file, a, b, el, it_form, by) is None,
{
}

/// `index_by` and `index_with` never both apply to one node: whatever form
/// a node has, at most one of the two rewrites is found for it.
pub proof fn lemma_index_by_with_exclusive(file: &SourceFile, node: NodeId)
    ensures
        block_finding(file, node, true) is Some ==> block_finding(file, node, false) is None,
        implicit_block_finding(file, node, true, true) is Some ==> implicit_block_finding(file, node, false, true) is None,
        implicit_block_finding(file, node, true, false) is Some ==> implicit_block_finding(file, node, false, false) is None,
        call_finding(file, node, true, false) is Some ==> call_finding(file, node, false, false) is None,
        call_finding(file, node, true, true) is Some ==> call_finding(file, node, false, true) is None,
{
    assert forall|a: NodeId, b: NodeId, el: Seq<char>, it: bool|
        #[trigger] pick_side(file, a, b, el, it, true) is Some implies pick_side(file, a, b, el, it, false) is None by {}
    assert forall|n: NodeId, to_h: bool|
        #[trigger] block_match(file, n, to_h, true) is Some implies block_match(file, n, to_h, false) is None by {}
    assert(each_with_object_match(file, node, true) is Some ==> each_with_object_match(file, node, false) is None);
    assert(each_with_object_match(file, node, true) is Some ==> block_match(file, node, true, false) is None);
    assert(block_match(file, node, true, true) is Some ==> each_with_object_match(file, node, false) is None);
    assert(map_to_h_match(file, node, true) is Some ==> map_to_h_match(file, node, false) is None);
    assert(hash_brackets_match(file, node, true) is Some ==> hash_brackets_match(file, node, false) is None);
    assert(map_to_h_match(file, node, true) is Some ==> hash_brackets_match(file, node, false) is None);
    assert(hash_brackets_match(file, node, true) is Some ==> map_to_h_match(file, node, false) is None);
}

} // verus!
