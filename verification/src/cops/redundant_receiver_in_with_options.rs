//! `Rails/RedundantReceiverInWithOptions`: inside `with_options`, the block
//! parameter need not be the receiver of every call.

use vstd::prelude::*;
use crate::ast::{args_of, call_receiver_of, method_of, NodeId, NodeKind, Range, SourceFile};
use crate::cops::index_method::single_param;
use crate::cops::redundant_foreign_key::blank;
use crate::report::{Edit, Finding, Offense};
use crate::text::{last_index, lemma_suffix_len, rfind_char_end, str_eq, suffix_len};

verus! {

/// Reports receivers that `with_options` makes redundant.
#[derive(Debug, Default)]
pub struct RedundantReceiverInWithOptions;

/// A block of any form.
pub open spec fn is_block_kind(k: NodeKind) -> bool {
    k is Block || k is Numblock || k is Itblock
}

/// `is_block_kind` of a node, as a predicate value.
pub open spec fn block_node_pred(file: &SourceFile) -> spec_fn(NodeId) -> bool {
    |n: NodeId| is_block_kind(file.kind(n))
}

/// The calls (`Send`) of the subtree at `n`, in pre-order.
pub open spec fn sends_in(file: &SourceFile, n: NodeId) -> Seq<NodeId>
    decreases file.nodes@.len() - n, 1int, 0int,
{
    (if file.kind(n) is Send { seq![n] } else { Seq::empty() }) + sends_in_list(file, n, file.children(n))
}

/// The calls of the subtrees at `ids`, children of `n`, in order.
pub open spec fn sends_in_list(file: &SourceFile, n: NodeId, ids: Seq<NodeId>) -> Seq<NodeId>
    decreases file.nodes@.len() - n, 0int, ids.len(),
{
    if ids.len() == 0 {
        Seq::empty()
    } else {
        sends_in_list(file, n, ids.drop_last()) + if n < ids.last() < file.nodes@.len() {
            sends_in(file, ids.last())
        } else {
            Seq::empty()
        }
    }
}

/// The implicit `it`: a bare call without arguments.
pub open spec fn is_bare_it(file: &SourceFile, n: NodeId) -> bool {
    file.kind(n) is Send && method_of(file.kind(n)) == Some("it"@) && call_receiver_of(file.kind(n)) is None
        && args_of(file.kind(n)).len() == 0
}

/// Calls other than the implicit `it`, as a predicate value.
pub open spec fn not_bare_it(file: &SourceFile) -> spec_fn(NodeId) -> bool {
    |s: NodeId| !is_bare_it(file, s)
}

/// The calls of a `with_options` body that the rule examines.
pub open spec fn body_sends(file: &SourceFile, body: NodeId, it_form: bool) -> Seq<NodeId> {
    if it_form { sends_in(file, body).filter(not_bare_it(file)) } else { sends_in(file, body) }
}

/// The receiver is the block's element: the local `name`, or (for an `it`
/// block) `it` written either way.
pub open spec fn receiver_is_element(file: &SourceFile, r: NodeId, name: Seq<char>, it_form: bool) -> bool {
    (file.kind(r) matches NodeKind::Lvar(s) && s@ == name) || (it_form && is_bare_it(file, r))
}

/// The finding for one call: its receiver, removed with the dot after it.
pub open spec fn receiver_finding(file: &SourceFile, s: NodeId) -> Finding {
    let r = match call_receiver_of(file.kind(s)) {
        Some(r) => r,
        None => s,
    };
    Finding {
        range: file.range(r),
        message: "Redundant receiver in `with_options`."@,
        edits: seq![(file.range(r), Seq::empty())] + match file.nodes@[s as int].dot_range {
            Some(d) => seq![(d, Seq::<char>::empty())],
            None => Seq::empty(),
        },
    }
}

/// The span of a block's `|param|` (with the blanks before it), found
/// as the last two `|` between the start of the call and the body.
pub open spec fn pipes_span(src: Seq<char>, cs: int, bs: int) -> Option<Range> {
    if bs <= cs || cs >= src.len() {
        None
    } else {
        let header = src.subrange(cs, bs);
        let p2 = last_index(header, '|');
        if p2 < 0 {
            None
        } else {
            let p1 = last_index(header.subrange(0, p2), '|');
            if p1 < 0 {
                None
            } else {
                let s = cs + p1;
                Some(Range { start: (s - suffix_len(src.subrange(0, s), blank())) as usize, end: (cs + p2 + 1) as usize })
            }
        }
    }
}

/// The parts of a `with_options` block: its call, body, the element's name,
/// and whether the element is `it`; `None` for other nodes.
pub open spec fn with_options_parts(file: &SourceFile, node: NodeId) -> Option<(NodeId, NodeId, Seq<char>, bool)> {
    match file.kind(node) {
        NodeKind::Block { call, args, body: Some(b) } => match single_param(file, args) {
            Some(a) => Some((call, b, a, false)),
            None => None,
        },
        NodeKind::Numblock { send, body: Some(b), .. } => Some((send, b, "_1"@, false)),
        NodeKind::Itblock { send, body: Some(b) } => Some((send, b, "it"@, true)),
        _ => None,
    }
}

/// What the block checks report for `node`: every call in the body has the
/// element as receiver, and each such receiver is reported; a named
/// parameter's `|...|` is removed with the last one.
pub open spec fn with_options_findings(file: &SourceFile, node: NodeId) -> Seq<Finding> {
    match with_options_parts(file, node) {
        Some((call, body, name, it_form)) => {
            let sends = body_sends(file, body, it_form);
            if (file.kind(call) is Send || file.kind(call) is Csend) && method_of(file.kind(call)) == Some("with_options"@)
                && !file.subtree_has(body, block_node_pred(file)) && sends.len() > 0
                && forall|k: int| 0 <= k < sends.len() ==> (call_receiver_of(file.kind(#[trigger] sends[k])) matches Some(r)
                    && receiver_is_element(file, r, name, it_form)) {
                let fs = sends.map_values(|s: NodeId| receiver_finding(file, s));
                let pipes = pipes_span(file.source@, file.range(call).start as int, file.range(body).start as int);
                if file.kind(node) is Block && pipes is Some {
                    let last = fs.last();
                    fs.update(fs.len() - 1, Finding { range: last.range, message: last.message, edits: last.edits.push((pipes->0, Seq::empty())) })
                } else {
                    fs
                }
            } else {
                Seq::empty()
            }
        },
        None => Seq::empty(),
    }
}

/// Whether the subtree at `n` holds a block.
fn contains_block(file: &SourceFile, n: NodeId) -> (r: bool)
    requires
        file.valid(n),
    ensures
        r == file.subtree_has(n, block_node_pred(file)),
    decreases file.nodes@.len() - n,
{
    let ghost pred = block_node_pred(file);
    let here = match &file.nodes[n].kind {
        NodeKind::Block { .. } | NodeKind::Numblock { .. } | NodeKind::Itblock { .. } => true,
        _ => false,
    };
    if here {
        assert(pred(n));
        return true;
    }
    assert(!pred(n));
    let kids = file.children_of(n);
    let mut i: usize = 0;
    assert(kids@.subrange(0, kids@.len() as int) =~= kids@);
    while i < kids.len()
        invariant
            file.valid(n),
            pred == block_node_pred(file),
            !pred(n),
            kids@ == file.children(n),
            i <= kids@.len(),
            file.subtree_has(n, pred) == file.children_have(n, kids@.subrange(i as int, kids@.len() as int), pred),
        decreases kids@.len() - i,
    {
        assert(kids@.subrange(i as int, kids@.len() as int).drop_first() =~= kids@.subrange(i + 1, kids@.len() as int));
        let c = kids[i];
        assert(file.children(n)[i as int] == c);
        if contains_block(file, c) {
            return true;
        }
        i = i + 1;
    }
    false
}

/// Appends `sends_in(n)` to `out`.
fn collect_sends_into(file: &SourceFile, n: NodeId, out: &mut Vec<NodeId>)
    requires
        file.valid(n),
    ensures
        final(out)@ == old(out)@ + sends_in(file, n),
        forall|k: int| old(out)@.len() <= k < final(out)@.len() ==> #[trigger] final(out)@[k] < file.nodes@.len()
            && file.kind(final(out)@[k]) is Send,
    decreases file.nodes@.len() - n,
{
    let ghost base = out@;
    match &file.nodes[n].kind {
        NodeKind::Send { .. } => out.push(n),
        _ => {},
    }
    let ghost head = out@;
    let kids = file.children_of(n);
    let mut i: usize = 0;
    assert(out@ =~= head + sends_in_list(file, n, kids@.subrange(0, 0)));
    while i < kids.len()
        invariant
            file.valid(n),
            kids@ == file.children(n),
            i <= kids@.len(),
            head.len() >= base.len(),
            head == base + (if file.kind(n) is Send { seq![n] } else { Seq::empty() }),
            out@ == head + sends_in_list(file, n, kids@.subrange(0, i as int)),
            forall|k: int| base.len() <= k < out@.len() ==> #[trigger] out@[k] < file.nodes@.len()
                && file.kind(out@[k]) is Send,
        decreases kids@.len() - i,
    {
        let c = kids[i];
        assert(file.children(n)[i as int] == c);
        assert(kids@.subrange(0, i + 1).drop_last() =~= kids@.subrange(0, i as int));
        collect_sends_into(file, c, out);
        assert(out@ =~= head + sends_in_list(file, n, kids@.subrange(0, i + 1)));
        i = i + 1;
    }
    assert(kids@.subrange(0, kids@.len() as int) =~= kids@);
}

/// Decides `is_bare_it`.
fn is_bare_it_exec(file: &SourceFile, n: NodeId) -> (r: bool)
    requires
        n < file.nodes@.len(),
    ensures
        r == is_bare_it(file, n),
{
    match &file.nodes[n].kind {
        NodeKind::Send { receiver: None, method, args } => str_eq(method.as_str(), "it") && args.len() == 0,
        _ => false,
    }
}

/// Computes `pipes_span`.
fn block_arg_pipes_range(src: &str, cs: usize, bs: usize) -> (r: Option<Range>)
    requires
        bs <= src@.len(),
    ensures
        r == pipes_span(src@, cs as int, bs as int),
{
    if bs <= cs || cs >= src.unicode_len() {
        return None;
    }
    let header = src.substring_char(cs, bs);
    let e2 = rfind_char_end(header, '|');
    if e2 == 0 {
        return None;
    }
    let p2 = e2 - 1;
    let before = header.substring_char(0, p2);
    let e1 = rfind_char_end(before, '|');
    if e1 == 0 {
        return None;
    }
    let p1 = e1 - 1;
    let s = cs + p1;
    let mut k = s;
    while k > 0 && (src.get_char(k - 1) == ' ' || src.get_char(k - 1) == '\t')
        invariant
            k <= s <= src@.len(),
            forall|j: int| k <= j < s ==> blank()(#[trigger] src@[j]),
        decreases k,
    {
        k = k - 1;
    }
    proof {
        let t = src@.subrange(0, s as int);
        assert forall|j: int| k <= j < t.len() implies blank()(#[trigger] t[j]) by {
            assert(t[j] == src@[j]);
        }
        lemma_suffix_len(t, blank(), k as int);
    }
    Some(Range { start: k, end: cs + p2 + 1 })
}

/// Computes `receiver_finding` for a call with a receiver.
fn receiver_offense(file: &SourceFile, s: NodeId, r: NodeId) -> (o: Offense)
    requires
        s < file.nodes@.len(),
        call_receiver_of(file.kind(s)) == Some(r),
        r < file.nodes@.len(),
    ensures
        o.deep_view() == receiver_finding(file, s),
{
    let mut edits: Vec<Edit> = Vec::new();
    edits.push(Edit { range: file.nodes[r].range, replacement: String::new() });
    match file.nodes[s].dot_range {
        Some(d) => edits.push(Edit { range: d, replacement: String::new() }),
        None => {},
    }
    let o = Offense { range: file.nodes[r].range, message: String::from_str("Redundant receiver in `with_options`."), edits };
    assert(o.deep_view().edits =~= receiver_finding(file, s).edits);
    o
}

/// The shared check of the three block forms.
fn check_with_options(file: &SourceFile, node: NodeId) -> (r: Vec<Offense>)
    requires
        file.valid(node),
    ensures
        r.deep_view() == with_options_findings(file, node),
{
    let mut out: Vec<Offense> = Vec::new();
    let (call, body, name, it_form, explicit): (NodeId, NodeId, &str, bool, bool) = match &file.nodes[node].kind {
        NodeKind::Block { call, args, body: Some(b) } => {
            assert(file.children(node)[0] == *call);
            assert(file.children(node)[1] == *args);
            assert(file.children(node)[2] == *b);
            let name = match &file.nodes[*args].kind {
                NodeKind::Args(l) => {
                    if l.len() != 1 {
                        assert(out.deep_view() =~= with_options_findings(file, node));
                        return out;
                    }
                    assert(file.children(*args)[0] == l@[0]);
                    match &file.nodes[l[0]].kind {
                        NodeKind::Arg(s) => s.as_str(),
                        _ => {
                            assert(out.deep_view() =~= with_options_findings(file, node));
                            return out;
                        },
                    }
                },
                _ => {
                    assert(out.deep_view() =~= with_options_findings(file, node));
                    return out;
                },
            };
            (*call, *b, name, false, true)
        },
        NodeKind::Numblock { send, body: Some(b), .. } => {
            assert(file.children(node)[0] == *send);
            assert(file.children(node)[1] == *b);
            (*send, *b, "_1", false, false)
        },
        NodeKind::Itblock { send, body: Some(b) } => {
            assert(file.children(node)[0] == *send);
            assert(file.children(node)[1] == *b);
            (*send, *b, "it", true, false)
        },
        _ => {
            assert(out.deep_view() =~= with_options_findings(file, node));
            return out;
        },
    };
    assert(with_options_parts(file, node) == Some((call, body, name@, it_form)));
    let is_wo = match &file.nodes[call].kind {
        NodeKind::Send { method, .. } | NodeKind::Csend { method, .. } => str_eq(method.as_str(), "with_options"),
        _ => false,
    };
    if !is_wo || contains_block(file, body) {
        assert(out.deep_view() =~= with_options_findings(file, node));
        return out;
    }
    let mut all: Vec<NodeId> = Vec::new();
    collect_sends_into(file, body, &mut all);
    assert(all@ =~= sends_in(file, body));
    let ghost keep = not_bare_it(file);
    let sends: Vec<NodeId> = if it_form {
        let mut v: Vec<NodeId> = Vec::new();
        let mut i: usize = 0;
        assert(v@ =~= all@.subrange(0, 0).filter(keep));
        while i < all.len()
            invariant
                file.wf(),
                forall|k: int| 0 <= k < all@.len() ==> #[trigger] all@[k] < file.nodes@.len() && file.kind(all@[k]) is Send,
                keep == not_bare_it(file),
                i <= all@.len(),
                v@ == all@.subrange(0, i as int).filter(keep),
                forall|k: int| 0 <= k < v@.len() ==> #[trigger] v@[k] < file.nodes@.len() && file.kind(v@[k]) is Send,
            decreases all@.len() - i,
        {
            let s = all[i];
            proof {
                let t = all@.subrange(0, i + 1);
                crate::text::lemma_filter_push(t, keep);
                assert(t.drop_last() =~= all@.subrange(0, i as int));
            }
            if !is_bare_it_exec(file, s) {
                v.push(s);
            }
            i = i + 1;
        }
        assert(all@.subrange(0, all@.len() as int) =~= all@);
        v
    } else {
        all
    };
    let ghost sv = sends@;
    assert(sv == if it_form { sends_in(file, body).filter(keep) } else { sends_in(file, body) });
    if sends.len() == 0 {
        assert(out.deep_view() =~= with_options_findings(file, node));
        return out;
    }
    let mut i: usize = 0;
    while i < sends.len()
        invariant
            file.wf(),
            forall|k: int| 0 <= k < sends@.len() ==> #[trigger] sends@[k] < file.nodes@.len() && file.kind(sends@[k]) is Send,
            i <= sends@.len(),
            sends@ == sv,
            keep == not_bare_it(file),
            sv == if it_form { sends_in(file, body).filter(keep) } else { sends_in(file, body) },
            with_options_parts(file, node) == Some((call, body, name@, it_form)),
            (file.kind(call) is Send || file.kind(call) is Csend) && method_of(file.kind(call)) == Some("with_options"@),
            !file.subtree_has(body, block_node_pred(file)),
            out@.len() == 0,
            forall|k: int| 0 <= k < i ==> (call_receiver_of(file.kind(#[trigger] sends@[k])) matches Some(r)
                && receiver_is_element(file, r, name@, it_form)),
        decreases sends@.len() - i,
    {
        let s = sends[i];
        let ok = match file.call_receiver(s) {
            Some(r) => {
                assert(file.children(s)[0] == r);
                let named = match &file.nodes[r].kind {
                    NodeKind::Lvar(x) => str_eq(x.as_str(), name),
                    _ => false,
                };
                named || (it_form && is_bare_it_exec(file, r))
            },
            None => false,
        };
        if !ok {
            assert(!(call_receiver_of(file.kind(sends@[i as int])) matches Some(r) && receiver_is_element(file, r, name@, it_form)));
            assert(body_sends(file, body, it_form) == sv);
            assert(!(call_receiver_of(file.kind(body_sends(file, body, it_form)[i as int])) matches Some(r)
                && receiver_is_element(file, r, name@, it_form)));
            assert(with_options_findings(file, node) =~= Seq::<Finding>::empty());
            assert(out.deep_view() =~= with_options_findings(file, node));
            return out;
        }
        i = i + 1;
    }
    let ghost fs = sv.map_values(|s: NodeId| receiver_finding(file, s));
    let mut j: usize = 0;
    while j < sends.len()
        invariant
            file.wf(),
            sends@ == sv,
            fs == sv.map_values(|s: NodeId| receiver_finding(file, s)),
            forall|k: int| 0 <= k < sends@.len() ==> #[trigger] sends@[k] < file.nodes@.len() && file.kind(sends@[k]) is Send,
            forall|k: int| 0 <= k < sends@.len() ==> (call_receiver_of(file.kind(#[trigger] sends@[k])) matches Some(r)
                && receiver_is_element(file, r, name@, it_form)),
            j <= sends@.len(),
            out.deep_view() == fs.subrange(0, j as int),
        decreases sends@.len() - j,
    {
        let s = sends[j];
        let r = match file.call_receiver(s) {
            Some(r) => r,
            None => {
                assert(call_receiver_of(file.kind(sends@[j as int])) is Some);
                return out;
            },
        };
        assert(file.children(s)[0] == r);
        let o = receiver_offense(file, s, r);
        assert(fs[j as int] == receiver_finding(file, s));
        let ghost before = out.deep_view();
        out.push(o);
        assert(out.deep_view() =~= before.push(receiver_finding(file, s)));
        assert(out.deep_view() =~= fs.subrange(0, j + 1));
        j = j + 1;
    }
    assert(fs.subrange(0, sv.len() as int) =~= fs);
    if explicit {
        let src = file.source.as_str();
        match block_arg_pipes_range(src, file.nodes[call].range.start, file.nodes[body].range.start) {
            Some(pr) => {
                let ghost before = out.deep_view();
                let ghost lastf = before.last();
                let mut o = out.pop().unwrap();
                assert(out.deep_view() =~= before.drop_last());
                assert(o.deep_view() == lastf);
                let ghost e0 = o.edits.deep_view();
                o.edits.push(Edit { range: pr, replacement: String::new() });
                assert(o.edits.deep_view() =~= e0.push((pr, Seq::<char>::empty())));
                out.push(o);
                assert(out.deep_view() =~= before.update(before.len() - 1, Finding {
                    range: lastf.range,
                    message: lastf.message,
                    edits: lastf.edits.push((pr, Seq::<char>::empty())),
                }));
            },
            None => {},
        }
    }
    assert(out.deep_view() =~= with_options_findings(file, node));
    out
}

impl RedundantReceiverInWithOptions {
    /// `with_options ... do |x| x.foo; x.bar end`.
    pub fn check_block(&self, file: &SourceFile, node: NodeId) -> (r: Vec<Offense>)
        requires
            file.valid(node),
        ensures
            r.deep_view() == with_options_findings(file, node),
    {
        check_with_options(file, node)
    }

    /// `with_options ... do _1.foo end`.
    pub fn check_numblock(&self, file: &SourceFile, node: NodeId) -> (r: Vec<Offense>)
        requires
            file.valid(node),
        ensures
            r.deep_view() == with_options_findings(file, node),
    {
        check_with_options(file, node)
    }

    /// `with_options ... do it.foo end`.
    pub fn check_itblock(&self, file: &SourceFile, node: NodeId) -> (r: Vec<Offense>)
        requires
            file.valid(node),
        ensures
            r.deep_view() == with_options_findings(file, node),
    {
        check_with_options(file, node)
    }
}

} // verus!
