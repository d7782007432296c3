//! `Rails/LinkToBlank`: a link with `target: "_blank"` needs
//! `rel: "noopener"`.

use vstd::prelude::*;
use crate::ast::{args_of, NodeId, NodeKind, Range, SourceFile};
use crate::cops::presence::{words_from, words_of};
use crate::cops::read_write_attribute::src_of;
use crate::cops::redundant_foreign_key::{sym_or_str, text_of};
use crate::report::{Edit, Finding, Offense};
use crate::text::{concat2, str_eq};

verus! {

/// Reports links opening a new window without `rel: "noopener"`.
#[derive(Debug, Default)]
pub struct LinkToBlank;

/// The text of a symbol or string key of a pair, and its value.
pub open spec fn pair_text_key(file: &SourceFile, p: NodeId) -> Option<(Seq<char>, NodeId)> {
    match file.kind(p) {
        NodeKind::Pair { key, value } => match sym_or_str(file.kind(key)) {
            Some(k) => Some((k, value)),
            None => None,
        },
        _ => None,
    }
}

/// `target: "_blank"` (symbols or strings).
pub open spec fn is_blank_target(file: &SourceFile, p: NodeId) -> bool {
    match pair_text_key(file, p) {
        Some((k, v)) => k == "target"@ && sym_or_str(file.kind(v)) == Some("_blank"@),
        None => false,
    }
}

/// Some word is `noopener` or `noreferrer`.
pub open spec fn has_noopener_word(ws: Seq<Seq<char>>) -> bool {
    exists|i: int| 0 <= i < ws.len() && (#[trigger] ws[i] == "noopener"@ || ws[i] == "noreferrer"@)
}

/// A `rel:` whose words include `noopener` or `noreferrer`.
pub open spec fn includes_noopener(file: &SourceFile, p: NodeId) -> bool {
    match pair_text_key(file, p) {
        Some((k, v)) => k == "rel"@ && match sym_or_str(file.kind(v)) {
            Some(t) => has_noopener_word(words_from(t, 0)),
            None => false,
        },
        None => false,
    }
}

/// The first `target: "_blank"` among `l`.
pub open spec fn first_blank(file: &SourceFile, l: Seq<NodeId>) -> Option<NodeId>
    decreases l.len(),
{
    if l.len() == 0 {
        None
    } else if is_blank_target(file, l[0]) {
        Some(l[0])
    } else {
        first_blank(file, l.drop_first())
    }
}

/// A `rel:` pair with a string value.
pub open spec fn is_str_rel(file: &SourceFile, p: NodeId) -> bool {
    match pair_text_key(file, p) {
        Some((k, v)) => k == "rel"@ && file.kind(v) is Str,
        None => false,
    }
}

/// The first `rel: "..."` pair among `l`.
pub open spec fn first_str_rel(file: &SourceFile, l: Seq<NodeId>) -> Option<NodeId>
    decreases l.len(),
{
    if l.len() == 0 {
        None
    } else if is_str_rel(file, l[0]) {
        Some(l[0])
    } else {
        first_str_rel(file, l.drop_first())
    }
}

/// The first `rel: "..."` pair of the hash arguments `args`.
pub open spec fn str_rel_pair(file: &SourceFile, args: Seq<NodeId>) -> Option<NodeId>
    decreases args.len(),
{
    if args.len() == 0 {
        None
    } else {
        let here = match file.kind(args[0]) {
            NodeKind::Hash(l) => first_str_rel(file, l@),
            _ => None,
        };
        if here is Some { here } else { str_rel_pair(file, args.drop_first()) }
    }
}

/// The correction: ` noopener` appended inside an existing string `rel:`,
/// else `, rel: 'noopener'` (quoted as the target) after the last argument.
pub open spec fn blank_edits(file: &SourceFile, blank: NodeId, args: Seq<NodeId>) -> Seq<(Range, Seq<char>)> {
    match str_rel_pair(file, args) {
        Some(rp) => match file.kind(rp) {
            NodeKind::Pair { value, .. } => match file.kind(value) {
                NodeKind::Str(existing) => {
                    let r = file.range(value);
                    if r.end - r.start <= 1 {
                        Seq::empty()
                    } else {
                        seq![(Range { start: (r.start + 1) as usize, end: (r.end - 1) as usize }, existing@ + " noopener"@)]
                    }
                },
                _ => Seq::empty(),
            },
            _ => Seq::empty(),
        },
        None => {
            let last = args.last();
            let pos = match file.kind(last) {
                NodeKind::Hash(l) => if l@.len() > 0 { file.range(l@.last()).end } else { file.range(last).end },
                _ => file.range(last).end,
            };
            let target = match file.kind(blank) {
                NodeKind::Pair { value, .. } => src_of(file, value),
                _ => Seq::empty(),
            };
            let opening = if target.len() > 0 { target[0] } else { '\'' };
            let new_rel = if opening == ':' { ", rel: :noopener"@ } else { ", rel: "@ + seq![opening] + "noopener"@ + seq![opening] };
            seq![(Range { start: pos, end: pos }, new_rel)]
        },
    }
}

/// The finding for one hash argument.
pub open spec fn hash_finding(file: &SourceFile, h: NodeId, args: Seq<NodeId>) -> Seq<Finding> {
    match file.kind(h) {
        NodeKind::Hash(l) => match first_blank(file, l@) {
            Some(b) => if exists|i: int| 0 <= i < l@.len() && includes_noopener(file, #[trigger] l@[i]) {
                Seq::empty()
            } else {
                seq![Finding { range: file.range(b), message: "Specify a `:rel` option containing noopener."@, edits: blank_edits(file, b, args) }]
            },
            None => Seq::empty(),
        },
        _ => Seq::empty(),
    }
}

/// The findings for the first `k` arguments.
pub open spec fn args_findings(file: &SourceFile, args: Seq<NodeId>, k: int) -> Seq<Finding>
    decreases k,
{
    if k <= 0 {
        Seq::empty()
    } else {
        args_findings(file, args, k - 1) + hash_finding(file, args[k - 1], args)
    }
}

/// What `LinkToBlank::check_send` reports for `node`.
pub open spec fn link_to_blank_findings(file: &SourceFile, node: NodeId) -> Seq<Finding> {
    match file.kind(node) {
        NodeKind::Send { method, args, .. } =>
            if method@ == "link_to"@ || method@ == "link_to_if"@ || method@ == "link_to_unless"@ {
                args_findings(file, args@, args@.len() as int)
            } else {
                Seq::empty()
            },
        _ => Seq::empty(),
    }
}

/// Computes `pair_text_key`.
fn pair_text_key_exec(file: &SourceFile, p: NodeId) -> (r: Option<(&str, NodeId)>)
    requires
        file.valid(p),
    ensures
        match r {
            Some((k, v)) => pair_text_key(file, p) == Some((k@, v)) && v < file.nodes@.len(),
            None => pair_text_key(file, p) is None,
        },
{
    match &file.nodes[p].kind {
        NodeKind::Pair { key, value } => {
            assert(file.children(p)[0] == *key);
            assert(file.children(p)[1] == *value);
            match text_of(&file.nodes[*key].kind) {
                Some(k) => Some((k, *value)),
                None => None,
            }
        },
        _ => None,
    }
}

/// Decides `is_blank_target`.
fn is_blank_target_exec(file: &SourceFile, p: NodeId) -> (r: bool)
    requires
        file.valid(p),
    ensures
        r == is_blank_target(file, p),
{
    match pair_text_key_exec(file, p) {
        Some((k, v)) => str_eq(k, "target") && match text_of(&file.nodes[v].kind) {
            Some(t) => str_eq(t, "_blank"),
            None => false,
        },
        None => false,
    }
}

/// Decides `includes_noopener`.
fn includes_noopener_exec(file: &SourceFile, p: NodeId) -> (r: bool)
    requires
        file.valid(p),
    ensures
        r == includes_noopener(file, p),
{
    match pair_text_key_exec(file, p) {
        Some((k, v)) => {
            if !str_eq(k, "rel") {
                return false;
            }
            match text_of(&file.nodes[v].kind) {
                Some(t) => {
                    let ws = words_of(t);
                    let mut i: usize = 0;
                    while i < ws.len()
                        invariant
                            file.valid(p),
                            pair_text_key(file, p) == Some((k@, v)),
                            k@ == "rel"@,
                            sym_or_str(file.kind(v)) == Some(t@),
                            ws.deep_view() == words_from(t@, 0),
                            i <= ws@.len(),
                            forall|j: int| 0 <= j < i ==> !(ws.deep_view()[j] == "noopener"@ || ws.deep_view()[j] == "noreferrer"@),
                        decreases ws@.len() - i,
                    {
                        assert(ws.deep_view()[i as int] == ws@[i as int]@);
                        assert(words_from(t@, 0)[i as int] == ws@[i as int]@);
                        if str_eq(ws[i], "noopener") || str_eq(ws[i], "noreferrer") {
                            assert(has_noopener_word(ws.deep_view()));
                            return true;
                        }
                        i = i + 1;
                    }
                    false
                },
                None => false,
            }
        },
        None => false,
    }
}

/// Computes `first_str_rel` over the elements of the hash `h`.
fn first_str_rel_exec(file: &SourceFile, h: NodeId) -> (r: Option<NodeId>)
    requires
        file.valid(h),
        file.kind(h) is Hash,
    ensures
        r == first_str_rel(file, file.kind(h)->Hash_0@),
        r matches Some(p) ==> p < file.nodes@.len(),
{
    let list = match &file.nodes[h].kind {
        NodeKind::Hash(l) => l,
        _ => return None,
    };
    let mut i: usize = 0;
    assert(list@.subrange(0, list@.len() as int) =~= list@);
    while i < list.len()
        invariant
            file.valid(h),
            file.kind(h) == NodeKind::Hash(*list),
            i <= list@.len(),
            first_str_rel(file, list@) == first_str_rel(file, list@.subrange(i as int, list@.len() as int)),
        decreases list@.len() - i,
    {
        let p = list[i];
        assert(file.children(h)[i as int] == p);
        assert(list@.subrange(i as int, list@.len() as int).drop_first() =~= list@.subrange(i + 1, list@.len() as int));
        assert(list@.subrange(i as int, list@.len() as int)[0] == p);
        let hit = match pair_text_key_exec(file, p) {
            Some((k, v)) => str_eq(k, "rel") && match &file.nodes[v].kind {
                NodeKind::Str(_) => true,
                _ => false,
            },
            None => false,
        };
        if hit {
            return Some(p);
        }
        i = i + 1;
    }
    None
}

/// Computes `str_rel_pair` over the arguments of the call `node`.
fn str_rel_pair_exec(file: &SourceFile, node: NodeId) -> (r: Option<NodeId>)
    requires
        file.valid(node),
    ensures
        r == str_rel_pair(file, args_of(file.kind(node))),
        r matches Some(p) ==> p < file.nodes@.len(),
{
    let args = file.call_arguments(node);
    let mut i: usize = 0;
    assert(args@.subrange(0, args@.len() as int) =~= args@);
    while i < args.len()
        invariant
            file.valid(node),
            args@ == args_of(file.kind(node)),
            i <= args@.len(),
            str_rel_pair(file, args@) == str_rel_pair(file, args@.subrange(i as int, args@.len() as int)),
        decreases args@.len() - i,
    {
        proof { crate::ast::lemma_args_are_children(file, node, i as int); }
        let a = args[i];
        assert(args@.subrange(i as int, args@.len() as int).drop_first() =~= args@.subrange(i + 1, args@.len() as int));
        assert(args@.subrange(i as int, args@.len() as int)[0] == a);
        let here = match &file.nodes[a].kind {
            NodeKind::Hash(_) => first_str_rel_exec(file, a),
            _ => None,
        };
        if here.is_some() {
            return here;
        }
        i = i + 1;
    }
    None
}

/// Computes `blank_edits`.
fn emit_correction(file: &SourceFile, node: NodeId, blank: NodeId) -> (r: Vec<Edit>)
    requires
        file.valid(node),
        blank < file.nodes@.len(),
        file.kind(blank) is Pair,
        args_of(file.kind(node)).len() > 0,
    ensures
        r.deep_view() == blank_edits(file, blank, args_of(file.kind(node))),
{
    let args = file.call_arguments(node);
    let mut edits: Vec<Edit> = Vec::new();
    match str_rel_pair_exec(file, node) {
        Some(rp) => {
            let value = match &file.nodes[rp].kind {
                NodeKind::Pair { value, .. } => {
                    assert(file.children(rp)[1] == *value);
                    *value
                },
                _ => {
                    assert(edits.deep_view() =~= blank_edits(file, blank, args@));
                    return edits;
                },
            };
            let existing = match &file.nodes[value].kind {
                NodeKind::Str(s) => s.as_str(),
                _ => {
                    assert(edits.deep_view() =~= blank_edits(file, blank, args@));
                    return edits;
                },
            };
            let r = file.nodes[value].range;
            if r.end - r.start <= 1 {
                assert(edits.deep_view() =~= blank_edits(file, blank, args@));
                return edits;
            }
            edits.push(Edit { range: Range { start: r.start + 1, end: r.end - 1 }, replacement: concat2(existing, " noopener") });
        },
        None => {
            let n = args.len();
            proof { crate::ast::lemma_args_are_children(file, node, n - 1); }
            let last = args[n - 1];
            let pos = match &file.nodes[last].kind {
                NodeKind::Hash(l) => {
                    if l.len() > 0 {
                        assert(file.children(last)[l@.len() - 1] == l@[l@.len() - 1]);
                        file.nodes[l[l.len() - 1]].range.end
                    } else {
                        file.nodes[last].range.end
                    }
                },
                _ => file.nodes[last].range.end,
            };
            let value = match &file.nodes[blank].kind {
                NodeKind::Pair { value, .. } => {
                    assert(file.children(blank)[1] == *value);
                    *value
                },
                _ => return edits,
            };
            let target = file.raw_source(file.nodes[value].range);
            let opening = if target.unicode_len() > 0 { target.get_char(0) } else { '\'' };
            let new_rel = if opening == ':' {
                String::from_str(", rel: :noopener")
            } else {
                let mut s = String::from_str(", rel: ");
                crate::text::push_char(&mut s, opening);
                s.append("noopener");
                crate::text::push_char(&mut s, opening);
                assert(s@ =~= ", rel: "@ + seq![opening] + "noopener"@ + seq![opening]);
                s
            };
            assert(target@ == src_of(file, value));
            assert(target@.len() > 0 ==> opening == target@[0]);
            edits.push(Edit { range: Range { start: pos, end: pos }, replacement: new_rel });
        },
    }
    assert(edits.deep_view() =~= blank_edits(file, blank, args@));
    edits
}

impl LinkToBlank {
    /// Reports each hash argument with `target: "_blank"` and no
    /// `rel: "noopener"`, with the edit that adds it.
    pub fn check_send(&self, file: &SourceFile, node: NodeId) -> (r: Vec<Offense>)
        requires
            file.valid(node),
        ensures
            r.deep_view() == link_to_blank_findings(file, node),
    {
        let mut out: Vec<Offense> = Vec::new();
        let method = match &file.nodes[node].kind {
            NodeKind::Send { method, .. } => method.as_str(),
            _ => {
                assert(out.deep_view() =~= link_to_blank_findings(file, node));
                return out;
            },
        };
        if !(str_eq(method, "link_to") || str_eq(method, "link_to_if") || str_eq(method, "link_to_unless")) {
            assert(out.deep_view() =~= link_to_blank_findings(file, node));
            return out;
        }
        let args = file.call_arguments(node);
        let mut i: usize = 0;
        assert(out.deep_view() =~= args_findings(file, args@, 0));
        while i < args.len()
            invariant
                file.valid(node),
                args@ == args_of(file.kind(node)),
                i <= args@.len(),
                out.deep_view() == args_findings(file, args@, i as int),
            decreases args@.len() - i,
        {
            proof { crate::ast::lemma_args_are_children(file, node, i as int); }
            let h = args[i];
            let ghost before = out.deep_view();
            let list = match &file.nodes[h].kind {
                NodeKind::Hash(l) => l,
                _ => {
                    assert(out.deep_view() =~= args_findings(file, args@, i + 1));
                    i = i + 1;
                    continue;
                },
            };
            let mut blank: Option<NodeId> = None;
            let mut noopener = false;
            let mut j: usize = 0;
            assert(list@.subrange(0, list@.len() as int) =~= list@);
            while j < list.len()
                invariant
                    file.valid(h),
                    file.kind(h) == NodeKind::Hash(*list),
                    j <= list@.len(),
                    match blank {
                        Some(b) => first_blank(file, list@) == Some(b) && b < file.nodes@.len() && file.kind(b) is Pair,
                        None => first_blank(file, list@) == first_blank(file, list@.subrange(j as int, list@.len() as int)),
                    },
                    noopener == exists|x: int| 0 <= x < j && includes_noopener(file, #[trigger] list@[x]),
                decreases list@.len() - j,
            {
                let p = list[j];
                assert(file.children(h)[j as int] == p);
                assert(list@.subrange(j as int, list@.len() as int).drop_first() =~= list@.subrange(j + 1, list@.len() as int));
                assert(list@.subrange(j as int, list@.len() as int)[0] == p);
                if blank.is_none() && is_blank_target_exec(file, p) {
                    blank = Some(p);
                }
                let inc = includes_noopener_exec(file, p);
                if inc {
                    assert(includes_noopener(file, list@[j as int]));
                }
                noopener = noopener || inc;
                j = j + 1;
            }
            match blank {
                Some(b) => {
                    if !noopener {
                        let edits = emit_correction(file, node, b);
                        let o = Offense { range: file.nodes[b].range, message: String::from_str("Specify a `:rel` option containing noopener."), edits };
                        out.push(o);
                    }
                },
                None => {},
            }
            assert(out.deep_view() =~= before + hash_finding(file, h, args@));
            assert(out.deep_view() =~= args_findings(file, args@, i + 1));
            i = i + 1;
        }
        out
    }
}

} // verus!
