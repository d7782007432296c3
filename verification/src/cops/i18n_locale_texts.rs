//! `Rails/I18nLocaleTexts`: user-facing texts belong in the locale files.

use vstd::prelude::*;
use crate::ast::{args_of, NodeId, NodeKind, SourceFile};
use crate::report::{offense0, Finding, Offense};
use crate::text::str_eq;

verus! {

/// Reports literal texts in validations, redirects, flashes and mails.
#[derive(Debug, Default)]
pub struct I18nLocaleTexts;

/// The message of every finding.
pub open spec fn locale_message() -> Seq<char> {
    "Move locale texts to the locale files in the `config/locales` directory."@
}

/// A pair `key: "string"` with a symbol key passing `key_ok`: the string.
pub open spec fn keyed_string(file: &SourceFile, p: NodeId, which: int) -> Option<NodeId> {
    match file.kind(p) {
        NodeKind::Pair { key, value } => match file.kind(key) {
            NodeKind::Sym(k) => if file.kind(value) is Str && (if which == 0 {
                k@ == "message"@
            } else if which == 1 {
                k@ == "notice"@ || k@ == "alert"@
            } else {
                k@ == "subject"@
            }) {
                Some(value)
            } else {
                None
            },
            _ => None,
        },
        _ => None,
    }
}

/// The `message: "..."` strings of the hashes, pairs and arrays at `n`,
/// nested ones included, in order.
pub open spec fn message_strs(file: &SourceFile, n: NodeId) -> Seq<NodeId>
    decreases file.nodes@.len() - n, 1int, 0int,
{
    match file.kind(n) {
        NodeKind::Hash(l) => message_list(file, n, l@),
        NodeKind::Array(l) => message_list(file, n, l@),
        NodeKind::Pair { key, value } => match keyed_string(file, n, 0) {
            Some(v) => seq![v],
            None => message_list(file, n, seq![key, value]),
        },
        _ => Seq::empty(),
    }
}

/// `message_strs` of the nodes `ids` (children of `n`), in order.
pub open spec fn message_list(file: &SourceFile, n: NodeId, ids: Seq<NodeId>) -> Seq<NodeId>
    decreases file.nodes@.len() - n, 0int, ids.len(),
{
    if ids.len() == 0 {
        Seq::empty()
    } else {
        message_list(file, n, ids.drop_last()) + if n < ids.last() < file.nodes@.len() {
            message_strs(file, ids.last())
        } else {
            Seq::empty()
        }
    }
}

/// The last keyed string (`which` as in `keyed_string`) among the pairs of
/// the hash arguments `args`.
pub open spec fn last_keyed_string(file: &SourceFile, args: Seq<NodeId>, which: int) -> Option<NodeId>
    decreases args.len(),
{
    if args.len() == 0 {
        None
    } else {
        match last_in_hash(file, args.last(), which) {
            Some(v) => Some(v),
            None => last_keyed_string(file, args.drop_last(), which),
        }
    }
}

/// The last keyed string among the elements of the hash `h`.
pub open spec fn last_in_hash(file: &SourceFile, h: NodeId, which: int) -> Option<NodeId> {
    match file.kind(h) {
        NodeKind::Hash(l) => last_in_list(file, l@, which),
        _ => None,
    }
}

/// The last keyed string among the pairs `l`.
pub open spec fn last_in_list(file: &SourceFile, l: Seq<NodeId>, which: int) -> Option<NodeId>
    decreases l.len(),
{
    if l.len() == 0 {
        None
    } else {
        match keyed_string(file, l.last(), which) {
            Some(v) => Some(v),
            None => last_in_list(file, l.drop_last(), which),
        }
    }
}

/// A bare call `flash` without arguments.
pub open spec fn is_bare_flash(file: &SourceFile, n: NodeId) -> bool {
    file.kind(n) matches NodeKind::Send { receiver: None, method, args } && method@ == "flash"@ && args@.len() == 0
}

/// `flash` or `flash.now`.
pub open spec fn is_flash_or_flash_now(file: &SourceFile, n: NodeId) -> bool {
    match file.kind(n) {
        NodeKind::Send { receiver, method, args } => if method@ != "flash"@ {
            method@ == "now"@ && args@.len() == 0 && (receiver matches Some(inner) && is_bare_flash(file, inner))
        } else {
            receiver is None && args@.len() == 0
        },
        _ => false,
    }
}

/// `flash[:k] = "..."` (also `flash.now`): the string.
pub open spec fn flash_assignment_text(file: &SourceFile, n: NodeId) -> Option<NodeId> {
    match file.kind(n) {
        NodeKind::Send { receiver: Some(r), method, args } =>
            if method@ == "[]="@ && is_flash_or_flash_now(file, r) && args@.len() == 2 && file.kind(args@[1]) is Str {
                Some(args@[1])
            } else {
                None
            },
        _ => None,
    }
}

/// The literal texts `I18nLocaleTexts::check_send` reports for `node`.
pub open spec fn locale_texts(file: &SourceFile, node: NodeId) -> Seq<NodeId> {
    match file.kind(node) {
        NodeKind::Send { method, args, .. } => {
            let m = method@;
            let one = |o: Option<NodeId>| match o {
                Some(v) => seq![v],
                None => Seq::empty(),
            };
            if m == "validates"@ {
                message_list(file, node, args@)
            } else if m == "redirect_to"@ || m == "redirect_back"@ || m == "redirect_back_or_to"@ {
                one(last_keyed_string(file, args@, 1))
            } else if m == "[]="@ {
                one(flash_assignment_text(file, node))
            } else if m == "mail"@ {
                one(last_keyed_string(file, args@, 2))
            } else {
                Seq::empty()
            }
        },
        _ => Seq::empty(),
    }
}

/// What `I18nLocaleTexts::check_send` reports for `node`.
pub open spec fn locale_texts_findings(file: &SourceFile, node: NodeId) -> Seq<Finding> {
    locale_texts(file, node).map_values(|t: NodeId| Finding { range: file.range(t), message: locale_message(), edits: Seq::empty() })
}

/// Computes `keyed_string`.
fn keyed_string_exec(file: &SourceFile, p: NodeId, which: u8) -> (r: Option<NodeId>)
    requires
        file.valid(p),
    ensures
        r == keyed_string(file, p, which as int),
        r matches Some(v) ==> p < v < file.nodes@.len(),
{
    let (key, value) = match &file.nodes[p].kind {
        NodeKind::Pair { key, value } => (*key, *value),
        _ => return None,
    };
    assert(file.children(p)[0] == key);
    assert(file.children(p)[1] == value);
    let k = match &file.nodes[key].kind {
        NodeKind::Sym(k) => k.as_str(),
        _ => return None,
    };
    let is_str = match &file.nodes[value].kind {
        NodeKind::Str(_) => true,
        _ => false,
    };
    let key_ok = if which == 0 {
        str_eq(k, "message")
    } else if which == 1 {
        str_eq(k, "notice") || str_eq(k, "alert")
    } else {
        str_eq(k, "subject")
    };
    if is_str && key_ok { Some(value) } else { None }
}

/// Appends `message_strs(n)` to `out`.
fn collect_message_strs(file: &SourceFile, n: NodeId, out: &mut Vec<NodeId>)
    requires
        file.valid(n),
        forall|i: int| 0 <= i < old(out)@.len() ==> #[trigger] old(out)@[i] < file.nodes@.len(),
    ensures
        final(out)@ == old(out)@ + message_strs(file, n),
        forall|i: int| 0 <= i < final(out)@.len() ==> #[trigger] final(out)@[i] < file.nodes@.len(),
    decreases file.nodes@.len() - n, 1int,
{
    match &file.nodes[n].kind {
        NodeKind::Hash(_) | NodeKind::Array(_) => {
            let kids = file.children_of(n);
            collect_list(file, n, &kids, out);
        },
        NodeKind::Pair { .. } => {
            match keyed_string_exec(file, n, 0) {
                Some(v) => {
                    let ghost before = out@;
                    out.push(v);
                    assert(out@ =~= before + message_strs(file, n));
                },
                None => {
                    let kids = file.children_of(n);
                    collect_list(file, n, &kids, out);
                },
            }
        },
        _ => {
            assert(out@ =~= old(out)@ + message_strs(file, n));
        },
    }
}

/// Appends `message_list(n, ids)` to `out`.
fn collect_list(file: &SourceFile, n: NodeId, ids: &Vec<NodeId>, out: &mut Vec<NodeId>)
    requires
        file.valid(n),
        forall|i: int| 0 <= i < old(out)@.len() ==> #[trigger] old(out)@[i] < file.nodes@.len(),
    ensures
        final(out)@ == old(out)@ + message_list(file, n, ids@),
        forall|i: int| 0 <= i < final(out)@.len() ==> #[trigger] final(out)@[i] < file.nodes@.len(),
    decreases file.nodes@.len() - n, 0int,
{
    let ghost base = out@;
    let mut i: usize = 0;
    assert(out@ =~= base + message_list(file, n, ids@.subrange(0, 0)));
    while i < ids.len()
        invariant
            file.valid(n),
            i <= ids@.len(),
            out@ == base + message_list(file, n, ids@.subrange(0, i as int)),
            forall|j: int| 0 <= j < out@.len() ==> #[trigger] out@[j] < file.nodes@.len(),
        decreases ids@.len() - i,
    {
        let c = ids[i];
        assert(ids@.subrange(0, i + 1).drop_last() =~= ids@.subrange(0, i as int));
        assert(ids@.subrange(0, i + 1).last() == c);
        if n < c && c < file.nodes.len() {
            collect_message_strs(file, c, out);
        }
        assert(out@ =~= base + message_list(file, n, ids@.subrange(0, i + 1)));
        i = i + 1;
    }
    assert(ids@.subrange(0, ids@.len() as int) =~= ids@);
}

/// Computes `last_keyed_string` over the arguments of the call `n`.
fn last_keyed_string_exec(file: &SourceFile, n: NodeId, which: u8) -> (r: Option<NodeId>)
    requires
        file.valid(n),
    ensures
        r == last_keyed_string(file, args_of(file.kind(n)), which as int),
        r matches Some(v) ==> v < file.nodes@.len(),
{
    let args = file.call_arguments(n);
    let mut i = args.len();
    assert(args@.subrange(0, i as int) =~= args@);
    while i > 0
        invariant
            file.valid(n),
            args@ == args_of(file.kind(n)),
            i <= args@.len(),
            last_keyed_string(file, args@, which as int) == last_keyed_string(file, args@.subrange(0, i as int), which as int),
        decreases i,
    {
        proof { crate::ast::lemma_args_are_children(file, n, i - 1); }
        let h = args[i - 1];
        assert(args@.subrange(0, i as int).drop_last() =~= args@.subrange(0, i - 1));
        assert(args@.subrange(0, i as int).last() == h);
        match &file.nodes[h].kind {
            NodeKind::Hash(l) => {
                let mut j = l.len();
                assert(l@.subrange(0, j as int) =~= l@);
                while j > 0
                    invariant
                        file.valid(h),
                        file.valid(n),
                        file.kind(h) == NodeKind::Hash(*l),
                        args@ == args_of(file.kind(n)),
                        0 < i <= args@.len(),
                        args@.subrange(0, i as int).last() == h,
                        last_keyed_string(file, args@, which as int) == last_keyed_string(file, args@.subrange(0, i as int), which as int),
                        j <= l@.len(),
                        last_in_list(file, l@, which as int) == last_in_list(file, l@.subrange(0, j as int), which as int),
                    decreases j,
                {
                    let p = l[j - 1];
                    assert(file.children(h)[j - 1] == p);
                    assert(l@.subrange(0, j as int).drop_last() =~= l@.subrange(0, j - 1));
                    assert(l@.subrange(0, j as int).last() == p);
                    match keyed_string_exec(file, p, which) {
                        Some(v) => return Some(v),
                        None => {},
                    }
                    j = j - 1;
                }
            },
            _ => {},
        }
        i = i - 1;
    }
    None
}

/// Decides `is_bare_flash`.
fn is_bare_flash_exec(file: &SourceFile, n: NodeId) -> (r: bool)
    requires
        n < file.nodes@.len(),
    ensures
        r == is_bare_flash(file, n),
{
    match &file.nodes[n].kind {
        NodeKind::Send { receiver: None, method, args } => str_eq(method.as_str(), "flash") && args.len() == 0,
        _ => false,
    }
}

/// Computes `flash_assignment_text`.
fn flash_assignment_text_exec(file: &SourceFile, n: NodeId) -> (r: Option<NodeId>)
    requires
        file.valid(n),
    ensures
        r == flash_assignment_text(file, n),
        r matches Some(v) ==> v < file.nodes@.len(),
{
    let (r, args) = match &file.nodes[n].kind {
        NodeKind::Send { receiver: Some(r), method, args } => {
            if !str_eq(method.as_str(), "[]=") {
                return None;
            }
            (*r, args)
        },
        _ => return None,
    };
    assert(file.children(n)[0] == r);
    let flash = match &file.nodes[r].kind {
        NodeKind::Send { receiver, method, args: ra } => {
            if !str_eq(method.as_str(), "flash") {
                str_eq(method.as_str(), "now") && ra.len() == 0 && match receiver {
                    Some(inner) => {
                        assert(file.children(r)[0] == *inner);
                        is_bare_flash_exec(file, *inner)
                    },
                    None => false,
                }
            } else {
                receiver.is_none() && ra.len() == 0
            }
        },
        _ => false,
    };
    if !flash || args.len() != 2 {
        return None;
    }
    assert(file.children(n)[2] == args@[1]);
    match &file.nodes[args[1]].kind {
        NodeKind::Str(_) => Some(args[1]),
        _ => None,
    }
}

impl I18nLocaleTexts {
    /// Reports each literal text that belongs in the locale files.
    pub fn check_send(&self, file: &SourceFile, node: NodeId) -> (r: Vec<Offense>)
        requires
            file.valid(node),
        ensures
            r.deep_view() == locale_texts_findings(file, node),
    {
        let mut texts: Vec<NodeId> = Vec::new();
        let method = match &file.nodes[node].kind {
            NodeKind::Send { method, .. } => method.as_str(),
            _ => {
                assert(texts@ =~= locale_texts(file, node));
                return Vec::new();
            },
        };
        if str_eq(method, "validates") {
            let args = file.call_arguments(node);
            let mut v: Vec<NodeId> = Vec::new();
            let mut i: usize = 0;
            while i < args.len()
                invariant
                    i <= args@.len(),
                    v@ == args@.subrange(0, i as int),
                decreases args@.len() - i,
            {
                v.push(args[i]);
                assert(v@ =~= args@.subrange(0, i + 1));
                i = i + 1;
            }
            assert(v@ =~= args@);
            collect_list(file, node, &v, &mut texts);
        } else if str_eq(method, "redirect_to") || str_eq(method, "redirect_back") || str_eq(method, "redirect_back_or_to") {
            match last_keyed_string_exec(file, node, 1) {
                Some(t) => texts.push(t),
                None => {},
            }
        } else if str_eq(method, "[]=") {
            match flash_assignment_text_exec(file, node) {
                Some(t) => texts.push(t),
                None => {},
            }
        } else if str_eq(method, "mail") {
            match last_keyed_string_exec(file, node, 2) {
                Some(t) => texts.push(t),
                None => {},
            }
        }
        assert(texts@ =~= locale_texts(file, node));
        let ghost fs = locale_texts_findings(file, node);
        let mut out: Vec<Offense> = Vec::new();
        let mut k: usize = 0;
        while k < texts.len()
            invariant
                file.wf(),
                texts@ == locale_texts(file, node),
                fs == locale_texts_findings(file, node),
                forall|j: int| 0 <= j < texts@.len() ==> #[trigger] texts@[j] < file.nodes@.len(),
                k <= texts@.len(),
                out.deep_view() == fs.subrange(0, k as int),
            decreases texts@.len() - k,
        {
            let t = texts[k];
            let o = offense0(file.nodes[t].range, String::from_str("Move locale texts to the locale files in the `config/locales` directory."));
            let ghost before = out.deep_view();
            out.push(o);
            assert(out.deep_view() =~= before.push(fs[k as int]));
            assert(out.deep_view() =~= fs.subrange(0, k + 1));
            k = k + 1;
        }
        assert(fs.subrange(0, texts@.len() as int) =~= fs);
        out
    }
}

} // verus!
