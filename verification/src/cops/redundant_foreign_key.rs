//! `Rails/RedundantForeignKey`: a `foreign_key:` option equal to the default is redundant.

use vstd::prelude::*;
use crate::ast::{class_or_module, NodeId, NodeKind, Range, SourceFile};
use crate::report::{finding1, offense1, Finding, Offense};
use crate::text::{
    concat2, is_digit, is_lower, is_upper, lemma_lower_char, lemma_prefix_len, lemma_suffix_len, lower_char, lower_str,
    prefix_len, push_char, str_eq, suffix_len, to_lower_char,
};

verus! {

/// What `underscore` writes for character `i` of `s`.
pub open spec fn underscore_piece(s: Seq<char>, i: int) -> Seq<char> {
    let c = s[i];
    if is_upper(c) {
        let boundary = i > 0 && (is_lower(s[i - 1]) || is_digit(s[i - 1]) || (is_upper(s[i - 1])
            && i + 1 < s.len() && is_lower(s[i + 1])));
        if boundary { seq!['_', lower_char(c)] } else { seq![lower_char(c)] }
    } else if c == '-' {
        seq!['_']
    } else {
        seq![c]
    }
}

/// `underscore` of the first `n` characters of `s`.
pub open spec fn underscore_prefix(s: Seq<char>, n: int) -> Seq<char>
    decreases n,
{
    if n <= 0 { Seq::empty() } else { underscore_prefix(s, n - 1) + underscore_piece(s, n - 1) }
}

/// ActiveSupport-style `underscore`: `BlogPost` to `blog_post`, `HTTPServer`
/// to `http_server`, `-` to `_`.
pub open spec fn underscored(s: Seq<char>) -> Seq<char> {
    underscore_prefix(s, s.len() as int)
}

/// Characters other than `_`.
pub open spec fn not_underscore() -> spec_fn(char) -> bool {
    |c: char| c != '_'
}

/// Characters other than `_` and `-`.
pub open spec fn not_underscore_or_dash() -> spec_fn(char) -> bool {
    |c: char| c != '_' && c != '-'
}

/// `underscore` of a prefix: no capital, and the letters of the lower-cased prefix.
proof fn lemma_underscore_prefix_shape(s: Seq<char>, n: int)
    requires
        0 <= n <= s.len(),
    ensures
        forall|k: int| 0 <= k < underscore_prefix(s, n).len() ==> !is_upper(#[trigger] underscore_prefix(s, n)[k]),
        underscore_prefix(s, n).filter(not_underscore()) == lower_str(s.subrange(0, n)).filter(not_underscore_or_dash()),
    decreases n,
{
    if n == 0 {
        assert(underscore_prefix(s, 0) =~= Seq::<char>::empty());
        assert(lower_str(s.subrange(0, 0)) =~= Seq::<char>::empty());
    } else {
        lemma_underscore_prefix_shape(s, n - 1);
        let pre = underscore_prefix(s, n - 1);
        let piece = underscore_piece(s, n - 1);
        let c = s[n - 1];
        lemma_lower_char(c);
        Seq::filter_distributes_over_add(pre, piece, not_underscore());
        let lp = lower_str(s.subrange(0, n - 1));
        assert(lower_str(s.subrange(0, n)) =~= lp + seq![lower_char(c)]);
        Seq::filter_distributes_over_add(lp, seq![lower_char(c)], not_underscore_or_dash());
        reveal_with_fuel(Seq::filter, 3);
        assert(seq!['_', lower_char(c)] =~= seq!['_'] + seq![lower_char(c)]);
        Seq::filter_distributes_over_add(seq!['_'], seq![lower_char(c)], not_underscore());
        assert(seq!['_'].filter(not_underscore()) =~= Seq::<char>::empty());
        assert forall|k: int| 0 <= k < underscore_prefix(s, n).len() implies !is_upper(#[trigger] underscore_prefix(s, n)[k]) by {
            if k >= pre.len() {
                assert(underscore_prefix(s, n)[k] == piece[k - pre.len()]);
            } else {
                assert(underscore_prefix(s, n)[k] == pre[k]);
            }
        }
    }
}

/// Underscoring leaves no capital letter and only adds underscores: with
/// its underscores taken out, the result is the lower-cased input with its
/// underscores and dashes taken out (a dash becomes an underscore).
pub proof fn lemma_underscored_shape(s: Seq<char>)
    ensures
        forall|k: int| 0 <= k < underscored(s).len() ==> !is_upper(#[trigger] underscored(s)[k]),
        underscored(s).filter(not_underscore()) == lower_str(s).filter(not_underscore_or_dash()),
{
    lemma_underscore_prefix_shape(s, s.len() as int);
    assert(s.subrange(0, s.len() as int) =~= s);
}

/// Every piece of `underscore` is non-empty, holds `:` only as the piece of
/// a `:`, and ends in `:` exactly when its character is `:`.
proof fn lemma_underscore_piece_colons(s: Seq<char>, i: int)
    requires
        0 <= i < s.len(),
    ensures
        underscore_piece(s, i).len() > 0,
        underscore_piece(s, i).last() == ':' <==> s[i] == ':',
        underscore_piece(s, i)[0] == ':' ==> s[i] == ':',
        has_no_double_colon(underscore_piece(s, i)),
{
    lemma_lower_char(s[i]);
}

/// `underscore` of a prefix holds no `::` when the input holds none, and
/// ends in `:` exactly when the prefix does.
proof fn lemma_underscore_prefix_colons(s: Seq<char>, n: int)
    requires
        0 <= n <= s.len(),
        has_no_double_colon(s),
    ensures
        has_no_double_colon(underscore_prefix(s, n)),
        underscore_prefix(s, n).len() > 0 <==> n > 0,
        n > 0 ==> (underscore_prefix(s, n).last() == ':' <==> s[n - 1] == ':'),
    decreases n,
{
    if n > 0 {
        lemma_underscore_prefix_colons(s, n - 1);
        lemma_underscore_piece_colons(s, n - 1);
        let pre = underscore_prefix(s, n - 1);
        let piece = underscore_piece(s, n - 1);
        let all = pre + piece;
        assert(underscore_prefix(s, n) == all);
        assert forall|k: int| 0 <= k < all.len() - 1 implies !(#[trigger] all[k] == ':' && all[k + 1] == ':') by {
            if k + 1 < pre.len() {
                assert(all[k] == pre[k] && all[k + 1] == pre[k + 1]);
            } else if k + 1 == pre.len() {
                assert(all[k] == pre.last() && all[k + 1] == piece[0]);
                if all[k] == ':' && all[k + 1] == ':' {
                    assert(s[n - 2] == ':' && s[n - 1] == ':');
                }
            } else {
                assert(all[k] == piece[k - pre.len()] && all[k + 1] == piece[k + 1 - pre.len()]);
            }
        }
        assert(all.last() == piece.last());
    }
}

/// Underscoring adds no `::` to a name that holds none.
pub proof fn lemma_underscored_no_double_colon(s: Seq<char>)
    requires
        has_no_double_colon(s),
    ensures
        has_no_double_colon(underscored(s)),
{
    lemma_underscore_prefix_colons(s, s.len() as int);
}

/// Minimal ActiveSupport `underscore`: `BlogPost` to `blog_post`.
pub fn underscore(name: &str) -> (r: String)
    ensures
        r@ == underscored(name@),
{
    let n = name.unicode_len();
    let mut out = String::new();
    let mut i: usize = 0;
    while i < n
        invariant
            n == name@.len(),
            i <= n,
            out@ == underscore_prefix(name@, i as int),
        decreases n - i,
    {
        let ch = name.get_char(i);
        if 'A' <= ch && ch <= 'Z' {
            if i > 0 {
                let prev = name.get_char(i - 1);
                let next_lower = i + 1 < n && {
                    let nx = name.get_char(i + 1);
                    'a' <= nx && nx <= 'z'
                };
                if ('a' <= prev && prev <= 'z') || ('0' <= prev && prev <= '9')
                    || (('A' <= prev && prev <= 'Z') && next_lower) {
                    push_char(&mut out, '_');
                }
            }
            push_char(&mut out, to_lower_char(ch));
        } else if ch == '-' {
            push_char(&mut out, '_');
        } else {
            push_char(&mut out, ch);
        }
        assert(out@ =~= underscore_prefix(name@, i + 1));
        i = i + 1;
    }
    out
}

/// The part of `s` after its last `::`, or all of `s`.
pub open spec fn after_last_colons(s: Seq<char>) -> Seq<char>
    decreases s.len(),
{
    if s.len() >= 2 && s[s.len() - 2] == ':' && s[s.len() - 1] == ':' {
        Seq::empty()
    } else if s.len() == 0 {
        Seq::empty()
    } else {
        after_last_colons(s.drop_last()).push(s.last())
    }
}

/// `s` holds `::` at no position.
pub open spec fn has_no_double_colon(s: Seq<char>) -> bool {
    forall|k: int| 0 <= k < s.len() - 1 ==> !(#[trigger] s[k] == ':' && s[k + 1] == ':')
}

/// Demodulizing gives the part after the last `::`: a suffix of the name
/// that holds no `::`, and the whole name when it holds none.
pub proof fn lemma_demodulized_shape(s: Seq<char>)
    ensures
        after_last_colons(s).len() <= s.len(),
        after_last_colons(s) == s.subrange(s.len() - after_last_colons(s).len(), s.len() as int),
        has_no_double_colon(after_last_colons(s)),
        has_no_double_colon(s) ==> after_last_colons(s) == s,
    decreases s.len(),
{
    if s.len() >= 2 && s[s.len() - 2] == ':' && s[s.len() - 1] == ':' {
        assert(s.subrange(s.len() as int, s.len() as int) =~= Seq::<char>::empty());
        assert(!has_no_double_colon(s)) by {
            assert(s[s.len() - 2] == ':' && s[s.len() - 1] == ':');
        }
    } else if s.len() == 0 {
        assert(s.subrange(0, 0) =~= Seq::<char>::empty());
    } else {
        let d = s.drop_last();
        lemma_demodulized_shape(d);
        let a = after_last_colons(d);
        let r = a.push(s.last());
        assert(r =~= s.subrange(s.len() - r.len(), s.len() as int)) by {
            assert forall|k: int| 0 <= k < r.len() implies r[k] == s[s.len() - r.len() + k] by {
                if k < a.len() {
                    assert(a[k] == d[d.len() - a.len() + k]);
                }
            }
        }
        assert forall|k: int| 0 <= k < r.len() - 1 implies !(#[trigger] r[k] == ':' && r[k + 1] == ':') by {
            if k + 1 == a.len() {
                assert(r[k] == a[k]);
                assert(a[k] == d[d.len() - a.len() + k]);
                assert(r[k + 1] == s.last());
            } else {
                assert(r[k] == a[k] && r[k + 1] == a[k + 1]);
            }
        }
        if has_no_double_colon(s) {
            assert(has_no_double_colon(d)) by {
                assert forall|k: int| 0 <= k < d.len() - 1 implies !(#[trigger] d[k] == ':' && d[k + 1] == ':') by {
                    assert(d[k] == s[k] && d[k + 1] == s[k + 1]);
                }
            }
            assert(r =~= s);
        }
    }
}

/// `after_last_colons` of a prefix, followed by the rest, is that of the whole.
proof fn lemma_after_last_colons_step(s: Seq<char>, j: int)
    requires
        2 <= j <= s.len(),
        !(s[j - 2] == ':' && s[j - 1] == ':'),
    ensures
        after_last_colons(s.subrange(0, j)) + s.subrange(j, s.len() as int)
            == after_last_colons(s.subrange(0, j - 1)) + s.subrange(j - 1, s.len() as int),
{
    assert(s.subrange(0, j).drop_last() =~= s.subrange(0, j - 1));
    assert(after_last_colons(s.subrange(0, j)) == after_last_colons(s.subrange(0, j - 1)).push(s[j - 1]));
    assert(after_last_colons(s.subrange(0, j - 1)).push(s[j - 1]) + s.subrange(j, s.len() as int)
        =~= after_last_colons(s.subrange(0, j - 1)) + s.subrange(j - 1, s.len() as int));
}

/// `Foo::Bar::Baz` to `Baz`.
pub fn demodulize(name: &str) -> (r: String)
    ensures
        r@ == after_last_colons(name@),
{
    let n = name.unicode_len();
    let mut j: usize = n;
    assert(name@.subrange(0, n as int) =~= name@);
    assert(name@.subrange(n as int, n as int) =~= Seq::<char>::empty());
    while j >= 2 && !(name.get_char(j - 2) == ':' && name.get_char(j - 1) == ':')
        invariant
            n == name@.len(),
            j <= n,
            after_last_colons(name@) == after_last_colons(name@.subrange(0, j as int)) + name@.subrange(j as int, n as int),
        decreases j,
    {
        proof {
            lemma_after_last_colons_step(name@, j as int);
        }
        j = j - 1;
    }
    if j < 2 {
        proof {
            if j == 1 {
                let p = name@.subrange(0, 1);
                assert(p.drop_last() =~= Seq::<char>::empty());
                assert(after_last_colons(p.drop_last()) == Seq::<char>::empty());
                assert(after_last_colons(p) =~= seq![name@[0]]);
            } else {
                assert(name@.subrange(0, 0) =~= Seq::<char>::empty());
            }
            assert(after_last_colons(name@.subrange(0, j as int)) + name@.subrange(j as int, n as int) =~= name@);
        }
        String::from_str(name)
    } else {
        String::from_str(name.substring_char(j, n))
    }
}

/// A space or a tab.
pub open spec fn blank() -> spec_fn(char) -> bool {
    |c: char| c == ' ' || c == '\t'
}

/// The span to delete with a hash pair: the pair and the comma that joins it
/// to its neighbour, with the blanks around that comma.
pub open spec fn removal_span(src: Seq<char>, r: Range) -> Range {
    let start = r.start - suffix_len(src.subrange(0, r.start as int), blank());
    if start > 0 && src[start - 1] == ',' {
        let s2 = (start - 1) - suffix_len(src.subrange(0, start - 1), blank());
        Range { start: s2 as usize, end: r.end }
    } else {
        let t = r.end + prefix_len(src.subrange(r.end as int, src.len() as int), blank());
        if t < src.len() && src[t] == ',' {
            let e = t + 1 + prefix_len(src.subrange(t + 1, src.len() as int), blank());
            Range { start: r.start, end: e as usize }
        } else {
            Range { start: start as usize, end: r.end }
        }
    }
}

/// Index where the blanks ending at `i` begin.
fn skip_blanks_back(src: &str, i: usize) -> (r: usize)
    requires
        i <= src@.len(),
    ensures
        r == i - suffix_len(src@.subrange(0, i as int), blank()),
        r <= i,
{
    let mut k = i;
    while k > 0 && (src.get_char(k - 1) == ' ' || src.get_char(k - 1) == '\t')
        invariant
            k <= i <= src@.len(),
            forall|j: int| k <= j < i ==> blank()(#[trigger] src@[j]),
        decreases k,
    {
        k = k - 1;
    }
    proof {
        let t = src@.subrange(0, i as int);
        assert forall|j: int| k <= j < t.len() implies blank()(#[trigger] t[j]) by {
            assert(t[j] == src@[j]);
        }
        lemma_suffix_len(t, blank(), k as int);
    }
    k
}

/// Index where the blanks starting at `i` end.
fn skip_blanks_forward(src: &str, i: usize) -> (r: usize)
    requires
        i <= src@.len(),
    ensures
        r == i + prefix_len(src@.subrange(i as int, src@.len() as int), blank()),
        i <= r <= src@.len(),
{
    let n = src.unicode_len();
    let mut k = i;
    while k < n && (src.get_char(k) == ' ' || src.get_char(k) == '\t')
        invariant
            n == src@.len(),
            i <= k <= n,
            forall|j: int| i <= j < k ==> blank()(#[trigger] src@[j]),
        decreases n - k,
    {
        k = k + 1;
    }
    proof {
        let t = src@.subrange(i as int, n as int);
        assert forall|j: int| 0 <= j < k - i implies blank()(#[trigger] t[j]) by {
            assert(t[j] == src@[i + j]);
        }
        lemma_prefix_len(t, blank(), k - i);
    }
    k
}

/// The span that removes a hash pair with its joining comma.
pub fn removal_range(src: &str, r: Range) -> (out: Range)
    requires
        r.start <= r.end <= src@.len(),
    ensures
        out == removal_span(src@, r),
{
    let start = skip_blanks_back(src, r.start);
    if start > 0 && src.get_char(start - 1) == ',' {
        let s2 = skip_blanks_back(src, start - 1);
        return Range { start: s2, end: r.end };
    }
    let t = skip_blanks_forward(src, r.end);
    if t < src.unicode_len() && src.get_char(t) == ',' {
        let e = skip_blanks_forward(src, t + 1);
        return Range { start: r.start, end: e };
    }
    Range { start, end: r.end }
}

/// Checks associations whose `foreign_key:` is what Rails would infer anyway.
#[derive(Debug, Default)]
pub struct RedundantForeignKey;

/// The text of a symbol or string literal.
pub open spec fn sym_or_str(k: NodeKind) -> Option<Seq<char>> {
    match k {
        NodeKind::Sym(s) => Some(s@),
        NodeKind::Str(s) => Some(s@),
        _ => None,
    }
}

/// The first pair among `pairs` keyed `key:` whose value is a symbol or
/// string, with that value's text.
pub open spec fn keyed_text_pair(file: &SourceFile, pairs: Seq<NodeId>, key_name: Seq<char>) -> Option<(NodeId, Seq<char>)>
    decreases pairs.len(),
{
    if pairs.len() == 0 {
        None
    } else {
        match file.kind(pairs[0]) {
            NodeKind::Pair { key, value } => {
                if file.kind(key) matches NodeKind::Sym(k) && k@ == key_name && sym_or_str(file.kind(value)) is Some {
                    Some((pairs[0], sym_or_str(file.kind(value)).unwrap()))
                } else {
                    keyed_text_pair(file, pairs.drop_first(), key_name)
                }
            },
            _ => keyed_text_pair(file, pairs.drop_first(), key_name),
        }
    }
}

/// The name of the nearest enclosing class or module: its constant path, or
/// else the source of its name.
pub open spec fn enclosing_name(file: &SourceFile, node: NodeId) -> Option<Seq<char>> {
    match file.nearest_ancestor(node, class_or_module()) {
        Some(a) => {
            let name = match file.kind(a) {
                NodeKind::Class { name, .. } => name,
                NodeKind::Module { name, .. } => name,
                _ => 0,
            };
            match file.const_path(name) {
                Some(p) => Some(p),
                None => Some(file.source@.subrange(file.range(name).start as int, file.range(name).end as int)),
            }
        },
        None => None,
    }
}

/// The foreign key Rails infers: `<assoc>_id` for `belongs_to`, else
/// `<as>_id` for an `as:` option, else the enclosing class's name underscored.
pub open spec fn default_foreign_key(file: &SourceFile, node: NodeId, method: Seq<char>, assoc: Seq<char>, pairs: Seq<NodeId>) -> Option<Seq<char>> {
    if method == "belongs_to"@ {
        Some(assoc + "_id"@)
    } else {
        match keyed_text_pair(file, pairs, "as"@) {
            Some((_, as_name)) => Some(as_name + "_id"@),
            None => match enclosing_name(file, node) {
                Some(e) => Some(underscored(after_last_colons(e)) + "_id"@),
                None => None,
            },
        }
    }
}

/// An association macro.
pub open spec fn is_association(m: Seq<char>) -> bool {
    m == "belongs_to"@ || m == "has_one"@ || m == "has_many"@ || m == "has_and_belongs_to_many"@
}

/// What `RedundantForeignKey::check_send` reports for `node`.
pub open spec fn redundant_fk_finding(file: &SourceFile, node: NodeId) -> Option<Finding> {
    match file.kind(node) {
        NodeKind::Send { receiver: None, method, args } => {
            if is_association(method@) && args@.len() == 2 && sym_or_str(file.kind(args@[0])) is Some {
                let assoc = sym_or_str(file.kind(args@[0])).unwrap();
                match file.kind(args@[1]) {
                    NodeKind::Hash(list) => match keyed_text_pair(file, list@, "foreign_key"@) {
                        Some((pair, fk)) => {
                            if default_foreign_key(file, node, method@, assoc, list@) == Some(fk) {
                                Some(finding1(
                                    file.range(pair),
                                    "Specifying the default value for `foreign_key` is redundant."@,
                                    removal_span(file.source@, file.range(pair)),
                                    Seq::empty(),
                                ))
                            } else {
                                None
                            }
                        },
                        None => None,
                    },
                    _ => None,
                }
            } else {
                None
            }
        },
        _ => None,
    }
}

/// The text of a symbol or string node.
pub fn text_of(k: &NodeKind) -> (r: Option<&str>)
    ensures
        crate::text::opt_str_view(r) == sym_or_str(*k),
{
    match k {
        NodeKind::Sym(s) => Some(s.as_str()),
        NodeKind::Str(s) => Some(s.as_str()),
        _ => None,
    }
}

/// Finds the first `key:` pair with a symbol or string value.
fn find_keyed_text_pair<'a>(file: &'a SourceFile, hash: NodeId, pairs: &'a Vec<NodeId>, key_name: &str) -> (r: Option<(NodeId, &'a str)>)
    requires
        file.valid(hash),
        file.kind(hash) == NodeKind::Hash(*pairs),
    ensures
        match r {
            Some((p, t)) => keyed_text_pair(file, pairs@, key_name@) == Some((p, t@)) && p < file.nodes@.len(),
            None => keyed_text_pair(file, pairs@, key_name@) is None,
        },
{
    let mut j: usize = 0;
    assert(pairs@.subrange(0, pairs@.len() as int) =~= pairs@);
    while j < pairs.len()
        invariant
            file.valid(hash),
            file.kind(hash) == NodeKind::Hash(*pairs),
            j <= pairs@.len(),
            keyed_text_pair(file, pairs@, key_name@) == keyed_text_pair(file, pairs@.subrange(j as int, pairs@.len() as int), key_name@),
        decreases pairs@.len() - j,
    {
        let ghost rest = pairs@.subrange(j as int, pairs@.len() as int);
        assert(rest.drop_first() =~= pairs@.subrange(j + 1, pairs@.len() as int));
        let p = pairs[j];
        assert(file.children(hash)[j as int] == p);
        if let NodeKind::Pair { key, value } = &file.nodes[p].kind {
            assert(file.children(p)[0] == *key);
            assert(file.children(p)[1] == *value);
            if let NodeKind::Sym(k) = &file.nodes[*key].kind {
                if str_eq(k.as_str(), key_name) {
                    match text_of(&file.nodes[*value].kind) {
                        Some(t) => {
                            return Some((p, t));
                        },
                        None => {},
                    }
                }
            }
        }
        j = j + 1;
    }
    None
}

impl RedundantForeignKey {
    /// Reports a `foreign_key:` pair equal to the inferred key, with the
    /// edit that deletes it.
    pub fn check_send(&self, file: &SourceFile, node: NodeId) -> (r: Option<Offense>)
        requires
            file.valid(node),
        ensures
            r.deep_view() == redundant_fk_finding(file, node),
    {
        let (method, args) = match &file.nodes[node].kind {
            NodeKind::Send { receiver: None, method, args } => (method, args),
            _ => return None,
        };
        let m = method.as_str();
        if !(str_eq(m, "belongs_to") || str_eq(m, "has_one") || str_eq(m, "has_many")
            || str_eq(m, "has_and_belongs_to_many")) {
            return None;
        }
        if args.len() != 2 {
            return None;
        }
        assert(file.children(node)[0] == args@[0]);
        assert(file.children(node)[1] == args@[1]);
        let assoc = match text_of(&file.nodes[args[0]].kind) {
            Some(a) => a,
            None => return None,
        };
        let hash = args[1];
        let list = match &file.nodes[hash].kind {
            NodeKind::Hash(list) => list,
            _ => return None,
        };
        let (pair, fk) = match find_keyed_text_pair(file, hash, list, "foreign_key") {
            Some(x) => x,
            None => return None,
        };
        let default: String = if str_eq(m, "belongs_to") {
            concat2(assoc, "_id")
        } else {
            match find_keyed_text_pair(file, hash, list, "as") {
                Some((_, as_name)) => concat2(as_name, "_id"),
                None => {
                    let enclosing = match file.enclosing_class_or_module(node) {
                        Some(a) => a,
                        None => return None,
                    };
                    let name = match &file.nodes[enclosing].kind {
                        NodeKind::Class { name, .. } => *name,
                        NodeKind::Module { name, .. } => *name,
                        _ => return None,
                    };
                    assert(file.children(enclosing)[0] == name);
                    let text = match file.const_name(name) {
                        Some(p) => p,
                        None => String::from_str(file.raw_source(file.nodes[name].range)),
                    };
                    let short = demodulize(text.as_str());
                    let under = underscore(short.as_str());
                    concat2(under.as_str(), "_id")
                },
            }
        };
        if !str_eq(fk, default.as_str()) {
            return None;
        }
        let pr = file.nodes[pair].range;
        let msg = String::from_str("Specifying the default value for `foreign_key` is redundant.");
        Some(offense1(pr, msg, removal_range(file.source.as_str(), pr), String::new()))
    }
}

/// On `has_one`, as on `has_many` and `has_and_belongs_to_many`, a
/// `foreign_key:` naming the key Rails infers, the enclosing class's name
/// underscored plus `_id` when there is no `as:`, is reported on that pair
/// and removed with its separator.
pub proof fn lemma_has_association_default_key_reported(
    file: &SourceFile,
    node: NodeId,
    h: NodeId,
    pair: NodeId,
    fk: Seq<char>,
    e: Seq<char>,
)
    requires
        file.kind(node) is Send,
        file.kind(node)->Send_receiver is None,
        file.kind(node)->Send_method@ == "has_one"@ || file.kind(node)->Send_method@ == "has_many"@
            || file.kind(node)->Send_method@ == "has_and_belongs_to_many"@,
        file.kind(node)->Send_args@.len() == 2,
        sym_or_str(file.kind(file.kind(node)->Send_args@[0])) is Some,
        file.kind(node)->Send_args@[1] == h,
        file.kind(h) is Hash,
        keyed_text_pair(file, file.kind(h)->Hash_0@, "foreign_key"@) == Some((pair, fk)),
        keyed_text_pair(file, file.kind(h)->Hash_0@, "as"@) is None,
        enclosing_name(file, node) == Some(e),
        fk == underscored(after_last_colons(e)) + "_id"@,
    ensures
        redundant_fk_finding(file, node) matches Some(f) && f.range == file.range(pair)
            && f.edits == seq![(removal_span(file.source@, file.range(pair)), Seq::<char>::empty())],
{
    reveal_strlit("belongs_to");
    reveal_strlit("has_one");
    reveal_strlit("has_many");
    reveal_strlit("has_and_belongs_to_many");
    assert("belongs_to"@[0] != "has_one"@[0]);
    assert("belongs_to"@[0] != "has_many"@[0]);
    assert("belongs_to"@[0] != "has_and_belongs_to_many"@[0]);
}

} // verus!
