//! `Rails/MigrationClassName`: a migration's class name must match its file name.

use vstd::prelude::*;
use crate::ast::{NodeId, NodeKind, Range, SourceFile};
use crate::cops::order_arguments::split_on;
use crate::report::{finding1, offense1, Finding, Offense};
use crate::text::{all_ascii, upper_char, char_to_upper, concat3, digit_pred, ends_with, eq_ignore_case, find_char, first_index, last_index, lemma_prefix_len, lemma_prefix_len_bound, lemma_prefix_len_holds, lemma_prefix_len_stops, lemma_suffix_len_holds, lower_char, lower_str, not_char, suffix_len, prefix_len, push_char, rfind_char_end, str_ends_with, str_eq, str_eq_ignore_case, to_lower_char, to_upper_string};

verus! {

/// The last `/`-separated component of a path.
pub open spec fn file_base(path: Seq<char>) -> Seq<char> {
    path.subrange(last_index(path, '/') + 1, path.len() as int)
}

/// `b` without a trailing `.rb`.
pub open spec fn strip_rb(b: Seq<char>) -> Seq<char> {
    if ends_with(b, ".rb"@) { b.subrange(0, b.len() - ".rb"@.len()) } else { b }
}

/// `b` up to its first `.` (drops a gem suffix such as `.active_storage`).
pub open spec fn strip_gem(b: Seq<char>) -> Seq<char> {
    b.subrange(0, first_index(b, '.'))
}

/// `b` without a leading timestamp: digits followed by `_`.
pub open spec fn strip_timestamp(b: Seq<char>) -> Seq<char> {
    let k = prefix_len(b, digit_pred()) as int;
    if k > 0 && k < b.len() && b[k] == '_' { b.subrange(k + 1, b.len() as int) } else { b }
}

/// The migration name a file path gives: base name without `.rb`, gem
/// suffix and timestamp.
pub open spec fn migration_basename(path: Seq<char>) -> Seq<char> {
    strip_timestamp(strip_gem(strip_rb(file_base(path))))
}

/// The migration name holds neither `/` nor `.`: it lies within the last
/// path component and stops before that component's first `.`.
pub proof fn lemma_migration_basename_plain(path: Seq<char>)
    ensures
        !migration_basename(path).contains('/'),
        !migration_basename(path).contains('.'),
{
    lemma_suffix_len_holds(path, not_char('/'));
    let fb = file_base(path);
    let k = suffix_len(path, not_char('/')) as int;
    assert(last_index(path, '/') + 1 == path.len() - k);
    assert forall|j: int| 0 <= j < fb.len() implies fb[j] != '/' by {
        assert(fb[j] == path[path.len() - k + j]);
        assert(not_char('/')(path[path.len() - k + j]));
    }
    let rb = strip_rb(fb);
    assert forall|j: int| 0 <= j < rb.len() implies rb[j] != '/' by {
        assert(rb[j] == fb[j]);
    }
    lemma_prefix_len_bound(rb, not_char('.'));
    lemma_prefix_len_holds(rb, not_char('.'));
    let g = strip_gem(rb);
    assert forall|j: int| 0 <= j < g.len() implies g[j] != '/' && g[j] != '.' by {
        assert(g[j] == rb[j]);
        assert(not_char('.')(rb[j]));
    }
    let t = strip_timestamp(g);
    assert forall|j: int| 0 <= j < t.len() implies t[j] != '/' && t[j] != '.' by {
        let kk = prefix_len(g, digit_pred()) as int;
        if kk > 0 && kk < g.len() && g[kk] == '_' {
            assert(t[j] == g[kk + 1 + j]);
        } else {
            assert(t[j] == g[j]);
        }
    }
}

/// What `camelize` produces for character `i` of `s`: nothing for `_`, the
/// upper-case mapping at the start of a word, else the ASCII lower case.
pub open spec fn camel_piece(s: Seq<char>, i: int) -> Seq<char> {
    if s[i] == '_' {
        Seq::empty()
    } else if i == 0 || s[i - 1] == '_' {
        char_to_upper(s[i])
    } else {
        seq![lower_char(s[i])]
    }
}

/// `camelize` of the first `n` characters of `s`.
pub open spec fn camelize_prefix(s: Seq<char>, n: int) -> Seq<char>
    decreases n,
{
    if n <= 0 {
        Seq::empty()
    } else {
        camelize_prefix(s, n - 1) + camel_piece(s, n - 1)
    }
}

/// Words separated by `_`, each capitalised and the rest lower-cased, joined.
pub open spec fn camelized(s: Seq<char>) -> Seq<char> {
    camelize_prefix(s, s.len() as int)
}

/// `camel_piece` on ASCII text, where the upper-case mapping is ASCII's.
pub open spec fn ascii_camel_piece(s: Seq<char>, i: int) -> Seq<char> {
    if s[i] == '_' {
        Seq::empty()
    } else if i == 0 || s[i - 1] == '_' {
        seq![upper_char(s[i])]
    } else {
        seq![lower_char(s[i])]
    }
}

/// `ascii_camel_piece` of the first `n` characters of `s`.
pub open spec fn ascii_camelize_prefix(s: Seq<char>, n: int) -> Seq<char>
    decreases n,
{
    if n <= 0 {
        Seq::empty()
    } else {
        ascii_camelize_prefix(s, n - 1) + ascii_camel_piece(s, n - 1)
    }
}

/// What `camelize` gives for ASCII text.
pub open spec fn ascii_camelized(s: Seq<char>) -> Seq<char> {
    ascii_camelize_prefix(s, s.len() as int)
}

/// A word with its first letter in upper case and the rest in lower case.
pub open spec fn capitalized(p: Seq<char>) -> Seq<char> {
    if p.len() == 0 { Seq::empty() } else { seq![upper_char(p[0])] + lower_str(p.drop_first()) }
}

/// The parts capitalised and joined (an empty part gives nothing).
pub open spec fn camel_parts(parts: Seq<Seq<char>>) -> Seq<char>
    decreases parts.len(),
{
    if parts.len() == 0 { Seq::empty() } else { capitalized(parts[0]) + camel_parts(parts.drop_first()) }
}

/// The pieces for the first `n` characters depend on those characters alone.
proof fn lemma_ascii_prefix_agree(w: Seq<char>, a: Seq<char>, n: int)
    requires
        0 <= n <= a.len() <= w.len(),
        w.subrange(0, a.len() as int) == a,
    ensures
        ascii_camelize_prefix(w, n) == ascii_camelize_prefix(a, n),
    decreases n,
{
    if n > 0 {
        lemma_ascii_prefix_agree(w, a, n - 1);
        assert(w[n - 1] == a[n - 1]);
        if n >= 2 {
            assert(w[n - 2] == a[n - 2]);
        }
        assert(ascii_camel_piece(w, n - 1) == ascii_camel_piece(a, n - 1));
    }
}

/// On a word without `_`, the pieces of a non-empty prefix capitalise it.
proof fn lemma_ascii_prefix_word(a: Seq<char>, n: int)
    requires
        0 <= n <= a.len(),
        forall|i: int| 0 <= i < a.len() ==> a[i] != '_',
    ensures
        ascii_camelize_prefix(a, n) == capitalized(a.subrange(0, n)),
    decreases n,
{
    if n == 0 {
        assert(a.subrange(0, 0) =~= Seq::<char>::empty());
    } else if n == 1 {
        assert(ascii_camelize_prefix(a, 0) == Seq::<char>::empty());
        assert(lower_str(a.subrange(0, 1).drop_first()) =~= Seq::<char>::empty());
        assert(ascii_camelize_prefix(a, 1) =~= capitalized(a.subrange(0, 1)));
    } else {
        lemma_ascii_prefix_word(a, n - 1);
        assert(a[n - 2] != '_' && a[n - 1] != '_');
        assert(lower_str(a.subrange(0, n).drop_first()) =~= lower_str(a.subrange(0, n - 1).drop_first()).push(lower_char(a[n - 1])));
        assert(ascii_camelize_prefix(a, n) =~= capitalized(a.subrange(0, n)));
    }
}

/// Past an `_`, the pieces start a new word: `a_b` gives those of `a`
/// followed by those of `b`.
proof fn lemma_ascii_prefix_after_underscore(w: Seq<char>, a: Seq<char>, b: Seq<char>, m: int)
    requires
        w == a + seq!['_'] + b,
        0 <= m <= b.len(),
    ensures
        ascii_camelize_prefix(w, a.len() + 1 + m) == ascii_camelize_prefix(a, a.len() as int) + ascii_camelize_prefix(b, m),
    decreases m,
{
    if m == 0 {
        assert(w.subrange(0, a.len() as int) =~= a);
        lemma_ascii_prefix_agree(w, a, a.len() as int);
        assert(w[a.len() as int] == '_');
        assert(ascii_camel_piece(w, a.len() as int) == Seq::<char>::empty());
        assert(ascii_camelize_prefix(b, 0) == Seq::<char>::empty());
        assert(ascii_camelize_prefix(w, a.len() + 1int) =~= ascii_camelize_prefix(a, a.len() as int) + ascii_camelize_prefix(b, 0));
    } else {
        lemma_ascii_prefix_after_underscore(w, a, b, m - 1);
        let i = a.len() + 1 + m - 1;
        assert(w[i] == b[m - 1]);
        assert(w[i - 1] == if m - 1 == 0 { '_' } else { b[m - 2] });
        assert(ascii_camel_piece(w, i) == ascii_camel_piece(b, m - 1));
        assert(ascii_camelize_prefix(w, a.len() + 1 + m) =~= ascii_camelize_prefix(a, a.len() as int) + ascii_camelize_prefix(b, m));
    }
}

/// For ASCII text, `camelize` capitalises each `_`-separated part and joins
/// them: `remove_unused_oauth_scope_grants` gives
/// `RemoveUnusedOauthScopeGrants`, and empty parts give nothing.
pub proof fn lemma_camelized_parts(w: Seq<char>)
    ensures
        ascii_camelized(w) == camel_parts(split_on(w, '_')),
    decreases w.len(),
{
    let i = first_index(w, '_');
    lemma_prefix_len_bound(w, not_char('_'));
    lemma_prefix_len_holds(w, not_char('_'));
    lemma_prefix_len_stops(w, not_char('_'));
    if i >= w.len() {
        assert(split_on(w, '_') == seq![w]);
        assert(seq![w].drop_first() =~= Seq::<Seq<char>>::empty());
        assert forall|k: int| 0 <= k < w.len() implies w[k] != '_' by {
            assert(not_char('_')(w[k]));
        }
        lemma_ascii_prefix_word(w, w.len() as int);
        assert(w.subrange(0, w.len() as int) =~= w);
        assert(camel_parts(Seq::<Seq<char>>::empty()) == Seq::<char>::empty());
        assert(camel_parts(seq![w]) == capitalized(w) + camel_parts(seq![w].drop_first()));
        assert(camel_parts(seq![w]) =~= capitalized(w));
    } else {
        let a = w.subrange(0, i);
        let b = w.subrange(i + 1, w.len() as int);
        assert(w =~= a + seq!['_'] + b);
        lemma_camelized_parts(b);
        lemma_ascii_prefix_after_underscore(w, a, b, b.len() as int);
        assert forall|k: int| 0 <= k < a.len() implies a[k] != '_' by {
            assert(not_char('_')(w[k]));
        }
        lemma_ascii_prefix_word(a, a.len() as int);
        assert(a.subrange(0, a.len() as int) =~= a);
        let parts = split_on(w, '_');
        assert(parts == seq![a] + split_on(b, '_'));
        assert(parts.drop_first() =~= split_on(b, '_'));
        assert(parts[0] == a);
    }
}

/// `File.basename(path, '.rb')`, without gem suffix and leading timestamp.
pub fn basename_without_timestamp_and_suffix(path: &str) -> (r: String)
    ensures
        r@ == migration_basename(path@),
{
    let n = path.unicode_len();
    let slash_end = rfind_char_end(path, '/');
    let base = path.substring_char(slash_end, n);
    let bn = base.unicode_len();
    let no_rb = if str_ends_with(base, ".rb") {
        base.substring_char(0, bn - ".rb".unicode_len())
    } else {
        base
    };
    let dot = find_char(no_rb, '.');
    proof {
        crate::text::lemma_prefix_len_bound(no_rb@, crate::text::not_char('.'));
    }
    let no_gem = no_rb.substring_char(0, dot);
    let gn = no_gem.unicode_len();
    let mut idx: usize = 0;
    while idx < gn && ('0' <= no_gem.get_char(idx) && no_gem.get_char(idx) <= '9')
        invariant
            gn == no_gem@.len(),
            idx <= gn,
            forall|j: int| 0 <= j < idx ==> digit_pred()(#[trigger] no_gem@[j]),
        decreases gn - idx,
    {
        idx = idx + 1;
    }
    proof {
        lemma_prefix_len(no_gem@, digit_pred(), idx as int);
    }
    if idx > 0 && idx < gn && no_gem.get_char(idx) == '_' {
        String::from_str(no_gem.substring_char(idx + 1, gn))
    } else {
        String::from_str(no_gem)
    }
}

/// Ruby-style `camelize` of a snake-case word: `add_users` to `AddUsers`.
pub fn camelize(word: &str) -> (r: String)
    ensures
        r@ == camelized(word@),
        all_ascii(word@) ==> r@ == ascii_camelized(word@),
        all_ascii(word@) ==> !r@.contains('_'),
{
    let n = word.unicode_len();
    let mut out = String::new();
    let mut i: usize = 0;
    while i < n
        invariant
            n == word@.len(),
            i <= n,
            out@ == camelize_prefix(word@, i as int),
            all_ascii(word@) ==> forall|k: int| 0 <= k < out@.len() ==> out@[k] != '_',
            all_ascii(word@) ==> out@ == ascii_camelize_prefix(word@, i as int),
        decreases n - i,
    {
        let c = word.get_char(i);
        let ghost before = out@;
        if c != '_' {
            if i == 0 || word.get_char(i - 1) == '_' {
                let up = to_upper_string(c);
                out.append(up.as_str());
                proof {
                    if all_ascii(word@) {
                        assert((word@[i as int] as u32) < 128);
                        assert(up@ == seq![upper_char(c)]);
                        assert forall|k: int| 0 <= k < out@.len() implies out@[k] != '_' by {
                            if k >= before.len() {
                                assert(out@[k] == up@[k - before.len()]);
                            } else {
                                assert(out@[k] == before[k]);
                            }
                        }
                    }
                }
            } else {
                push_char(&mut out, to_lower_char(c));
                proof {
                    if all_ascii(word@) {
                        assert forall|k: int| 0 <= k < out@.len() implies out@[k] != '_' by {
                            if k < before.len() {
                                assert(out@[k] == before[k]);
                            }
                        }
                    }
                }
            }
        }
        assert(out@ =~= camelize_prefix(word@, i + 1));
        proof {
            if all_ascii(word@) {
                assert((word@[i as int] as u32) < 128);
                assert(char_to_upper(c) == seq![upper_char(c)] ==> camel_piece(word@, i as int) == ascii_camel_piece(word@, i as int));
                assert(out@ =~= ascii_camelize_prefix(word@, i + 1));
            }
        }
        i = i + 1;
    }
    proof {
        if all_ascii(word@) {
            assert forall|k: int| 0 <= k < out@.len() implies out@[k] != '_' by {}
            assert(!out@.contains('_'));
        }
    }
    out
}

/// Checks that the class of a migration file is named after the file.
#[derive(Debug, Default)]
pub struct MigrationClassName;

/// A constant with no scope or a `::` scope.
pub open spec fn is_top_level_const(file: &SourceFile, n: NodeId) -> bool {
    match file.kind(n) {
        NodeKind::Const { scope: None, .. } => true,
        NodeKind::Const { scope: Some(s), .. } => file.kind(s) is Cbase,
        _ => false,
    }
}

/// `ActiveRecord::Migration[<float>]`.
pub open spec fn is_migration_superclass(file: &SourceFile, n: NodeId) -> bool {
    match file.kind(n) {
        NodeKind::Send { receiver: Some(recv), method, args } => {
            &&& method@ == "[]"@
            &&& file.const_path(recv) == Some("ActiveRecord::Migration"@)
            &&& args@.len() == 1
            &&& file.kind(args@[0]) is Float
        },
        _ => false,
    }
}

/// Span of the class's own name: the trailing `short` of the constant's
/// source when it ends so (`::Name` keeps its `::` outside), else the whole.
pub open spec fn short_name_span(file: &SourceFile, name: NodeId, short: Seq<char>) -> Range {
    let whole = file.range(name);
    let src = file.source@.subrange(whole.start as int, whole.end as int);
    if short.len() > 0 && ends_with(src, short) {
        Range { start: (whole.end - short.len()) as usize, end: whole.end }
    } else {
        whole
    }
}

/// What `MigrationClassName::check_class` reports for `node`.
pub open spec fn migration_class_finding(file: &SourceFile, node: NodeId) -> Option<Finding> {
    match file.kind(node) {
        NodeKind::Class { name, superclass: Some(sup), .. } => {
            if is_top_level_const(file, name) && is_migration_superclass(file, sup) {
                let short = match file.kind(name) {
                    NodeKind::Const { name: s, .. } => s@,
                    _ => Seq::empty(),
                };
                let expected = camelized(migration_basename(file.file_path@));
                if eq_ignore_case(short, expected) {
                    None
                } else {
                    let span = short_name_span(file, name, short);
                    Some(finding1(span, "Replace with `"@ + expected + "` that matches the file name."@, span, expected))
                }
            } else {
                None
            }
        },
        _ => None,
    }
}

impl MigrationClassName {
    /// Reports a migration class whose name does not match the file name,
    /// with the edit that renames it.
    pub fn check_class(&self, file: &SourceFile, node: NodeId) -> (r: Option<Offense>)
        requires
            file.valid(node),
        ensures
            r.deep_view() == migration_class_finding(file, node),
    {
        let (name, sup) = match &file.nodes[node].kind {
            NodeKind::Class { name, superclass: Some(sup), .. } => (*name, *sup),
            _ => return None,
        };
        assert(file.children(node)[0] == name);
        assert(file.children(node)[1] == sup);
        let short: &str = match &file.nodes[name].kind {
            NodeKind::Const { scope, name: s } => {
                match scope {
                    None => {},
                    Some(sc) => {
                        assert(file.children(name)[0] == *sc);
                        match &file.nodes[*sc].kind {
                            NodeKind::Cbase => {},
                            _ => return None,
                        }
                    },
                }
                s.as_str()
            },
            _ => return None,
        };
        match &file.nodes[sup].kind {
            NodeKind::Send { receiver: Some(recv), method, args } => {
                assert(file.children(sup)[0] == *recv);
                if !str_eq(method.as_str(), "[]") {
                    return None;
                }
                match file.const_name(*recv) {
                    Some(c) => {
                        if !str_eq(c.as_str(), "ActiveRecord::Migration") {
                            return None;
                        }
                    },
                    None => return None,
                }
                if args.len() != 1 {
                    return None;
                }
                assert(file.children(sup)[1] == args@[0]);
                match &file.nodes[args[0]].kind {
                    NodeKind::Float { .. } => {},
                    _ => return None,
                }
            },
            _ => return None,
        }
        let basename = basename_without_timestamp_and_suffix(file.file_path.as_str());
        let expected = camelize(basename.as_str());
        if str_eq_ignore_case(short, expected.as_str()) {
            return None;
        }
        let whole = file.nodes[name].range;
        let src = file.raw_source(whole);
        let slen = short.unicode_len();
        let span = if slen > 0 && str_ends_with(src, short) {
            Range { start: whole.end - slen, end: whole.end }
        } else {
            whole
        };
        let msg = concat3("Replace with `", expected.as_str(), "` that matches the file name.");
        let fix = String::from_str(expected.as_str());
        Some(offense1(span, msg, span, fix))
    }
}

} // verus!
