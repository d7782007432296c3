//! `Rails/OrderArguments`: prefer symbol arguments over strings in `order`.

use vstd::prelude::*;
use crate::ast::{args_of, method_of, NodeId, NodeKind, Range, SourceFile};
use crate::report::{finding1, offense1, Finding, Offense};
use crate::text::{
    concat3, find_char, first_index, is_digit, is_lower, is_upper, lemma_prefix_len_bound, lemma_prefix_len_stops,
    join_sep, lemma_lower_char, lower_str, not_char, str_eq, to_lower_str, trim, trim_str,
};

verus! {

/// Sort direction of an `order` column.
#[derive(Clone, Copy, Debug, PartialEq, Eq, Structural)]
pub enum Direction {
    Asc,
    Desc,
}

/// `s` split at each `c`, as `str::split` cuts it.
pub open spec fn split_on(s: Seq<char>, c: char) -> Seq<Seq<char>>
    decreases s.len(),
{
    let i = first_index(s, c);
    if i >= s.len() {
        seq![s]
    } else {
        seq![s.subrange(0, i)] + split_on(s.subrange(i + 1, s.len() as int), c)
    }
}

/// The pieces without the empty ones at the end.
pub open spec fn strip_trailing_empty(l: Seq<Seq<char>>) -> Seq<Seq<char>>
    decreases l.len(),
{
    if l.len() > 0 && l.last().len() == 0 {
        strip_trailing_empty(l.drop_last())
    } else {
        l
    }
}

/// `s` split at each `c` as Ruby's `String#split` cuts it: empty pieces at
/// the end are dropped, so `"a,"` gives `["a"]` and `""` gives nothing.
pub open spec fn ruby_split(s: Seq<char>, c: char) -> Seq<Seq<char>> {
    strip_trailing_empty(split_on(s, c))
}

/// The characters of each string.
pub open spec fn strings_view(v: Seq<String>) -> Seq<Seq<char>> {
    v.map_values(|x: String| x@)
}

/// The comma-separated pieces of all `exprs` (split as Ruby does), in
/// order, each trimmed.
pub open spec fn order_parts(exprs: Seq<Seq<char>>) -> Seq<Seq<char>>
    decreases exprs.len(),
{
    if exprs.len() == 0 {
        Seq::empty()
    } else {
        order_parts(exprs.drop_last()) + ruby_split(exprs.last(), ',').map_values(trim_fn())
    }
}

/// `trim` as a function value.
pub open spec fn trim_fn() -> spec_fn(Seq<char>) -> Seq<char> {
    |p: Seq<char>| trim(p)
}

/// An ASCII letter, digit or `_` (`\w`).
pub open spec fn is_word_char(c: char) -> bool {
    is_upper(c) || is_lower(c) || is_digit(c) || c == '_'
}

/// A non-empty run of word characters.
pub open spec fn word(s: Seq<char>) -> bool {
    s.len() > 0 && forall|i: int| 0 <= i < s.len() ==> is_word_char(#[trigger] s[i])
}

/// A non-empty run of ASCII digits.
pub open spec fn positional(s: Seq<char>) -> bool {
    s.len() > 0 && forall|i: int| 0 <= i < s.len() ==> is_digit(#[trigger] s[i])
}

/// `/\A(\w+) ?(asc|desc)?\z/i`: a column, then optionally one space and a
/// direction in any case; the column is lower-cased.
pub open spec fn column_direction(e: Seq<char>) -> Option<(Seq<char>, Direction)> {
    if e.len() == 0 {
        None
    } else if word(e) {
        Some((lower_str(e), Direction::Asc))
    } else {
        let sp = first_index(e, ' ');
        if sp >= e.len() {
            None
        } else {
            let col = e.subrange(0, sp);
            let d = e.subrange(sp + 1, e.len() as int);
            if d.contains(' ') || d.contains('\t') || !word(col) {
                None
            } else if d.len() == 0 {
                Some((lower_str(col), Direction::Asc))
            } else if lower_str(d) == "asc"@ {
                Some((lower_str(col), Direction::Asc))
            } else if lower_str(d) == "desc"@ {
                Some((lower_str(col), Direction::Desc))
            } else {
                None
            }
        }
    }
}

/// Lower-casing keeps a run of word characters one, and lower-casing it
/// again changes nothing.
proof fn lemma_lower_word(w: Seq<char>)
    requires
        word(w),
    ensures
        word(lower_str(w)),
        lower_str(lower_str(w)) == lower_str(w),
{
    assert forall|i: int| 0 <= i < w.len() implies is_word_char(#[trigger] lower_str(w)[i]) by {
        lemma_lower_char(w[i]);
    }
    assert forall|i: int| 0 <= i < w.len() implies #[trigger] lower_str(lower_str(w))[i] == lower_str(w)[i] by {
        lemma_lower_char(w[i]);
    }
    assert(lower_str(lower_str(w)) =~= lower_str(w));
}

/// A column extracted from an expression is a lower-case run of word
/// characters, and the lower-cased expression is that column alone, or the
/// column and one space, or the column with ` asc` (all ascending), or with
/// ` desc` (descending).
pub proof fn lemma_column_is_lowered_input(e: Seq<char>)
    ensures
        column_direction(e) matches Some((c, d)) ==> {
            &&& word(c)
            &&& lower_str(c) == c
            &&& (lower_str(e) == c && d == Direction::Asc)
                || (lower_str(e) == c + " "@ && d == Direction::Asc)
                || (lower_str(e) == c + " asc"@ && d == Direction::Asc)
                || (lower_str(e) == c + " desc"@ && d == Direction::Desc)
        },
{
    reveal_strlit(" ");
    reveal_strlit(" asc");
    reveal_strlit(" desc");
    reveal_strlit("asc");
    reveal_strlit("desc");
    if e.len() == 0 {
    } else if word(e) {
        lemma_lower_word(e);
    } else {
        let sp = first_index(e, ' ');
        if sp < e.len() {
            let col = e.subrange(0, sp);
            let d = e.subrange(sp + 1, e.len() as int);
            if !(d.contains(' ') || d.contains('\t') || !word(col)) {
                lemma_lower_word(col);
                lemma_prefix_len_stops(e, not_char(' '));
                assert(e[sp] == ' ');
                assert(e =~= col + seq![' '] + d);
                assert(lower_str(e) =~= lower_str(col) + seq![' '] + lower_str(d));
                assert(" "@ =~= seq![' ']);
                assert(" asc"@ =~= seq![' '] + "asc"@);
                assert(" desc"@ =~= seq![' '] + "desc"@);
                if d.len() == 0 {
                    assert(lower_str(d) =~= Seq::<char>::empty());
                    assert(lower_str(e) =~= lower_str(col) + " "@);
                } else if lower_str(d) == "asc"@ {
                    assert(lower_str(e) =~= lower_str(col) + " asc"@);
                } else if lower_str(d) == "desc"@ {
                    assert(lower_str(e) =~= lower_str(col) + " desc"@);
                }
            }
        }
    }
}

/// The columns of all parts, or `None` if one is not a plain column or is positional.
pub open spec fn order_columns(parts: Seq<Seq<char>>) -> Option<Seq<(Seq<char>, Direction)>>
    decreases parts.len(),
{
    if parts.len() == 0 {
        Some(Seq::empty())
    } else {
        match (order_columns(parts.drop_last()), column_direction(parts.last())) {
            (Some(cols), Some((col, dir))) => if positional(col) { None } else { Some(cols.push((col, dir))) },
            _ => None,
        }
    }
}

/// Some column among the first `n` is descending.
pub open spec fn any_desc(cols: Seq<(Seq<char>, Direction)>, n: int) -> bool
    decreases n,
{
    n > 0 && (any_desc(cols, n - 1) || cols[n - 1].1 == Direction::Desc)
}

/// The preferred form of column `i`: `:col` until a descending column has
/// appeared, `col: :asc`/`col: :desc` from it on.
pub open spec fn preferred_item(cols: Seq<(Seq<char>, Direction)>, i: int) -> Seq<char> {
    if any_desc(cols, i + 1) {
        cols[i].0 + ": :"@ + (if cols[i].1 == Direction::Asc { "asc"@ } else { "desc"@ })
    } else {
        ":"@ + cols[i].0
    }
}

/// The preferred forms of the first `n` columns joined by `, `.
pub open spec fn preferred_prefix(cols: Seq<(Seq<char>, Direction)>, n: int) -> Seq<char>
    decreases n,
{
    if n <= 0 {
        Seq::empty()
    } else if n == 1 {
        preferred_item(cols, 0)
    } else {
        preferred_prefix(cols, n - 1) + ", "@ + preferred_item(cols, n - 1)
    }
}

/// The preferred forms of the first `n` columns, one item each.
pub open spec fn preferred_items(cols: Seq<(Seq<char>, Direction)>, n: int) -> Seq<Seq<char>> {
    Seq::new(n as nat, |i: int| preferred_item(cols, i))
}

/// `any_desc` holds exactly when a descending column is among the first `n`.
proof fn lemma_any_desc_exists(cols: Seq<(Seq<char>, Direction)>, n: int)
    requires
        0 <= n <= cols.len(),
    ensures
        any_desc(cols, n) <==> exists|j: int| 0 <= j < n && #[trigger] cols[j].1 == Direction::Desc,
    decreases n,
{
    if n > 0 {
        lemma_any_desc_exists(cols, n - 1);
        if cols[n - 1].1 == Direction::Desc {
            assert(cols[n - 1].1 == Direction::Desc);
        }
    }
}

/// `preferred_prefix` joins the first `n` items with `, `.
proof fn lemma_preferred_prefix_join(cols: Seq<(Seq<char>, Direction)>, n: int)
    requires
        0 <= n <= cols.len(),
    ensures
        preferred_prefix(cols, n) == join_sep(preferred_items(cols, n), ", "@),
    decreases n,
{
    if n >= 2 {
        lemma_preferred_prefix_join(cols, n - 1);
        assert(preferred_items(cols, n).drop_last() =~= preferred_items(cols, n - 1));
    } else if n == 1 {
        assert(preferred_items(cols, 1)[0] == preferred_item(cols, 0));
    } else {
        assert(preferred_items(cols, 0) =~= Seq::<Seq<char>>::empty());
    }
}

/// The preferred text is the columns' items joined by `, `: a column reads
/// `:col` while no descending column has appeared up to it, and
/// `col: :asc` or `col: :desc` from the first descending column on; no
/// columns give the empty text.
pub proof fn lemma_preferred_text_items(cols: Seq<(Seq<char>, Direction)>)
    ensures
        preferred_prefix(cols, cols.len() as int) == join_sep(preferred_items(cols, cols.len() as int), ", "@),
        forall|i: int| 0 <= i < cols.len() ==> #[trigger] preferred_item(cols, i) == if exists|j: int|
            0 <= j <= i && #[trigger] cols[j].1 == Direction::Desc {
            cols[i].0 + ": :"@ + (if cols[i].1 == Direction::Asc { "asc"@ } else { "desc"@ })
        } else {
            ":"@ + cols[i].0
        },
        cols.len() == 0 ==> preferred_prefix(cols, 0) == Seq::<char>::empty(),
{
    lemma_preferred_prefix_join(cols, cols.len() as int);
    assert forall|i: int| 0 <= i < cols.len() implies #[trigger] preferred_item(cols, i) == if exists|j: int|
        0 <= j <= i && #[trigger] cols[j].1 == Direction::Desc {
        cols[i].0 + ": :"@ + (if cols[i].1 == Direction::Asc { "asc"@ } else { "desc"@ })
    } else {
        ":"@ + cols[i].0
    } by {
        lemma_any_desc_exists(cols, i + 1);
    }
}

/// The symbol/hash arguments that replace the string arguments `exprs`.
pub open spec fn replacement_text(exprs: Seq<Seq<char>>) -> Option<Seq<char>> {
    match order_columns(order_parts(exprs)) {
        Some(cols) => Some(preferred_prefix(cols, cols.len() as int)),
        None => None,
    }
}

/// Every character is a word character.
pub fn is_word(s: &str) -> (r: bool)
    ensures
        r == word(s@),
{
    let n = s.unicode_len();
    if n == 0 {
        return false;
    }
    let mut i: usize = 0;
    while i < n
        invariant
            n == s@.len(),
            i <= n,
            forall|j: int| 0 <= j < i ==> is_word_char(#[trigger] s@[j]),
        decreases n - i,
    {
        let c = s.get_char(i);
        if !(('A' <= c && c <= 'Z') || ('a' <= c && c <= 'z') || ('0' <= c && c <= '9') || c == '_') {
            assert(!is_word_char(s@[i as int]));
            return false;
        }
        i = i + 1;
    }
    true
}

/// A non-empty string of digits: a positional column such as `1`.
pub fn is_positional_column(col: &str) -> (r: bool)
    ensures
        r == positional(col@),
{
    let n = col.unicode_len();
    if n == 0 {
        return false;
    }
    let mut i: usize = 0;
    while i < n
        invariant
            n == col@.len(),
            i <= n,
            forall|j: int| 0 <= j < i ==> is_digit(#[trigger] col@[j]),
        decreases n - i,
    {
        let c = col.get_char(i);
        if !('0' <= c && c <= '9') {
            assert(!is_digit(col@[i as int]));
            return false;
        }
        i = i + 1;
    }
    true
}

/// Whether `s` holds a space or a tab.
fn has_blank(s: &str) -> (r: bool)
    ensures
        r == (s@.contains(' ') || s@.contains('\t')),
{
    let n = s.unicode_len();
    let mut i: usize = 0;
    while i < n
        invariant
            n == s@.len(),
            i <= n,
            forall|j: int| 0 <= j < i ==> s@[j] != ' ' && s@[j] != '\t',
        decreases n - i,
    {
        let c = s.get_char(i);
        if c == ' ' || c == '\t' {
            assert(s@[i as int] == c);
            return true;
        }
        i = i + 1;
    }
    false
}

/// Splits an order expression into its lower-cased column and direction.
pub fn extract_column_and_direction(expr: &str) -> (r: Option<(String, Direction)>)
    ensures
        match r {
            Some((col, dir)) => column_direction(expr@) == Some((col@, dir)),
            None => column_direction(expr@) is None,
        },
{
    let n = expr.unicode_len();
    if n == 0 {
        return None;
    }
    if is_word(expr) {
        return Some((to_lower_str(expr), Direction::Asc));
    }
    let sp = find_char(expr, ' ');
    if sp >= n {
        return None;
    }
    let col = expr.substring_char(0, sp);
    let d = expr.substring_char(sp + 1, n);
    if has_blank(d) || !is_word(col) {
        return None;
    }
    if d.unicode_len() == 0 {
        return Some((to_lower_str(col), Direction::Asc));
    }
    let dl = to_lower_str(d);
    if str_eq(dl.as_str(), "asc") {
        Some((to_lower_str(col), Direction::Asc))
    } else if str_eq(dl.as_str(), "desc") {
        Some((to_lower_str(col), Direction::Desc))
    } else {
        None
    }
}

/// The pieces of `s` between commas, as `str::split` cuts them.
fn comma_pieces(s: &str) -> (r: Vec<String>)
    ensures
        strings_view(r@) == split_on(s@, ','),
{
    let n = s.unicode_len();
    let mut out: Vec<String> = Vec::new();
    let mut start: usize = 0;
    let ghost tail: Seq<Seq<char>> = Seq::empty();
    assert(s@.subrange(0, n as int) =~= s@);
    loop
        invariant
            n == s@.len(),
            start <= n,
            split_on(s@, ',') == tail + split_on(s@.subrange(start as int, n as int), ','),
            strings_view(out@) == tail,
        decreases n - start,
    {
        let rest = s.substring_char(start, n);
        let i = find_char(rest, ',');
        proof {
            lemma_prefix_len_bound(rest@, not_char(','));
        }
        let ghost before = strings_view(out@);
        if i >= rest.unicode_len() {
            out.push(String::from_str(rest));
            proof {
                assert(strings_view(out@) =~= before.push(rest@));
                assert(split_on(rest@, ',') == seq![rest@]);
                assert(split_on(s@, ',') =~= tail + seq![rest@]);
            }
            return out;
        }
        let piece = rest.substring_char(0, i);
        out.push(String::from_str(piece));
        proof {
            assert(strings_view(out@) =~= before.push(piece@));
            assert(rest@.subrange(i + 1, rest@.len() as int) =~= s@.subrange(start + i + 1, n as int));
            assert(split_on(rest@, ',') == seq![piece@] + split_on(rest@.subrange(i + 1, rest@.len() as int), ','));
            tail = tail + seq![piece@];
            assert(strings_view(out@) =~= tail);
        }
        start = start + i + 1;
    }
}

/// Drops the empty pieces at the end of `v`.
fn drop_trailing_empty(v: &mut Vec<String>)
    ensures
        strings_view(final(v)@) == strip_trailing_empty(strings_view(old(v)@)),
{
    loop
        invariant
            strip_trailing_empty(strings_view(v@)) == strip_trailing_empty(strings_view(old(v)@)),
        decreases v@.len(),
    {
        if v.len() == 0 {
            return;
        }
        let last = v.len() - 1;
        if v[last].as_str().unicode_len() != 0 {
            assert(strings_view(v@).last() == v@[last as int]@);
            return;
        }
        let ghost pre = strings_view(v@);
        assert(pre.last() == v@[last as int]@);
        v.pop();
        assert(strings_view(v@) =~= pre.drop_last());
    }
}

/// The pieces of `s` between commas (split as Ruby does), each trimmed,
/// appended to `out`.
fn push_comma_parts(s: &str, out: &mut Vec<String>)
    ensures
        strings_view(final(out)@) == strings_view(old(out)@) + ruby_split(s@, ',').map_values(trim_fn()),
{
    let mut raw = comma_pieces(s);
    drop_trailing_empty(&mut raw);
    let ghost pieces = strings_view(raw@);
    let ghost base = strings_view(out@);
    let mut i: usize = 0;
    while i < raw.len()
        invariant
            i <= raw@.len(),
            pieces == strings_view(raw@),
            pieces == ruby_split(s@, ','),
            strings_view(out@) == base + pieces.subrange(0, i as int).map_values(trim_fn()),
            base == strings_view(old(out)@),
        decreases raw@.len() - i,
    {
        let ghost before = strings_view(out@);
        out.push(trim_str(raw[i].as_str()));
        proof {
            assert(pieces[i as int] == raw@[i as int]@);
            assert(pieces.subrange(0, i + 1).map_values(trim_fn()) =~= pieces.subrange(0, i as int).map_values(trim_fn()).push(trim(raw@[i as int]@)));
            assert(strings_view(out@) =~= before.push(trim(raw@[i as int]@)));
        }
        i = i + 1;
    }
    assert(pieces.subrange(0, raw@.len() as int) =~= pieces);
}

/// The preferred `order` arguments for the string arguments `exprs`, or
/// `None` if one of them is not a plain column list.
pub fn replacement(exprs: &[String]) -> (r: Option<String>)
    ensures
        match r {
            Some(t) => replacement_text(strings_view(exprs@)) == Some(t@),
            None => replacement_text(strings_view(exprs@)) is None,
        },
{
    let mut parts: Vec<String> = Vec::new();
    let mut k: usize = 0;
    while k < exprs.len()
        invariant
            k <= exprs@.len(),
            strings_view(parts@) == order_parts(strings_view(exprs@.subrange(0, k as int))),
        decreases exprs@.len() - k,
    {
        push_comma_parts(exprs[k].as_str(), &mut parts);
        proof {
            let pre = strings_view(exprs@.subrange(0, k + 1));
            assert(pre.drop_last() =~= strings_view(exprs@.subrange(0, k as int)));
            assert(pre.last() == exprs@[k as int]@);
        }
        k = k + 1;
    }
    assert(exprs@.subrange(0, exprs@.len() as int) =~= exprs@);
    assert(cols_view(Seq::<(String, Direction)>::empty()) =~= Seq::<(Seq<char>, Direction)>::empty());
    assert(strings_view(parts@).subrange(0, 0) =~= Seq::<Seq<char>>::empty());
    let ghost ps = strings_view(parts@);
    let mut cols: Vec<(String, Direction)> = Vec::new();
    let mut j: usize = 0;
    while j < parts.len()
        invariant
            j <= parts@.len(),
            ps == strings_view(parts@),
            ps == order_parts(strings_view(exprs@)),
            order_columns(ps.subrange(0, j as int)) == Some(cols_view(cols@)),
        decreases parts@.len() - j,
    {
        assert(ps.subrange(0, j + 1).drop_last() =~= ps.subrange(0, j as int));
        assert(ps.subrange(0, j + 1).last() == parts@[j as int]@);
        match extract_column_and_direction(parts[j].as_str()) {
            Some((col, dir)) => {
                if is_positional_column(col.as_str()) {
                    proof { lemma_order_columns_none(ps, j as int); }
                    return None;
                }
                cols.push((col, dir));
                assert(cols_view(cols@) =~= cols_view(old_cols_hint(cols@)).push((col@, dir)));
            },
            None => {
                proof { lemma_order_columns_none(ps, j as int); }
                return None;
            },
        }
        j = j + 1;
    }
    assert(ps.subrange(0, parts@.len() as int) =~= ps);
    Some(convert_to_preferred(cols.as_slice()))
}

/// The first elements of a non-empty sequence: a hint for extensionality.
pub open spec fn old_cols_hint(v: Seq<(String, Direction)>) -> Seq<(String, Direction)> {
    v.drop_last()
}

/// The characters and direction of each column.
pub open spec fn cols_view(v: Seq<(String, Direction)>) -> Seq<(Seq<char>, Direction)> {
    v.map_values(|p: (String, Direction)| (p.0@, p.1))
}

/// Once a prefix has no columns, neither has any longer prefix.
proof fn lemma_order_columns_none(ps: Seq<Seq<char>>, j: int)
    requires
        0 <= j < ps.len(),
        order_columns(ps.subrange(0, j + 1)) is None,
    ensures
        order_columns(ps) is None,
    decreases ps.len() - j,
{
    if j + 1 < ps.len() {
        assert(ps.subrange(0, j + 2).drop_last() =~= ps.subrange(0, j + 1));
        lemma_order_columns_none(ps, j + 1);
    } else {
        assert(ps.subrange(0, j + 1) =~= ps);
    }
}

/// Renders columns as `:a, :b` until a descending column, then as `c: :desc`.
pub fn convert_to_preferred(cols: &[(String, Direction)]) -> (r: String)
    ensures
        r@ == preferred_prefix(cols_view(cols@), cols@.len() as int),
{
    let ghost cv = cols_view(cols@);
    let mut use_hash = false;
    let mut out = String::new();
    let mut i: usize = 0;
    while i < cols.len()
        invariant
            i <= cols@.len(),
            cv == cols_view(cols@),
            use_hash == any_desc(cv, i as int),
            out@ == preferred_prefix(cv, i as int),
        decreases cols@.len() - i,
    {
        let (col, dir) = &cols[i];
        assert(cv[i as int] == (col@, *dir));
        if i > 0 {
            out.append(", ");
        }
        match dir {
            Direction::Asc => {},
            Direction::Desc => {
                use_hash = true;
            },
        }
        if use_hash {
            out.append(col.as_str());
            out.append(": :");
            match dir {
                Direction::Asc => out.append("asc"),
                Direction::Desc => out.append("desc"),
            }
        } else {
            out.append(":");
            out.append(col.as_str());
        }
        assert(out@ =~= preferred_prefix(cv, i + 1));
        i = i + 1;
    }
    out
}

/// Checks `order` calls whose arguments are all strings that name columns.
#[derive(Debug, Default)]
pub struct OrderArguments;

/// Every node of `ids` is a string literal; their contents.
pub open spec fn all_strings(file: &SourceFile, ids: Seq<NodeId>) -> Option<Seq<Seq<char>>>
    decreases ids.len(),
{
    if ids.len() == 0 {
        Some(Seq::empty())
    } else {
        match (all_strings(file, ids.drop_last()), file.kind(ids.last())) {
            (Some(v), NodeKind::Str(t)) => Some(v.push(t@)),
            _ => None,
        }
    }
}

/// What `OrderArguments::check_send` reports for `node`.
pub open spec fn order_arguments_finding(file: &SourceFile, node: NodeId) -> Option<Finding> {
    let args = args_of(file.kind(node));
    if method_of(file.kind(node)) == Some("order"@) && args.len() > 0 {
        match all_strings(file, args) {
            Some(exprs) => match replacement_text(exprs) {
                Some(text) => {
                    let span = Range { start: file.range(args[0]).start, end: file.range(args.last()).end };
                    Some(finding1(span, "Prefer `"@ + text + "` instead."@, span, text))
                },
                None => None,
            },
            None => None,
        }
    } else {
        None
    }
}

impl OrderArguments {
    /// Reports the string arguments of `order` with the symbol form that replaces them.
    pub fn check_send(&self, file: &SourceFile, node: NodeId) -> (r: Option<Offense>)
        requires
            file.valid(node),
        ensures
            r.deep_view() == order_arguments_finding(file, node),
    {
        match file.method_name(node) {
            Some(m) => {
                if !str_eq(m, "order") {
                    return None;
                }
            },
            None => return None,
        }
        let args = file.call_arguments(node);
        if args.len() == 0 {
            return None;
        }
        proof {
            assert forall|i: int| 0 <= i < args@.len() implies args@[i] < file.nodes@.len() by {
                crate::ast::lemma_args_are_children(file, node, i);
            }
        }
        let mut exprs: Vec<String> = Vec::new();
        let mut i: usize = 0;
        while i < args.len()
            invariant
                file.valid(node),
                args@ == args_of(file.kind(node)),
                method_of(file.kind(node)) == Some("order"@),
                args@.len() > 0,
                i <= args@.len(),
                forall|k: int| 0 <= k < args@.len() ==> args@[k] < file.nodes@.len(),
                all_strings(file, args@.subrange(0, i as int)) == Some(strings_view(exprs@)),
            decreases args@.len() - i,
        {
            assert(args@.subrange(0, i + 1).drop_last() =~= args@.subrange(0, i as int));
            match &file.nodes[args[i]].kind {
                NodeKind::Str(t) => {
                    exprs.push(t.clone());
                    assert(strings_view(exprs@) =~= strings_view(exprs@.drop_last()).push(t@));
                },
                _ => {
                    proof { lemma_all_strings_none(file, args@, i as int); }
                    return None;
                },
            }
            i = i + 1;
        }
        assert(args@.subrange(0, args@.len() as int) =~= args@);
        let preferred = match replacement(exprs.as_slice()) {
            Some(p) => p,
            None => return None,
        };
        let span = Range { start: file.nodes[args[0]].range.start, end: file.nodes[args[args.len() - 1]].range.end };
        let msg = concat3("Prefer `", preferred.as_str(), "` instead.");
        Some(offense1(span, msg, span, preferred))
    }

    /// Same as `check_send`, for `&.order(...)`.
    pub fn check_csend(&self, file: &SourceFile, node: NodeId) -> (r: Option<Offense>)
        requires
            file.valid(node),
        ensures
            r.deep_view() == order_arguments_finding(file, node),
    {
        self.check_send(file, node)
    }
}

/// Once a prefix has a non-string, so has every longer prefix.
proof fn lemma_all_strings_none(file: &SourceFile, ids: Seq<NodeId>, i: int)
    requires
        0 <= i < ids.len(),
        !(file.kind(ids[i]) is Str),
    ensures
        all_strings(file, ids) is None,
    decreases ids.len() - i,
{
    if i + 1 < ids.len() {
        lemma_all_strings_none(file, ids.drop_last(), i);
        assert(ids.drop_last()[i] == ids[i]);
    }
}

} // verus!
