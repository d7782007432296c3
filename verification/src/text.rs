//! Character-level helpers on `&str` and `String`, specified over `Seq<char>`.

use vstd::prelude::*;

verus! {

/// `true` when `c` is an ASCII upper-case letter.
pub open spec fn is_upper(c: char) -> bool {
    'A' <= c && c <= 'Z'
}

/// `true` when `c` is an ASCII lower-case letter.
pub open spec fn is_lower(c: char) -> bool {
    'a' <= c && c <= 'z'
}

/// `true` when `c` is an ASCII decimal digit.
pub open spec fn is_digit(c: char) -> bool {
    '0' <= c && c <= '9'
}

/// ASCII lower-casing of one character; other characters are unchanged.
pub open spec fn lower_char(c: char) -> char {
    if is_upper(c) { ((c as u32) + 32) as char } else { c }
}

/// Decides whether two strings hold the same characters.
pub fn str_eq(a: &str, b: &str) -> (r: bool)
    ensures
        r == (a@ == b@),
{
    let n = a.unicode_len();
    if n != b.unicode_len() {
        return false;
    }
    let mut i: usize = 0;
    while i < n
        invariant
            n == a@.len(),
            n == b@.len(),
            i <= n,
            forall|j: int| 0 <= j < i ==> a@[j] == b@[j],
        decreases n - i,
    {
        if a.get_char(i) != b.get_char(i) {
            return false;
        }
        i = i + 1;
    }
    assert(a@ =~= b@);
    true
}

/// Lower-cases one ASCII letter.
pub fn to_lower_char(c: char) -> (r: char)
    ensures
        r == lower_char(c),
{
    if 'A' <= c && c <= 'Z' {
        let b: u8 = c as u8;
        (b + 32) as char
    } else {
        c
    }
}

/// Appends one character: `String::push`.
#[verifier::external_body]
pub(crate) fn push_char(s: &mut String, c: char)
    ensures
        final(s)@ == old(s)@.push(c),
{
    s.push(c)
}

/// The characters of an optional string.
pub open spec fn opt_str_view(o: Option<&str>) -> Option<Seq<char>> {
    match o {
        Some(s) => Some(s@),
        None => None,
    }
}


/// The character of decimal digit `d`.
pub open spec fn digit_char(d: int) -> char {
    (d + 48) as char
}

/// Decimal digits of a natural number, most significant first.
pub open spec fn nat_digits(n: nat) -> Seq<char>
    decreases n,
{
    if n < 10 {
        seq![digit_char(n as int)]
    } else {
        nat_digits(n / 10).push(digit_char((n % 10) as int))
    }
}

/// Decimal notation of an integer, as `Display` writes it.
pub open spec fn int_decimal(n: int) -> Seq<char> {
    if n < 0 {
        seq!['-'] + nat_digits((-n) as nat)
    } else {
        nat_digits(n as nat)
    }
}

/// Appends the decimal digits of `m`.
pub fn push_digits(s: &mut String, m: u64)
    ensures
        final(s)@ == old(s)@ + nat_digits(m as nat),
    decreases m,
{
    if m >= 10 {
        push_digits(s, m / 10);
    }
    let d: u8 = (m % 10) as u8;
    push_char(s, (48u8 + d) as char);
    assert(final(s)@ =~= old(s)@ + nat_digits(m as nat));
}

/// Decimal notation of `n`.
pub fn int_to_string(n: i64) -> (s: String)
    ensures
        s@ == int_decimal(n as int),
{
    let mut s = String::new();
    if n < 0 {
        push_char(&mut s, '-');
        let m: u64 = ((-(n + 1)) as u64) + 1;
        push_digits(&mut s, m);
    } else {
        push_digits(&mut s, n as u64);
    }
    assert(s@ =~= int_decimal(n as int));
    s
}

/// The characters of `a` followed by those of `b`.
pub fn concat2(a: &str, b: &str) -> (s: String)
    ensures
        s@ == a@ + b@,
{
    let mut s = String::from_str(a);
    s.append(b);
    s
}

/// The characters of `a`, `b` and `c` in turn.
pub fn concat3(a: &str, b: &str, c: &str) -> (s: String)
    ensures
        s@ == a@ + b@ + c@,
{
    let mut s = String::from_str(a);
    s.append(b);
    s.append(c);
    s
}

/// The characters of `a`, `b`, `c`, `d` and `e` in turn.
pub fn concat5(a: &str, b: &str, c: &str, d: &str, e: &str) -> (s: String)
    ensures
        s@ == a@ + b@ + c@ + d@ + e@,
{
    let mut s = String::from_str(a);
    s.append(b);
    s.append(c);
    s.append(d);
    s.append(e);
    s
}

/// Unicode `White_Space`, as `char::is_whitespace` decides it.
pub open spec fn is_ws(c: char) -> bool {
    ||| ('\t' <= c && c <= '\r')
    ||| c == ' '
    ||| c == '\u{85}'
    ||| c == '\u{a0}'
    ||| c == '\u{1680}'
    ||| ('\u{2000}' <= c && c <= '\u{200a}')
    ||| c == '\u{2028}'
    ||| c == '\u{2029}'
    ||| c == '\u{202f}'
    ||| c == '\u{205f}'
    ||| c == '\u{3000}'
}

/// Decides `is_ws`.
pub fn is_whitespace(c: char) -> (r: bool)
    ensures
        r == is_ws(c),
{
    ('\t' <= c && c <= '\r') || c == ' ' || c == '\u{85}' || c == '\u{a0}' || c == '\u{1680}'
        || ('\u{2000}' <= c && c <= '\u{200a}') || c == '\u{2028}' || c == '\u{2029}'
        || c == '\u{202f}' || c == '\u{205f}' || c == '\u{3000}'
}

/// `s` without leading white space.
pub open spec fn trim_start(s: Seq<char>) -> Seq<char>
    decreases s.len(),
{
    if s.len() > 0 && is_ws(s[0]) {
        trim_start(s.drop_first())
    } else {
        s
    }
}

/// `s` without trailing white space.
pub open spec fn trim_end(s: Seq<char>) -> Seq<char>
    decreases s.len(),
{
    if s.len() > 0 && is_ws(s.last()) {
        trim_end(s.drop_last())
    } else {
        s
    }
}

/// `s` without leading and trailing white space, as `str::trim` gives it.
pub open spec fn trim(s: Seq<char>) -> Seq<char> {
    trim_end(trim_start(s))
}

/// `str::trim`.
pub fn trim_str(s: &str) -> (r: String)
    ensures
        r@ == trim(s@),
{
    let n = s.unicode_len();
    let mut a: usize = 0;
    assert(s@.subrange(0, n as int) =~= s@);
    while a < n && is_whitespace(s.get_char(a))
        invariant
            n == s@.len(),
            a <= n,
            trim_start(s@) == trim_start(s@.subrange(a as int, n as int)),
        decreases n - a,
    {
        assert(s@.subrange(a as int, n as int).drop_first() =~= s@.subrange(a + 1, n as int));
        a = a + 1;
    }
    let ghost t = s@.subrange(a as int, n as int);
    assert(trim_start(s@) == t);
    let mut b: usize = n;
    while b > a && is_whitespace(s.get_char(b - 1))
        invariant
            n == s@.len(),
            a <= b <= n,
            t == s@.subrange(a as int, n as int),
            trim_end(t) == trim_end(s@.subrange(a as int, b as int)),
        decreases b,
    {
        assert(s@.subrange(a as int, b as int).drop_last() =~= s@.subrange(a as int, b - 1));
        b = b - 1;
    }
    String::from_str(s.substring_char(a, b))
}

/// `str::trim_start`.
pub fn trim_start_str(s: &str) -> (r: &str)
    ensures
        r@ == trim_start(s@),
{
    let n = s.unicode_len();
    let mut a: usize = 0;
    assert(s@.subrange(0, n as int) =~= s@);
    while a < n && is_whitespace(s.get_char(a))
        invariant
            n == s@.len(),
            a <= n,
            trim_start(s@) == trim_start(s@.subrange(a as int, n as int)),
        decreases n - a,
    {
        assert(s@.subrange(a as int, n as int).drop_first() =~= s@.subrange(a + 1, n as int));
        a = a + 1;
    }
    s.substring_char(a, n)
}

/// `str::trim_end`.
pub fn trim_end_str(s: &str) -> (r: &str)
    ensures
        r@ == trim_end(s@),
{
    let n = s.unicode_len();
    let mut b: usize = n;
    assert(s@.subrange(0, n as int) =~= s@);
    while b > 0 && is_whitespace(s.get_char(b - 1))
        invariant
            n == s@.len(),
            b <= n,
            trim_end(s@) == trim_end(s@.subrange(0, b as int)),
        decreases b,
    {
        assert(s@.subrange(0, b as int).drop_last() =~= s@.subrange(0, b - 1));
        b = b - 1;
    }
    s.substring_char(0, b)
}

/// `b` occurs in `a` as a contiguous run.
pub open spec fn contains_seq(a: Seq<char>, b: Seq<char>) -> bool {
    exists|i: int| 0 <= i && i + b.len() <= a.len() && #[trigger] a.subrange(i, i + b.len()) == b
}

/// Decides `contains_seq`, as `str::contains` does for a string pattern.
pub fn str_contains(a: &str, b: &str) -> (r: bool)
    ensures
        r == contains_seq(a@, b@),
{
    let n = a.unicode_len();
    let m = b.unicode_len();
    if m > n {
        return false;
    }
    let last = n - m;
    let mut i: usize = 0;
    loop
        invariant
            n == a@.len(),
            m == b@.len(),
            last == n - m,
            i <= last,
            forall|k: int| 0 <= k < i ==> #[trigger] a@.subrange(k, k + m) != b@,
        decreases last - i,
    {
        if str_eq(a.substring_char(i, i + m), b) {
            return true;
        }
        if i == last {
            return false;
        }
        i = i + 1;
    }
}

/// Value of a string of decimal digits.
pub open spec fn digits_value(s: Seq<char>) -> int
    decreases s.len(),
{
    if s.len() == 0 {
        0
    } else {
        digits_value(s.drop_last()) * 10 + (s.last() as int - 48)
    }
}

/// Every character is a decimal digit.
pub open spec fn all_digits(s: Seq<char>) -> bool {
    forall|i: int| 0 <= i < s.len() ==> is_digit(#[trigger] s[i])
}

/// `i64::from_str`: an optional sign, then at least one digit, in range.
pub open spec fn parse_i64(s: Seq<char>) -> Option<int> {
    let signed = s.len() > 0 && (s[0] == '-' || s[0] == '+');
    let d = if signed { s.drop_first() } else { s };
    let v = if signed && s[0] == '-' { -digits_value(d) } else { digits_value(d) };
    if d.len() > 0 && all_digits(d) && i64::MIN <= v <= i64::MAX {
        Some(v)
    } else {
        None
    }
}

/// Digit strings do not lose value when extended.
pub proof fn lemma_digits_value_grows(s: Seq<char>, i: int, j: int)
    requires
        0 <= i <= j <= s.len(),
        all_digits(s),
    ensures
        0 <= digits_value(s.subrange(0, i)) <= digits_value(s.subrange(0, j)),
    decreases j - i,
{
    if i < j {
        lemma_digits_value_grows(s, i, j - 1);
        assert(s.subrange(0, j).drop_last() =~= s.subrange(0, j - 1));
        assert(is_digit(s[j - 1]));
    } else {
        lemma_digits_value_nonneg(s.subrange(0, i));
    }
}

/// Digit strings have non-negative value.
pub proof fn lemma_digits_value_nonneg(s: Seq<char>)
    requires
        all_digits(s),
    ensures
        digits_value(s) >= 0,
    decreases s.len(),
{
    if s.len() > 0 {
        assert(all_digits(s.drop_last()));
        lemma_digits_value_nonneg(s.drop_last());
        assert(is_digit(s[s.len() - 1]));
    }
}

/// `str::parse::<i64>`.
pub fn parse_int(s: &str) -> (r: Option<i64>)
    ensures
        match r {
            Some(v) => parse_i64(s@) == Some(v as int),
            None => parse_i64(s@) is None,
        },
{
    let n = s.unicode_len();
    let signed = n > 0 && (s.get_char(0) == '-' || s.get_char(0) == '+');
    let neg = signed && s.get_char(0) == '-';
    let start: usize = if signed { 1 } else { 0 };
    let ghost d = if signed { s@.drop_first() } else { s@ };
    assert(d =~= s@.subrange(start as int, n as int));
    if start >= n {
        return None;
    }
    let limit: u64 = 9223372036854775808;
    let mut acc: u64 = 0;
    let mut big = false;
    let mut i: usize = start;
    while i < n
        invariant
            n == s@.len(),
            start <= i <= n,
            d == s@.subrange(start as int, n as int),
            limit == 9223372036854775808u64,
            signed == (s@.len() > 0 && (s@[0] == '-' || s@[0] == '+')),
            d == (if signed { s@.drop_first() } else { s@ }),
            forall|k: int| 0 <= k < i - start ==> is_digit(#[trigger] d[k]),
            !big ==> acc == digits_value(d.subrange(0, i - start)),
            !big ==> acc <= limit,
            big ==> digits_value(d.subrange(0, i - start)) > limit,
        decreases n - i,
    {
        let c = s.get_char(i);
        if !('0' <= c && c <= '9') {
            assert(!is_digit(d[i - start]));
            assert(!all_digits(d));
            return None;
        }
        let ghost k = i - start;
        assert(d.subrange(0, k + 1).drop_last() =~= d.subrange(0, k));
        assert(d.subrange(0, k + 1).last() == c);
        if !big {
            assert(48 <= c as u32 <= 57);
            let dv: u64 = (c as u32 - 48) as u64;
            if acc > (limit - dv) / 10 {
                big = true;
            } else {
                acc = acc * 10 + dv;
            }
        }
        i = i + 1;
    }
    assert(d.subrange(0, n - start) =~= d);
    assert(all_digits(d));
    if big {
        return None;
    }
    if neg {
        if acc == limit {
            Some(-9223372036854775807i64 - 1)
        } else {
            Some(-(acc as i64))
        }
    } else {
        if acc == limit {
            None
        } else {
            Some(acc as i64)
        }
    }
}


/// Length of the longest prefix of `s` whose characters all satisfy `p`.
pub open spec fn prefix_len(s: Seq<char>, p: spec_fn(char) -> bool) -> nat
    decreases s.len(),
{
    if s.len() > 0 && p(s[0]) {
        1 + prefix_len(s.drop_first(), p)
    } else {
        0
    }
}

/// Length of the longest suffix of `s` whose characters all satisfy `p`.
pub open spec fn suffix_len(s: Seq<char>, p: spec_fn(char) -> bool) -> nat
    decreases s.len(),
{
    if s.len() > 0 && p(s.last()) {
        1 + suffix_len(s.drop_last(), p)
    } else {
        0
    }
}

/// `prefix_len` is the first index where `p` fails.
pub proof fn lemma_prefix_len(s: Seq<char>, p: spec_fn(char) -> bool, i: int)
    requires
        0 <= i <= s.len(),
        forall|j: int| 0 <= j < i ==> p(#[trigger] s[j]),
        i == s.len() || !p(s[i]),
    ensures
        prefix_len(s, p) == i,
    decreases i,
{
    if i > 0 {
        assert forall|j: int| 0 <= j < i - 1 implies p(#[trigger] s.drop_first()[j]) by {
            assert(s.drop_first()[j] == s[j + 1]);
        }
        lemma_prefix_len(s.drop_first(), p, i - 1);
    }
}

/// Every character before `prefix_len` satisfies `p`.
pub proof fn lemma_prefix_len_holds(s: Seq<char>, p: spec_fn(char) -> bool)
    ensures
        forall|j: int| 0 <= j < prefix_len(s, p) ==> p(#[trigger] s[j]),
    decreases s.len(),
{
    if s.len() > 0 && p(s[0]) {
        lemma_prefix_len_holds(s.drop_first(), p);
        lemma_prefix_len_bound(s.drop_first(), p);
        assert forall|j: int| 0 <= j < prefix_len(s, p) implies p(#[trigger] s[j]) by {
            if j > 0 {
                assert(s[j] == s.drop_first()[j - 1]);
            }
        }
    }
}

/// Joining parts that lack `c` with a separator that lacks `c` gives text
/// without `c`.
pub proof fn lemma_join_sep_lacks(parts: Seq<Seq<char>>, sep: Seq<char>, c: char)
    requires
        forall|i: int| 0 <= i < parts.len() ==> !(#[trigger] parts[i]).contains(c),
        !sep.contains(c),
    ensures
        !join_sep(parts, sep).contains(c),
    decreases parts.len(),
{
    if parts.len() > 1 {
        lemma_join_sep_lacks(parts.drop_last(), sep, c);
        let a = join_sep(parts.drop_last(), sep);
        let l = parts.last();
        assert(!l.contains(c));
        assert forall|k: int| 0 <= k < (a + sep + l).len() implies (a + sep + l)[k] != c by {
            if k < a.len() {
                assert((a + sep + l)[k] == a[k]);
            } else if k < a.len() + sep.len() {
                assert((a + sep + l)[k] == sep[k - a.len()]);
            } else {
                assert((a + sep + l)[k] == l[k - a.len() - sep.len()]);
            }
        }
    } else if parts.len() == 1 {
        assert(!parts[0].contains(c));
    }
}

/// Every character in the last `suffix_len` positions satisfies `p`, and
/// `suffix_len` never exceeds the length.
pub proof fn lemma_suffix_len_holds(s: Seq<char>, p: spec_fn(char) -> bool)
    ensures
        suffix_len(s, p) <= s.len(),
        forall|j: int| s.len() - suffix_len(s, p) <= j < s.len() ==> p(#[trigger] s[j]),
    decreases s.len(),
{
    if s.len() > 0 && p(s.last()) {
        lemma_suffix_len_holds(s.drop_last(), p);
        assert forall|j: int| s.len() - suffix_len(s, p) <= j < s.len() implies p(#[trigger] s[j]) by {
            if j < s.len() - 1 {
                assert(s[j] == s.drop_last()[j]);
            }
        }
    }
}

/// Where `prefix_len` stops short of the end, `p` fails.
pub proof fn lemma_prefix_len_stops(s: Seq<char>, p: spec_fn(char) -> bool)
    ensures
        prefix_len(s, p) < s.len() ==> !p(s[prefix_len(s, p) as int]),
    decreases s.len(),
{
    if s.len() > 0 && p(s[0]) {
        lemma_prefix_len_stops(s.drop_first(), p);
    }
}

/// `prefix_len` never exceeds the length.
pub proof fn lemma_prefix_len_bound(s: Seq<char>, p: spec_fn(char) -> bool)
    ensures
        prefix_len(s, p) <= s.len(),
    decreases s.len(),
{
    if s.len() > 0 && p(s[0]) {
        lemma_prefix_len_bound(s.drop_first(), p);
    }
}

/// `suffix_len` counts back to the last index where `p` fails.
pub proof fn lemma_suffix_len(s: Seq<char>, p: spec_fn(char) -> bool, i: int)
    requires
        0 <= i <= s.len(),
        forall|j: int| i <= j < s.len() ==> p(#[trigger] s[j]),
        i == 0 || !p(s[i - 1]),
    ensures
        suffix_len(s, p) == s.len() - i,
    decreases s.len() - i,
{
    if i < s.len() {
        assert forall|j: int| i <= j < s.len() - 1 implies p(#[trigger] s.drop_last()[j]) by {
            assert(s.drop_last()[j] == s[j]);
        }
        lemma_suffix_len(s.drop_last(), p, i);
    }
}

/// The predicate "differs from `c`".
pub open spec fn not_char(c: char) -> spec_fn(char) -> bool {
    |x: char| x != c
}

/// Index of the first `c` in `s`, or its length when there is none.
pub open spec fn first_index(s: Seq<char>, c: char) -> int {
    prefix_len(s, not_char(c)) as int
}

/// Index of the last `c` in `s`, or -1 when there is none.
pub open spec fn last_index(s: Seq<char>, c: char) -> int {
    s.len() - suffix_len(s, not_char(c)) - 1
}

/// Finds the first `c` in `s`: its index, or the length of `s`.
pub fn find_char(s: &str, c: char) -> (r: usize)
    ensures
        r == first_index(s@, c),
{
    let n = s.unicode_len();
    let mut i: usize = 0;
    while i < n && s.get_char(i) != c
        invariant
            n == s@.len(),
            i <= n,
            forall|j: int| 0 <= j < i ==> s@[j] != c,
        decreases n - i,
    {
        i = i + 1;
    }
    proof {
        let p = not_char(c);
        assert forall|j: int| 0 <= j < i implies p(#[trigger] s@[j]) by {}
        lemma_prefix_len(s@, p, i as int);
    }
    i
}

/// Finds the last `c` in `s`: one past its index, or 0 when there is none.
pub fn rfind_char_end(s: &str, c: char) -> (r: usize)
    ensures
        r == last_index(s@, c) + 1,
{
    let n = s.unicode_len();
    let mut i: usize = n;
    while i > 0 && s.get_char(i - 1) != c
        invariant
            n == s@.len(),
            i <= n,
            forall|j: int| i <= j < n ==> s@[j] != c,
        decreases i,
    {
        i = i - 1;
    }
    proof {
        let p = not_char(c);
        assert forall|j: int| i <= j < n implies p(#[trigger] s@[j]) by {}
        lemma_suffix_len(s@, p, i as int);
    }
    i
}

/// `a` starts with `b`.
pub open spec fn starts_with(a: Seq<char>, b: Seq<char>) -> bool {
    b.len() <= a.len() && a.subrange(0, b.len() as int) == b
}

/// `a` ends with `b`.
pub open spec fn ends_with(a: Seq<char>, b: Seq<char>) -> bool {
    b.len() <= a.len() && a.subrange(a.len() - b.len(), a.len() as int) == b
}

/// Decides `ends_with`.
pub fn str_ends_with(a: &str, b: &str) -> (r: bool)
    ensures
        r == ends_with(a@, b@),
{
    let n = a.unicode_len();
    let m = b.unicode_len();
    if m > n {
        return false;
    }
    let tail = a.substring_char(n - m, n);
    str_eq(tail, b)
}

/// Decides `starts_with`.
pub fn str_starts_with(a: &str, b: &str) -> (r: bool)
    ensures
        r == starts_with(a@, b@),
{
    let n = a.unicode_len();
    let m = b.unicode_len();
    if m > n {
        return false;
    }
    let head = a.substring_char(0, m);
    str_eq(head, b)
}

/// Equal up to ASCII case, as `str::eq_ignore_ascii_case` decides it.
pub open spec fn eq_ignore_case(a: Seq<char>, b: Seq<char>) -> bool {
    a.len() == b.len() && forall|i: int| 0 <= i < a.len() ==> lower_char(#[trigger] a[i]) == lower_char(b[i])
}

/// Decides `eq_ignore_case`.
pub fn str_eq_ignore_case(a: &str, b: &str) -> (r: bool)
    ensures
        r == eq_ignore_case(a@, b@),
{
    let n = a.unicode_len();
    if n != b.unicode_len() {
        return false;
    }
    let mut i: usize = 0;
    while i < n
        invariant
            n == a@.len(),
            n == b@.len(),
            i <= n,
            forall|j: int| 0 <= j < i ==> lower_char(#[trigger] a@[j]) == lower_char(b@[j]),
        decreases n - i,
    {
        if to_lower_char(a.get_char(i)) != to_lower_char(b.get_char(i)) {
            return false;
        }
        i = i + 1;
    }
    true
}

/// ASCII lower-casing of a string.
pub open spec fn lower_str(s: Seq<char>) -> Seq<char> {
    s.map_values(|c: char| lower_char(c))
}

/// `str::to_ascii_lowercase`.
pub fn to_lower_str(s: &str) -> (r: String)
    ensures
        r@ == lower_str(s@),
{
    let n = s.unicode_len();
    let mut r = String::new();
    let mut i: usize = 0;
    while i < n
        invariant
            n == s@.len(),
            i <= n,
            r@ == lower_str(s@.subrange(0, i as int)),
        decreases n - i,
    {
        push_char(&mut r, to_lower_char(s.get_char(i)));
        i = i + 1;
        assert(r@ =~= lower_str(s@.subrange(0, i as int)));
    }
    assert(s@.subrange(0, n as int) =~= s@);
    r
}


/// `true` when `c` is an ASCII digit, as a predicate value.
pub open spec fn digit_pred() -> spec_fn(char) -> bool {
    |x: char| is_digit(x)
}

/// ASCII upper-casing of one character; other characters are unchanged.
pub open spec fn upper_char(c: char) -> char {
    if is_lower(c) { ((c as u32) - 32) as char } else { c }
}

/// The Unicode upper-case mapping of a character, as `char::to_uppercase` yields it.
pub uninterp spec fn char_to_upper(c: char) -> Seq<char>;

/// `char::to_uppercase`, collected into a string. Its documentation gives the
/// ASCII case: a lower-case ASCII letter maps to its capital, any other ASCII
/// character to itself; beyond ASCII the Unicode tables decide, which this
/// contract names but does not spell out.
#[verifier::external_body]
pub(crate) fn to_upper_string(c: char) -> (r: String)
    ensures
        r@ == char_to_upper(c),
        (c as u32) < 128 ==> r@ == seq![upper_char(c)],
{
    c.to_uppercase().collect()
}


/// The Unicode lower-case mapping of a string, as `str::to_lowercase` gives it.
pub uninterp spec fn str_to_lower(s: Seq<char>) -> Seq<char>;

/// Every character is ASCII.
pub open spec fn all_ascii(s: Seq<char>) -> bool {
    forall|i: int| 0 <= i < s.len() ==> (#[trigger] s[i] as u32) < 128
}

/// `str::to_lowercase`. On ASCII text it lowers the capital letters and
/// keeps every other character; beyond ASCII the Unicode tables (and the
/// final-sigma rule) decide, which this contract names but does not spell out.
#[verifier::external_body]
pub(crate) fn to_lowercase_string(s: &str) -> (r: String)
    ensures
        r@ == str_to_lower(s@),
        all_ascii(s@) ==> r@ == lower_str(s@),
{
    s.to_lowercase()
}

/// The span `r` widened to whole lines: from the start of its first line to
/// the end of its last line, with that line's newline when there is one.
pub open spec fn whole_lines(src: Seq<char>, start: int, end: int) -> (int, int) {
    let s = start - suffix_len(src.subrange(0, start), not_char('\n'));
    let e = end + prefix_len(src.subrange(end, src.len() as int), not_char('\n'));
    (s, if e < src.len() { e + 1 } else { e })
}

/// Computes `whole_lines`.
pub fn line_span(src: &str, start: usize, end: usize) -> (r: (usize, usize))
    requires
        start <= end <= src@.len(),
    ensures
        r.0 == whole_lines(src@, start as int, end as int).0,
        r.1 == whole_lines(src@, start as int, end as int).1,
        r.0 <= start,
        end <= r.1 <= src@.len(),
{
    let n = src.unicode_len();
    let mut a = start;
    while a > 0 && src.get_char(a - 1) != '\n'
        invariant
            a <= start <= src@.len(),
            forall|j: int| a <= j < start ==> not_char('\n')(#[trigger] src@[j]),
        decreases a,
    {
        a = a - 1;
    }
    proof {
        let t = src@.subrange(0, start as int);
        assert forall|j: int| a <= j < t.len() implies not_char('\n')(#[trigger] t[j]) by {
            assert(t[j] == src@[j]);
        }
        lemma_suffix_len(t, not_char('\n'), a as int);
    }
    let mut b = end;
    while b < n && src.get_char(b) != '\n'
        invariant
            n == src@.len(),
            end <= b <= n,
            forall|j: int| end <= j < b ==> not_char('\n')(#[trigger] src@[j]),
        decreases n - b,
    {
        b = b + 1;
    }
    proof {
        let t = src@.subrange(end as int, n as int);
        assert forall|j: int| 0 <= j < b - end implies not_char('\n')(#[trigger] t[j]) by {
            assert(t[j] == src@[end + j]);
        }
        lemma_prefix_len(t, not_char('\n'), b - end);
    }
    if b < n { (a, b + 1) } else { (a, b) }
}


/// `parts` joined by `sep`.
pub open spec fn join_sep(parts: Seq<Seq<char>>, sep: Seq<char>) -> Seq<char>
    decreases parts.len(),
{
    if parts.len() == 0 {
        Seq::empty()
    } else if parts.len() == 1 {
        parts[0]
    } else {
        join_sep(parts.drop_last(), sep) + sep + parts.last()
    }
}


/// Filtering a sequence one element longer adds that element when it is kept.
pub proof fn lemma_filter_push<A>(s: Seq<A>, p: spec_fn(A) -> bool)
    requires
        s.len() > 0,
    ensures
        s.filter(p) == if p(s.last()) { s.drop_last().filter(p).push(s.last()) } else { s.drop_last().filter(p) },
{
    reveal_with_fuel(Seq::filter, 1);
    assert(s.drop_last() =~= s.subrange(0, s.len() - 1));
}

/// ASCII lower-casing leaves no capital, is idempotent, keeps word
/// characters word characters, and keeps every non-letter as it is.
pub proof fn lemma_lower_char(c: char)
    ensures
        !is_upper(lower_char(c)),
        lower_char(lower_char(c)) == lower_char(c),
        is_lower(c) || is_digit(c) ==> lower_char(c) == c,
        is_upper(c) ==> is_lower(lower_char(c)),
        !is_upper(c) ==> lower_char(c) == c,
{
}

} // verus!
