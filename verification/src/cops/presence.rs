//! `Rails/Presence`: prefer `a.presence || b` and `a.presence&.foo` to
//! conditionals on `present?`/`blank?`.

use vstd::prelude::*;
use crate::ast::{args_of, call_receiver_of, method_of, IfKeyword, NodeId, NodeKind, Range, SourceFile};
use crate::cops::pick::is_call_kind;
use crate::cops::read_write_attribute::{has_newline, src_of};
use crate::report::{offense1, Finding, Offense};
use crate::text::{
    concat2, concat3, trim_end_str, ends_with, is_whitespace, is_ws, join_sep, lemma_join_sep_lacks, lemma_prefix_len,
    lemma_prefix_len_holds, prefix_len, str_ends_with, str_eq, trim_end,
};

verus! {

/// Reports conditionals that `presence` expresses.
#[derive(Debug, Default)]
pub struct Presence;

/// The condition tests `recv.blank?` (true) or `recv.present?` (false),
/// possibly negated with `!`: the test and `recv`.
pub open spec fn classify_condition(file: &SourceFile, cond: NodeId) -> Option<(bool, NodeId)> {
    let k = file.kind(cond);
    if is_call_kind(k) && args_of(k).len() == 0
        && (call_receiver_of(k) is None || method_of(k) == Some("blank?"@) || method_of(k) == Some("present?"@)) {
        match call_receiver_of(k) {
            None => None,
            Some(r) => if method_of(k) == Some("blank?"@) { Some((true, r)) } else { Some((false, r)) },
        }
    } else if k is Send && method_of(k) == Some("!"@) && args_of(k).len() == 0 {
        match call_receiver_of(k) {
            None => None,
            Some(inner) => {
                let ik = file.kind(inner);
                if is_call_kind(ik) && args_of(ik).len() == 0 {
                    match call_receiver_of(ik) {
                        None => None,
                        Some(r) => if method_of(ik) == Some("present?"@) {
                            Some((true, r))
                        } else if method_of(ik) == Some("blank?"@) {
                            Some((false, r))
                        } else {
                            None
                        },
                    }
                } else {
                    None
                }
            },
        }
    } else {
        None
    }
}

/// A `begin` body (several statements).
pub open spec fn is_begin(file: &SourceFile, n: NodeId) -> bool {
    file.kind(n) is Begin || file.kind(n) is Kwbegin
}

/// `a.present? ? a : b` / `a.blank? ? b : a`: the receiver's source and `b`.
pub open spec fn other_form(file: &SourceFile, cond: NodeId, then_: NodeId, else_: NodeId) -> Option<(Seq<char>, NodeId)> {
    match classify_condition(file, cond) {
        Some((blank, recv)) => {
            let rs = src_of(file, recv);
            let (same, other) = if blank { (else_, then_) } else { (then_, else_) };
            if is_begin(file, same) || src_of(file, same) != rs || is_begin(file, other) {
                None
            } else {
                Some((rs, other))
            }
        },
        None => None,
    }
}

/// A call whose receiver has the source `rs`.
pub open spec fn is_send_to(file: &SourceFile, n: NodeId, rs: Seq<char>) -> bool {
    is_call_kind(file.kind(n)) && (call_receiver_of(file.kind(n)) matches Some(r) && src_of(file, r) == rs)
}

/// `a.present? ? a.foo : nil` / `a.blank? ? nil : a.foo`: the receiver's
/// source and `a.foo`.
pub open spec fn chain_form(file: &SourceFile, cond: NodeId, then_: NodeId, else_: NodeId) -> Option<(Seq<char>, NodeId)> {
    match classify_condition(file, cond) {
        Some((blank, recv)) => {
            let rs = src_of(file, recv);
            let (nil_side, chain) = if blank { (then_, else_) } else { (else_, then_) };
            if file.kind(nil_side) is Nil && is_send_to(file, chain, rs) {
                Some((rs, chain))
            } else {
                None
            }
        },
        None => None,
    }
}

/// The arithmetic operators.
pub open spec fn is_arithmetic_spec(m: Seq<char>) -> bool {
    m == "+"@ || m == "-"@ || m == "*"@ || m == "/"@ || m == "%"@ || m == "**"@
}

/// Whether the method is an arithmetic operator.
pub fn is_arithmetic(method: &str) -> (r: bool)
    ensures
        r == is_arithmetic_spec(method@),
{
    str_eq(method, "+") || str_eq(method, "-") || str_eq(method, "*") || str_eq(method, "/") || str_eq(method, "%")
        || str_eq(method, "**")
}

/// A setter: a name ending in `=` that is not a comparison.
pub open spec fn is_assignment_method(m: Seq<char>) -> bool {
    ends_with(m, "="@) && !(m == "=="@ || m == "==="@ || m == "!="@ || m == "<="@ || m == ">="@)
}

/// The operator methods.
pub open spec fn is_operator_method(m: Seq<char>) -> bool {
    ||| m == "|"@ || m == "^"@ || m == "&"@ || m == "<=>"@ || m == "=="@ || m == "==="@ || m == "=~"@
    ||| m == ">"@ || m == ">="@ || m == "<"@ || m == "<="@ || m == "<<"@ || m == ">>"@
    ||| m == "+"@ || m == "-"@ || m == "*"@ || m == "/"@ || m == "%"@ || m == "**"@ || m == "~"@
    ||| m == "+@"@ || m == "-@"@ || m == "!@"@ || m == "~@"@ || m == "[]"@ || m == "[]="@
    ||| m == "!"@ || m == "!="@ || m == "!~"@ || m == "`"@
}

/// The sources of `args`, joined by commas.
pub open spec fn args_source(file: &SourceFile, args: Seq<NodeId>) -> Seq<char> {
    join_sep(args.map_values(|a: NodeId| src_of(file, a)), ", "@)
}

/// ` || b`, where a call `b` without parentheses gets them.
pub open spec fn or_source_for_call(file: &SourceFile, other: NodeId) -> Seq<char> {
    let k = file.kind(other);
    let m = match method_of(k) {
        Some(m) => m,
        None => Seq::empty(),
    };
    let args = args_of(k);
    if file.nodes@[other as int].parenthesized || m == "[]"@ || is_arithmetic_spec(m) || args.len() == 0 {
        " || "@ + src_of(file, other)
    } else {
        let prefix = trim_end(file.source@.subrange(file.range(other).start as int, file.range(args[0]).start as int));
        " || "@ + prefix + "("@ + args_source(file, args) + ")"@
    }
}

/// The fallback after `presence`: none for `nil`, else ` || b`.
pub open spec fn or_source(file: &SourceFile, other: NodeId) -> Seq<char> {
    if is_call_kind(file.kind(other)) {
        or_source_for_call(file, other)
    } else if file.kind(other) is Nil {
        Seq::empty()
    } else {
        " || "@ + src_of(file, other)
    }
}

/// A fallback needs parentheses under `&&` or as an argument without them.
pub open spec fn require_parentheses(file: &SourceFile, node: NodeId, or: Seq<char>) -> bool {
    or.len() > 0 && match file.parent(node) {
        Some(p) => file.kind(p) is And || (is_call_kind(file.kind(p)) && !file.nodes@[p as int].parenthesized),
        None => false,
    }
}

/// `a.presence || b`.
pub open spec fn replacement_spec(file: &SourceFile, node: NodeId, rs: Seq<char>, other: NodeId) -> Seq<char> {
    let or = or_source(file, other);
    let replaced = rs + ".presence"@ + or;
    if require_parentheses(file, node, or) { "("@ + replaced + ")"@ } else { replaced }
}

/// `a.presence&.foo(args)`.
pub open spec fn chain_replacement_spec(file: &SourceFile, rs: Seq<char>, chain: NodeId) -> Seq<char> {
    let k = file.kind(chain);
    let m = match method_of(k) {
        Some(m) => m,
        None => Seq::empty(),
    };
    if args_of(k).len() == 0 {
        rs + ".presence&."@ + m
    } else {
        rs + ".presence&."@ + m + "("@ + args_source(file, args_of(k)) + ")"@
    }
}

/// Not white space, as a predicate value.
pub open spec fn not_ws() -> spec_fn(char) -> bool {
    |c: char| !is_ws(c)
}

/// The white-space separated words of `s` from index `i` on.
pub open spec fn words_from(s: Seq<char>, i: int) -> Seq<Seq<char>>
    decreases s.len() - i,
{
    if i < 0 || i >= s.len() {
        Seq::empty()
    } else if is_ws(s[i]) {
        words_from(s, i + 1)
    } else {
        let n = prefix_len(s.subrange(i, s.len() as int), not_ws());
        if n == 0 || i + n > s.len() {
            Seq::empty()
        } else {
            seq![s.subrange(i, i + n)] + words_from(s, i + n)
        }
    }
}

/// A source on one line as is; on several, its words joined by single spaces.
/// This only collapses white space; how the message shortens a conditional
/// written over several lines to `keyword ... end` needs the node, and is
/// `current_source`.
pub open spec fn compact_spec(s: Seq<char>) -> Seq<char> {
    if s.contains('\n') { join_sep(words_from(s, 0), " "@) } else { s }
}

/// The words from index `i` on hold no white space, so no newline.
proof fn lemma_words_lack_newline(s: Seq<char>, i: int)
    ensures
        forall|k: int| 0 <= k < words_from(s, i).len() ==> !(#[trigger] words_from(s, i)[k]).contains('\n'),
    decreases s.len() - i,
{
    if i < 0 || i >= s.len() {
    } else if is_ws(s[i]) {
        lemma_words_lack_newline(s, i + 1);
        assert(words_from(s, i) == words_from(s, i + 1));
    } else {
        let sub = s.subrange(i, s.len() as int);
        let n = prefix_len(sub, not_ws());
        if n == 0 || i + n > s.len() {
            assert(words_from(s, i) == Seq::<Seq<char>>::empty());
        } else {
            lemma_words_lack_newline(s, i + n);
            lemma_prefix_len_holds(sub, not_ws());
            let w = s.subrange(i, i + n);
            assert forall|j: int| 0 <= j < w.len() implies w[j] != '\n' by {
                assert(w[j] == sub[j]);
                assert(not_ws()(sub[j]));
            }
            assert(!w.contains('\n'));
            let ws = words_from(s, i);
            assert(ws == seq![w] + words_from(s, i + n));
            assert(ws[0] == w);
            assert forall|k: int| 0 <= k < ws.len() implies !(#[trigger] ws[k]).contains('\n') by {
                if k > 0 {
                    assert(ws[k] == words_from(s, i + n)[k - 1]);
                }
            }
        }
    }
}

/// Compacting never leaves a newline, and leaves a one-line source as it is.
pub proof fn lemma_compact_one_line(s: Seq<char>)
    ensures
        !compact_spec(s).contains('\n'),
        !s.contains('\n') ==> compact_spec(s) == s,
{
    if s.contains('\n') {
        lemma_words_lack_newline(s, 0);
        reveal_strlit(" ");
        assert(!" "@.contains('\n')) by {
            assert(" "@ =~= seq![' ']);
        }
        lemma_join_sep_lacks(words_from(s, 0), " "@, '\n');
    }
}

/// How the message shows the conditional: compacted, except that a
/// conditional other than a ternary written over several lines shows as its
/// keyword through its condition's selector, then ` ... end`.
pub open spec fn current_source(file: &SourceFile, node: NodeId) -> Seq<char> {
    let s = src_of(file, node);
    match file.kind(node) {
        NodeKind::If { cond, keyword, .. } => {
            let start = file.name_range(node).start;
            let end = file.name_range(cond).end;
            if keyword != IfKeyword::Ternary && s.contains('\n') && start <= end {
                file.source@.subrange(start as int, end as int) + " ... end"@
            } else {
                compact_spec(s)
            }
        },
        _ => compact_spec(s),
    }
}

/// The message names a conditional written over several lines, other than a
/// ternary, by its keyword through its condition's selector and ` ... end`:
/// `if a.present?\n  a\nelse\n  b\nend` shows as `if a.present? ... end`.
pub proof fn lemma_multiline_conditional_shortened(file: &SourceFile, node: NodeId, rep: Seq<char>)
    requires
        presence_rewrite(file, node) == Some(rep),
        file.kind(node) matches NodeKind::If { cond, keyword, .. }
            && keyword != IfKeyword::Ternary
            && file.name_range(node).start <= file.name_range(cond).end,
        src_of(file, node).contains('\n'),
    ensures
        presence_finding(file, node) matches Some(f) && f.message == "Use `"@ + compact_spec(rep) + "` instead of `"@
            + file.source@.subrange(
                file.name_range(node).start as int,
                file.name_range(file.kind(node)->cond).end as int,
            ) + " ... end"@ + "`."@,
{
}

/// The rewrite of the conditional: the `||` form, else the `&.` form.
pub open spec fn presence_rewrite(file: &SourceFile, node: NodeId) -> Option<Seq<char>> {
    match file.kind(node) {
        NodeKind::If { cond, then_branch: Some(t), else_branch: Some(e), keyword, .. } => if keyword != IfKeyword::Elsif {
            match other_form(file, cond, t, e) {
                Some((rs, other)) => {
                    let ok = file.kind(other);
                    if ok is If || ok is Rescue || ok is While {
                        None
                    } else {
                        Some(replacement_spec(file, node, rs, other))
                    }
                },
                None => match chain_form(file, cond, t, e) {
                    Some((rs, chain)) => {
                        let m = match method_of(file.kind(chain)) {
                            Some(m) => m,
                            None => Seq::empty(),
                        };
                        if is_assignment_method(m) || is_operator_method(m) {
                            None
                        } else {
                            Some(chain_replacement_spec(file, rs, chain))
                        }
                    },
                    None => None,
                },
            }
        } else {
            None
        },
        _ => None,
    }
}

/// What `Presence::check_if` reports for `node`.
pub open spec fn presence_finding(file: &SourceFile, node: NodeId) -> Option<Finding> {
    match presence_rewrite(file, node) {
        Some(rep) => Some(Finding {
            range: file.range(node),
            message: "Use `"@ + compact_spec(rep) + "` instead of `"@ + current_source(file, node) + "`."@,
            edits: seq![(file.range(node), rep)],
        }),
        None => None,
    }
}


/// Computes `classify_condition`.
fn classify_condition_exec(file: &SourceFile, cond: NodeId) -> (r: Option<(bool, NodeId)>)
    requires
        file.valid(cond),
    ensures
        r == classify_condition(file, cond),
        r matches Some((_, n)) ==> n < file.nodes@.len(),
{
    let is_call = match &file.nodes[cond].kind {
        NodeKind::Send { .. } | NodeKind::Csend { .. } => true,
        _ => false,
    };
    if is_call && file.call_arguments(cond).len() == 0 {
        let m = match file.method_name(cond) {
            Some(m) => m,
            None => return None,
        };
        match file.call_receiver(cond) {
            None => return None,
            Some(r) => {
                assert(file.children(cond)[0] == r);
                if str_eq(m, "blank?") {
                    return Some((true, r));
                }
                if str_eq(m, "present?") {
                    return Some((false, r));
                }
            },
        }
    }
    let is_not = match &file.nodes[cond].kind {
        NodeKind::Send { method, args, .. } => str_eq(method.as_str(), "!") && args.len() == 0,
        _ => false,
    };
    if !is_not {
        return None;
    }
    let inner = match file.call_receiver(cond) {
        Some(i) => i,
        None => return None,
    };
    assert(file.children(cond)[0] == inner);
    let inner_call = match &file.nodes[inner].kind {
        NodeKind::Send { .. } | NodeKind::Csend { .. } => true,
        _ => false,
    };
    if !inner_call || file.call_arguments(inner).len() != 0 {
        return None;
    }
    let r = match file.call_receiver(inner) {
        Some(r) => r,
        None => return None,
    };
    assert(file.children(inner)[0] == r);
    let m = match file.method_name(inner) {
        Some(m) => m,
        None => return None,
    };
    if str_eq(m, "present?") {
        Some((true, r))
    } else if str_eq(m, "blank?") {
        Some((false, r))
    } else {
        None
    }
}

/// Decides `is_begin`.
fn is_begin_exec(file: &SourceFile, n: NodeId) -> (r: bool)
    requires
        n < file.nodes@.len(),
    ensures
        r == is_begin(file, n),
{
    match &file.nodes[n].kind {
        NodeKind::Begin(_) | NodeKind::Kwbegin(_) => true,
        _ => false,
    }
}

/// Computes `other_form`.
fn match_other_form<'a>(file: &'a SourceFile, cond: NodeId, then_: NodeId, else_: NodeId) -> (r: Option<(&'a str, NodeId)>)
    requires
        file.valid(cond),
        then_ < file.nodes@.len(),
        else_ < file.nodes@.len(),
    ensures
        match r {
            Some((rs, o)) => other_form(file, cond, then_, else_) == Some((rs@, o)) && o < file.nodes@.len(),
            None => other_form(file, cond, then_, else_) is None,
        },
{
    let (blank, recv) = match classify_condition_exec(file, cond) {
        Some(c) => c,
        None => return None,
    };
    let rs = file.raw_source(file.nodes[recv].range);
    let (same, other) = if blank { (else_, then_) } else { (then_, else_) };
    if is_begin_exec(file, same) || !str_eq(file.raw_source(file.nodes[same].range), rs) || is_begin_exec(file, other) {
        return None;
    }
    Some((rs, other))
}

/// Decides `is_send_to`.
fn is_send_to_exec(file: &SourceFile, n: NodeId, rs: &str) -> (r: bool)
    requires
        file.valid(n),
    ensures
        r == is_send_to(file, n, rs@),
{
    let is_call = match &file.nodes[n].kind {
        NodeKind::Send { .. } | NodeKind::Csend { .. } => true,
        _ => false,
    };
    if !is_call {
        return false;
    }
    match file.call_receiver(n) {
        Some(r) => {
            assert(file.children(n)[0] == r);
            str_eq(file.raw_source(file.nodes[r].range), rs)
        },
        None => false,
    }
}

/// Computes `chain_form`.
fn match_chain_form<'a>(file: &'a SourceFile, cond: NodeId, then_: NodeId, else_: NodeId) -> (r: Option<(&'a str, NodeId)>)
    requires
        file.valid(cond),
        then_ < file.nodes@.len(),
        else_ < file.nodes@.len(),
    ensures
        match r {
            Some((rs, c)) => chain_form(file, cond, then_, else_) == Some((rs@, c)) && c < file.nodes@.len(),
            None => chain_form(file, cond, then_, else_) is None,
        },
{
    let (blank, recv) = match classify_condition_exec(file, cond) {
        Some(c) => c,
        None => return None,
    };
    let rs = file.raw_source(file.nodes[recv].range);
    let (nil_side, chain) = if blank { (then_, else_) } else { (else_, then_) };
    let nil = match &file.nodes[nil_side].kind {
        NodeKind::Nil => true,
        _ => false,
    };
    if nil && is_send_to_exec(file, chain, rs) {
        Some((rs, chain))
    } else {
        None
    }
}

/// The sources of the arguments of the call `n`, joined by commas.
fn join_args(file: &SourceFile, n: NodeId) -> (r: String)
    requires
        file.valid(n),
    ensures
        r@ == args_source(file, args_of(file.kind(n))),
{
    let args = file.call_arguments(n);
    let ghost parts = args@.map_values(|a: NodeId| src_of(file, a));
    let mut joined = String::new();
    let mut j: usize = 0;
    while j < args.len()
        invariant
            file.valid(n),
            args@ == args_of(file.kind(n)),
            parts == args@.map_values(|a: NodeId| src_of(file, a)),
            j <= args@.len(),
            joined@ == join_sep(parts.subrange(0, j as int), ", "@),
        decreases args@.len() - j,
    {
        proof { crate::ast::lemma_args_are_children(file, n, j as int); }
        let a = args[j];
        if j > 0 {
            joined.append(", ");
        }
        joined.append(file.raw_source(file.nodes[a].range));
        proof {
            let ps = parts.subrange(0, j + 1);
            assert(ps.drop_last() =~= parts.subrange(0, j as int));
            assert(ps.last() == src_of(file, a));
            if j == 0 {
                assert(joined@ =~= ps[0]);
            } else {
                assert(joined@ =~= join_sep(ps.drop_last(), ", "@) + ", "@ + ps.last());
            }
        }
        j = j + 1;
    }
    assert(parts.subrange(0, args@.len() as int) =~= parts);
    joined
}

/// Computes `or_source`.
fn or_source_exec(file: &SourceFile, other: NodeId) -> (r: String)
    requires
        file.valid(other),
    ensures
        r@ == or_source(file, other),
{
    let is_call = match &file.nodes[other].kind {
        NodeKind::Send { .. } | NodeKind::Csend { .. } => true,
        _ => false,
    };
    let src = file.raw_source(file.nodes[other].range);
    if !is_call {
        return match &file.nodes[other].kind {
            NodeKind::Nil => String::new(),
            _ => concat2(" || ", src),
        };
    }
    let m = match file.method_name(other) {
        Some(m) => m,
        None => return String::new(),
    };
    let args = file.call_arguments(other);
    if file.nodes[other].parenthesized || str_eq(m, "[]") || is_arithmetic(m) || args.len() == 0 {
        return concat2(" || ", src);
    }
    proof { crate::ast::lemma_args_are_children(file, other, 0); }
    let prefix = trim_end_str(file.raw_source(Range { start: file.nodes[other].range.start, end: file.nodes[args[0]].range.start }));
    let mut s = concat3(" || ", prefix, "(");
    let joined = join_args(file, other);
    s.append(joined.as_str());
    s.append(")");
    s
}

/// `a.presence || b`, in parentheses where the context needs them: the
/// rewrite of `node` whose receiver has the source `rs` and whose other
/// branch is `other`.
pub fn replacement(file: &SourceFile, node: NodeId, rs: &str, other: NodeId) -> (r: String)
    requires
        file.valid(node),
        other < file.nodes@.len(),
    ensures
        r@ == replacement_spec(file, node, rs@, other),
{
    let or = or_source_exec(file, other);
    let mut replaced = concat2(rs, ".presence");
    replaced.append(or.as_str());
    let parens = or.unicode_len() > 0 && match file.nodes[node].parent {
        Some(p) => match &file.nodes[p].kind {
            NodeKind::And { .. } => true,
            NodeKind::Send { .. } | NodeKind::Csend { .. } => !file.nodes[p].parenthesized,
            _ => false,
        },
        None => false,
    };
    if parens {
        concat3("(", replaced.as_str(), ")")
    } else {
        replaced
    }
}

/// Computes `chain_replacement_spec` for the call `chain`.
fn chain_replacement(file: &SourceFile, rs: &str, chain: NodeId) -> (r: String)
    requires
        file.valid(chain),
        is_call_kind(file.kind(chain)),
    ensures
        r@ == chain_replacement_spec(file, rs@, chain),
{
    let m = match file.method_name(chain) {
        Some(m) => m,
        None => return String::new(),
    };
    let mut s = concat3(rs, ".presence&.", m);
    if file.call_arguments(chain).len() > 0 {
        s.append("(");
        let joined = join_args(file, chain);
        s.append(joined.as_str());
        s.append(")");
    }
    s
}

/// Decides `is_assignment_method || is_operator_method`.
fn is_ignorable_method(m: &str) -> (r: bool)
    ensures
        r == (is_assignment_method(m@) || is_operator_method(m@)),
{
    let assign = str_ends_with(m, "=") && !(str_eq(m, "==") || str_eq(m, "===") || str_eq(m, "!=") || str_eq(m, "<=")
        || str_eq(m, ">="));
    let op = str_eq(m, "|") || str_eq(m, "^") || str_eq(m, "&") || str_eq(m, "<=>") || str_eq(m, "==") || str_eq(m, "===")
        || str_eq(m, "=~") || str_eq(m, ">") || str_eq(m, ">=") || str_eq(m, "<") || str_eq(m, "<=") || str_eq(m, "<<")
        || str_eq(m, ">>") || str_eq(m, "+") || str_eq(m, "-") || str_eq(m, "*") || str_eq(m, "/") || str_eq(m, "%")
        || str_eq(m, "**") || str_eq(m, "~") || str_eq(m, "+@") || str_eq(m, "-@") || str_eq(m, "!@") || str_eq(m, "~@")
        || str_eq(m, "[]") || str_eq(m, "[]=") || str_eq(m, "!") || str_eq(m, "!=") || str_eq(m, "!~") || str_eq(m, "`");
    assign || op
}

/// A source on one line as is; on several, its words joined by single spaces
/// (the shortening of a multi-line conditional in the message is
/// `current_source`, which takes the node).
pub fn compact(src: &str) -> (r: String)
    ensures
        r@ == compact_spec(src@),
{
    if !has_newline(src) {
        return String::from_str(src);
    }
    let n = src.unicode_len();
    let mut out = String::new();
    let ghost mut done: Seq<Seq<char>> = Seq::empty();
    let mut any = false;
    let mut i: usize = 0;
    while i < n
        invariant
            n == src@.len(),
            i <= n,
            words_from(src@, 0) == done + words_from(src@, i as int),
            out@ == join_sep(done, " "@),
            any == (done.len() > 0),
        decreases n - i,
    {
        if is_whitespace(src.get_char(i)) {
            i = i + 1;
        } else {
            let mut j = i;
            while j < n && !is_whitespace(src.get_char(j))
                invariant
                    n == src@.len(),
                    i <= j <= n,
                    forall|k: int| i <= k < j ==> not_ws()(#[trigger] src@[k]),
                decreases n - j,
            {
                j = j + 1;
            }
            proof {
                let t = src@.subrange(i as int, n as int);
                assert forall|k: int| 0 <= k < j - i implies not_ws()(#[trigger] t[k]) by {
                    assert(t[k] == src@[i + k]);
                }
                if j < n {
                    assert(t[j - i] == src@[j as int]);
                }
                lemma_prefix_len(t, not_ws(), j - i);
                assert(seq![src@.subrange(i as int, j as int)] + words_from(src@, j as int) == words_from(src@, i as int));
            }
            let word = src.substring_char(i, j);
            if any {
                out.append(" ");
            }
            out.append(word);
            proof {
                let d2 = done.push(word@);
                assert(d2.drop_last() =~= done);
                if done.len() == 0 {
                    assert(out@ =~= d2[0]);
                } else {
                    assert(out@ =~= join_sep(done, " "@) + " "@ + word@);
                }
                assert(done + words_from(src@, i as int) =~= d2 + words_from(src@, j as int));
                done = d2;
            }
            any = true;
            i = j;
        }
    }
    assert(words_from(src@, n as int) =~= Seq::<Seq<char>>::empty());
    assert(done + Seq::<Seq<char>>::empty() =~= done);
    out
}

/// The white-space separated words of `src`, as `str::split_whitespace` yields them.
pub(crate) fn words_of(src: &str) -> (r: Vec<&str>)
    ensures
        r.deep_view() == words_from(src@, 0),
{
    let n = src.unicode_len();
    let mut out: Vec<&str> = Vec::new();
    let mut i: usize = 0;
    assert(out.deep_view() =~= Seq::<Seq<char>>::empty());
    while i < n
        invariant
            n == src@.len(),
            i <= n,
            words_from(src@, 0) == out.deep_view() + words_from(src@, i as int),
        decreases n - i,
    {
        if is_whitespace(src.get_char(i)) {
            i = i + 1;
        } else {
            let mut j = i;
            while j < n && !is_whitespace(src.get_char(j))
                invariant
                    n == src@.len(),
                    i <= j <= n,
                    forall|k: int| i <= k < j ==> not_ws()(#[trigger] src@[k]),
                decreases n - j,
            {
                j = j + 1;
            }
            proof {
                let t = src@.subrange(i as int, n as int);
                assert forall|k: int| 0 <= k < j - i implies not_ws()(#[trigger] t[k]) by {
                    assert(t[k] == src@[i + k]);
                }
                if j < n {
                    assert(t[j - i] == src@[j as int]);
                }
                lemma_prefix_len(t, not_ws(), j - i);
            }
            let word = src.substring_char(i, j);
            let ghost before = out.deep_view();
            out.push(word);
            assert(out.deep_view() =~= before.push(word@));
            assert(before + words_from(src@, i as int) =~= out.deep_view() + words_from(src@, j as int));
            i = j;
        }
    }
    assert(words_from(src@, n as int) =~= Seq::<Seq<char>>::empty());
    assert(out.deep_view() + Seq::<Seq<char>>::empty() =~= out.deep_view());
    out
}

impl Presence {
    /// Reports a conditional that `presence` expresses, with its rewrite.
    pub fn check_if(&self, file: &SourceFile, node: NodeId) -> (r: Option<Offense>)
        requires
            file.valid(node),
        ensures
            r.deep_view() == presence_finding(file, node),
    {
        let (cond, t, e, ternary) = match &file.nodes[node].kind {
            NodeKind::If { cond, then_branch: Some(t), else_branch: Some(e), keyword, .. } => {
                if *keyword == IfKeyword::Elsif {
                    return None;
                }
                assert(file.children(node)[0] == *cond);
                assert(file.children(node)[1] == *t);
                assert(file.children(node)[2] == *e);
                (*cond, *t, *e, *keyword == IfKeyword::Ternary)
            },
            _ => return None,
        };
        let rep = match match_other_form(file, cond, t, e) {
            Some((rs, other)) => {
                let ignorable = match &file.nodes[other].kind {
                    NodeKind::If { .. } | NodeKind::Rescue(_) | NodeKind::While(_) => true,
                    _ => false,
                };
                if ignorable {
                    return None;
                }
                replacement(file, node, rs, other)
            },
            None => match match_chain_form(file, cond, t, e) {
                Some((rs, chain)) => {
                    let m = match file.method_name(chain) {
                        Some(m) => m,
                        None => return None,
                    };
                    if is_ignorable_method(m) {
                        return None;
                    }
                    chain_replacement(file, rs, chain)
                },
                None => return None,
            },
        };
        let whole = file.raw_source(file.nodes[node].range);
        let start = file.nodes[node].name_range.start;
        let end = file.nodes[cond].name_range.end;
        assert(whole@ == src_of(file, node));
        assert(file.name_range(node).start == start);
        let cur = if !ternary && has_newline(whole) && start <= end {
            let head = file.raw_source(Range { start, end });
            concat2(head, " ... end")
        } else {
            compact(whole)
        };
        assert(cur@ == current_source(file, node));
        let c1 = compact(rep.as_str());
        let mut msg = String::from_str("Use `");
        msg.append(c1.as_str());
        msg.append("` instead of `");
        msg.append(cur.as_str());
        msg.append("`.");
        let range = file.nodes[node].range;
        Some(offense1(range, msg, range, rep))
    }
}

/// `!x.blank?` tests the same as `x.present?`, and `!x.present?` the same
/// as `x.blank?`: each pair gets the same receiver and the same polarity
/// (`true` for a blank test), so the conditionals they guard are treated
/// alike.
pub proof fn lemma_negated_tests_match(file: &SourceFile, neg: NodeId, inner: NodeId, direct: NodeId, r: NodeId, negated_blank: bool)
    requires
        file.kind(neg) matches NodeKind::Send { receiver: Some(i), method, args } && i == inner && method@ == "!"@ && args@.len() == 0,
        file.kind(inner) matches NodeKind::Send { receiver: Some(x), method, args } && x == r && args@.len() == 0
            && method@ == (if negated_blank { "blank?"@ } else { "present?"@ }),
        file.kind(direct) matches NodeKind::Send { receiver: Some(x), method, args } && x == r && args@.len() == 0
            && method@ == (if negated_blank { "present?"@ } else { "blank?"@ }),
    ensures
        classify_condition(file, neg) == classify_condition(file, direct),
        classify_condition(file, neg) == Some((!negated_blank, r)),
{
    reveal_strlit("!");
    reveal_strlit("blank?");
    reveal_strlit("present?");
    assert("!"@.len() == 1 && "blank?"@.len() == 6 && "present?"@.len() == 8);
    assert("blank?"@[0] != "present?"@[0]);
}

} // verus!
