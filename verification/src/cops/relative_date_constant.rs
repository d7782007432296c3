//! `Rails/RelativeDateConstant`: a constant assigned a relative date is
//! evaluated only once.

use vstd::prelude::*;
use crate::ast::{NodeId, NodeKind, Range, SourceFile};
use crate::cops::read_write_attribute::src_of;
use crate::cops::redundant_presence_validation_on_belongs_to::spaces;
use crate::cops::redundant_receiver_in_with_options::is_block_kind;
use crate::report::{offense0, offense1, Finding, Offense};
use crate::text::{concat3, not_char, rfind_char_end, str_eq, str_to_lower, suffix_len, to_lowercase_string};

verus! {

/// Reports constants assigned relative dates.
#[derive(Debug, Default)]
pub struct RelativeDateConstant;

/// The relative-date methods.
pub open spec fn is_relative_date_method(m: Seq<char>) -> bool {
    m == "since"@ || m == "from_now"@ || m == "after"@ || m == "ago"@ || m == "until"@ || m == "before"@
        || m == "yesterday"@ || m == "tomorrow"@
}

/// A call of a relative-date method without arguments: its name.
pub open spec fn relative_date_send(file: &SourceFile, n: NodeId) -> Option<Seq<char>> {
    match file.kind(n) {
        NodeKind::Send { method, args, .. } => if is_relative_date_method(method@) && args@.len() == 0 {
            Some(method@)
        } else {
            None
        },
        _ => None,
    }
}

/// The relative-date calls of the subtree at `n`, children before their
/// parent, not looking into blocks.
pub open spec fn relative_dates(file: &SourceFile, n: NodeId) -> Seq<Seq<char>>
    decreases file.nodes@.len() - n, 1int, 0int,
{
    if is_block_kind(file.kind(n)) {
        Seq::empty()
    } else {
        relative_dates_list(file, n, file.children(n)) + match relative_date_send(file, n) {
            Some(m) => seq![m],
            None => Seq::empty(),
        }
    }
}

/// `relative_dates` of the children `ids` of `n`, in order.
pub open spec fn relative_dates_list(file: &SourceFile, n: NodeId, ids: Seq<NodeId>) -> Seq<Seq<char>>
    decreases file.nodes@.len() - n, 0int, ids.len(),
{
    if ids.len() == 0 {
        Seq::empty()
    } else {
        relative_dates_list(file, n, ids.drop_last()) + if n < ids.last() < file.nodes@.len() {
            relative_dates(file, ids.last())
        } else {
            Seq::empty()
        }
    }
}

/// The message for the method `m`.
pub open spec fn relative_date_message(m: Seq<char>) -> Seq<char> {
    "Do not assign `"@ + m + "` to constants as it will be evaluated only once."@
}

/// `def self.<name lowered>` returning the value, indented by the column
/// of the assignment.
pub open spec fn casgn_correction(file: &SourceFile, node: NodeId, name: Seq<char>, value: NodeId) -> Seq<char> {
    let start = file.range(node).start as int;
    let indent = spaces(suffix_len(file.source@.subrange(0, start), not_char('\n')));
    "def self."@ + str_to_lower(name) + "\n"@ + indent + indent + src_of(file, value) + "\n"@ + indent + "end"@
}

/// What `RelativeDateConstant::check_casgn` reports for `node`.
pub open spec fn casgn_finding(file: &SourceFile, node: NodeId) -> Option<Finding> {
    match file.kind(node) {
        NodeKind::Casgn { scope, name, value: Some(v) } => {
            let found = relative_dates(file, v);
            if found.len() > 0 {
                Some(Finding {
                    range: file.range(node),
                    message: relative_date_message(found[0]),
                    edits: if scope is None {
                        seq![(file.range(node), casgn_correction(file, node, name@, v))]
                    } else {
                        Seq::empty()
                    },
                })
            } else {
                None
            }
        },
        _ => None,
    }
}

/// The finding for the `k`th target and value of a multiple assignment.
pub open spec fn masgn_item(file: &SourceFile, target: NodeId, value: NodeId) -> Seq<Finding> {
    let found = relative_dates(file, value);
    if file.kind(target) is Casgn && found.len() > 0 {
        seq![Finding {
            range: Range { start: file.range(target).start, end: file.range(value).end },
            message: relative_date_message(found[0]),
            edits: Seq::empty(),
        }]
    } else {
        Seq::empty()
    }
}

/// The findings for the first `k` pairs of targets and values.
pub open spec fn masgn_items(file: &SourceFile, ts: Seq<NodeId>, vs: Seq<NodeId>, k: int) -> Seq<Finding>
    decreases k,
{
    if k <= 0 {
        Seq::empty()
    } else {
        masgn_items(file, ts, vs, k - 1) + masgn_item(file, ts[k - 1], vs[k - 1])
    }
}

/// What `RelativeDateConstant::check_masgn` reports for `node`.
pub open spec fn masgn_findings(file: &SourceFile, node: NodeId) -> Seq<Finding> {
    match file.kind(node) {
        NodeKind::Masgn { lhs, rhs } => match (file.kind(lhs), file.kind(rhs)) {
            (NodeKind::Mlhs(ts), NodeKind::Array(vs)) => {
                let k = if ts@.len() < vs@.len() { ts@.len() } else { vs@.len() };
                masgn_items(file, ts@, vs@, k as int)
            },
            _ => Seq::empty(),
        },
        _ => Seq::empty(),
    }
}

/// What `RelativeDateConstant::check_orasgn` reports for `node`.
pub open spec fn orasgn_finding(file: &SourceFile, node: NodeId) -> Option<Finding> {
    match file.kind(node) {
        NodeKind::OrAsgn { target, value } => if file.kind(target) is Casgn {
            match relative_date_send(file, value) {
                Some(m) => Some(Finding { range: file.range(node), message: relative_date_message(m), edits: Seq::empty() }),
                None => None,
            }
        } else {
            None
        },
        _ => None,
    }
}

/// Computes `relative_date_send`.
fn relative_date_send_exec(file: &SourceFile, n: NodeId) -> (r: Option<&str>)
    requires
        n < file.nodes@.len(),
    ensures
        crate::text::opt_str_view(r) == relative_date_send(file, n),
{
    match &file.nodes[n].kind {
        NodeKind::Send { method, args, .. } => {
            let m = method.as_str();
            let rel = str_eq(m, "since") || str_eq(m, "from_now") || str_eq(m, "after") || str_eq(m, "ago")
                || str_eq(m, "until") || str_eq(m, "before") || str_eq(m, "yesterday") || str_eq(m, "tomorrow");
            if rel && args.len() == 0 { Some(m) } else { None }
        },
        _ => None,
    }
}

/// Appends `relative_dates(n)` to `out`.
fn find_relative_dates<'a>(file: &'a SourceFile, n: NodeId, out: &mut Vec<&'a str>)
    requires
        file.valid(n),
    ensures
        final(out).deep_view() == old(out).deep_view() + relative_dates(file, n),
    decreases file.nodes@.len() - n,
{
    let block = match &file.nodes[n].kind {
        NodeKind::Block { .. } | NodeKind::Numblock { .. } | NodeKind::Itblock { .. } => true,
        _ => false,
    };
    if block {
        assert(out.deep_view() =~= old(out).deep_view() + relative_dates(file, n));
        return;
    }
    let ghost base = out.deep_view();
    let kids = file.children_of(n);
    let mut i: usize = 0;
    assert(out.deep_view() =~= base + relative_dates_list(file, n, kids@.subrange(0, 0)));
    while i < kids.len()
        invariant
            file.valid(n),
            kids@ == file.children(n),
            i <= kids@.len(),
            out.deep_view() == base + relative_dates_list(file, n, kids@.subrange(0, i as int)),
        decreases kids@.len() - i,
    {
        let c = kids[i];
        assert(file.children(n)[i as int] == c);
        assert(kids@.subrange(0, i + 1).drop_last() =~= kids@.subrange(0, i as int));
        find_relative_dates(file, c, out);
        assert(out.deep_view() =~= base + relative_dates_list(file, n, kids@.subrange(0, i + 1)));
        i = i + 1;
    }
    assert(kids@.subrange(0, kids@.len() as int) =~= kids@);
    let ghost mid = out.deep_view();
    match relative_date_send_exec(file, n) {
        Some(m) => {
            out.push(m);
            assert(out.deep_view() =~= mid.push(m@));
        },
        None => {},
    }
    assert(out.deep_view() =~= base + relative_dates(file, n));
}

/// The first relative-date call of the subtree at `n`.
fn first_relative_date<'a>(file: &'a SourceFile, n: NodeId) -> (r: Option<&'a str>)
    requires
        file.valid(n),
    ensures
        match r {
            Some(m) => relative_dates(file, n).len() > 0 && relative_dates(file, n)[0] == m@,
            None => relative_dates(file, n).len() == 0,
        },
{
    let mut found: Vec<&str> = Vec::new();
    find_relative_dates(file, n, &mut found);
    assert(found.deep_view() =~= relative_dates(file, n));
    if found.len() == 0 {
        None
    } else {
        assert(found.deep_view()[0] == found@[0]@);
        Some(found[0])
    }
}

/// The relative-date message for `m`.
fn message_for(m: &str) -> (r: String)
    ensures
        r@ == relative_date_message(m@),
{
    concat3("Do not assign `", m, "` to constants as it will be evaluated only once.")
}

impl RelativeDateConstant {
    /// Reports `X = <relative date>`, with the rewrite to a class method for
    /// a constant without a scope.
    pub fn check_casgn(&self, file: &SourceFile, node: NodeId) -> (r: Option<Offense>)
        requires
            file.valid(node),
        ensures
            r.deep_view() == casgn_finding(file, node),
    {
        let (scope, name, v) = match &file.nodes[node].kind {
            NodeKind::Casgn { scope, name, value: Some(v) } => (*scope, name.as_str(), *v),
            _ => return None,
        };
        assert(file.children(node).last() == v);
        let m = match first_relative_date(file, v) {
            Some(m) => m,
            None => return None,
        };
        let range = file.nodes[node].range;
        let msg = message_for(m);
        if scope.is_some() {
            return Some(offense0(range, msg));
        }
        let src = file.source.as_str();
        let start = range.start;
        let head = src.substring_char(0, start);
        let ls = rfind_char_end(head, '\n');
        proof {
            assert(head@ == file.source@.subrange(0, start as int));
        }
        let col = start - ls;
        let mut indent = String::new();
        let mut w: usize = 0;
        while w < col
            invariant
                w <= col,
                indent@ =~= spaces(w as nat),
            decreases col - w,
        {
            crate::text::push_char(&mut indent, ' ');
            w = w + 1;
            assert(indent@ =~= spaces(w as nat));
        }
        let lowered = to_lowercase_string(name);
        let mut rep = concat3("def self.", lowered.as_str(), "\n");
        rep.append(indent.as_str());
        rep.append(indent.as_str());
        rep.append(file.raw_source(file.nodes[v].range));
        rep.append("\n");
        rep.append(indent.as_str());
        rep.append("end");
        assert(rep@ =~= casgn_correction(file, node, name@, v));
        Some(offense1(range, msg, range, rep))
    }

    /// Reports each constant target of `A, B = x, <relative date>`.
    pub fn check_masgn(&self, file: &SourceFile, node: NodeId) -> (r: Vec<Offense>)
        requires
            file.valid(node),
        ensures
            r.deep_view() == masgn_findings(file, node),
    {
        let mut out: Vec<Offense> = Vec::new();
        let (lhs, rhs) = match &file.nodes[node].kind {
            NodeKind::Masgn { lhs, rhs } => (*lhs, *rhs),
            _ => {
                assert(out.deep_view() =~= masgn_findings(file, node));
                return out;
            },
        };
        assert(file.children(node)[0] == lhs);
        assert(file.children(node)[1] == rhs);
        let (ts, vs) = match (&file.nodes[lhs].kind, &file.nodes[rhs].kind) {
            (NodeKind::Mlhs(ts), NodeKind::Array(vs)) => (ts, vs),
            _ => {
                assert(out.deep_view() =~= masgn_findings(file, node));
                return out;
            },
        };
        let k = if ts.len() < vs.len() { ts.len() } else { vs.len() };
        let mut i: usize = 0;
        assert(out.deep_view() =~= masgn_items(file, ts@, vs@, 0));
        while i < k
            invariant
                file.wf(),
                lhs < file.nodes@.len(),
                rhs < file.nodes@.len(),
                file.kind(lhs) == NodeKind::Mlhs(*ts),
                file.kind(rhs) == NodeKind::Array(*vs),
                k <= ts@.len(),
                k <= vs@.len(),
                i <= k,
                out.deep_view() == masgn_items(file, ts@, vs@, i as int),
            decreases k - i,
        {
            let t = ts[i];
            let v = vs[i];
            assert(file.children(lhs)[i as int] == t);
            assert(file.children(rhs)[i as int] == v);
            let is_casgn = match &file.nodes[t].kind {
                NodeKind::Casgn { .. } => true,
                _ => false,
            };
            let ghost before = out.deep_view();
            if is_casgn {
                match first_relative_date(file, v) {
                    Some(m) => {
                        let o = offense0(Range { start: file.nodes[t].range.start, end: file.nodes[v].range.end }, message_for(m));
                        out.push(o);
                        assert(out.deep_view() =~= before + masgn_item(file, t, v));
                    },
                    None => {
                        assert(out.deep_view() =~= before + masgn_item(file, t, v));
                    },
                }
            } else {
                assert(out.deep_view() =~= before + masgn_item(file, t, v));
            }
            i = i + 1;
        }
        out
    }

    /// Reports `X ||= <relative date>`.
    pub fn check_orasgn(&self, file: &SourceFile, node: NodeId) -> (r: Option<Offense>)
        requires
            file.valid(node),
        ensures
            r.deep_view() == orasgn_finding(file, node),
    {
        let (target, value) = match &file.nodes[node].kind {
            NodeKind::OrAsgn { target, value } => (*target, *value),
            _ => return None,
        };
        assert(file.children(node)[0] == target);
        assert(file.children(node)[1] == value);
        match &file.nodes[target].kind {
            NodeKind::Casgn { .. } => {},
            _ => return None,
        }
        match relative_date_send_exec(file, value) {
            Some(m) => Some(offense0(file.nodes[node].range, message_for(m))),
            None => None,
        }
    }
}

} // verus!
