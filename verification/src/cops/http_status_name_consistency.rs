//! `Rails/HttpStatusNameConsistency`: use the current Rack names of HTTP statuses.

use vstd::prelude::*;
use crate::ast::{NodeId, NodeKind, SourceFile};
use crate::report::{finding1, offense1, Finding, Offense};
use crate::text::{concat2, concat5, opt_str_view, str_eq};

verus! {

/// Current name of a renamed status, if `current` is an obsolete one.
pub open spec fn preferred_name(current: Seq<char>) -> Option<Seq<char>> {
    if current == "unprocessable_entity"@ {
        Some("unprocessable_content"@)
    } else if current == "payload_too_large"@ {
        Some("content_too_large"@)
    } else {
        None
    }
}

/// The current name for an obsolete status symbol, or `None`.
pub fn preferred_for(current: &str) -> (r: Option<&'static str>)
    ensures
        opt_str_view(r) == preferred_name(current@),
{
    if str_eq(current, "unprocessable_entity") {
        Some("unprocessable_content")
    } else if str_eq(current, "payload_too_large") {
        Some("content_too_large")
    } else {
        None
    }
}

/// Checks status-taking calls for obsolete status symbols.
#[derive(Debug, Default)]
pub struct HttpStatusNameConsistency;

/// Values of all `status:` pairs among `pairs`.
pub open spec fn status_values_in_pairs(file: &SourceFile, pairs: Seq<NodeId>) -> Seq<NodeId>
    decreases pairs.len(),
{
    if pairs.len() == 0 {
        Seq::empty()
    } else {
        let rest = status_values_in_pairs(file, pairs.drop_first());
        match file.kind(pairs[0]) {
            NodeKind::Pair { key, value } => {
                if file.kind(key) matches NodeKind::Sym(k) && k@ == "status"@ {
                    seq![value] + rest
                } else {
                    rest
                }
            },
            _ => rest,
        }
    }
}

/// Values of all `status:` pairs in hash arguments among `args`.
pub open spec fn status_values_in_args(file: &SourceFile, args: Seq<NodeId>) -> Seq<NodeId>
    decreases args.len(),
{
    if args.len() == 0 {
        Seq::empty()
    } else {
        let rest = status_values_in_args(file, args.drop_first());
        match file.kind(args[0]) {
            NodeKind::Hash(pairs) => status_values_in_pairs(file, pairs@) + rest,
            _ => rest,
        }
    }
}

/// The status values that a bare status-taking call passes.
pub open spec fn consistency_targets(file: &SourceFile, node: NodeId) -> Seq<NodeId> {
    match file.kind(node) {
        NodeKind::Send { receiver: None, method, args } => {
            if method@ == "render"@ || method@ == "redirect_to"@ || method@ == "assert_redirected_to"@ {
                status_values_in_args(file, args@)
            } else if method@ == "head"@ || method@ == "assert_response"@ {
                if args@.len() > 0 { seq![args@[0]] } else { Seq::empty() }
            } else {
                Seq::empty()
            }
        },
        _ => Seq::empty(),
    }
}

/// Findings within status value `n`: an obsolete symbol, or else whatever
/// its descendants hold (so both branches of a ternary are seen).
pub open spec fn value_findings(file: &SourceFile, n: NodeId) -> Seq<Finding>
    decreases file.nodes@.len() - n, 1int, 0int,
{
    match file.kind(n) {
        NodeKind::Sym(s) => match preferred_name(s@) {
            Some(p) => seq![finding1(file.range(n), "Prefer `:"@ + p + "` over `:"@ + s@ + "`."@, file.range(n), ":"@ + p)],
            None => Seq::empty(),
        },
        _ => children_findings(file, n, file.children(n)),
    }
}

/// Findings within the children `ids` of node `n`, in order.
pub open spec fn children_findings(file: &SourceFile, n: NodeId, ids: Seq<NodeId>) -> Seq<Finding>
    decreases file.nodes@.len() - n, 0int, ids.len(),
{
    if ids.len() == 0 {
        Seq::empty()
    } else if n < ids[0] < file.nodes@.len() {
        value_findings(file, ids[0]) + children_findings(file, n, ids.drop_first())
    } else {
        children_findings(file, n, ids.drop_first())
    }
}

/// Findings within each of the values `ids`, in order.
pub open spec fn values_findings(file: &SourceFile, ids: Seq<NodeId>) -> Seq<Finding>
    decreases ids.len(),
{
    if ids.len() == 0 {
        Seq::empty()
    } else {
        value_findings(file, ids[0]) + values_findings(file, ids.drop_first())
    }
}

/// What `HttpStatusNameConsistency::check_send` reports for `node`.
pub open spec fn name_consistency_findings(file: &SourceFile, node: NodeId) -> Seq<Finding> {
    values_findings(file, consistency_targets(file, node))
}

/// Every node of `ids` is a valid index.
pub open spec fn all_valid(file: &SourceFile, ids: Seq<NodeId>) -> bool {
    forall|i: int| 0 <= i < ids.len() ==> ids[i] < file.nodes@.len()
}

/// Collects every `status:` value among the hash arguments.
fn status_hash_values(file: &SourceFile, args: &[NodeId]) -> (r: Vec<NodeId>)
    requires
        file.wf(),
        all_valid(file, args@),
    ensures
        r@ == status_values_in_args(file, args@),
        all_valid(file, r@),
{
    let mut out: Vec<NodeId> = Vec::new();
    let mut i: usize = args.len();
    assert(args@.subrange(args@.len() as int, args@.len() as int) =~= Seq::<NodeId>::empty());
    while i > 0
        invariant
            file.wf(),
            all_valid(file, args@),
            i <= args@.len(),
            out@ == status_values_in_args(file, args@.subrange(i as int, args@.len() as int)),
            all_valid(file, out@),
        decreases i,
    {
        i = i - 1;
        let ghost rest = args@.subrange(i as int, args@.len() as int);
        assert(rest.drop_first() =~= args@.subrange(i + 1, args@.len() as int));
        let arg = args[i];
        if let NodeKind::Hash(pairs) = &file.nodes[arg].kind {
            let mut found: Vec<NodeId> = Vec::new();
            let mut j: usize = pairs.len();
            assert(pairs@.subrange(pairs@.len() as int, pairs@.len() as int) =~= Seq::<NodeId>::empty());
            while j > 0
                invariant
                    file.wf(),
                    arg < file.nodes@.len(),
                    file.kind(arg) == NodeKind::Hash(*pairs),
                    j <= pairs@.len(),
                    found@ == status_values_in_pairs(file, pairs@.subrange(j as int, pairs@.len() as int)),
                    all_valid(file, found@),
                decreases j,
            {
                j = j - 1;
                let ghost prest = pairs@.subrange(j as int, pairs@.len() as int);
                assert(prest.drop_first() =~= pairs@.subrange(j + 1, pairs@.len() as int));
                let p = pairs[j];
                assert(file.children(arg)[j as int] == p);
                if let NodeKind::Pair { key, value } = &file.nodes[p].kind {
                    assert(file.children(p)[0] == *key);
                    assert(file.children(p)[1] == *value);
                    if let NodeKind::Sym(k) = &file.nodes[*key].kind {
                        if str_eq(k.as_str(), "status") {
                            let mut one: Vec<NodeId> = Vec::new();
                            one.push(*value);
                            one.append(&mut found);
                            found = one;
                        }
                    }
                }
                assert(found@ == status_values_in_pairs(file, prest));
            }
            assert(pairs@.subrange(0, pairs@.len() as int) =~= pairs@);
            found.append(&mut out);
            out = found;
        }
        assert(out@ == status_values_in_args(file, rest));
    }
    assert(args@.subrange(0, args@.len() as int) =~= args@);
    out
}

/// Reports obsolete status symbols within value `n`.
fn check_value(file: &SourceFile, n: NodeId, out: &mut Vec<Offense>)
    requires
        file.valid(n),
    ensures
        final(out).deep_view() == old(out).deep_view() + value_findings(file, n),
    decreases file.nodes@.len() - n,
{
    if let NodeKind::Sym(sym) = &file.nodes[n].kind {
        let r = file.nodes[n].range;
        match preferred_for(sym.as_str()) {
            Some(p) => {
                let msg = concat5("Prefer `:", p, "` over `:", sym.as_str(), "`.");
                out.push(offense1(r, msg, r, concat2(":", p)));
            },
            None => {},
        }
        assert(final(out).deep_view() =~= old(out).deep_view() + value_findings(file, n));
        return;
    }
    let kids = file.children_of(n);
    let mut i: usize = 0;
    let ghost start = out.deep_view();
    assert(kids@.subrange(0, kids@.len() as int) =~= kids@);
    assert(out.deep_view() + children_findings(file, n, kids@) =~= start + children_findings(file, n, kids@));
    while i < kids.len()
        invariant
            file.valid(n),
            !(file.kind(n) is Sym),
            kids@ == file.children(n),
            i <= kids@.len(),
            out.deep_view() + children_findings(file, n, kids@.subrange(i as int, kids@.len() as int))
                == start + children_findings(file, n, kids@),
        decreases kids@.len() - i,
    {
        let ghost rest = kids@.subrange(i as int, kids@.len() as int);
        assert(rest.drop_first() =~= kids@.subrange(i + 1, kids@.len() as int));
        let c = kids[i];
        assert(file.children(n)[i as int] == c);
        let ghost before = out.deep_view();
        check_value(file, c, out);
        assert(before + value_findings(file, c) + children_findings(file, n, rest.drop_first())
            =~= before + (value_findings(file, c) + children_findings(file, n, rest.drop_first())));
        i = i + 1;
    }
    assert(kids@.subrange(kids@.len() as int, kids@.len() as int) =~= Seq::<NodeId>::empty());
    assert(kids@.subrange(0, kids@.len() as int) =~= kids@);
    assert(out.deep_view() =~= start + children_findings(file, n, kids@));
}

impl HttpStatusNameConsistency {
    /// Reports each obsolete status symbol passed to a bare status-taking call.
    pub fn check_send(&self, file: &SourceFile, node: NodeId) -> (r: Vec<Offense>)
        requires
            file.valid(node),
        ensures
            r.deep_view() == name_consistency_findings(file, node),
    {
        let mut out: Vec<Offense> = Vec::new();
        let targets: Vec<NodeId> = match &file.nodes[node].kind {
            NodeKind::Send { receiver: None, method, args } => {
                proof {
                    assert forall|i: int| 0 <= i < args@.len() implies args@[i] < file.nodes@.len() by {
                        assert(file.children(node)[i] == args@[i]);
                    }
                }
                if str_eq(method.as_str(), "render") || str_eq(method.as_str(), "redirect_to")
                    || str_eq(method.as_str(), "assert_redirected_to") {
                    status_hash_values(file, args.as_slice())
                } else if str_eq(method.as_str(), "head") || str_eq(method.as_str(), "assert_response") {
                    let mut v: Vec<NodeId> = Vec::new();
                    if args.len() > 0 {
                        v.push(args[0]);
                    }
                    assert(v@ =~= consistency_targets(file, node));
                    v
                } else {
                    Vec::new()
                }
            },
            _ => Vec::new(),
        };
        assert(targets@ =~= consistency_targets(file, node));
        let mut i: usize = 0;
        assert(targets@.subrange(0, targets@.len() as int) =~= targets@);
        assert(out.deep_view() + values_findings(file, targets@) =~= values_findings(file, targets@));
        while i < targets.len()
            invariant
                file.wf(),
                all_valid(file, targets@),
                i <= targets@.len(),
                out.deep_view() + values_findings(file, targets@.subrange(i as int, targets@.len() as int))
                    == values_findings(file, targets@),
            decreases targets@.len() - i,
        {
            let ghost rest = targets@.subrange(i as int, targets@.len() as int);
            assert(rest.drop_first() =~= targets@.subrange(i + 1, targets@.len() as int));
            let ghost before = out.deep_view();
            check_value(file, targets[i], &mut out);
            assert(before + value_findings(file, targets@[i as int]) + values_findings(file, rest.drop_first())
                =~= before + (value_findings(file, targets@[i as int]) + values_findings(file, rest.drop_first())));
            i = i + 1;
        }
        assert(targets@.subrange(targets@.len() as int, targets@.len() as int) =~= Seq::<NodeId>::empty());
        assert(targets@.subrange(0, targets@.len() as int) =~= targets@);
        assert(out.deep_view() =~= values_findings(file, targets@));
        out
    }
}

} // verus!
