//! `Rails/ReversibleMigrationMethodDefinition`: a migration defines `change`,
//! or both `up` and `down`.

use vstd::prelude::*;
use crate::ast::{NodeId, NodeKind, Range, SourceFile};
use crate::cops::reversible_migration::{is_migration_class, is_migration_class_exec};
use crate::report::{offense0, Finding, Offense};
use crate::text::str_eq;

verus! {

/// Reports migrations that cannot be reversed for want of methods.
#[derive(Debug, Default)]
pub struct ReversibleMigrationMethodDefinition;

/// `def <name>` without parameters.
pub open spec fn is_zero_arg_def(file: &SourceFile, d: NodeId, name: Seq<char>) -> bool {
    file.kind(d) matches NodeKind::Def { name: n, args, .. } && n@ == name
        && (file.kind(args) matches NodeKind::Args(l) && l@.len() == 0)
}

/// The subtree at `n`, not entering classes or modules, has a node
/// satisfying `pred`.
pub open spec fn scoped_has(file: &SourceFile, n: NodeId, pred: spec_fn(NodeId) -> bool) -> bool
    decreases file.nodes@.len() - n, 1int, 0int,
{
    if file.kind(n) is Class || file.kind(n) is Module {
        false
    } else {
        pred(n) || scoped_children_have(file, n, file.children(n), pred)
    }
}

/// `scoped_has` for some of the children `ids` of `n`.
pub open spec fn scoped_children_have(file: &SourceFile, n: NodeId, ids: Seq<NodeId>, pred: spec_fn(NodeId) -> bool) -> bool
    decreases file.nodes@.len() - n, 0int, ids.len(),
{
    if ids.len() == 0 {
        false
    } else {
        (n < ids[0] < file.nodes@.len() && scoped_has(file, ids[0], pred)) || scoped_children_have(file, n, ids.drop_first(), pred)
    }
}

/// `is_zero_arg_def` as a predicate value.
pub open spec fn def_pred(file: &SourceFile, name: Seq<char>) -> spec_fn(NodeId) -> bool {
    |d: NodeId| is_zero_arg_def(file, d, name)
}

/// The migration's body defines `change`, or both `up` and `down`.
pub open spec fn is_reversible_body(file: &SourceFile, b: NodeId) -> bool {
    scoped_has(file, b, def_pred(file, "change"@))
        || (scoped_has(file, b, def_pred(file, "up"@)) && scoped_has(file, b, def_pred(file, "down"@)))
}

/// What `ReversibleMigrationMethodDefinition::check_class` reports for
/// `node`: the class header.
pub open spec fn method_definition_finding(file: &SourceFile, node: NodeId) -> Option<Finding> {
    match file.kind(node) {
        NodeKind::Class { superclass: Some(s), body, .. } => if is_migration_class(file, node) && match body {
            Some(b) => !is_reversible_body(file, b),
            None => true,
        } {
            Some(Finding {
                range: Range { start: file.range(node).start, end: file.range(s).end },
                message: "Migrations must contain either a `change` method, or both an `up` and a `down` method."@,
                edits: Seq::empty(),
            })
        } else {
            None
        },
        _ => None,
    }
}

/// Decides `scoped_has` for `def_pred(name)`.
fn has_def(file: &SourceFile, n: NodeId, name: &str) -> (r: bool)
    requires
        file.valid(n),
    ensures
        r == scoped_has(file, n, def_pred(file, name@)),
    decreases file.nodes@.len() - n,
{
    let ghost pred = def_pred(file, name@);
    match &file.nodes[n].kind {
        NodeKind::Class { .. } | NodeKind::Module { .. } => return false,
        NodeKind::Def { name: dn, args, .. } => {
            assert(file.children(n)[0] == *args);
            let empty = match &file.nodes[*args].kind {
                NodeKind::Args(l) => l.len() == 0,
                _ => false,
            };
            if str_eq(dn.as_str(), name) && empty {
                assert(pred(n));
                return true;
            }
        },
        _ => {},
    }
    assert(!pred(n));
    let kids = file.children_of(n);
    let mut i: usize = 0;
    assert(kids@.subrange(0, kids@.len() as int) =~= kids@);
    while i < kids.len()
        invariant
            file.valid(n),
            pred == def_pred(file, name@),
            !pred(n),
            !(file.kind(n) is Class || file.kind(n) is Module),
            kids@ == file.children(n),
            i <= kids@.len(),
            scoped_has(file, n, pred) == scoped_children_have(file, n, kids@.subrange(i as int, kids@.len() as int), pred),
        decreases kids@.len() - i,
    {
        assert(kids@.subrange(i as int, kids@.len() as int).drop_first() =~= kids@.subrange(i + 1, kids@.len() as int));
        let c = kids[i];
        assert(file.children(n)[i as int] == c);
        if has_def(file, c, name) {
            return true;
        }
        i = i + 1;
    }
    false
}

impl ReversibleMigrationMethodDefinition {
    /// Reports a migration class that defines neither `change` nor both
    /// `up` and `down`.
    pub fn check_class(&self, file: &SourceFile, node: NodeId) -> (r: Option<Offense>)
        requires
            file.valid(node),
        ensures
            r.deep_view() == method_definition_finding(file, node),
    {
        let (s, body) = match &file.nodes[node].kind {
            NodeKind::Class { superclass: Some(s), body, .. } => (*s, *body),
            _ => return None,
        };
        assert(file.children(node)[1] == s);
        if !is_migration_class_exec(file, node) {
            return None;
        }
        let reversible = match body {
            Some(b) => {
                assert(file.children(node)[2] == b);
                has_def(file, b, "change") || (has_def(file, b, "up") && has_def(file, b, "down"))
            },
            None => false,
        };
        if reversible {
            return None;
        }
        Some(offense0(
            Range { start: file.nodes[node].range.start, end: file.nodes[s].range.end },
            String::from_str("Migrations must contain either a `change` method, or both an `up` and a `down` method."),
        ))
    }
}

} // verus!
