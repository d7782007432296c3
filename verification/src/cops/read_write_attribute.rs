//! `Rails/ReadWriteAttribute`: `self[:attr]` instead of `read_attribute(:attr)`
//! and `self[:attr] = val` instead of `write_attribute(:attr, val)`.

use vstd::prelude::*;
use crate::ast::{NodeId, NodeKind, SourceFile};
use crate::cops::redundant_foreign_key::sym_or_str;
use crate::report::{finding1, offense1, Finding, Offense};
use crate::text::{concat2, concat3, str_eq};

verus! {

/// Checks bare `read_attribute`/`write_attribute` calls.
#[derive(Debug, Default)]
pub struct ReadWriteAttribute;

/// A `def` named `wanted`.
pub open spec fn def_named(wanted: Seq<char>) -> spec_fn(NodeKind) -> bool {
    |k: NodeKind| k matches NodeKind::Def { name, .. } && name@ == wanted
}

/// The source text of node `n`.
pub open spec fn src_of(file: &SourceFile, n: NodeId) -> Seq<char> {
    file.source@.subrange(file.range(n).start as int, file.range(n).end as int)
}

/// The call stands inside the method it would otherwise replace: a `def`
/// named after the attribute (with `=` for a write), where the explicit
/// call avoids infinite recursion.
pub open spec fn within_shadowing_method(file: &SourceFile, node: NodeId, first: NodeId, is_write: bool) -> bool {
    match sym_or_str(file.kind(first)) {
        Some(attr) => {
            let wanted = if is_write { attr + "="@ } else { attr };
            file.nearest_ancestor(node, def_named(wanted)) is Some
        },
        None => false,
    }
}

/// What `ReadWriteAttribute::check_send` reports for `node`.
pub open spec fn read_write_finding(file: &SourceFile, node: NodeId) -> Option<Finding> {
    match file.kind(node) {
        NodeKind::Send { receiver: None, method, args } => {
            let is_read = method@ == "read_attribute"@;
            let is_write = method@ == "write_attribute"@;
            if (is_read && args@.len() == 1) || (is_write && args@.len() == 2) {
                if within_shadowing_method(file, node, args@[0], is_write) {
                    None
                } else {
                    let replacement = if is_read {
                        "self["@ + src_of(file, args@[0]) + "]"@
                    } else {
                        "self["@ + src_of(file, args@[0]) + "] = "@ + src_of(file, args@[1])
                    };
                    let prefer = if src_of(file, node).contains('\n') {
                        if is_read { "self[:attr]"@ } else { "self[:attr] = val"@ }
                    } else {
                        replacement
                    };
                    Some(finding1(file.range(node), "Prefer `"@ + prefer + "`."@, file.range(node), replacement))
                }
            } else {
                None
            }
        },
        _ => None,
    }
}

/// Whether `s` holds a newline.
pub fn has_newline(s: &str) -> (r: bool)
    ensures
        r == s@.contains('\n'),
{
    let n = s.unicode_len();
    let mut i: usize = 0;
    while i < n
        invariant
            n == s@.len(),
            i <= n,
            forall|j: int| 0 <= j < i ==> s@[j] != '\n',
        decreases n - i,
    {
        if s.get_char(i) == '\n' {
            assert(s@[i as int] == '\n');
            return true;
        }
        i = i + 1;
    }
    false
}

/// Whether some enclosing `def` is named `wanted`.
fn inside_def_named(file: &SourceFile, n: NodeId, wanted: &str) -> (r: bool)
    requires
        file.valid(n),
    ensures
        r == (file.nearest_ancestor(n, def_named(wanted@)) is Some),
{
    let ghost pred = def_named(wanted@);
    let mut cur = n;
    loop
        invariant
            file.wf(),
            cur <= n < file.nodes@.len(),
            pred == def_named(wanted@),
            file.nearest_ancestor(n, pred) == file.nearest_ancestor(cur, pred),
        decreases cur,
    {
        match file.nodes[cur].parent {
            Some(p) => {
                assert(p < cur);
                let hit = match &file.nodes[p].kind {
                    NodeKind::Def { name, .. } => str_eq(name.as_str(), wanted),
                    _ => false,
                };
                if hit {
                    assert(pred(file.kind(p)));
                    return true;
                }
                assert(!pred(file.kind(p)));
                cur = p;
            },
            None => return false,
        }
    }
}

impl ReadWriteAttribute {
    /// Reports the call with the edit to the index form.
    pub fn check_send(&self, file: &SourceFile, node: NodeId) -> (r: Option<Offense>)
        requires
            file.valid(node),
        ensures
            r.deep_view() == read_write_finding(file, node),
    {
        let (method, args) = match &file.nodes[node].kind {
            NodeKind::Send { receiver: None, method, args } => (method.as_str(), args),
            _ => return None,
        };
        let is_read = str_eq(method, "read_attribute");
        let is_write = str_eq(method, "write_attribute");
        if !((is_read && args.len() == 1) || (is_write && args.len() == 2)) {
            return None;
        }
        proof { crate::ast::lemma_args_are_children(file, node, 0); }
        let first = args[0];
        let attr: Option<&str> = match &file.nodes[first].kind {
            NodeKind::Sym(s) => Some(s.as_str()),
            NodeKind::Str(s) => Some(s.as_str()),
            _ => None,
        };
        match attr {
            Some(a) => {
                let wanted = if is_write { concat2(a, "=") } else { String::from_str(a) };
                if inside_def_named(file, node, wanted.as_str()) {
                    return None;
                }
            },
            None => {},
        }
        let a0 = file.raw_source(file.nodes[first].range);
        let replacement = if is_read {
            concat3("self[", a0, "]")
        } else {
            proof { crate::ast::lemma_args_are_children(file, node, 1); }
            let mut s = concat3("self[", a0, "] = ");
            s.append(file.raw_source(file.nodes[args[1]].range));
            s
        };
        let whole = file.raw_source(file.nodes[node].range);
        let msg = if has_newline(whole) {
            if is_read {
                String::from_str("Prefer `self[:attr]`.")
            } else {
                String::from_str("Prefer `self[:attr] = val`.")
            }
        } else {
            concat3("Prefer `", replacement.as_str(), "`.")
        };
        proof {
            reveal_strlit("Prefer `self[:attr]`.");
            reveal_strlit("Prefer `");
            reveal_strlit("self[:attr]");
            reveal_strlit("`.");
            reveal_strlit("Prefer `self[:attr] = val`.");
            reveal_strlit("self[:attr] = val");
            assert("Prefer `self[:attr]`."@ =~= "Prefer `"@ + "self[:attr]"@ + "`."@);
            assert("Prefer `self[:attr] = val`."@ =~= "Prefer `"@ + "self[:attr] = val"@ + "`."@);
        }
        let r = file.nodes[node].range;
        Some(offense1(r, msg, r, replacement))
    }
}

} // verus!
