//! `Rails/RakeEnvironment`: Rake tasks should depend on `:environment`.

use vstd::prelude::*;
use crate::ast::{NodeId, NodeKind, Range, SourceFile};
use crate::cops::http_positional_arguments::pairs_among;
use crate::cops::read_write_attribute::src_of;
use crate::cops::redundant_foreign_key::{blank, sym_or_str, text_of};
use crate::report::{offense1, Finding, Offense};
use crate::text::{concat2, lemma_prefix_len, prefix_len, str_eq};

verus! {

/// Reports tasks without the `:environment` dependency.
#[derive(Debug, Default)]
pub struct RakeEnvironment;

/// The task's name: a symbol or string, or the key of a one-pair hash.
pub open spec fn task_name(file: &SourceFile, first: NodeId) -> Option<Seq<char>> {
    match file.kind(first) {
        NodeKind::Sym(s) => Some(s@),
        NodeKind::Str(s) => Some(s@),
        NodeKind::Hash(l) => if l@.len() == 1 {
            match file.kind(l@[0]) {
                NodeKind::Pair { key, .. } => sym_or_str(file.kind(key)),
                _ => None,
            }
        } else {
            None
        },
        _ => None,
    }
}

/// The hash's first pair names dependencies: a non-empty array, or anything
/// else.
pub open spec fn hash_style_dependencies(file: &SourceFile, h: NodeId) -> bool {
    match file.kind(h) {
        NodeKind::Hash(l) => {
            let pairs = pairs_among(file, l@);
            pairs.len() > 0 && match file.kind(pairs[0]) {
                NodeKind::Pair { value, .. } => match file.kind(value) {
                    NodeKind::Array(a) => a@.len() > 0,
                    _ => true,
                },
                _ => false,
            }
        },
        _ => false,
    }
}

/// The task already names dependencies.
pub open spec fn with_dependencies(file: &SourceFile, args: Seq<NodeId>) -> bool {
    if file.kind(args[0]) is Hash {
        hash_style_dependencies(file, args[0])
    } else {
        args.len() >= 2 && file.kind(args[1]) is Hash && hash_style_dependencies(file, args[1])
    }
}

/// From the start of the call to its last argument, with the closing
/// parenthesis of a parenthesized call.
pub open spec fn task_span(file: &SourceFile, call: NodeId, last: NodeId) -> Range {
    let end0 = file.range(last).end;
    let t = file.source@.subrange(end0 as int, file.range(call).end as int);
    let k = prefix_len(t, blank());
    let end = if file.nodes@[call as int].parenthesized && k < t.len() && t[k as int] == ')' { end0 + k + 1 } else { end0 as int };
    Range { start: file.range(call).start, end: end as usize }
}

/// The dependency added to the task's name.
pub open spec fn dependency_replacement(file: &SourceFile, first: NodeId) -> Seq<char> {
    match file.kind(first) {
        NodeKind::Sym(s) => s@ + ": :environment"@,
        _ => src_of(file, first) + " => :environment"@,
    }
}

/// What `RakeEnvironment::check_block` reports for `node`.
pub open spec fn rake_environment_finding(file: &SourceFile, node: NodeId) -> Option<Finding> {
    match file.kind(node) {
        NodeKind::Block { call, .. } => match file.kind(call) {
            NodeKind::Send { receiver: None, method, args } => {
                let a = args@;
                if method@ == "task"@ && a.len() > 0 && task_name(file, a[0]) != Some("default"@) && !with_dependencies(file, a) {
                    let edit = if a.len() > 1 && file.kind(a[1]) is Array {
                        (file.range(a[1]), src_of(file, a[1]) + " => :environment"@)
                    } else {
                        (file.range(a[0]), dependency_replacement(file, a[0]))
                    };
                    Some(Finding {
                        range: task_span(file, call, a.last()),
                        message: "Include `:environment` task as a dependency for all Rake tasks."@,
                        edits: seq![edit],
                    })
                } else {
                    None
                }
            },
            _ => None,
        },
        _ => None,
    }
}

/// Decides `hash_style_dependencies`.
fn hash_style_dependencies_exec(file: &SourceFile, h: NodeId) -> (r: bool)
    requires
        file.valid(h),
    ensures
        r == hash_style_dependencies(file, h),
{
    match &file.nodes[h].kind {
        NodeKind::Hash(_) => {},
        _ => return false,
    }
    let pairs = crate::cops::http_positional_arguments::hash_pairs(file, h);
    if pairs.len() == 0 {
        return false;
    }
    let p = pairs[0];
    proof {
        assert(file.children(h).contains(pairs@[0]));
        let x = choose|x: int| 0 <= x < file.children(h).len() && file.children(h)[x] == p;
        assert(file.children(h)[x] == p);
    }
    match &file.nodes[p].kind {
        NodeKind::Pair { value, .. } => {
            assert(file.children(p)[1] == *value);
            match &file.nodes[*value].kind {
                NodeKind::Array(a) => a.len() > 0,
                _ => true,
            }
        },
        _ => false,
    }
}

/// Computes `task_name`.
fn task_name_exec(file: &SourceFile, first: NodeId) -> (r: Option<&str>)
    requires
        file.valid(first),
    ensures
        crate::text::opt_str_view(r) == task_name(file, first),
{
    match &file.nodes[first].kind {
        NodeKind::Sym(s) | NodeKind::Str(s) => Some(s.as_str()),
        NodeKind::Hash(l) => {
            if l.len() != 1 {
                return None;
            }
            assert(file.children(first)[0] == l@[0]);
            match &file.nodes[l[0]].kind {
                NodeKind::Pair { key, .. } => {
                    assert(file.children(l@[0])[0] == *key);
                    text_of(&file.nodes[*key].kind)
                },
                _ => None,
            }
        },
        _ => None,
    }
}

impl RakeEnvironment {
    /// Reports a `task` block without dependencies, with the edit that adds
    /// `:environment`.
    pub fn check_block(&self, file: &SourceFile, node: NodeId) -> (r: Option<Offense>)
        requires
            file.valid(node),
        ensures
            r.deep_view() == rake_environment_finding(file, node),
    {
        let call = match &file.nodes[node].kind {
            NodeKind::Block { call, .. } => *call,
            _ => return None,
        };
        assert(file.children(node)[0] == call);
        let args = match &file.nodes[call].kind {
            NodeKind::Send { receiver: None, method, args } => {
                if !str_eq(method.as_str(), "task") {
                    return None;
                }
                args
            },
            _ => return None,
        };
        let n = args.len();
        if n == 0 {
            return None;
        }
        assert(file.children(call)[0] == args@[0]);
        assert(file.children(call)[n - 1] == args@[n - 1]);
        let first = args[0];
        match task_name_exec(file, first) {
            Some(t) => {
                if str_eq(t, "default") {
                    return None;
                }
            },
            None => {},
        }
        let deps = match &file.nodes[first].kind {
            NodeKind::Hash(_) => hash_style_dependencies_exec(file, first),
            _ => {
                if n >= 2 {
                    assert(file.children(call)[1] == args@[1]);
                    match &file.nodes[args[1]].kind {
                        NodeKind::Hash(_) => hash_style_dependencies_exec(file, args[1]),
                        _ => false,
                    }
                } else {
                    false
                }
            },
        };
        if deps {
            return None;
        }
        // The span of the call without its block.
        let end0 = file.nodes[args[n - 1]].range.end;
        let cend = file.nodes[call].range.end;
        let src = file.source.as_str();
        let mut k = end0;
        while k < cend && (src.get_char(k) == ' ' || src.get_char(k) == '\t')
            invariant
                end0 <= k <= cend <= src@.len(),
                forall|j: int| end0 <= j < k ==> blank()(#[trigger] src@[j]),
            decreases cend - k,
        {
            k = k + 1;
        }
        proof {
            let t = src@.subrange(end0 as int, cend as int);
            assert forall|j: int| 0 <= j < k - end0 implies blank()(#[trigger] t[j]) by {
                assert(t[j] == src@[end0 + j]);
            }
            if k < cend {
                assert(t[k - end0] == src@[k as int]);
            }
            lemma_prefix_len(t, blank(), k - end0);
        }
        let end = if file.nodes[call].parenthesized && k < cend && src.get_char(k) == ')' { k + 1 } else { end0 };
        let span = Range { start: file.nodes[call].range.start, end };
        let (er, rep) = if n > 1 && match &file.nodes[args[1]].kind {
            NodeKind::Array(_) => true,
            _ => false,
        } {
            assert(file.children(call)[1] == args@[1]);
            (file.nodes[args[1]].range, concat2(file.raw_source(file.nodes[args[1]].range), " => :environment"))
        } else {
            let rep = match &file.nodes[first].kind {
                NodeKind::Sym(s) => concat2(s.as_str(), ": :environment"),
                _ => concat2(file.raw_source(file.nodes[first].range), " => :environment"),
            };
            (file.nodes[first].range, rep)
        };
        Some(offense1(span, String::from_str("Include `:environment` task as a dependency for all Rake tasks."), er, rep))
    }
}

} // verus!
