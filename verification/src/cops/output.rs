//! `Rails/Output`: do not write to stdout; use the Rails logger.

use vstd::prelude::*;
use crate::ast::{NodeId, NodeKind, SourceFile};
use crate::report::{offense0, Finding, Offense};
use crate::text::str_eq;

verus! {

/// Checks calls that print to standard output.
#[derive(Debug, Default)]
pub struct Output;

/// `ap`, `p`, `pp`, `pretty_print`, `print` or `puts`.
pub open spec fn output_method(m: Seq<char>) -> bool {
    m == "ap"@ || m == "p"@ || m == "pp"@ || m == "pretty_print"@ || m == "print"@ || m == "puts"@
}

/// `binwrite`, `syswrite`, `write` or `write_nonblock`.
pub open spec fn io_write_method(m: Seq<char>) -> bool {
    m == "binwrite"@ || m == "syswrite"@ || m == "write"@ || m == "write_nonblock"@
}

/// `$stdout`, `$stderr`, or an unscoped `STDOUT`/`STDERR`.
pub open spec fn is_stdio(file: &SourceFile, r: NodeId) -> bool {
    match file.kind(r) {
        NodeKind::Gvar(name) => name@ == "$stdout"@ || name@ == "$stderr"@,
        NodeKind::Const { scope: None, name } => name@ == "STDOUT"@ || name@ == "STDERR"@,
        _ => false,
    }
}

/// The call is the call of a block, or the receiver of another call.
pub open spec fn output_suppressed(file: &SourceFile, node: NodeId) -> bool {
    match file.parent(node) {
        Some(p) => match file.kind(p) {
            NodeKind::Block { call, .. } => call == node,
            NodeKind::Numblock { send, .. } => send == node,
            NodeKind::Itblock { send, .. } => send == node,
            NodeKind::Send { receiver, .. } => receiver == Some(node),
            NodeKind::Csend { receiver, .. } => receiver == node,
            _ => false,
        },
        None => false,
    }
}

/// Some argument is a hash or a block-pass.
pub open spec fn has_hash_or_block_pass(file: &SourceFile, args: Seq<NodeId>) -> bool {
    exists|i: int| 0 <= i < args.len() && (file.kind(#[trigger] args[i]) is Hash || file.kind(args[i]) is BlockPass)
}

/// What `Output::check_send` reports for `node`.
pub open spec fn output_finding(file: &SourceFile, node: NodeId) -> Option<Finding> {
    match file.kind(node) {
        NodeKind::Send { receiver, method, args } => {
            let is_output = receiver is None && output_method(method@);
            let is_io = !is_output && io_write_method(method@) && match receiver {
                Some(r) => is_stdio(file, r),
                None => false,
            };
            if (is_output || is_io) && !output_suppressed(file, node) && !has_hash_or_block_pass(file, args@) {
                Some(Finding {
                    range: file.range(node),
                    message: "Do not write to stdout. Use Rails's logger if you want to log."@,
                    edits: Seq::empty(),
                })
            } else {
                None
            }
        },
        _ => None,
    }
}

impl Output {
    /// Reports a print to standard output.
    pub fn check_send(&self, file: &SourceFile, node: NodeId) -> (r: Option<Offense>)
        requires
            file.valid(node),
        ensures
            r.deep_view() == output_finding(file, node),
    {
        let (receiver, method, args) = match &file.nodes[node].kind {
            NodeKind::Send { receiver, method, args } => (*receiver, method.as_str(), args),
            _ => return None,
        };
        let is_output = receiver.is_none() && (str_eq(method, "ap") || str_eq(method, "p") || str_eq(method, "pp")
            || str_eq(method, "pretty_print") || str_eq(method, "print") || str_eq(method, "puts"));
        let is_io = !is_output && (str_eq(method, "binwrite") || str_eq(method, "syswrite") || str_eq(method, "write")
            || str_eq(method, "write_nonblock")) && match receiver {
            Some(r) => {
                assert(file.children(node)[0] == r);
                match &file.nodes[r].kind {
                    NodeKind::Gvar(name) => str_eq(name.as_str(), "$stdout") || str_eq(name.as_str(), "$stderr"),
                    NodeKind::Const { scope: None, name } => str_eq(name.as_str(), "STDOUT") || str_eq(name.as_str(), "STDERR"),
                    _ => false,
                }
            },
            None => false,
        };
        if !is_output && !is_io {
            return None;
        }
        match file.nodes[node].parent {
            Some(p) => {
                let suppress = match &file.nodes[p].kind {
                    NodeKind::Block { call, .. } => *call == node,
                    NodeKind::Numblock { send, .. } => *send == node,
                    NodeKind::Itblock { send, .. } => *send == node,
                    NodeKind::Send { receiver, .. } => *receiver == Some(node),
                    NodeKind::Csend { receiver, .. } => *receiver == node,
                    _ => false,
                };
                if suppress {
                    return None;
                }
            },
            None => {},
        }
        let mut i: usize = 0;
        while i < args.len()
            invariant
                file.valid(node),
                file.kind(node) matches NodeKind::Send { args: a, .. } && a@ == args@,
                i <= args@.len(),
                forall|j: int| 0 <= j < i ==> !(file.kind(#[trigger] args@[j]) is Hash || file.kind(args@[j]) is BlockPass),
            decreases args@.len() - i,
        {
            proof { crate::ast::lemma_args_are_children(file, node, i as int); }
            match &file.nodes[args[i]].kind {
                NodeKind::Hash(_) | NodeKind::BlockPass(_) => return None,
                _ => {},
            }
            i = i + 1;
        }
        Some(offense0(
            file.nodes[node].range,
            String::from_str("Do not write to stdout. Use Rails's logger if you want to log."),
        ))
    }
}

} // verus!
