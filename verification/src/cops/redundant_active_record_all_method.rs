//! `Rails/RedundantActiveRecordAllMethod`: `all` before an Active Record
//! query method is redundant.

use vstd::prelude::*;
use crate::ast::{block_of, args_of, call_receiver_of, method_of, NodeId, NodeKind, Range, SourceFile};
use crate::report::{Edit, Finding, Offense};
use crate::text::str_eq;

verus! {

/// The Active Record query methods that `all` may precede.
pub open spec fn querying_method(name: Seq<char>) -> bool {
    name == "and"@ ||
    name == "annotate"@ ||
    name == "any?"@ ||
    name == "async_average"@ ||
    name == "async_count"@ ||
    name == "async_ids"@ ||
    name == "async_maximum"@ ||
    name == "async_minimum"@ ||
    name == "async_pick"@ ||
    name == "async_pluck"@ ||
    name == "async_sum"@ ||
    name == "average"@ ||
    name == "calculate"@ ||
    name == "count"@ ||
    name == "create_or_find_by"@ ||
    name == "create_or_find_by!"@ ||
    name == "create_with"@ ||
    name == "delete_all"@ ||
    name == "delete_by"@ ||
    name == "destroy_all"@ ||
    name == "destroy_by"@ ||
    name == "distinct"@ ||
    name == "eager_load"@ ||
    name == "except"@ ||
    name == "excluding"@ ||
    name == "exists?"@ ||
    name == "extending"@ ||
    name == "extract_associated"@ ||
    name == "fifth"@ ||
    name == "fifth!"@ ||
    name == "find"@ ||
    name == "find_by"@ ||
    name == "find_by!"@ ||
    name == "find_each"@ ||
    name == "find_in_batches"@ ||
    name == "find_or_create_by"@ ||
    name == "find_or_create_by!"@ ||
    name == "find_or_initialize_by"@ ||
    name == "find_sole_by"@ ||
    name == "first"@ ||
    name == "first!"@ ||
    name == "first_or_create"@ ||
    name == "first_or_create!"@ ||
    name == "first_or_initialize"@ ||
    name == "forty_two"@ ||
    name == "forty_two!"@ ||
    name == "fourth"@ ||
    name == "fourth!"@ ||
    name == "from"@ ||
    name == "group"@ ||
    name == "having"@ ||
    name == "ids"@ ||
    name == "in_batches"@ ||
    name == "in_order_of"@ ||
    name == "includes"@ ||
    name == "invert_where"@ ||
    name == "joins"@ ||
    name == "last"@ ||
    name == "last!"@ ||
    name == "left_joins"@ ||
    name == "left_outer_joins"@ ||
    name == "limit"@ ||
    name == "lock"@ ||
    name == "many?"@ ||
    name == "maximum"@ ||
    name == "merge"@ ||
    name == "minimum"@ ||
    name == "none"@ ||
    name == "none?"@ ||
    name == "offset"@ ||
    name == "one?"@ ||
    name == "only"@ ||
    name == "optimizer_hints"@ ||
    name == "or"@ ||
    name == "order"@ ||
    name == "pick"@ ||
    name == "pluck"@ ||
    name == "preload"@ ||
    name == "readonly"@ ||
    name == "references"@ ||
    name == "regroup"@ ||
    name == "reorder"@ ||
    name == "reselect"@ ||
    name == "rewhere"@ ||
    name == "second"@ ||
    name == "second!"@ ||
    name == "second_to_last"@ ||
    name == "second_to_last!"@ ||
    name == "select"@ ||
    name == "sole"@ ||
    name == "strict_loading"@ ||
    name == "sum"@ ||
    name == "take"@ ||
    name == "take!"@ ||
    name == "third"@ ||
    name == "third!"@ ||
    name == "third_to_last"@ ||
    name == "third_to_last!"@ ||
    name == "touch_all"@ ||
    name == "unscope"@ ||
    name == "update_all"@ ||
    name == "where"@ ||
    name == "with"@ ||
    name == "without"@
}

/// Whether `name` is an Active Record query method.
pub fn is_querying_method(name: &str) -> (r: bool)
    ensures
        r == querying_method(name@),
{
    str_eq(name, "and") ||
    str_eq(name, "annotate") ||
    str_eq(name, "any?") ||
    str_eq(name, "async_average") ||
    str_eq(name, "async_count") ||
    str_eq(name, "async_ids") ||
    str_eq(name, "async_maximum") ||
    str_eq(name, "async_minimum") ||
    str_eq(name, "async_pick") ||
    str_eq(name, "async_pluck") ||
    str_eq(name, "async_sum") ||
    str_eq(name, "average") ||
    str_eq(name, "calculate") ||
    str_eq(name, "count") ||
    str_eq(name, "create_or_find_by") ||
    str_eq(name, "create_or_find_by!") ||
    str_eq(name, "create_with") ||
    str_eq(name, "delete_all") ||
    str_eq(name, "delete_by") ||
    str_eq(name, "destroy_all") ||
    str_eq(name, "destroy_by") ||
    str_eq(name, "distinct") ||
    str_eq(name, "eager_load") ||
    str_eq(name, "except") ||
    str_eq(name, "excluding") ||
    str_eq(name, "exists?") ||
    str_eq(name, "extending") ||
    str_eq(name, "extract_associated") ||
    str_eq(name, "fifth") ||
    str_eq(name, "fifth!") ||
    str_eq(name, "find") ||
    str_eq(name, "find_by") ||
    str_eq(name, "find_by!") ||
    str_eq(name, "find_each") ||
    str_eq(name, "find_in_batches") ||
    str_eq(name, "find_or_create_by") ||
    str_eq(name, "find_or_create_by!") ||
    str_eq(name, "find_or_initialize_by") ||
    str_eq(name, "find_sole_by") ||
    str_eq(name, "first") ||
    str_eq(name, "first!") ||
    str_eq(name, "first_or_create") ||
    str_eq(name, "first_or_create!") ||
    str_eq(name, "first_or_initialize") ||
    str_eq(name, "forty_two") ||
    str_eq(name, "forty_two!") ||
    str_eq(name, "fourth") ||
    str_eq(name, "fourth!") ||
    str_eq(name, "from") ||
    str_eq(name, "group") ||
    str_eq(name, "having") ||
    str_eq(name, "ids") ||
    str_eq(name, "in_batches") ||
    str_eq(name, "in_order_of") ||
    str_eq(name, "includes") ||
    str_eq(name, "invert_where") ||
    str_eq(name, "joins") ||
    str_eq(name, "last") ||
    str_eq(name, "last!") ||
    str_eq(name, "left_joins") ||
    str_eq(name, "left_outer_joins") ||
    str_eq(name, "limit") ||
    str_eq(name, "lock") ||
    str_eq(name, "many?") ||
    str_eq(name, "maximum") ||
    str_eq(name, "merge") ||
    str_eq(name, "minimum") ||
    str_eq(name, "none") ||
    str_eq(name, "none?") ||
    str_eq(name, "offset") ||
    str_eq(name, "one?") ||
    str_eq(name, "only") ||
    str_eq(name, "optimizer_hints") ||
    str_eq(name, "or") ||
    str_eq(name, "order") ||
    str_eq(name, "pick") ||
    str_eq(name, "pluck") ||
    str_eq(name, "preload") ||
    str_eq(name, "readonly") ||
    str_eq(name, "references") ||
    str_eq(name, "regroup") ||
    str_eq(name, "reorder") ||
    str_eq(name, "reselect") ||
    str_eq(name, "rewhere") ||
    str_eq(name, "second") ||
    str_eq(name, "second!") ||
    str_eq(name, "second_to_last") ||
    str_eq(name, "second_to_last!") ||
    str_eq(name, "select") ||
    str_eq(name, "sole") ||
    str_eq(name, "strict_loading") ||
    str_eq(name, "sum") ||
    str_eq(name, "take") ||
    str_eq(name, "take!") ||
    str_eq(name, "third") ||
    str_eq(name, "third!") ||
    str_eq(name, "third_to_last") ||
    str_eq(name, "third_to_last!") ||
    str_eq(name, "touch_all") ||
    str_eq(name, "unscope") ||
    str_eq(name, "update_all") ||
    str_eq(name, "where") ||
    str_eq(name, "with") ||
    str_eq(name, "without")
}

/// Checks `all` calls whose result receives a query method.
#[derive(Debug, Default)]
pub struct RedundantActiveRecordAllMethod;

/// Options of `RedundantActiveRecordAllMethod`.
#[derive(Debug)]
pub struct RedundantActiveRecordAllMethodOptions {
    /// `AllowedReceivers`: receiver sources that are never reported.
    pub allowed_receivers: Vec<String>,
}

impl Default for RedundantActiveRecordAllMethodOptions {
    fn default() -> (o: Self)
        ensures
            o.allowed_receivers@.len() == 2,
            o.allowed_receivers@[0]@ == "ActionMailer::Preview"@,
            o.allowed_receivers@[1]@ == "ActiveSupport::TimeZone"@,
    {
        let mut v: Vec<String> = Vec::new();
        v.push(String::from_str("ActionMailer::Preview"));
        v.push(String::from_str("ActiveSupport::TimeZone"));
        RedundantActiveRecordAllMethodOptions { allowed_receivers: v }
    }
}

/// Query methods that are also `Enumerable` methods taking a block.
pub open spec fn enumerable_name(m: Seq<char>) -> bool {
    m == "any?"@ || m == "count"@ || m == "find"@ || m == "none?"@ || m == "one?"@ || m == "select"@ || m == "sum"@
}

/// The parent call may be `Enumerable`'s: such a name, with a block or a block-pass argument.
pub open spec fn possible_enumerable_block_method(file: &SourceFile, parent: NodeId, m: Seq<char>) -> bool {
    enumerable_name(m) && (block_of(file, parent) is Some || {
        let a = args_of(file.kind(parent));
        a.len() > 0 && file.kind(a[0]) is BlockPass
    })
}

/// `delete_all`/`destroy_all` on an `all` whose receiver is not a constant
/// (an association): not reported.
pub open spec fn sensitive_association_method(file: &SourceFile, all_node: NodeId, m: Seq<char>) -> bool {
    (m == "delete_all"@ || m == "destroy_all"@) && match call_receiver_of(file.kind(all_node)) {
        None => true,
        Some(r) => !(file.kind(r) is Const),
    }
}

/// The innermost receiver of a chain of calls starting at `n`.
pub open spec fn base_receiver(file: &SourceFile, n: NodeId) -> NodeId
    decreases file.nodes@.len() - n,
{
    match call_receiver_of(file.kind(n)) {
        Some(r) => if n < r < file.nodes@.len() { base_receiver(file, r) } else { n },
        None => n,
    }
}

/// The source text of node `n`.
pub open spec fn node_source(file: &SourceFile, n: NodeId) -> Seq<char> {
    file.source@.subrange(file.range(n).start as int, file.range(n).end as int)
}

/// `text` is among the allowed receivers.
pub open spec fn is_allowed(allowed: Seq<String>, text: Seq<char>) -> bool {
    exists|i: int| 0 <= i < allowed.len() && #[trigger] allowed[i]@ == text
}

/// The receiver, or the base of its call chain, is an allowed receiver.
pub open spec fn allowed_receiver(file: &SourceFile, recv: NodeId, allowed: Seq<String>) -> bool {
    is_allowed(allowed, node_source(file, recv)) || {
        let b = base_receiver(file, recv);
        b != recv && is_allowed(allowed, node_source(file, b))
    }
}

/// A class whose superclass is `ApplicationRecord` or `ActiveRecord::Base`.
pub open spec fn active_record_class(file: &SourceFile) -> spec_fn(NodeKind) -> bool {
    |k: NodeKind| match k {
        NodeKind::Class { superclass: Some(s), .. } =>
            file.const_path(s) == Some("ApplicationRecord"@) || file.const_path(s) == Some("ActiveRecord::Base"@),
        _ => false,
    }
}

/// What `RedundantActiveRecordAllMethod::check_send` reports for `node`:
/// from the `all` selector to the end of the `all` call, deleted with the
/// following dot.
pub open spec fn redundant_all_finding(file: &SourceFile, node: NodeId, allowed: Seq<String>) -> Option<Finding> {
    match (file.kind(node), file.parent(node)) {
        (NodeKind::Send { receiver, method, args }, Some(p)) => {
            let pm = method_of(file.kind(p));
            if method@ == "all"@ && args@.len() == 0 && file.kind(p) is Send
                && call_receiver_of(file.kind(p)) == Some(node)
                && querying_method(pm.unwrap())
                && !possible_enumerable_block_method(file, p, pm.unwrap())
                && !sensitive_association_method(file, node, pm.unwrap())
                && match receiver {
                    Some(r) => !allowed_receiver(file, r, allowed),
                    None => file.nearest_ancestor(node, active_record_class(file)) is Some,
                } {
                let span = Range { start: file.name_range(node).start, end: file.range(node).end };
                let first = seq![(span, Seq::<char>::empty())];
                Some(Finding {
                    range: span,
                    message: "Redundant `all` detected."@,
                    edits: match file.nodes@[p as int].dot_range {
                        Some(d) => first.push((d, Seq::<char>::empty())),
                        None => first,
                    },
                })
            } else {
                None
            }
        },
        _ => None,
    }
}

/// Whether `text` is among `allowed`.
fn allowed_text(allowed: &Vec<String>, text: &str) -> (r: bool)
    ensures
        r == is_allowed(allowed@, text@),
{
    let mut i: usize = 0;
    while i < allowed.len()
        invariant
            i <= allowed@.len(),
            forall|j: int| 0 <= j < i ==> #[trigger] allowed@[j]@ != text@,
        decreases allowed@.len() - i,
    {
        if str_eq(allowed[i].as_str(), text) {
            return true;
        }
        i = i + 1;
    }
    false
}

/// Walks a call chain down to its innermost receiver.
fn base_of(file: &SourceFile, n: NodeId) -> (r: NodeId)
    requires
        file.valid(n),
    ensures
        r == base_receiver(file, n),
        r < file.nodes@.len(),
{
    let mut cur = n;
    loop
        invariant
            file.valid(cur),
            base_receiver(file, n) == base_receiver(file, cur),
        decreases file.nodes@.len() - cur,
    {
        match file.call_receiver(cur) {
            Some(r) => {
                assert(file.children(cur)[0] == r);
                cur = r;
            },
            None => return cur,
        }
    }
}

/// Whether some enclosing class inherits from Active Record.
fn inherits_active_record(file: &SourceFile, n: NodeId) -> (r: bool)
    requires
        file.valid(n),
    ensures
        r == (file.nearest_ancestor(n, active_record_class(file)) is Some),
{
    let ghost pred = active_record_class(file);
    let mut cur = n;
    loop
        invariant
            file.wf(),
            cur <= n < file.nodes@.len(),
            pred == active_record_class(file),
            file.nearest_ancestor(n, pred) == file.nearest_ancestor(cur, pred),
        decreases cur,
    {
        match file.nodes[cur].parent {
            Some(p) => {
                assert(p < cur);
                let hit = match &file.nodes[p].kind {
                    NodeKind::Class { superclass: Some(s), .. } => {
                        assert(file.children(p)[1] == *s);
                        match file.const_name(*s) {
                            Some(c) => str_eq(c.as_str(), "ApplicationRecord") || str_eq(c.as_str(), "ActiveRecord::Base"),
                            None => false,
                        }
                    },
                    _ => false,
                };
                if hit {
                    assert(pred(file.kind(p)));
                    return true;
                }
                assert(!pred(file.kind(p)));
                cur = p;
            },
            None => return false,
        }
    }
}

impl RedundantActiveRecordAllMethod {
    /// Reports a redundant `all` with the edits that delete it and its dot.
    pub fn check_send(&self, file: &SourceFile, node: NodeId, options: &RedundantActiveRecordAllMethodOptions) -> (r: Option<Offense>)
        requires
            file.valid(node),
        ensures
            r.deep_view() == redundant_all_finding(file, node, options.allowed_receivers@),
    {
        let receiver = match &file.nodes[node].kind {
            NodeKind::Send { receiver, method, args } => {
                if !str_eq(method.as_str(), "all") || args.len() != 0 {
                    return None;
                }
                *receiver
            },
            _ => return None,
        };
        let p = match file.nodes[node].parent {
            Some(p) => p,
            None => return None,
        };
        let pm = match &file.nodes[p].kind {
            NodeKind::Send { receiver: Some(pr), method, .. } => {
                if *pr != node {
                    return None;
                }
                method.as_str()
            },
            _ => return None,
        };
        if !is_querying_method(pm) {
            return None;
        }
        if str_eq(pm, "any?") || str_eq(pm, "count") || str_eq(pm, "find") || str_eq(pm, "none?")
            || str_eq(pm, "one?") || str_eq(pm, "select") || str_eq(pm, "sum") {
            let has_block = match file.nodes[p].parent {
                Some(b) => match &file.nodes[b].kind {
                    NodeKind::Block { call, .. } => *call == p,
                    NodeKind::Numblock { send, .. } => *send == p,
                    NodeKind::Itblock { send, .. } => *send == p,
                    _ => false,
                },
                None => false,
            };
            if has_block {
                return None;
            }
            let pargs = file.call_arguments(p);
            if pargs.len() > 0 {
                proof { crate::ast::lemma_args_are_children(file, p, 0); }
                match &file.nodes[pargs[0]].kind {
                    NodeKind::BlockPass(_) => return None,
                    _ => {},
                }
            }
        }
        if str_eq(pm, "delete_all") || str_eq(pm, "destroy_all") {
            match receiver {
                None => return None,
                Some(rv) => {
                    assert(file.children(node)[0] == rv);
                    match &file.nodes[rv].kind {
                        NodeKind::Const { .. } => {},
                        _ => return None,
                    }
                },
            }
        }
        match receiver {
            Some(rv) => {
                assert(file.children(node)[0] == rv);
                let src = file.raw_source(file.nodes[rv].range);
                if allowed_text(&options.allowed_receivers, src) {
                    return None;
                }
                let b = base_of(file, rv);
                if b != rv && allowed_text(&options.allowed_receivers, file.raw_source(file.nodes[b].range)) {
                    return None;
                }
            },
            None => {
                if !inherits_active_record(file, node) {
                    return None;
                }
            },
        }
        let span = Range { start: file.nodes[node].name_range.start, end: file.nodes[node].range.end };
        let mut edits: Vec<Edit> = Vec::new();
        edits.push(Edit { range: span, replacement: String::new() });
        match file.nodes[p].dot_range {
            Some(d) => {
                edits.push(Edit { range: d, replacement: String::new() });
            },
            None => {},
        }
        let o = Offense { range: span, message: String::from_str("Redundant `all` detected."), edits };
        proof {
            let first = seq![(span, Seq::<char>::empty())];
            match file.nodes@[p as int].dot_range {
                Some(d) => assert(o.edits.deep_view() =~= first.push((d, Seq::<char>::empty()))),
                None => assert(o.edits.deep_view() =~= first),
            }
        }
        Some(o)
    }
}

} // verus!
