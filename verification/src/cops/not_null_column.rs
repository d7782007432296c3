//! `Rails/NotNullColumn`: do not add a NOT NULL column without a default.

use vstd::prelude::*;
use crate::ast::{call_receiver_of, method_of, NodeId, NodeKind, SourceFile};
use crate::cops::index_method::single_param;
use crate::cops::redundant_foreign_key::{sym_or_str, text_of};
use crate::report::{offense0, Finding, Offense};
use crate::text::str_eq;

verus! {

/// Reports `null: false` columns added without a default value.
#[derive(Debug, Default)]
pub struct NotNullColumn;

/// Options of `NotNullColumn`.
#[derive(Debug, Default)]
pub struct NotNullColumnOptions {
    /// The database adapter; with `mysql`, text columns are skipped (they
    /// cannot have a default there).
    pub database: Option<String>,
}

/// The database adapter is MySQL.
pub open spec fn is_mysql(o: &NotNullColumnOptions) -> bool {
    o.database matches Some(d) && d@ == "mysql"@
}

/// The message of every finding.
pub open spec fn not_null_message() -> Seq<char> {
    "Do not add a NOT NULL column without a default value."@
}

/// The symbol key of a hash pair.
pub open spec fn pair_sym_key(file: &SourceFile, p: NodeId) -> Option<Seq<char>> {
    match file.kind(p) {
        NodeKind::Pair { key, .. } => match file.kind(key) {
            NodeKind::Sym(s) => Some(s@),
            _ => None,
        },
        _ => None,
    }
}

/// `default: <not nil>`.
pub open spec fn is_real_default(file: &SourceFile, p: NodeId) -> bool {
    pair_sym_key(file, p) == Some("default"@) && match file.kind(p) {
        NodeKind::Pair { value, .. } => !(file.kind(value) is Nil),
        _ => false,
    }
}

/// `null: false`.
pub open spec fn is_null_false(file: &SourceFile, p: NodeId) -> bool {
    pair_sym_key(file, p) == Some("null"@) && match file.kind(p) {
        NodeKind::Pair { value, .. } => file.kind(value) is False,
        _ => false,
    }
}

/// The first `null: false` pair among `pairs`.
pub open spec fn first_null_false(file: &SourceFile, pairs: Seq<NodeId>) -> Option<NodeId>
    decreases pairs.len(),
{
    if pairs.len() == 0 {
        None
    } else if is_null_false(file, pairs[0]) {
        Some(pairs[0])
    } else {
        first_null_false(file, pairs.drop_first())
    }
}

/// The finding for the options of a column: at its `null: false` pair,
/// unless a non-nil default is given.
pub open spec fn pairs_finding(file: &SourceFile, pairs: Seq<NodeId>) -> Option<Finding> {
    if exists|i: int| 0 <= i < pairs.len() && is_real_default(file, #[trigger] pairs[i]) {
        None
    } else {
        match first_null_false(file, pairs) {
            Some(p) => Some(Finding { range: file.range(p), message: not_null_message(), edits: Seq::empty() }),
            None => None,
        }
    }
}

/// A column of type `ty` (a symbol or string naming it): virtual columns
/// and, on MySQL, text columns are skipped.
pub open spec fn column_finding(file: &SourceFile, ty: NodeId, pairs: Seq<NodeId>, mysql: bool) -> Option<Finding> {
    let t = sym_or_str(file.kind(ty));
    if t == Some("virtual"@) || (t == Some("text"@) && mysql) {
        None
    } else {
        pairs_finding(file, pairs)
    }
}

/// What `NotNullColumn::check_send` reports for `node`.
pub open spec fn send_finding(file: &SourceFile, node: NodeId, mysql: bool) -> Option<Finding> {
    match file.kind(node) {
        NodeKind::Send { receiver: None, method, args } => {
            let a = args@;
            if method@ == "add_column"@ {
                if a.len() == 4 {
                    match file.kind(a[3]) {
                        NodeKind::Hash(l) => column_finding(file, a[2], l@, mysql),
                        _ => None,
                    }
                } else {
                    None
                }
            } else if method@ == "add_reference"@ {
                if a.len() == 3 {
                    match file.kind(a[2]) {
                        NodeKind::Hash(l) => pairs_finding(file, l@),
                        _ => None,
                    }
                } else {
                    None
                }
            } else {
                None
            }
        },
        _ => None,
    }
}

/// The finding for one statement of a `change_table` block on `table`:
/// `t.column :c, :type, opts`, `t.references ..., opts`,
/// `t.add_reference ..., opts`, or the shortcut `t.<type> :c, opts`.
pub open spec fn child_finding(file: &SourceFile, child: NodeId, table: Seq<char>, mysql: bool) -> Option<Finding> {
    match file.kind(child) {
        NodeKind::Send { receiver: Some(r), method, args } => {
            let a = args@;
            let m = method@;
            if file.kind(r) matches NodeKind::Lvar(s) && s@ == table {
                if m == "column"@ {
                    if a.len() == 3 {
                        match file.kind(a[2]) {
                            NodeKind::Hash(l) => column_finding(file, a[1], l@, mysql),
                            _ => None,
                        }
                    } else {
                        None
                    }
                } else if m == "add_reference"@ || m == "references"@ {
                    if a.len() > 0 {
                        match file.kind(a.last()) {
                            NodeKind::Hash(l) => pairs_finding(file, l@),
                            _ => None,
                        }
                    } else {
                        None
                    }
                } else if a.len() == 2 {
                    match file.kind(a[1]) {
                        NodeKind::Hash(l) => if m == "virtual"@ || (m == "text"@ && mysql) {
                            None
                        } else {
                            pairs_finding(file, l@)
                        },
                        _ => None,
                    }
                } else {
                    None
                }
            } else {
                None
            }
        },
        _ => None,
    }
}

/// The findings for the statements `children`, in order.
pub open spec fn children_findings(file: &SourceFile, children: Seq<NodeId>, table: Seq<char>, mysql: bool) -> Seq<Finding>
    decreases children.len(),
{
    if children.len() == 0 {
        Seq::empty()
    } else {
        children_findings(file, children.drop_last(), table, mysql) + match child_finding(file, children.last(), table, mysql) {
            Some(f) => seq![f],
            None => Seq::empty(),
        }
    }
}

/// The statements of a block body: the children of a `begin`, else the body.
pub open spec fn statements(file: &SourceFile, body: NodeId) -> Seq<NodeId> {
    match file.kind(body) {
        NodeKind::Begin(l) => l@,
        _ => seq![body],
    }
}

/// What `NotNullColumn::check_block` reports for `node`: the statements of
/// `change_table :t do |t| ... end`.
pub open spec fn block_findings(file: &SourceFile, node: NodeId, mysql: bool) -> Seq<Finding> {
    match file.kind(node) {
        NodeKind::Block { call, args, body: Some(b) } => {
            if method_of(file.kind(call)) == Some("change_table"@) && call_receiver_of(file.kind(call)) is None {
                match single_param(file, args) {
                    Some(t) => children_findings(file, statements(file, b), t, mysql),
                    None => Seq::empty(),
                }
            } else {
                Seq::empty()
            }
        },
        _ => Seq::empty(),
    }
}

/// Computes `pairs_finding` for the pairs of the hash `h`.
fn check_pairs(file: &SourceFile, h: NodeId) -> (r: Option<Offense>)
    requires
        file.valid(h),
        file.kind(h) is Hash,
    ensures
        r.deep_view() == pairs_finding(file, file.kind(h)->Hash_0@),
{
    let list = match &file.nodes[h].kind {
        NodeKind::Hash(l) => l,
        _ => return None,
    };
    let mut i: usize = 0;
    while i < list.len()
        invariant
            file.valid(h),
            file.kind(h) == NodeKind::Hash(*list),
            i <= list@.len(),
            forall|j: int| 0 <= j < i ==> !is_real_default(file, #[trigger] list@[j]),
        decreases list@.len() - i,
    {
        let p = list[i];
        assert(file.children(h)[i as int] == p);
        match &file.nodes[p].kind {
            NodeKind::Pair { key, value } => {
                assert(file.children(p)[0] == *key);
                assert(file.children(p)[1] == *value);
                let is_default = match &file.nodes[*key].kind {
                    NodeKind::Sym(s) => str_eq(s.as_str(), "default"),
                    _ => false,
                };
                let nil = match &file.nodes[*value].kind {
                    NodeKind::Nil => true,
                    _ => false,
                };
                if is_default && !nil {
                    assert(is_real_default(file, list@[i as int]));
                    return None;
                }
            },
            _ => {},
        }
        i = i + 1;
    }
    let mut j: usize = 0;
    assert(list@.subrange(0, list@.len() as int) =~= list@);
    while j < list.len()
        invariant
            file.valid(h),
            file.kind(h) == NodeKind::Hash(*list),
            j <= list@.len(),
            forall|k: int| 0 <= k < list@.len() ==> !is_real_default(file, #[trigger] list@[k]),
            first_null_false(file, list@) == first_null_false(file, list@.subrange(j as int, list@.len() as int)),
        decreases list@.len() - j,
    {
        let p = list[j];
        assert(file.children(h)[j as int] == p);
        assert(list@.subrange(j as int, list@.len() as int).drop_first() =~= list@.subrange(j + 1, list@.len() as int));
        let hit = match &file.nodes[p].kind {
            NodeKind::Pair { key, value } => {
                assert(file.children(p)[0] == *key);
                assert(file.children(p)[1] == *value);
                let is_null = match &file.nodes[*key].kind {
                    NodeKind::Sym(s) => str_eq(s.as_str(), "null"),
                    _ => false,
                };
                is_null && match &file.nodes[*value].kind {
                    NodeKind::False => true,
                    _ => false,
                }
            },
            _ => false,
        };
        if hit {
            assert(list@.subrange(j as int, list@.len() as int)[0] == p);
            return Some(offense0(file.nodes[p].range, String::from_str("Do not add a NOT NULL column without a default value.")));
        }
        j = j + 1;
    }
    None
}

/// Computes `column_finding` for the type `ty` and the options hash `h`.
fn check_column(file: &SourceFile, ty: NodeId, h: NodeId, mysql: bool) -> (r: Option<Offense>)
    requires
        file.valid(h),
        ty < file.nodes@.len(),
        file.kind(h) is Hash,
    ensures
        r.deep_view() == column_finding(file, ty, file.kind(h)->Hash_0@, mysql),
{
    match text_of(&file.nodes[ty].kind) {
        Some(t) => {
            if str_eq(t, "virtual") || (str_eq(t, "text") && mysql) {
                return None;
            }
        },
        None => {},
    }
    check_pairs(file, h)
}

/// Computes `child_finding`.
fn check_change_table_child(file: &SourceFile, child: NodeId, table: &str, mysql: bool) -> (r: Option<Offense>)
    requires
        file.valid(child),
    ensures
        r.deep_view() == child_finding(file, child, table@, mysql),
{
    let (recv, method, args) = match &file.nodes[child].kind {
        NodeKind::Send { receiver: Some(r), method, args } => (*r, method.as_str(), args),
        _ => return None,
    };
    assert(file.children(child)[0] == recv);
    let on_table = match &file.nodes[recv].kind {
        NodeKind::Lvar(s) => str_eq(s.as_str(), table),
        _ => false,
    };
    if !on_table {
        return None;
    }
    let n = args.len();
    if str_eq(method, "column") {
        if n != 3 {
            return None;
        }
        assert(file.children(child)[2] == args@[1]);
        assert(file.children(child)[3] == args@[2]);
        match &file.nodes[args[2]].kind {
            NodeKind::Hash(_) => check_column(file, args[1], args[2], mysql),
            _ => None,
        }
    } else if str_eq(method, "add_reference") || str_eq(method, "references") {
        if n == 0 {
            return None;
        }
        assert(file.children(child)[n as int] == args@[n - 1]);
        match &file.nodes[args[n - 1]].kind {
            NodeKind::Hash(_) => check_pairs(file, args[n - 1]),
            _ => None,
        }
    } else if n == 2 {
        assert(file.children(child)[2] == args@[1]);
        match &file.nodes[args[1]].kind {
            NodeKind::Hash(_) => {
                if str_eq(method, "virtual") || (str_eq(method, "text") && mysql) {
                    None
                } else {
                    check_pairs(file, args[1])
                }
            },
            _ => None,
        }
    } else {
        None
    }
}

/// Decides `is_mysql`.
fn database_is_mysql(options: &NotNullColumnOptions) -> (r: bool)
    ensures
        r == is_mysql(options),
{
    match &options.database {
        Some(d) => str_eq(d.as_str(), "mysql"),
        None => false,
    }
}

impl NotNullColumn {
    /// Reports `add_column`/`add_reference` with `null: false` and no default.
    pub fn check_send(&self, file: &SourceFile, node: NodeId, options: &NotNullColumnOptions) -> (r: Option<Offense>)
        requires
            file.valid(node),
        ensures
            r.deep_view() == send_finding(file, node, is_mysql(options)),
    {
        let mysql = database_is_mysql(options);
        let (method, args) = match &file.nodes[node].kind {
            NodeKind::Send { receiver: None, method, args } => (method.as_str(), args),
            _ => return None,
        };
        if str_eq(method, "add_column") {
            if args.len() != 4 {
                return None;
            }
            assert(file.children(node)[2] == args@[2]);
            assert(file.children(node)[3] == args@[3]);
            match &file.nodes[args[3]].kind {
                NodeKind::Hash(_) => check_column(file, args[2], args[3], mysql),
                _ => None,
            }
        } else if str_eq(method, "add_reference") {
            if args.len() != 3 {
                return None;
            }
            assert(file.children(node)[2] == args@[2]);
            match &file.nodes[args[2]].kind {
                NodeKind::Hash(_) => check_pairs(file, args[2]),
                _ => None,
            }
        } else {
            None
        }
    }

    /// Reports the columns added with `null: false` and no default in a
    /// `change_table` block.
    pub fn check_block(&self, file: &SourceFile, node: NodeId, options: &NotNullColumnOptions) -> (r: Vec<Offense>)
        requires
            file.valid(node),
        ensures
            r.deep_view() == block_findings(file, node, is_mysql(options)),
    {
        let mysql = database_is_mysql(options);
        let mut out: Vec<Offense> = Vec::new();
        let (call, args, body) = match &file.nodes[node].kind {
            NodeKind::Block { call, args, body: Some(b) } => (*call, *args, *b),
            _ => {
                assert(out.deep_view() =~= block_findings(file, node, mysql));
                return out;
            },
        };
        assert(file.children(node)[0] == call);
        assert(file.children(node)[1] == args);
        assert(file.children(node)[2] == body);
        let is_ct = match file.method_name(call) {
            Some(m) => str_eq(m, "change_table"),
            None => false,
        };
        if !is_ct || file.call_receiver(call).is_some() {
            assert(out.deep_view() =~= block_findings(file, node, mysql));
            return out;
        }
        let table: &str = match &file.nodes[args].kind {
            NodeKind::Args(l) => {
                if l.len() != 1 {
                    assert(out.deep_view() =~= block_findings(file, node, mysql));
                    return out;
                }
                assert(file.children(args)[0] == l@[0]);
                match &file.nodes[l[0]].kind {
                    NodeKind::Arg(s) => s.as_str(),
                    _ => {
                        assert(out.deep_view() =~= block_findings(file, node, mysql));
                        return out;
                    },
                }
            },
            _ => {
                assert(out.deep_view() =~= block_findings(file, node, mysql));
                return out;
            },
        };
        let stmts: Vec<NodeId> = match &file.nodes[body].kind {
            NodeKind::Begin(l) => l.clone(),
            _ => {
                let mut v: Vec<NodeId> = Vec::new();
                v.push(body);
                v
            },
        };
        assert(stmts@ == statements(file, body));
        let mut i: usize = 0;
        assert(out.deep_view() =~= children_findings(file, stmts@.subrange(0, 0), table@, mysql));
        while i < stmts.len()
            invariant
                file.wf(),
                body < file.nodes@.len(),
                stmts@ == statements(file, body),
                i <= stmts@.len(),
                out.deep_view() == children_findings(file, stmts@.subrange(0, i as int), table@, mysql),
            decreases stmts@.len() - i,
        {
            let c = stmts[i];
            proof {
                if file.kind(body) is Begin {
                    assert(file.children(body)[i as int] == c);
                }
            }
            assert(stmts@.subrange(0, i + 1).drop_last() =~= stmts@.subrange(0, i as int));
            match check_change_table_child(file, c, table, mysql) {
                Some(o) => out.push(o),
                None => {},
            }
            assert(out.deep_view() =~= children_findings(file, stmts@.subrange(0, i + 1), table@, mysql));
            i = i + 1;
        }
        assert(stmts@.subrange(0, stmts@.len() as int) =~= stmts@);
        out
    }
}

} // verus!
