//! `Rails/I18nLazyLookup`: lazy (`t '.key'`) or explicit
//! (`t 'controller.action.key'`) translation keys in controller actions.

use vstd::prelude::*;
use crate::ast::{class_pred, NodeId, NodeKind, SourceFile};
use crate::cops::redundant_foreign_key::{
    after_last_colons, demodulize, has_no_double_colon, lemma_underscored_no_double_colon, lemma_underscored_shape, not_underscore, not_underscore_or_dash, sym_or_str, underscored,
};
use crate::report::{finding1, offense1, Finding, Offense};
use crate::text::{concat3, ends_with, is_upper, lemma_filter_push, lemma_lower_char, lower_str, push_char, rfind_char_end, str_ends_with, str_eq, last_index};

verus! {

/// Checks `t`/`translate` calls in controller actions for the key style not enforced.
#[derive(Debug, Default)]
pub struct I18nLazyLookup;

/// Options of `I18nLazyLookup`.
#[derive(Debug)]
pub struct I18nLazyLookupOptions {
    /// `EnforcedStyle`: `lazy` (the default) or `explicit`.
    pub enforced_style: I18nLazyLookupStyle,
}

/// The enforced key style.
#[derive(Clone, Copy, Debug, PartialEq, Eq, Structural)]
pub enum I18nLazyLookupStyle {
    Lazy,
    Explicit,
}

impl Default for I18nLazyLookupOptions {
    fn default() -> (o: Self)
        ensures
            o.enforced_style == I18nLazyLookupStyle::Lazy,
    {
        I18nLazyLookupOptions { enforced_style: I18nLazyLookupStyle::Lazy }
    }
}

/// `s` with each `::` (left to right) replaced by `/`.
pub open spec fn colons_to_slash(s: Seq<char>) -> Seq<char>
    decreases s.len(),
{
    if s.len() >= 2 && s[0] == ':' && s[1] == ':' {
        seq!['/'] + colons_to_slash(s.subrange(2, s.len() as int))
    } else if s.len() == 0 {
        Seq::empty()
    } else {
        seq![s[0]] + colons_to_slash(s.drop_first())
    }
}

/// ActiveSupport `underscore` of a constant path: `Admin::FooBar` to `admin/foo_bar`.
pub open spec fn path_underscored(s: Seq<char>) -> Seq<char> {
    underscored(colons_to_slash(s))
}

/// Underscoring a constant path leaves no capital letter, and with its
/// underscores taken out the result is the path with `::` turned into `/`,
/// lower-cased, with its underscores and dashes taken out.
pub proof fn lemma_path_underscored_shape(s: Seq<char>)
    ensures
        forall|k: int| 0 <= k < path_underscored(s).len() ==> !is_upper(#[trigger] path_underscored(s)[k]),
        path_underscored(s).filter(not_underscore()) == lower_str(colons_to_slash(s)).filter(not_underscore_or_dash()),
{
    lemma_underscored_shape(colons_to_slash(s));
}

/// `::` turned into `/` leaves no `::`, starts with `:` only where the path
/// does, and brings in no `_` or `-` the path lacks.
proof fn lemma_colons_to_slash_plain(s: Seq<char>)
    ensures
        has_no_double_colon(colons_to_slash(s)),
        colons_to_slash(s).len() > 0 ==> s.len() > 0 && (colons_to_slash(s)[0] == ':' ==> s[0] == ':'),
        (forall|i: int| 0 <= i < s.len() ==> s[i] != '_' && s[i] != '-') ==>
            forall|i: int| 0 <= i < colons_to_slash(s).len() ==> colons_to_slash(s)[i] != '_' && colons_to_slash(s)[i] != '-',
    decreases s.len(),
{
    let r = colons_to_slash(s);
    if s.len() >= 2 && s[0] == ':' && s[1] == ':' {
        let t = s.subrange(2, s.len() as int);
        lemma_colons_to_slash_plain(t);
        let rest = colons_to_slash(t);
        assert(r == seq!['/'] + rest);
        assert forall|k: int| 0 <= k < r.len() - 1 implies !(#[trigger] r[k] == ':' && r[k + 1] == ':') by {
            if k > 0 {
                assert(r[k] == rest[k - 1] && r[k + 1] == rest[k]);
            }
        }
        if forall|i: int| 0 <= i < s.len() ==> s[i] != '_' && s[i] != '-' {
            assert forall|i: int| 0 <= i < t.len() implies t[i] != '_' && t[i] != '-' by {
                assert(t[i] == s[i + 2]);
            }
            assert forall|i: int| 0 <= i < r.len() implies r[i] != '_' && r[i] != '-' by {
                if i > 0 {
                    assert(r[i] == rest[i - 1]);
                }
            }
        }
    } else if s.len() == 0 {
    } else {
        let t = s.drop_first();
        lemma_colons_to_slash_plain(t);
        let rest = colons_to_slash(t);
        assert(r == seq![s[0]] + rest);
        assert forall|k: int| 0 <= k < r.len() - 1 implies !(#[trigger] r[k] == ':' && r[k + 1] == ':') by {
            if k > 0 {
                assert(r[k] == rest[k - 1] && r[k + 1] == rest[k]);
            } else {
                assert(r[0] == s[0] && r[1] == rest[0]);
                if r[0] == ':' && r[1] == ':' {
                    assert(t[0] == ':');
                    assert(s[1] == t[0]);
                }
            }
        }
        if forall|i: int| 0 <= i < s.len() ==> s[i] != '_' && s[i] != '-' {
            assert forall|i: int| 0 <= i < t.len() implies t[i] != '_' && t[i] != '-' by {
                assert(t[i] == s[i + 1]);
            }
            assert forall|i: int| 0 <= i < r.len() implies r[i] != '_' && r[i] != '-' by {
                if i > 0 {
                    assert(r[i] == rest[i - 1]);
                }
            }
        }
    }
}

/// Keeping the characters a predicate accepts, where it accepts all, keeps all.
proof fn lemma_filter_keeps_all(s: Seq<char>, p: spec_fn(char) -> bool)
    requires
        forall|i: int| 0 <= i < s.len() ==> p(#[trigger] s[i]),
    ensures
        s.filter(p) == s,
    decreases s.len(),
{
    if s.len() > 0 {
        lemma_filter_push(s, p);
        lemma_filter_keeps_all(s.drop_last(), p);
        assert(s.drop_last().push(s.last()) =~= s);
    } else {
        assert(s.filter(p) =~= s) by {
            reveal_with_fuel(Seq::filter, 1);
        }
    }
}

/// Underscoring a constant path leaves no `::`; and for a path without `_`
/// or `-` (letters, digits and `::`), taking the underscores out of the
/// result gives the path with `::` as `/`, lower-cased:
/// `Admin::HTMLParser` gives `admin/html_parser`.
pub proof fn lemma_path_underscored_plain(s: Seq<char>)
    ensures
        has_no_double_colon(path_underscored(s)),
        (forall|i: int| 0 <= i < s.len() ==> s[i] != '_' && s[i] != '-') ==>
            path_underscored(s).filter(not_underscore()) == lower_str(colons_to_slash(s)),
{
    lemma_colons_to_slash_plain(s);
    lemma_underscored_no_double_colon(colons_to_slash(s));
    lemma_path_underscored_shape(s);
    if forall|i: int| 0 <= i < s.len() ==> s[i] != '_' && s[i] != '-' {
        let l = lower_str(colons_to_slash(s));
        assert forall|i: int| 0 <= i < l.len() implies not_underscore_or_dash()(#[trigger] l[i]) by {
            let c = colons_to_slash(s)[i];
            assert(c != '_' && c != '-');
            lemma_lower_char(c);
        }
        lemma_filter_keeps_all(l, not_underscore_or_dash());
    }
}

/// Replaces `::` by `/`.
fn replace_colons(s: &str) -> (r: String)
    ensures
        r@ == colons_to_slash(s@),
{
    let n = s.unicode_len();
    let mut out = String::new();
    let mut i: usize = 0;
    assert(s@.subrange(0, n as int) =~= s@);
    while i < n
        invariant
            n == s@.len(),
            i <= n,
            out@ + colons_to_slash(s@.subrange(i as int, n as int)) == colons_to_slash(s@),
        decreases n - i,
    {
        let ghost rest = s@.subrange(i as int, n as int);
        if i + 1 < n && s.get_char(i) == ':' && s.get_char(i + 1) == ':' {
            assert(rest.subrange(2, rest.len() as int) =~= s@.subrange(i + 2, n as int));
            push_char(&mut out, '/');
            assert(out@ + colons_to_slash(s@.subrange(i + 2, n as int)) =~= colons_to_slash(s@));
            i = i + 2;
        } else {
            assert(rest.drop_first() =~= s@.subrange(i + 1, n as int));
            push_char(&mut out, s.get_char(i));
            assert(out@ + colons_to_slash(s@.subrange(i + 1, n as int)) =~= colons_to_slash(s@));
            i = i + 1;
        }
    }
    assert(s@.subrange(n as int, n as int) =~= Seq::<char>::empty());
    assert(out@ =~= colons_to_slash(s@));
    out
}

/// ActiveSupport `underscore` approximation for constant paths.
pub fn underscore(s: &str) -> (r: String)
    ensures
        r@ == path_underscored(s@),
{
    let r = replace_colons(s);
    crate::cops::redundant_foreign_key::underscore(r.as_str())
}

/// Names of the enclosing modules of `n` that are constants, innermost first.
pub open spec fn module_names(file: &SourceFile, n: NodeId) -> Seq<Seq<char>>
    decreases n,
{
    match file.parent(n) {
        Some(p) => if p < n {
            let rest = module_names(file, p);
            match file.kind(p) {
                NodeKind::Module { name, .. } => match file.const_path(name) {
                    Some(c) => seq![c] + rest,
                    None => rest,
                },
                _ => rest,
            }
        } else {
            Seq::empty()
        },
        None => Seq::empty(),
    }
}

/// `parts` joined by `::`.
pub open spec fn join_colons(parts: Seq<Seq<char>>) -> Seq<char>
    decreases parts.len(),
{
    if parts.len() == 0 {
        Seq::empty()
    } else if parts.len() == 1 {
        parts[0]
    } else {
        join_colons(parts.drop_last()) + "::"@ + parts.last()
    }
}

/// `s` holds `::`.
pub open spec fn has_colons(s: Seq<char>) -> bool {
    exists|i: int| 0 <= i < s.len() - 1 && #[trigger] s[i] == ':' && s[i + 1] == ':'
}

/// The full constant path of a class: its own path if qualified, else the
/// enclosing modules' names (outermost first) and its name.
pub open spec fn full_controller_const(file: &SourceFile, class_node: NodeId) -> Option<Seq<char>> {
    match file.kind(class_node) {
        NodeKind::Class { name, .. } => match file.const_path(name) {
            Some(own) => if has_colons(own) {
                Some(own)
            } else {
                Some(join_colons(module_names(file, class_node).reverse().push(own)))
            },
            None => None,
        },
        _ => None,
    }
}

/// The nearest enclosing `def`, unless a `def self.x` comes first.
pub open spec fn enclosing_action(file: &SourceFile, n: NodeId) -> Option<NodeId>
    decreases n,
{
    match file.parent(n) {
        Some(p) => if p < n {
            match file.kind(p) {
                NodeKind::Def { .. } => Some(p),
                NodeKind::Defs { .. } => None,
                _ => enclosing_action(file, p),
            }
        } else {
            None
        },
        None => None,
    }
}

/// Following first arguments of calls from `n` reaches `def`.
pub open spec fn reaches(file: &SourceFile, n: NodeId, def: NodeId) -> bool
    decreases file.nodes@.len() - n,
{
    if n == def {
        true
    } else {
        match file.kind(n) {
            NodeKind::Send { args, .. } => args@.len() > 0 && n < args@[0] < file.nodes@.len() && reaches(file, args@[0], def),
            _ => false,
        }
    }
}

/// A call `private`/`protected` whose first argument leads to `def`
/// (`private def x`, `private memoize def x`).
pub open spec fn is_modifier_of(file: &SourceFile, a: NodeId, def: NodeId) -> bool {
    match file.kind(a) {
        NodeKind::Send { method, args, .. } =>
            (method@ == "private"@ || method@ == "protected"@) && args@.len() > 0 && reaches(file, args@[0], def),
        _ => false,
    }
}

/// Some ancestor of `n`, below the nearest class or module, is a
/// `private`/`protected` call applied to `def`.
pub open spec fn modifier_above(file: &SourceFile, n: NodeId, def: NodeId) -> bool
    decreases n,
{
    match file.parent(n) {
        Some(p) => p < n && (is_modifier_of(file, p, def)
            || (!(file.kind(p) is Class || file.kind(p) is Module) && modifier_above(file, p, def))),
        None => false,
    }
}

/// Statement sequences: `begin` bodies, classes and modules.
pub open spec fn section_pred() -> spec_fn(NodeKind) -> bool {
    |k: NodeKind| k is Begin || k is Class || k is Module
}

/// The statements directly in a section node.
pub open spec fn section_kids(file: &SourceFile, a: NodeId) -> Seq<NodeId> {
    match file.kind(a) {
        NodeKind::Begin(l) => l@,
        NodeKind::Class { body, .. } => body_kids(file, body),
        NodeKind::Module { body, .. } => body_kids(file, body),
        _ => Seq::empty(),
    }
}

/// The statements of a class or module body.
pub open spec fn body_kids(file: &SourceFile, body: Option<NodeId>) -> Seq<NodeId> {
    match body {
        Some(b) => match file.kind(b) {
            NodeKind::Begin(l) => l@,
            _ => seq![b],
        },
        None => Seq::empty(),
    }
}

/// Index of the first `x` in `s`, or its length.
pub open spec fn pos_of(s: Seq<NodeId>, x: NodeId) -> int
    decreases s.len(),
{
    if s.len() == 0 {
        0
    } else if s[0] == x {
        0
    } else {
        1 + pos_of(s.drop_first(), x)
    }
}

/// A bare argument-less `private`/`protected`/`public`: its name.
pub open spec fn visibility_of(file: &SourceFile, k: NodeId) -> Option<Seq<char>> {
    match file.kind(k) {
        NodeKind::Send { receiver: None, method, args } =>
            if (method@ == "private"@ || method@ == "protected"@ || method@ == "public"@) && args@.len() == 0 {
                Some(method@)
            } else {
                None
            },
        _ => None,
    }
}

/// The last visibility keyword among `kids`.
pub open spec fn last_visibility(file: &SourceFile, kids: Seq<NodeId>) -> Option<Seq<char>>
    decreases kids.len(),
{
    if kids.len() == 0 {
        None
    } else {
        match visibility_of(file, kids.last()) {
            Some(v) => Some(v),
            None => last_visibility(file, kids.drop_last()),
        }
    }
}

/// The visibility section `def` stands in: the last bare visibility keyword
/// before it in its statement sequence.
pub open spec fn section_visibility(file: &SourceFile, def: NodeId) -> Option<Seq<char>> {
    match file.nearest_ancestor(def, section_pred()) {
        Some(a) => {
            let kids = section_kids(file, a);
            let pos = pos_of(kids, def);
            if pos < kids.len() { last_visibility(file, kids.subrange(0, pos)) } else { None }
        },
        None => None,
    }
}

/// The action is private or protected.
pub open spec fn is_private_or_protected(file: &SourceFile, def: NodeId) -> bool {
    modifier_above(file, def, def) || match section_visibility(file, def) {
        Some(v) => v == "private"@ || v == "protected"@,
        None => false,
    }
}

/// The (controller class, public action) around `node`, when the class's
/// name ends with `Controller`.
pub open spec fn controller_and_action(file: &SourceFile, node: NodeId) -> Option<(NodeId, NodeId)> {
    match enclosing_action(file, node) {
        Some(action) => match file.nearest_ancestor(action, class_pred()) {
            Some(controller) => {
                if is_private_or_protected(file, action) {
                    None
                } else {
                    match full_controller_const(file, controller) {
                        Some(full) => if ends_with(after_last_colons(full), "Controller"@) {
                            Some((controller, action))
                        } else {
                            None
                        },
                        None => None,
                    }
                }
            },
            None => None,
        },
        None => None,
    }
}

/// The name of a `def`.
pub open spec fn def_name(file: &SourceFile, n: NodeId) -> Seq<char> {
    match file.kind(n) {
        NodeKind::Def { name, .. } => name@,
        _ => Seq::empty(),
    }
}

/// The part of `key` after its last `.`.
pub open spec fn key_tail(key: Seq<char>) -> Seq<char> {
    key.subrange(last_index(key, '.') + 1, key.len() as int)
}

/// `full` without a trailing `Controller`.
pub open spec fn strip_controller(full: Seq<char>) -> Seq<char> {
    if ends_with(full, "Controller"@) { full.subrange(0, full.len() - "Controller"@.len()) } else { full }
}

/// The explicit key for `key`: the controller path (dotted), the action and
/// the last segment of `key`.
pub open spec fn scoped_key(file: &SourceFile, controller: NodeId, action: NodeId, key: Seq<char>) -> Seq<char> {
    let full = match full_controller_const(file, controller) {
        Some(f) => f,
        None => Seq::empty(),
    };
    let path = path_underscored(strip_controller(full)).map_values(|c: char| if c == '/' { '.' } else { c });
    path + "."@ + def_name(file, action) + "."@ + key_tail(key)
}

/// What `I18nLazyLookup::check_send` reports for `node`.
pub open spec fn lazy_lookup_finding(file: &SourceFile, node: NodeId, style: I18nLazyLookupStyle) -> Option<Finding> {
    match file.kind(node) {
        NodeKind::Send { receiver: None, method, args } => {
            if (method@ == "t"@ || method@ == "translate"@) && args@.len() > 0 && sym_or_str(file.kind(args@[0])) is Some {
                let first = args@[0];
                let key = sym_or_str(file.kind(first)).unwrap();
                let lazy = key.len() > 0 && key[0] == '.';
                match controller_and_action(file, node) {
                    Some((controller, action)) => {
                        let scoped = scoped_key(file, controller, action, key);
                        match style {
                            I18nLazyLookupStyle::Lazy => if !lazy && key == scoped {
                                Some(finding1(
                                    file.range(first),
                                    "Use lazy lookup for the text used in controllers."@,
                                    file.range(first),
                                    "'."@ + key_tail(key) + "'"@,
                                ))
                            } else {
                                None
                            },
                            I18nLazyLookupStyle::Explicit => if lazy {
                                Some(finding1(
                                    file.range(first),
                                    "Use explicit lookup for the text used in controllers."@,
                                    file.range(first),
                                    "'"@ + scoped + "'"@,
                                ))
                            } else {
                                None
                            },
                        }
                    },
                    None => None,
                }
            } else {
                None
            }
        },
        _ => None,
    }
}


/// Finds `enclosing_action`.
fn find_action(file: &SourceFile, n: NodeId) -> (r: Option<NodeId>)
    requires
        file.valid(n),
    ensures
        r == enclosing_action(file, n),
        r matches Some(a) ==> a < n && file.kind(a) is Def,
{
    let mut cur = n;
    loop
        invariant
            file.wf(),
            cur <= n < file.nodes@.len(),
            enclosing_action(file, n) == enclosing_action(file, cur),
        decreases cur,
    {
        match file.nodes[cur].parent {
            Some(p) => {
                assert(p < cur);
                match &file.nodes[p].kind {
                    NodeKind::Def { .. } => return Some(p),
                    NodeKind::Defs { .. } => return None,
                    _ => {
                        cur = p;
                    },
                }
            },
            None => return None,
        }
    }
}

/// Decides `reaches`.
fn reaches_exec(file: &SourceFile, n: NodeId, def: NodeId) -> (r: bool)
    requires
        file.valid(n),
    ensures
        r == reaches(file, n, def),
{
    let mut cur = n;
    loop
        invariant
            file.valid(cur),
            reaches(file, n, def) == reaches(file, cur, def),
        decreases file.nodes@.len() - cur,
    {
        if cur == def {
            return true;
        }
        match &file.nodes[cur].kind {
            NodeKind::Send { args, .. } => {
                if args.len() == 0 {
                    return false;
                }
                proof { crate::ast::lemma_args_are_children(file, cur, 0); }
                cur = args[0];
            },
            _ => return false,
        }
    }
}

/// Decides `is_modifier_of`.
fn modifier_of(file: &SourceFile, a: NodeId, def: NodeId) -> (r: bool)
    requires
        file.valid(a),
    ensures
        r == is_modifier_of(file, a, def),
{
    match &file.nodes[a].kind {
        NodeKind::Send { method, args, .. } => {
            if !(str_eq(method.as_str(), "private") || str_eq(method.as_str(), "protected")) || args.len() == 0 {
                return false;
            }
            proof { crate::ast::lemma_args_are_children(file, a, 0); }
            reaches_exec(file, args[0], def)
        },
        _ => false,
    }
}

/// Decides `modifier_above(file, def, def)`.
fn modifier_applies(file: &SourceFile, def: NodeId) -> (r: bool)
    requires
        file.valid(def),
    ensures
        r == modifier_above(file, def, def),
{
    let mut cur = def;
    loop
        invariant
            file.wf(),
            cur <= def < file.nodes@.len(),
            modifier_above(file, def, def) == modifier_above(file, cur, def),
        decreases cur,
    {
        match file.nodes[cur].parent {
            Some(p) => {
                assert(p < cur);
                if modifier_of(file, p, def) {
                    return true;
                }
                match &file.nodes[p].kind {
                    NodeKind::Class { .. } | NodeKind::Module { .. } => return false,
                    _ => {
                        cur = p;
                    },
                }
            },
            None => return false,
        }
    }
}

/// Decides `visibility_of`.
fn visibility_keyword(file: &SourceFile, k: NodeId) -> (r: Option<&str>)
    requires
        file.valid(k),
    ensures
        crate::text::opt_str_view(r) == visibility_of(file, k),
{
    match &file.nodes[k].kind {
        NodeKind::Send { receiver: None, method, args } => {
            let m = method.as_str();
            if (str_eq(m, "private") || str_eq(m, "protected") || str_eq(m, "public")) && args.len() == 0 {
                Some(m)
            } else {
                None
            }
        },
        _ => None,
    }
}

/// The nearest `begin` body, class or module around `def`.
fn nearest_section(file: &SourceFile, def: NodeId) -> (r: Option<NodeId>)
    requires
        file.valid(def),
    ensures
        r == file.nearest_ancestor(def, section_pred()),
        r matches Some(a) ==> a < def,
{
    let ghost pred = section_pred();
    let mut cur = def;
    loop
        invariant
            file.wf(),
            cur <= def < file.nodes@.len(),
            pred == section_pred(),
            file.nearest_ancestor(def, pred) == file.nearest_ancestor(cur, pred),
        decreases cur,
    {
        match file.nodes[cur].parent {
            Some(p) => {
                assert(p < cur);
                match &file.nodes[p].kind {
                    NodeKind::Begin(_) | NodeKind::Class { .. } | NodeKind::Module { .. } => {
                        assert(pred(file.kind(p)));
                        return Some(p);
                    },
                    _ => {
                        assert(!pred(file.kind(p)));
                        cur = p;
                    },
                }
            },
            None => return None,
        }
    }
}

/// The statements of a section are nodes of the tree.
proof fn lemma_section_kids_valid(file: &SourceFile, a: NodeId)
    requires
        file.valid(a),
    ensures
        forall|i: int| 0 <= i < section_kids(file, a).len() ==> section_kids(file, a)[i] < file.nodes@.len(),
{
    assert forall|i: int| 0 <= i < section_kids(file, a).len() implies section_kids(file, a)[i] < file.nodes@.len() by {
        match file.kind(a) {
            NodeKind::Begin(l) => {
                assert(file.children(a)[i] == l@[i]);
            },
            NodeKind::Class { body: Some(b), .. } => {
                let k = file.children(a).len() - 1;
                assert(file.children(a)[k] == b);
                if let NodeKind::Begin(l) = file.kind(b) {
                    assert(file.children(b)[i] == l@[i]);
                }
            },
            NodeKind::Module { body: Some(b), .. } => {
                assert(file.children(a)[1] == b);
                if let NodeKind::Begin(l) = file.kind(b) {
                    assert(file.children(b)[i] == l@[i]);
                }
            },
            _ => {},
        }
    }
}

/// Computes `section_visibility`.
fn find_section_visibility(file: &SourceFile, def: NodeId) -> (r: Option<&str>)
    requires
        file.valid(def),
    ensures
        crate::text::opt_str_view(r) == section_visibility(file, def),
{
    let a = match nearest_section(file, def) {
        Some(a) => a,
        None => return None,
    };
    assert(file.nearest_ancestor(def, section_pred()) == Some(a));
    let kids: Vec<NodeId> = match &file.nodes[a].kind {
        NodeKind::Begin(l) => l.clone(),
        NodeKind::Class { body, .. } | NodeKind::Module { body, .. } => {
            let mut v: Vec<NodeId> = Vec::new();
            match body {
                Some(b) => {
                    match &file.nodes[a].kind {
                        NodeKind::Class { .. } => assert(file.children(a)[file.children(a).len() - 1] == *b),
                        _ => assert(file.children(a)[1] == *b),
                    }
                    match &file.nodes[*b].kind {
                        NodeKind::Begin(l) => {
                            v = l.clone();
                        },
                        _ => {
                            v.push(*b);
                        },
                    }
                },
                None => {},
            }
            v
        },
        _ => Vec::new(),
    };
    assert(kids@ =~= section_kids(file, a));
    proof { lemma_section_kids_valid(file, a); }
    assert(kids@.subrange(0, kids@.len() as int) =~= kids@);
    let mut pos: usize = 0;
    while pos < kids.len() && kids[pos] != def
        invariant
            pos <= kids@.len(),
            pos_of(kids@, def) == pos + pos_of(kids@.subrange(pos as int, kids@.len() as int), def),
        decreases kids@.len() - pos,
    {
        assert(kids@.subrange(pos as int, kids@.len() as int).drop_first() =~= kids@.subrange(pos + 1, kids@.len() as int));
        pos = pos + 1;
    }
    proof {
        if pos == 0 {
            assert(kids@.subrange(0, kids@.len() as int) =~= kids@);
        }
        if pos == kids@.len() {
            assert(kids@.subrange(pos as int, kids@.len() as int) =~= Seq::<NodeId>::empty());
        }
    }
    if pos >= kids.len() {
        return None;
    }
    assert(pos_of(kids@, def) == pos);
    let mut vis: Option<&str> = None;
    let mut j: usize = 0;
    assert(kids@.subrange(0, 0) =~= Seq::<NodeId>::empty());
    while j < pos
        invariant
            file.wf(),
            pos < kids@.len(),
            kids@ == section_kids(file, a),
            a < file.nodes@.len(),
            forall|i: int| 0 <= i < kids@.len() ==> kids@[i] < file.nodes@.len(),
            j <= pos,
            crate::text::opt_str_view(vis) == last_visibility(file, kids@.subrange(0, j as int)),
        decreases pos - j,
    {
        assert(kids@.subrange(0, j + 1).drop_last() =~= kids@.subrange(0, j as int));
        match visibility_keyword(file, kids[j]) {
            Some(v) => {
                vis = Some(v);
            },
            None => {},
        }
        j = j + 1;
    }
    vis
}


/// Decides `has_colons`.
fn contains_colons(s: &str) -> (r: bool)
    ensures
        r == has_colons(s@),
{
    let n = s.unicode_len();
    let mut i: usize = 0;
    while n > 0 && i < n - 1
        invariant
            n == s@.len(),
            forall|j: int| 0 <= j < i && j < n - 1 ==> !(#[trigger] s@[j] == ':' && s@[j + 1] == ':'),
        decreases n - i,
    {
        if s.get_char(i) == ':' && s.get_char(i + 1) == ':' {
            return true;
        }
        i = i + 1;
    }
    false
}

/// Collects `module_names`.
fn enclosing_module_names(file: &SourceFile, n: NodeId) -> (r: Vec<String>)
    requires
        file.valid(n),
    ensures
        crate::cops::order_arguments::strings_view(r@) == module_names(file, n),
{
    let mut acc: Vec<String> = Vec::new();
    let mut cur = n;
    loop
        invariant
            file.wf(),
            cur <= n < file.nodes@.len(),
            crate::cops::order_arguments::strings_view(acc@) + module_names(file, cur) == module_names(file, n),
        decreases cur,
    {
        match file.nodes[cur].parent {
            Some(p) => {
                assert(p < cur);
                match &file.nodes[p].kind {
                    NodeKind::Module { name, .. } => {
                        assert(file.children(p)[0] == *name);
                        match file.const_name(*name) {
                            Some(c) => {
                                let ghost before = crate::cops::order_arguments::strings_view(acc@);
                                acc.push(c);
                                assert(crate::cops::order_arguments::strings_view(acc@) =~= before.push(c@));
                                assert(before.push(c@) + module_names(file, p) =~= before + module_names(file, cur));
                            },
                            None => {},
                        }
                    },
                    _ => {},
                }
                cur = p;
            },
            None => {
                assert(crate::cops::order_arguments::strings_view(acc@) + module_names(file, cur)
                    =~= crate::cops::order_arguments::strings_view(acc@));
                return acc;
            },
        }
    }
}

/// Computes `full_controller_const`.
fn full_controller_name(file: &SourceFile, class_node: NodeId) -> (r: Option<String>)
    requires
        file.valid(class_node),
    ensures
        crate::ast::opt_string_view(r) == full_controller_const(file, class_node),
{
    let name = match &file.nodes[class_node].kind {
        NodeKind::Class { name, .. } => *name,
        _ => return None,
    };
    assert(file.children(class_node)[0] == name);
    let own = match file.const_name(name) {
        Some(o) => o,
        None => return None,
    };
    if contains_colons(own.as_str()) {
        return Some(own);
    }
    let mods = enclosing_module_names(file, class_node);
    let ghost parts = crate::cops::order_arguments::strings_view(mods@).reverse().push(own@);
    let mut out = String::new();
    let mut k: usize = mods.len();
    let ghost done: Seq<Seq<char>> = Seq::empty();
    while k > 0
        invariant
            k <= mods@.len(),
            parts == crate::cops::order_arguments::strings_view(mods@).reverse().push(own@),
            out@ == join_colons(parts.subrange(0, (mods@.len() - k) as int)),
        decreases k,
    {
        let idx = mods.len() - k;
        if idx > 0 {
            out.append("::");
        }
        out.append(mods[k - 1].as_str());
        proof {
            let pre = parts.subrange(0, idx + 1);
            assert(pre.drop_last() =~= parts.subrange(0, idx as int));
            assert(pre.last() == mods@[k - 1]@);
            if idx == 0 {
                assert(out@ =~= join_colons(pre));
            }
        }
        k = k - 1;
    }
    let m = mods.len();
    if m > 0 {
        out.append("::");
    }
    out.append(own.as_str());
    proof {
        assert(parts.subrange(0, m as int + 1) =~= parts);
        assert(parts.subrange(0, m as int + 1).drop_last() =~= parts.subrange(0, m as int));
    }
    Some(out)
}

/// Computes `controller_and_action`.
fn find_controller_and_action(file: &SourceFile, node: NodeId) -> (r: Option<(NodeId, NodeId, String)>)
    requires
        file.valid(node),
    ensures
        match r {
            Some((c, a, full)) => controller_and_action(file, node) == Some((c, a))
                && full_controller_const(file, c) == Some(full@) && c < file.nodes@.len() && a < file.nodes@.len(),
            None => controller_and_action(file, node) is None,
        },
{
    let action = match find_action(file, node) {
        Some(a) => a,
        None => return None,
    };
    let controller = match file.enclosing_class(action) {
        Some(c) => c,
        None => return None,
    };
    if modifier_applies(file, action) {
        return None;
    }
    match find_section_visibility(file, action) {
        Some(v) => {
            if str_eq(v, "private") || str_eq(v, "protected") {
                return None;
            }
        },
        None => {},
    }
    let full = match full_controller_name(file, controller) {
        Some(f) => f,
        None => return None,
    };
    let short = demodulize(full.as_str());
    if !str_ends_with(short.as_str(), "Controller") {
        return None;
    }
    Some((controller, action, full))
}

/// Computes `scoped_key`.
fn build_scoped_key(file: &SourceFile, action: NodeId, full: &str, key: &str) -> (r: String)
    requires
        file.valid(action),
    ensures
        r@ == {
            let path = path_underscored(strip_controller(full@)).map_values(|c: char| if c == '/' { '.' } else { c });
            path + "."@ + def_name(file, action) + "."@ + key_tail(key@)
        },
{
    let n = full.unicode_len();
    let stripped = if str_ends_with(full, "Controller") {
        full.substring_char(0, n - "Controller".unicode_len())
    } else {
        full
    };
    let under = underscore(stripped);
    let un = under.as_str().unicode_len();
    let mut out = String::new();
    let mut i: usize = 0;
    while i < un
        invariant
            un == under@.len(),
            i <= un,
            out@ == under@.subrange(0, i as int).map_values(|c: char| if c == '/' { '.' } else { c }),
        decreases un - i,
    {
        let c = under.as_str().get_char(i);
        push_char(&mut out, if c == '/' { '.' } else { c });
        i = i + 1;
        assert(out@ =~= under@.subrange(0, i as int).map_values(|c: char| if c == '/' { '.' } else { c }));
    }
    assert(under@.subrange(0, un as int) =~= under@);
    out.append(".");
    match &file.nodes[action].kind {
        NodeKind::Def { name, .. } => out.append(name.as_str()),
        _ => {},
    }
    out.append(".");
    let kn = key.unicode_len();
    let dot_end = rfind_char_end(key, '.');
    out.append(key.substring_char(dot_end, kn));
    out
}

impl I18nLazyLookup {
    /// Reports a translation key in the style not enforced, with the edit to
    /// the enforced one.
    pub fn check_send(&self, file: &SourceFile, node: NodeId, options: &I18nLazyLookupOptions) -> (r: Option<Offense>)
        requires
            file.valid(node),
        ensures
            r.deep_view() == lazy_lookup_finding(file, node, options.enforced_style),
    {
        let args = match &file.nodes[node].kind {
            NodeKind::Send { receiver: None, method, args } => {
                if !(str_eq(method.as_str(), "t") || str_eq(method.as_str(), "translate")) {
                    return None;
                }
                args
            },
            _ => return None,
        };
        if args.len() == 0 {
            return None;
        }
        let first = args[0];
        proof { crate::ast::lemma_args_are_children(file, node, 0); }
        let key: &str = match &file.nodes[first].kind {
            NodeKind::Sym(s) => s.as_str(),
            NodeKind::Str(s) => s.as_str(),
            _ => return None,
        };
        let lazy = key.unicode_len() > 0 && key.get_char(0) == '.';
        if lazy && options.enforced_style == I18nLazyLookupStyle::Lazy {
            return None;
        }
        if !lazy && options.enforced_style == I18nLazyLookupStyle::Explicit {
            return None;
        }
        let (_controller, action, full) = match find_controller_and_action(file, node) {
            Some(x) => x,
            None => return None,
        };
        let scoped = build_scoped_key(file, action, full.as_str(), key);
        let r = file.nodes[first].range;
        match options.enforced_style {
            I18nLazyLookupStyle::Lazy => {
                if !str_eq(key, scoped.as_str()) {
                    return None;
                }
                let kn = key.unicode_len();
                let dot_end = rfind_char_end(key, '.');
                let fix = concat3("'.", key.substring_char(dot_end, kn), "'");
                Some(offense1(r, String::from_str("Use lazy lookup for the text used in controllers."), r, fix))
            },
            I18nLazyLookupStyle::Explicit => {
                let fix = concat3("'", scoped.as_str(), "'");
                Some(offense1(r, String::from_str("Use explicit lookup for the text used in controllers."), r, fix))
            },
        }
    }
}

/// A translation call in an action that stands in a `private` or `protected`
/// section of its class is never reported, whichever style is enforced:
/// only public actions have lazy lookup.
pub proof fn lemma_non_public_actions_ignored(file: &SourceFile, node: NodeId, style: I18nLazyLookupStyle)
    requires
        enclosing_action(file, node) matches Some(action)
            && (section_visibility(file, action) == Some("private"@) || section_visibility(file, action) == Some("protected"@)),
    ensures
        lazy_lookup_finding(file, node, style) is None,
{
}

} // verus!
