//! The Ruby syntax tree that the rules read, held as an arena of nodes.
//!
//! Node `0..nodes.len()` are numbered in pre-order: a node's parent always
//! has a smaller index than the node, and each child a larger one. Ranges
//! count characters of `source` (start inclusive, end exclusive).

use vstd::prelude::*;
use crate::text::opt_str_view;

verus! {

/// Index of a node in `SourceFile::nodes`.
pub type NodeId = usize;

/// A span of the source, in characters.
#[derive(Clone, Copy, Debug, PartialEq, Eq, Structural)]
pub struct Range {
    pub start: usize,
    pub end: usize,
}

/// The syntactic forms that the rules distinguish, with their fields.
#[derive(Debug)]
pub enum NodeKind {
    /// `receiver.method(args)`; a bare call has no receiver.
    Send { receiver: Option<NodeId>, method: String, args: Vec<NodeId> },
    /// `receiver&.method(args)`.
    Csend { receiver: NodeId, method: String, args: Vec<NodeId> },
    /// `call { |args| body }`.
    Block { call: NodeId, args: NodeId, body: Option<NodeId> },
    /// `call { _1 + _2 }`, with the highest numbered parameter.
    Numblock { send: NodeId, max_n: u8, body: Option<NodeId> },
    /// `call { it }`.
    Itblock { send: NodeId, body: Option<NodeId> },
    /// Parameter list of a block or method.
    Args(Vec<NodeId>),
    /// One plain parameter.
    Arg(String),
    /// Integer literal.
    Int(i64),
    /// Float literal; only whether its magnitude is exactly one is kept.
    Float { unit_magnitude: bool },
    /// String literal without interpolation, by its contents.
    Str(String),
    /// Interpolated string, by its parts.
    Dstr(Vec<NodeId>),
    /// Symbol literal, by its name.
    Sym(String),
    /// Regular expression literal, by its parts.
    Regexp(Vec<NodeId>),
    /// Hash literal or bare keyword arguments, by their pairs.
    Hash(Vec<NodeId>),
    /// `key => value` or `key: value`.
    Pair { key: NodeId, value: NodeId },
    /// `**expr` in a hash.
    Kwsplat(NodeId),
    /// `**nil` in a parameter list or hash.
    Kwnilarg,
    /// `...` argument forwarding.
    ForwardedArgs,
    /// `&expr` argument.
    BlockPass(Option<NodeId>),
    /// Array literal.
    Array(Vec<NodeId>),
    /// Constant reference `scope::Name`.
    Const { scope: Option<NodeId>, name: String },
    /// Leading `::` of a constant path.
    Cbase,
    /// Local variable read.
    Lvar(String),
    /// Instance variable read.
    Ivar(String),
    /// Global variable read.
    Gvar(String),
    /// Local variable assignment.
    Lvasgn { name: String, value: Option<NodeId> },
    /// Instance variable assignment.
    Ivasgn { name: String, value: Option<NodeId> },
    /// Constant assignment.
    Casgn { scope: Option<NodeId>, name: String, value: Option<NodeId> },
    /// `target ||= value`.
    OrAsgn { target: NodeId, value: NodeId },
    /// `a, b = rhs`.
    Masgn { lhs: NodeId, rhs: NodeId },
    /// Left-hand side of a multiple assignment.
    Mlhs(Vec<NodeId>),
    /// `lhs && rhs`.
    And { lhs: NodeId, rhs: NodeId },
    /// `lhs || rhs`.
    Or { lhs: NodeId, rhs: NodeId },
    /// `if`/`unless`/ternary.
    If {
        cond: NodeId,
        then_branch: Option<NodeId>,
        else_branch: Option<NodeId>,
        keyword: IfKeyword,
        /// Written after the statement it guards (`x if c`).
        modifier: bool,
        /// Has an `else` (or `elsif`) part.
        has_else: bool,
    },
    /// `class Name < Super; body; end`.
    Class { name: NodeId, superclass: Option<NodeId>, body: Option<NodeId> },
    /// `module Name; body; end`.
    Module { name: NodeId, body: Option<NodeId> },
    /// `def name(args); body; end`.
    Def { name: String, args: NodeId, body: Option<NodeId> },
    /// `def recv.name(args); body; end`.
    Defs { receiver: NodeId, name: String, args: NodeId, body: Option<NodeId> },
    /// `alias new_name old_name`.
    Alias { new_name: NodeId, old_name: NodeId },
    /// Sequence of statements.
    Begin(Vec<NodeId>),
    /// `begin ... end`.
    Kwbegin(Vec<NodeId>),
    /// `body rescue handler`, by its parts.
    Rescue(Vec<NodeId>),
    /// `while`/`until` loop, by its condition and body.
    While(Vec<NodeId>),
    True,
    False,
    Nil,
    /// `self`.
    SelfRef,
    /// Any other form, by its child nodes.
    Other(Vec<NodeId>),
}

/// How a conditional is written.
#[derive(Clone, Copy, Debug, PartialEq, Eq, Structural)]
pub enum IfKeyword {
    If,
    Unless,
    Elsif,
    /// `c ? a : b`.
    Ternary,
}

/// One node of the tree.
#[derive(Debug)]
pub struct Node {
    pub kind: NodeKind,
    /// Whole expression.
    pub range: Range,
    /// Method name of a call, name of a definition, or keyword of a
    /// conditional; else the whole expression.
    pub name_range: Range,
    /// The `.`/`&.` of a call with a receiver, if any.
    pub dot_range: Option<Range>,
    /// The `=` of an attribute assignment call (`self.x = 1`), if any.
    pub operator_range: Option<Range>,
    pub parent: Option<NodeId>,
    /// Whether the call's arguments stand in parentheses.
    pub parenthesized: bool,
    /// End of the first `)` token after the method name within the node,
    /// for a parenthesized call.
    pub paren_end: Option<usize>,
}

/// A parsed file with the settings the rules consult.
#[derive(Debug)]
pub struct SourceFile {
    pub source: String,
    pub file_path: String,
    pub nodes: Vec<Node>,
    /// Target Rails version, as (major, minor).
    pub rails_major: u32,
    pub rails_minor: u32,
}

/// The name of an instance-variable or constant assignment is no longer
/// than the assignment's span.
pub open spec fn names_within(n: Node) -> bool {
    match n.kind {
        NodeKind::Ivasgn { name, .. } => n.range.start + name@.len() <= n.range.end,
        NodeKind::Casgn { name, .. } => n.range.start + name@.len() <= n.range.end,
        _ => true,
    }
}

/// Child nodes of a form, in source order.
pub open spec fn kind_children(k: NodeKind) -> Seq<NodeId> {
    match k {
        NodeKind::Send { receiver, args, .. } => opt_seq(receiver) + args@,
        NodeKind::Csend { receiver, args, .. } => seq![receiver] + args@,
        NodeKind::Block { call, args, body } => seq![call, args] + opt_seq(body),
        NodeKind::Numblock { send, body, .. } => seq![send] + opt_seq(body),
        NodeKind::Itblock { send, body } => seq![send] + opt_seq(body),
        NodeKind::Args(l) => l@,
        NodeKind::Dstr(l) => l@,
        NodeKind::Regexp(l) => l@,
        NodeKind::Hash(l) => l@,
        NodeKind::Pair { key, value } => seq![key, value],
        NodeKind::Kwsplat(e) => seq![e],
        NodeKind::BlockPass(e) => opt_seq(e),
        NodeKind::Array(l) => l@,
        NodeKind::Const { scope, .. } => opt_seq(scope),
        NodeKind::Lvasgn { value, .. } => opt_seq(value),
        NodeKind::Ivasgn { value, .. } => opt_seq(value),
        NodeKind::Casgn { scope, value, .. } => opt_seq(scope) + opt_seq(value),
        NodeKind::OrAsgn { target, value } => seq![target, value],
        NodeKind::Masgn { lhs, rhs } => seq![lhs, rhs],
        NodeKind::Mlhs(l) => l@,
        NodeKind::And { lhs, rhs } => seq![lhs, rhs],
        NodeKind::Or { lhs, rhs } => seq![lhs, rhs],
        NodeKind::If { cond, then_branch, else_branch, .. } =>
            seq![cond] + opt_seq(then_branch) + opt_seq(else_branch),
        NodeKind::Class { name, superclass, body } =>
            seq![name] + opt_seq(superclass) + opt_seq(body),
        NodeKind::Module { name, body } => seq![name] + opt_seq(body),
        NodeKind::Def { args, body, .. } => seq![args] + opt_seq(body),
        NodeKind::Defs { receiver, args, body, .. } => seq![receiver, args] + opt_seq(body),
        NodeKind::Alias { new_name, old_name } => seq![new_name, old_name],
        NodeKind::Begin(l) => l@,
        NodeKind::Kwbegin(l) => l@,
        NodeKind::Rescue(l) => l@,
        NodeKind::While(l) => l@,
        NodeKind::Other(l) => l@,
        _ => Seq::empty(),
    }
}

/// The position of a form among the variants of `NodeKind`: two nodes are
/// of the same type exactly when these agree.
pub open spec fn kind_tag(k: NodeKind) -> int {
    match k {
        NodeKind::Send { .. } => 0,
        NodeKind::Csend { .. } => 1,
        NodeKind::Block { .. } => 2,
        NodeKind::Numblock { .. } => 3,
        NodeKind::Itblock { .. } => 4,
        NodeKind::Args(..) => 5,
        NodeKind::Arg(..) => 6,
        NodeKind::Int(..) => 7,
        NodeKind::Float { .. } => 8,
        NodeKind::Str(..) => 9,
        NodeKind::Dstr(..) => 10,
        NodeKind::Sym(..) => 11,
        NodeKind::Regexp(..) => 12,
        NodeKind::Hash(..) => 13,
        NodeKind::Pair { .. } => 14,
        NodeKind::Kwsplat(..) => 15,
        NodeKind::Kwnilarg => 16,
        NodeKind::ForwardedArgs => 17,
        NodeKind::BlockPass(..) => 18,
        NodeKind::Array(..) => 19,
        NodeKind::Const { .. } => 20,
        NodeKind::Cbase => 21,
        NodeKind::Lvar(..) => 22,
        NodeKind::Ivar(..) => 23,
        NodeKind::Gvar(..) => 24,
        NodeKind::Lvasgn { .. } => 25,
        NodeKind::Ivasgn { .. } => 26,
        NodeKind::Casgn { .. } => 27,
        NodeKind::OrAsgn { .. } => 28,
        NodeKind::Masgn { .. } => 29,
        NodeKind::Mlhs(..) => 30,
        NodeKind::And { .. } => 31,
        NodeKind::Or { .. } => 32,
        NodeKind::If { .. } => 33,
        NodeKind::Class { .. } => 34,
        NodeKind::Module { .. } => 35,
        NodeKind::Def { .. } => 36,
        NodeKind::Defs { .. } => 37,
        NodeKind::Alias { .. } => 38,
        NodeKind::Begin(..) => 39,
        NodeKind::Kwbegin(..) => 40,
        NodeKind::Rescue(..) => 41,
        NodeKind::While(..) => 42,
        NodeKind::True => 43,
        NodeKind::False => 44,
        NodeKind::Nil => 45,
        NodeKind::SelfRef => 46,
        NodeKind::Other(..) => 47,
    }
}

impl NodeKind {
    /// Computes `kind_tag`.
    pub fn tag(&self) -> (r: u8)
        ensures
            r as int == kind_tag(*self),
    {
        match self {
            NodeKind::Send { .. } => 0,
            NodeKind::Csend { .. } => 1,
            NodeKind::Block { .. } => 2,
            NodeKind::Numblock { .. } => 3,
            NodeKind::Itblock { .. } => 4,
            NodeKind::Args(..) => 5,
            NodeKind::Arg(..) => 6,
            NodeKind::Int(..) => 7,
            NodeKind::Float { .. } => 8,
            NodeKind::Str(..) => 9,
            NodeKind::Dstr(..) => 10,
            NodeKind::Sym(..) => 11,
            NodeKind::Regexp(..) => 12,
            NodeKind::Hash(..) => 13,
            NodeKind::Pair { .. } => 14,
            NodeKind::Kwsplat(..) => 15,
            NodeKind::Kwnilarg => 16,
            NodeKind::ForwardedArgs => 17,
            NodeKind::BlockPass(..) => 18,
            NodeKind::Array(..) => 19,
            NodeKind::Const { .. } => 20,
            NodeKind::Cbase => 21,
            NodeKind::Lvar(..) => 22,
            NodeKind::Ivar(..) => 23,
            NodeKind::Gvar(..) => 24,
            NodeKind::Lvasgn { .. } => 25,
            NodeKind::Ivasgn { .. } => 26,
            NodeKind::Casgn { .. } => 27,
            NodeKind::OrAsgn { .. } => 28,
            NodeKind::Masgn { .. } => 29,
            NodeKind::Mlhs(..) => 30,
            NodeKind::And { .. } => 31,
            NodeKind::Or { .. } => 32,
            NodeKind::If { .. } => 33,
            NodeKind::Class { .. } => 34,
            NodeKind::Module { .. } => 35,
            NodeKind::Def { .. } => 36,
            NodeKind::Defs { .. } => 37,
            NodeKind::Alias { .. } => 38,
            NodeKind::Begin(..) => 39,
            NodeKind::Kwbegin(..) => 40,
            NodeKind::Rescue(..) => 41,
            NodeKind::While(..) => 42,
            NodeKind::True => 43,
            NodeKind::False => 44,
            NodeKind::Nil => 45,
            NodeKind::SelfRef => 46,
            NodeKind::Other(..) => 47,
        }
    }
}

/// The optional node as a sequence of zero or one.
pub open spec fn opt_seq(o: Option<NodeId>) -> Seq<NodeId> {
    match o {
        Some(n) => seq![n],
        None => Seq::empty(),
    }
}

/// A span lies within a text of `len` characters.
pub open spec fn range_ok(r: Range, len: nat) -> bool {
    r.start <= r.end && r.end <= len
}

impl SourceFile {
    /// Number of nodes.
    pub open spec fn len(&self) -> nat {
        self.nodes@.len()
    }

    /// The form of node `n`.
    pub open spec fn kind(&self, n: NodeId) -> NodeKind {
        self.nodes@[n as int].kind
    }

    /// Children of node `n`.
    pub open spec fn children(&self, n: NodeId) -> Seq<NodeId> {
        kind_children(self.kind(n))
    }

    /// Parent of node `n`.
    pub open spec fn parent(&self, n: NodeId) -> Option<NodeId> {
        self.nodes@[n as int].parent
    }

    /// Expression range of node `n`.
    pub open spec fn range(&self, n: NodeId) -> Range {
        self.nodes@[n as int].range
    }

    /// Name range of node `n`.
    pub open spec fn name_range(&self, n: NodeId) -> Range {
        self.nodes@[n as int].name_range
    }

    /// The tree is well formed: children follow their parent in pre-order and
    /// point back to it, and every span lies within the source.
    pub open spec fn wf(&self) -> bool {
        &&& self.nodes@.len() < usize::MAX
        &&& forall|i: int| 0 <= i < self.nodes@.len() ==> #[trigger] names_within(self.nodes@[i])
        &&& forall|i: int, j: int|
            #![trigger kind_children(self.nodes@[i].kind)[j]]
            0 <= i < self.nodes@.len() && 0 <= j < kind_children(self.nodes@[i].kind).len() ==> {
                let c = kind_children(self.nodes@[i].kind)[j];
                &&& i < c < self.nodes@.len()
                &&& self.nodes@[c as int].parent == Some(i as NodeId)
                &&& self.nodes@[i].range.start <= self.nodes@[c as int].range.start
                &&& self.nodes@[c as int].range.end <= self.nodes@[i].range.end
            }
        &&& forall|i: int|
            #![trigger self.nodes@[i].parent]
            0 <= i < self.nodes@.len() ==> match self.nodes@[i].parent {
                Some(p) => p < i,
                None => true,
            }
        &&& forall|i: int|
            #![trigger self.nodes@[i].range]
            0 <= i < self.nodes@.len() ==> range_ok(self.nodes@[i].range, self.source@.len())
                && range_ok(self.nodes@[i].name_range, self.source@.len())
                && self.nodes@[i].range.start <= self.nodes@[i].name_range.start
                && self.nodes@[i].name_range.end <= self.nodes@[i].range.end
                && match self.nodes@[i].dot_range {
                    Some(d) => range_ok(d, self.source@.len()),
                    None => true,
                }
                && match self.nodes@[i].operator_range {
                    Some(d) => range_ok(d, self.source@.len()),
                    None => true,
                }
    }

    /// `node` is a valid index of a well-formed tree.
    pub open spec fn valid(&self, node: NodeId) -> bool {
        self.wf() && node < self.nodes@.len()
    }
}

impl SourceFile {
    /// The source text of a span.
    pub fn raw_source(&self, r: Range) -> (s: &str)
        requires
            range_ok(r, self.source@.len()),
        ensures
            s@ == self.source@.subrange(r.start as int, r.end as int),
    {
        self.source.as_str().substring_char(r.start, r.end)
    }

    /// Receiver of a call (`Send` or `Csend`), if any.
    pub fn call_receiver(&self, n: NodeId) -> (r: Option<NodeId>)
        requires
            n < self.nodes@.len(),
        ensures
            r == call_receiver_of(self.kind(n)),
    {
        match &self.nodes[n].kind {
            NodeKind::Send { receiver, .. } => *receiver,
            NodeKind::Csend { receiver, .. } => Some(*receiver),
            _ => None,
        }
    }

    /// Method name of a call (`Send` or `Csend`), if `n` is one.
    pub fn method_name(&self, n: NodeId) -> (r: Option<&str>)
        requires
            n < self.nodes@.len(),
        ensures
            opt_str_view(r) == method_of(self.kind(n)),
    {
        match &self.nodes[n].kind {
            NodeKind::Send { method, .. } => Some(method.as_str()),
            NodeKind::Csend { method, .. } => Some(method.as_str()),
            _ => None,
        }
    }

    /// Arguments of a call (`Send` or `Csend`); empty for other nodes.
    pub fn call_arguments(&self, n: NodeId) -> (r: &[NodeId])
        requires
            n < self.nodes@.len(),
        ensures
            r@ == args_of(self.kind(n)),
    {
        match &self.nodes[n].kind {
            NodeKind::Send { args, .. } => args.as_slice(),
            NodeKind::Csend { args, .. } => args.as_slice(),
            _ => &[],
        }
    }
}

/// Receiver of a call form.
pub open spec fn call_receiver_of(k: NodeKind) -> Option<NodeId> {
    match k {
        NodeKind::Send { receiver, .. } => receiver,
        NodeKind::Csend { receiver, .. } => Some(receiver),
        _ => None,
    }
}

/// Method name of a call form.
pub open spec fn method_of(k: NodeKind) -> Option<Seq<char>> {
    match k {
        NodeKind::Send { method, .. } => Some(method@),
        NodeKind::Csend { method, .. } => Some(method@),
        _ => None,
    }
}

/// Arguments of a call form; empty for other forms.
pub open spec fn args_of(k: NodeKind) -> Seq<NodeId> {
    match k {
        NodeKind::Send { args, .. } => args@,
        NodeKind::Csend { args, .. } => args@,
        _ => Seq::empty(),
    }
}


/// Appends the optional node.
fn push_opt(v: &mut Vec<NodeId>, o: Option<NodeId>)
    ensures
        final(v)@ == old(v)@ + opt_seq(o),
{
    match o {
        Some(n) => {
            v.push(n);
        },
        None => {},
    }
    assert(final(v)@ =~= old(v)@ + opt_seq(o));
}

/// Appends all nodes of a list.
fn push_all(v: &mut Vec<NodeId>, l: &Vec<NodeId>)
    ensures
        final(v)@ == old(v)@ + l@,
{
    let mut i: usize = 0;
    while i < l.len()
        invariant
            i <= l@.len(),
            v@ == old(v)@ + l@.subrange(0, i as int),
        decreases l@.len() - i,
    {
        v.push(l[i]);
        i = i + 1;
        assert(v@ =~= old(v)@ + l@.subrange(0, i as int));
    }
    assert(l@.subrange(0, l@.len() as int) =~= l@);
}

impl SourceFile {
    /// Children of node `n`, in source order.
    pub fn children_of(&self, n: NodeId) -> (r: Vec<NodeId>)
        requires
            n < self.nodes@.len(),
        ensures
            r@ == self.children(n),
    {
        let mut v: Vec<NodeId> = Vec::new();
        match &self.nodes[n].kind {
            NodeKind::Send { receiver, args, .. } => {
                push_opt(&mut v, *receiver);
                push_all(&mut v, args);
            },
            NodeKind::Csend { receiver, args, .. } => {
                v.push(*receiver);
                push_all(&mut v, args);
            },
            NodeKind::Block { call, args, body } => {
                v.push(*call);
                v.push(*args);
                push_opt(&mut v, *body);
            },
            NodeKind::Numblock { send, body, .. } => {
                v.push(*send);
                push_opt(&mut v, *body);
            },
            NodeKind::Itblock { send, body } => {
                v.push(*send);
                push_opt(&mut v, *body);
            },
            NodeKind::Args(l) | NodeKind::Dstr(l) | NodeKind::Regexp(l) | NodeKind::Hash(l)
            | NodeKind::Array(l) | NodeKind::Mlhs(l) | NodeKind::Begin(l) | NodeKind::Kwbegin(l)
            | NodeKind::Rescue(l) | NodeKind::While(l)
            | NodeKind::Other(l) => {
                push_all(&mut v, l);
            },
            NodeKind::Pair { key, value } => {
                v.push(*key);
                v.push(*value);
            },
            NodeKind::Kwsplat(e) => {
                v.push(*e);
            },
            NodeKind::BlockPass(e) => {
                push_opt(&mut v, *e);
            },
            NodeKind::Const { scope, .. } => {
                push_opt(&mut v, *scope);
            },
            NodeKind::Lvasgn { value, .. } | NodeKind::Ivasgn { value, .. } => {
                push_opt(&mut v, *value);
            },
            NodeKind::Casgn { scope, value, .. } => {
                push_opt(&mut v, *scope);
                push_opt(&mut v, *value);
            },
            NodeKind::OrAsgn { target, value } => {
                v.push(*target);
                v.push(*value);
            },
            NodeKind::Masgn { lhs, rhs } | NodeKind::And { lhs, rhs } | NodeKind::Or { lhs, rhs } => {
                v.push(*lhs);
                v.push(*rhs);
            },
            NodeKind::Alias { new_name, old_name } => {
                v.push(*new_name);
                v.push(*old_name);
            },
            NodeKind::If { cond, then_branch, else_branch, .. } => {
                v.push(*cond);
                push_opt(&mut v, *then_branch);
                push_opt(&mut v, *else_branch);
            },
            NodeKind::Class { name, superclass, body } => {
                v.push(*name);
                push_opt(&mut v, *superclass);
                push_opt(&mut v, *body);
            },
            NodeKind::Module { name, body } => {
                v.push(*name);
                push_opt(&mut v, *body);
            },
            NodeKind::Def { args, body, .. } => {
                v.push(*args);
                push_opt(&mut v, *body);
            },
            NodeKind::Defs { receiver, args, body, .. } => {
                v.push(*receiver);
                v.push(*args);
                push_opt(&mut v, *body);
            },
            _ => {},
        }
        assert(v@ =~= self.children(n));
        v
    }
}


impl SourceFile {
    /// The path of a constant reference, `A::B::C`; a leading `::` is dropped,
    /// and a scope that is not a constant gives none.
    pub open spec fn const_path(&self, n: NodeId) -> Option<Seq<char>>
        decreases self.nodes@.len() - n,
    {
        match self.kind(n) {
            NodeKind::Const { scope: None, name } => Some(name@),
            NodeKind::Const { scope: Some(sc), name } => {
                if self.kind(sc) is Cbase {
                    Some(name@)
                } else if n < sc < self.nodes@.len() {
                    match self.const_path(sc) {
                        Some(p) => Some(p + "::"@ + name@),
                        None => None,
                    }
                } else {
                    None
                }
            },
            _ => None,
        }
    }

    /// Computes `const_path`.
    pub fn const_name(&self, n: NodeId) -> (r: Option<String>)
        requires
            self.valid(n),
        ensures
            opt_string_view(r) == self.const_path(n),
        decreases self.nodes@.len() - n,
    {
        match &self.nodes[n].kind {
            NodeKind::Const { scope: None, name } => Some(name.clone()),
            NodeKind::Const { scope: Some(sc), name } => {
                assert(self.children(n)[0] == *sc);
                if let NodeKind::Cbase = &self.nodes[*sc].kind {
                    Some(name.clone())
                } else {
                    match self.const_name(*sc) {
                        Some(p) => {
                            let mut r = p;
                            r.append("::");
                            r.append(name.as_str());
                            Some(r)
                        },
                        None => None,
                    }
                }
            },
            _ => None,
        }
    }
}

/// The characters of an optional string.
pub open spec fn opt_string_view(o: Option<String>) -> Option<Seq<char>> {
    match o {
        Some(s) => Some(s@),
        None => None,
    }
}


/// Whether a form is a `class` or `module` definition.
pub open spec fn is_class_or_module(k: NodeKind) -> bool {
    k is Class || k is Module
}

/// `is_class_or_module` as a predicate value.
pub open spec fn class_or_module() -> spec_fn(NodeKind) -> bool {
    |k: NodeKind| is_class_or_module(k)
}

impl SourceFile {
    /// The nearest proper ancestor of `n` whose form satisfies `pred`.
    pub open spec fn nearest_ancestor(&self, n: NodeId, pred: spec_fn(NodeKind) -> bool) -> Option<NodeId>
        decreases n,
    {
        match self.parent(n) {
            Some(p) => {
                if p < n {
                    if pred(self.kind(p)) {
                        Some(p)
                    } else {
                        self.nearest_ancestor(p, pred)
                    }
                } else {
                    None
                }
            },
            None => None,
        }
    }

    /// The nearest enclosing `class` or `module`.
    pub fn enclosing_class_or_module(&self, n: NodeId) -> (r: Option<NodeId>)
        requires
            self.valid(n),
        ensures
            r == self.nearest_ancestor(n, class_or_module()),
            r matches Some(a) ==> a < n && is_class_or_module(self.kind(a)),
    {
        let ghost pred = class_or_module();
        let mut cur = n;
        loop
            invariant
                self.wf(),
                cur <= n < self.nodes@.len(),
                pred == class_or_module(),
                self.nearest_ancestor(n, pred) == self.nearest_ancestor(cur, pred),
            decreases cur,
        {
            match self.nodes[cur].parent {
                Some(p) => {
                    assert(p < cur);
                    match &self.nodes[p].kind {
                        NodeKind::Class { .. } | NodeKind::Module { .. } => {
                            assert(pred(self.kind(p)));
                            return Some(p);
                        },
                        _ => {
                            assert(!pred(self.kind(p)));
                            cur = p;
                        },
                    }
                },
                None => return None,
            }
        }
    }
}


impl SourceFile {
    /// The target Rails version is at least `major.minor`.
    pub open spec fn rails_at_least(&self, major: u32, minor: u32) -> bool {
        self.rails_major > major || (self.rails_major == major && self.rails_minor >= minor)
    }

    /// Decides `rails_at_least`.
    pub fn rails_version_at_least(&self, major: u32, minor: u32) -> (r: bool)
        ensures
            r == self.rails_at_least(major, minor),
    {
        self.rails_major > major || (self.rails_major == major && self.rails_minor >= minor)
    }
}


/// `class` definitions, as a predicate value.
pub open spec fn class_pred() -> spec_fn(NodeKind) -> bool {
    |k: NodeKind| k is Class
}

impl SourceFile {
    /// Whether some ancestor of `n` is a `class` definition.
    pub fn inside_class(&self, n: NodeId) -> (r: bool)
        requires
            self.valid(n),
        ensures
            r == (self.nearest_ancestor(n, class_pred()) is Some),
    {
        let ghost pred = class_pred();
        let mut cur = n;
        loop
            invariant
                self.wf(),
                cur <= n < self.nodes@.len(),
                pred == class_pred(),
                self.nearest_ancestor(n, pred) == self.nearest_ancestor(cur, pred),
            decreases cur,
        {
            match self.nodes[cur].parent {
                Some(p) => {
                    assert(p < cur);
                    match &self.nodes[p].kind {
                        NodeKind::Class { .. } => {
                            assert(pred(self.kind(p)));
                            return true;
                        },
                        _ => {
                            assert(!pred(self.kind(p)));
                            cur = p;
                        },
                    }
                },
                None => return false,
            }
        }
    }
}


impl SourceFile {
    /// The nearest enclosing `class` definition.
    pub fn enclosing_class(&self, n: NodeId) -> (r: Option<NodeId>)
        requires
            self.valid(n),
        ensures
            r == self.nearest_ancestor(n, class_pred()),
            r matches Some(a) ==> a < n && self.kind(a) is Class,
    {
        let ghost pred = class_pred();
        let mut cur = n;
        loop
            invariant
                self.wf(),
                cur <= n < self.nodes@.len(),
                pred == class_pred(),
                self.nearest_ancestor(n, pred) == self.nearest_ancestor(cur, pred),
            decreases cur,
        {
            match self.nodes[cur].parent {
                Some(p) => {
                    assert(p < cur);
                    match &self.nodes[p].kind {
                        NodeKind::Class { .. } => {
                            assert(pred(self.kind(p)));
                            return Some(p);
                        },
                        _ => {
                            assert(!pred(self.kind(p)));
                            cur = p;
                        },
                    }
                },
                None => return None,
            }
        }
    }
}

/// The block (`{ }` or `do end`) that `n` is the call of, if any.
pub open spec fn block_of(file: &SourceFile, n: NodeId) -> Option<NodeId> {
    match file.parent(n) {
        Some(b) => match file.kind(b) {
            NodeKind::Block { call, .. } => if call == n { Some(b) } else { None },
            NodeKind::Numblock { send, .. } => if send == n { Some(b) } else { None },
            NodeKind::Itblock { send, .. } => if send == n { Some(b) } else { None },
            _ => None,
        },
        None => None,
    }
}

/// Arguments of a call are among its children.
pub proof fn lemma_args_are_children(file: &SourceFile, node: NodeId, i: int)
    requires
        file.valid(node),
        0 <= i < args_of(file.kind(node)).len(),
    ensures
        args_of(file.kind(node))[i] < file.nodes@.len(),
        node < args_of(file.kind(node))[i],
        file.range(node).start <= file.range(args_of(file.kind(node))[i]).start,
        file.range(args_of(file.kind(node))[i]).end <= file.range(node).end,
        file.parent(args_of(file.kind(node))[i]) == Some(node),
{
    match file.kind(node) {
        NodeKind::Send { receiver, args, .. } => {
            let k = opt_seq(receiver).len() + i;
            assert(file.children(node)[k] == args@[i]);
        },
        NodeKind::Csend { receiver, args, .. } => {
            assert(file.children(node)[1 + i] == args@[i]);
        },
        _ => {},
    }
}


impl SourceFile {
    /// The span of a call without the block attached to it: up to its
    /// closing parenthesis, last argument or method name.
    pub open spec fn send_only_span(&self, n: NodeId) -> Range {
        let r = self.range(n);
        if block_of(self, n) is None {
            r
        } else {
            let node = self.nodes@[n as int];
            let a = args_of(node.kind);
            let end = if node.parenthesized {
                match node.paren_end {
                    Some(e) => e,
                    None => r.end,
                }
            } else if a.len() > 0 {
                self.range(a.last()).end
            } else {
                node.name_range.end
            };
            Range { start: r.start, end: if end < r.end { end } else { r.end } }
        }
    }

    /// Computes `send_only_span`.
    pub fn send_only_range(&self, n: NodeId) -> (r: Range)
        requires
            self.valid(n),
        ensures
            r == self.send_only_span(n),
    {
        let r = self.nodes[n].range;
        if self.block_node(n).is_none() {
            return r;
        }
        let a = self.call_arguments(n);
        let end = if self.nodes[n].parenthesized {
            match self.nodes[n].paren_end {
                Some(e) => e,
                None => r.end,
            }
        } else if a.len() > 0 {
            proof { lemma_args_are_children(self, n, a@.len() - 1); }
            self.nodes[a[a.len() - 1]].range.end
        } else {
            self.nodes[n].name_range.end
        };
        Range { start: r.start, end: if end < r.end { end } else { r.end } }
    }

    /// The block that `n` is the call of, if any.
    pub fn block_node(&self, n: NodeId) -> (r: Option<NodeId>)
        requires
            self.valid(n),
        ensures
            r == block_of(self, n),
    {
        match self.nodes[n].parent {
            Some(b) => match &self.nodes[b].kind {
                NodeKind::Block { call, .. } => if *call == n { Some(b) } else { None },
                NodeKind::Numblock { send, .. } => if *send == n { Some(b) } else { None },
                NodeKind::Itblock { send, .. } => if *send == n { Some(b) } else { None },
                _ => None,
            },
            None => None,
        }
    }
}


/// A `Send` or `Csend`.
pub open spec fn is_call(k: NodeKind) -> bool {
    k is Send || k is Csend
}

/// `is_call` as a predicate value.
pub open spec fn call_pred() -> spec_fn(NodeKind) -> bool {
    |k: NodeKind| is_call(k)
}

impl SourceFile {
    /// Some node of the subtree rooted at `n` (itself included) satisfies `pred`.
    pub open spec fn subtree_has(&self, n: NodeId, pred: spec_fn(NodeId) -> bool) -> bool
        decreases self.nodes@.len() - n, 1int, 0int,
    {
        pred(n) || self.children_have(n, self.children(n), pred)
    }

    /// Some subtree rooted at one of the children `ids` of `n` has a node satisfying `pred`.
    pub open spec fn children_have(&self, n: NodeId, ids: Seq<NodeId>, pred: spec_fn(NodeId) -> bool) -> bool
        decreases self.nodes@.len() - n, 0int, ids.len(),
    {
        if ids.len() == 0 {
            false
        } else {
            (n < ids[0] < self.nodes@.len() && self.subtree_has(ids[0], pred)) || self.children_have(n, ids.drop_first(), pred)
        }
    }

    /// The nearest enclosing call.
    pub fn enclosing_call(&self, n: NodeId) -> (r: Option<NodeId>)
        requires
            self.valid(n),
        ensures
            r == self.nearest_ancestor(n, call_pred()),
            r matches Some(a) ==> a < n && is_call(self.kind(a)),
    {
        let ghost pred = call_pred();
        let mut cur = n;
        loop
            invariant
                self.wf(),
                cur <= n < self.nodes@.len(),
                pred == call_pred(),
                self.nearest_ancestor(n, pred) == self.nearest_ancestor(cur, pred),
            decreases cur,
        {
            match self.nodes[cur].parent {
                Some(p) => {
                    assert(p < cur);
                    match &self.nodes[p].kind {
                        NodeKind::Send { .. } | NodeKind::Csend { .. } => {
                            assert(pred(self.kind(p)));
                            return Some(p);
                        },
                        _ => {
                            assert(!pred(self.kind(p)));
                            cur = p;
                        },
                    }
                },
                None => return None,
            }
        }
    }
}


impl SourceFile {
    /// Some proper ancestor of `n` satisfies `pred`.
    pub open spec fn some_ancestor(&self, n: NodeId, pred: spec_fn(NodeId) -> bool) -> bool
        decreases n,
    {
        match self.parent(n) {
            Some(p) => p < n && (pred(p) || self.some_ancestor(p, pred)),
            None => false,
        }
    }
}

} // verus!
