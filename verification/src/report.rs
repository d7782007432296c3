//! What a rule reports: a span, a message and the edits that correct it.

use vstd::prelude::*;
use crate::ast::Range;

verus! {

/// A replacement of a span of the source.
#[derive(Debug)]
pub struct Edit {
    pub range: Range,
    pub replacement: String,
}

/// A reported finding, with the edits that correct it.
#[derive(Debug)]
pub struct Offense {
    pub range: Range,
    pub message: String,
    pub edits: Vec<Edit>,
}

/// The mathematical content of an `Offense`.
pub struct Finding {
    pub range: Range,
    pub message: Seq<char>,
    pub edits: Seq<(Range, Seq<char>)>,
}

impl DeepView for Edit {
    type V = (Range, Seq<char>);

    open spec fn deep_view(&self) -> (Range, Seq<char>) {
        (self.range, self.replacement@)
    }
}

impl DeepView for Offense {
    type V = Finding;

    open spec fn deep_view(&self) -> Finding {
        Finding { range: self.range, message: self.message@, edits: self.edits.deep_view() }
    }
}

/// A finding with one edit.
pub open spec fn finding1(range: Range, message: Seq<char>, edit_range: Range, replacement: Seq<char>) -> Finding {
    Finding { range, message, edits: seq![(edit_range, replacement)] }
}

/// Builds an offense with one edit.
pub fn offense1(range: Range, message: String, edit_range: Range, replacement: String) -> (o: Offense)
    ensures
        o.deep_view() == finding1(range, message@, edit_range, replacement@),
{
    let mut edits: Vec<Edit> = Vec::new();
    edits.push(Edit { range: edit_range, replacement });
    let o = Offense { range, message, edits };
    assert(o.deep_view().edits =~= seq![(edit_range, replacement@)]);
    o
}

/// Builds an offense without edits.
pub fn offense0(range: Range, message: String) -> (o: Offense)
    ensures
        o.deep_view() == (Finding { range, message: message@, edits: Seq::empty() }),
{
    let o = Offense { range, message, edits: Vec::new() };
    assert(o.deep_view().edits =~= Seq::<(Range, Seq<char>)>::empty());
    o
}

/// `src` with the span `r` replaced by `text`: one edit applied.
pub open spec fn splice(src: Seq<char>, r: Range, text: Seq<char>) -> Seq<char> {
    src.subrange(0, r.start as int) + text + src.subrange(r.end as int, src.len() as int)
}

} // verus!
