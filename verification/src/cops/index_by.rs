//! `Rails/IndexBy`: prefer `index_by` to building a hash keyed by a value
//! computed from each element.

use vstd::prelude::*;
use crate::ast::{NodeId, SourceFile};
use crate::cops::index_method::{block_finding, call_finding, check_block, check_call, check_implicit_block, implicit_block_finding};
use crate::report::Offense;

verus! {

/// Prefers `index_by` to `each_with_object`, `to_h` or `map ... .to_h`.
#[derive(Debug, Default)]
pub struct IndexBy;

impl IndexBy {
    /// `each_with_object({}) { |el, h| h[key] = el }` and `to_h { |el| [key, el] }`.
    pub fn check_block(&self, file: &SourceFile, node: NodeId) -> (r: Option<Offense>)
        requires
            file.valid(node),
        ensures
            r.deep_view() == block_finding(file, node, true),
    {
        check_block(file, node, true)
    }

    /// `to_h { [key, _1] }`.
    pub fn check_numblock(&self, file: &SourceFile, node: NodeId) -> (r: Option<Offense>)
        requires
            file.valid(node),
        ensures
            r.deep_view() == implicit_block_finding(file, node, true, true),
    {
        check_implicit_block(file, node, true, true)
    }

    /// `to_h { [key, it] }`.
    pub fn check_itblock(&self, file: &SourceFile, node: NodeId) -> (r: Option<Offense>)
        requires
            file.valid(node),
        ensures
            r.deep_view() == implicit_block_finding(file, node, true, false),
    {
        check_implicit_block(file, node, true, false)
    }

    /// `map { |el| [key, el] }.to_h` and `Hash[map { |el| [key, el] }]`.
    pub fn check_send(&self, file: &SourceFile, node: NodeId) -> (r: Option<Offense>)
        requires
            file.valid(node),
        ensures
            r.deep_view() == call_finding(file, node, true, false),
    {
        check_call(file, node, true, false)
    }

    /// `map { |el| [key, el] }&.to_h`.
    pub fn check_csend(&self, file: &SourceFile, node: NodeId) -> (r: Option<Offense>)
        requires
            file.valid(node),
        ensures
            r.deep_view() == call_finding(file, node, true, true),
    {
        check_call(file, node, true, true)
    }
}

} // verus!
