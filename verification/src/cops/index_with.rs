//! `Rails/IndexWith`: prefer `index_with` to building a hash whose values are
//! computed from each element (Rails 6.0 and later).

use vstd::prelude::*;
use crate::ast::{NodeId, SourceFile};
use crate::cops::index_method::{block_finding, call_finding, check_block, check_call, check_implicit_block, implicit_block_finding};
use crate::report::{Finding, Offense};

verus! {

/// Prefers `index_with` to `each_with_object`, `to_h` or `map ... .to_h`.
#[derive(Debug, Default)]
pub struct IndexWith;

/// `index_with` exists from Rails 6.0 on.
pub open spec fn gated(file: &SourceFile, f: Option<Finding>) -> Option<Finding> {
    if file.rails_at_least(6, 0) { f } else { None }
}

impl IndexWith {
    /// `each_with_object({}) { |el, h| h[el] = value }` and `to_h { |el| [el, value] }`.
    pub fn check_block(&self, file: &SourceFile, node: NodeId) -> (r: Option<Offense>)
        requires
            file.valid(node),
        ensures
            r.deep_view() == gated(file, block_finding(file, node, false)),
    {
        if !file.rails_version_at_least(6, 0) {
            return None;
        }
        check_block(file, node, false)
    }

    /// `to_h { [_1, value] }`.
    pub fn check_numblock(&self, file: &SourceFile, node: NodeId) -> (r: Option<Offense>)
        requires
            file.valid(node),
        ensures
            r.deep_view() == gated(file, implicit_block_finding(file, node, false, true)),
    {
        if !file.rails_version_at_least(6, 0) {
            return None;
        }
        check_implicit_block(file, node, false, true)
    }

    /// `to_h { [it, value] }`.
    pub fn check_itblock(&self, file: &SourceFile, node: NodeId) -> (r: Option<Offense>)
        requires
            file.valid(node),
        ensures
            r.deep_view() == gated(file, implicit_block_finding(file, node, false, false)),
    {
        if !file.rails_version_at_least(6, 0) {
            return None;
        }
        check_implicit_block(file, node, false, false)
    }

    /// `map { |el| [el, value] }.to_h` and `Hash[map { |el| [el, value] }]`.
    pub fn check_send(&self, file: &SourceFile, node: NodeId) -> (r: Option<Offense>)
        requires
            file.valid(node),
        ensures
            r.deep_view() == gated(file, call_finding(file, node, false, false)),
    {
        if !file.rails_version_at_least(6, 0) {
            return None;
        }
        check_call(file, node, false, false)
    }

    /// `map { |el| [el, value] }&.to_h`.
    pub fn check_csend(&self, file: &SourceFile, node: NodeId) -> (r: Option<Offense>)
        requires
            file.valid(node),
        ensures
            r.deep_view() == gated(file, call_finding(file, node, false, true)),
    {
        if !file.rails_version_at_least(6, 0) {
            return None;
        }
        check_call(file, node, false, true)
    }
}

} // verus!
