//! `Rails/RefuteMethods`: one spelling for negative Minitest assertions,
//! `assert_not*` (the default) or `refute*`.

use vstd::prelude::*;
use crate::ast::{NodeId, NodeKind, SourceFile};
use crate::report::{finding1, offense1, Finding, Offense};
use crate::text::{concat5, opt_str_view, str_eq};

verus! {

/// The `assert_not` spelling of a `refute` assertion.
pub open spec fn assert_not_form(name: Seq<char>) -> Option<Seq<char>> {
    if name == "refute"@ {
        Some("assert_not"@)
    } else if name == "refute_empty"@ {
        Some("assert_not_empty"@)
    } else if name == "refute_equal"@ {
        Some("assert_not_equal"@)
    } else if name == "refute_in_delta"@ {
        Some("assert_not_in_delta"@)
    } else if name == "refute_in_epsilon"@ {
        Some("assert_not_in_epsilon"@)
    } else if name == "refute_includes"@ {
        Some("assert_not_includes"@)
    } else if name == "refute_instance_of"@ {
        Some("assert_not_instance_of"@)
    } else if name == "refute_kind_of"@ {
        Some("assert_not_kind_of"@)
    } else if name == "refute_nil"@ {
        Some("assert_not_nil"@)
    } else if name == "refute_operator"@ {
        Some("assert_not_operator"@)
    } else if name == "refute_predicate"@ {
        Some("assert_not_predicate"@)
    } else if name == "refute_respond_to"@ {
        Some("assert_not_respond_to"@)
    } else if name == "refute_same"@ {
        Some("assert_not_same"@)
    } else if name == "refute_match"@ {
        Some("assert_no_match"@)
    } else {
        None
    }
}

/// The `refute` spelling of an `assert_not` assertion.
pub open spec fn refute_form(name: Seq<char>) -> Option<Seq<char>> {
    if name == "assert_not"@ {
        Some("refute"@)
    } else if name == "assert_not_empty"@ {
        Some("refute_empty"@)
    } else if name == "assert_not_equal"@ {
        Some("refute_equal"@)
    } else if name == "assert_not_in_delta"@ {
        Some("refute_in_delta"@)
    } else if name == "assert_not_in_epsilon"@ {
        Some("refute_in_epsilon"@)
    } else if name == "assert_not_includes"@ {
        Some("refute_includes"@)
    } else if name == "assert_not_instance_of"@ {
        Some("refute_instance_of"@)
    } else if name == "assert_not_kind_of"@ {
        Some("refute_kind_of"@)
    } else if name == "assert_not_nil"@ {
        Some("refute_nil"@)
    } else if name == "assert_not_operator"@ {
        Some("refute_operator"@)
    } else if name == "assert_not_predicate"@ {
        Some("refute_predicate"@)
    } else if name == "assert_not_respond_to"@ {
        Some("refute_respond_to"@)
    } else if name == "assert_not_same"@ {
        Some("refute_same"@)
    } else if name == "assert_no_match"@ {
        Some("refute_match"@)
    } else {
        None
    }
}

/// Checks bare negative assertions for the spelling that `EnforcedStyle` does not prefer.
#[derive(Debug, Default)]
pub struct RefuteMethods;

/// Options of `RefuteMethods`.
#[derive(Debug)]
pub struct RefuteMethodsOptions {
    /// `EnforcedStyle`: `assert_not` (the default) or `refute`.
    pub enforced_style: RefuteMethodsStyle,
}

/// The preferred spelling of negative assertions.
#[derive(Clone, Copy, Debug, PartialEq, Eq, Structural)]
pub enum RefuteMethodsStyle {
    AssertNot,
    Refute,
}

impl Default for RefuteMethodsOptions {
    fn default() -> (o: Self)
        ensures
            o.enforced_style == RefuteMethodsStyle::AssertNot,
    {
        RefuteMethodsOptions { enforced_style: RefuteMethodsStyle::AssertNot }
    }
}

/// The preferred spelling for `bad` under `style`, if `bad` is the other spelling.
pub open spec fn good_form(bad: Seq<char>, style: RefuteMethodsStyle) -> Option<Seq<char>> {
    match style {
        RefuteMethodsStyle::AssertNot => assert_not_form(bad),
        RefuteMethodsStyle::Refute => refute_form(bad),
    }
}

/// Maps a bad method name to its preferred spelling for the style, or `None`
/// when the method is not offensive under it.
pub fn good_method(bad: &str, style: RefuteMethodsStyle) -> (r: Option<&'static str>)
    ensures
        opt_str_view(r) == good_form(bad@, style),
{
    match style {
        RefuteMethodsStyle::AssertNot => {
            if str_eq(bad, "refute") {
                Some("assert_not")
            } else if str_eq(bad, "refute_empty") {
                Some("assert_not_empty")
            } else if str_eq(bad, "refute_equal") {
                Some("assert_not_equal")
            } else if str_eq(bad, "refute_in_delta") {
                Some("assert_not_in_delta")
            } else if str_eq(bad, "refute_in_epsilon") {
                Some("assert_not_in_epsilon")
            } else if str_eq(bad, "refute_includes") {
                Some("assert_not_includes")
            } else if str_eq(bad, "refute_instance_of") {
                Some("assert_not_instance_of")
            } else if str_eq(bad, "refute_kind_of") {
                Some("assert_not_kind_of")
            } else if str_eq(bad, "refute_nil") {
                Some("assert_not_nil")
            } else if str_eq(bad, "refute_operator") {
                Some("assert_not_operator")
            } else if str_eq(bad, "refute_predicate") {
                Some("assert_not_predicate")
            } else if str_eq(bad, "refute_respond_to") {
                Some("assert_not_respond_to")
            } else if str_eq(bad, "refute_same") {
                Some("assert_not_same")
            } else if str_eq(bad, "refute_match") {
                Some("assert_no_match")
            } else {
                None
            }
        },
        RefuteMethodsStyle::Refute => {
            if str_eq(bad, "assert_not") {
                Some("refute")
            } else if str_eq(bad, "assert_not_empty") {
                Some("refute_empty")
            } else if str_eq(bad, "assert_not_equal") {
                Some("refute_equal")
            } else if str_eq(bad, "assert_not_in_delta") {
                Some("refute_in_delta")
            } else if str_eq(bad, "assert_not_in_epsilon") {
                Some("refute_in_epsilon")
            } else if str_eq(bad, "assert_not_includes") {
                Some("refute_includes")
            } else if str_eq(bad, "assert_not_instance_of") {
                Some("refute_instance_of")
            } else if str_eq(bad, "assert_not_kind_of") {
                Some("refute_kind_of")
            } else if str_eq(bad, "assert_not_nil") {
                Some("refute_nil")
            } else if str_eq(bad, "assert_not_operator") {
                Some("refute_operator")
            } else if str_eq(bad, "assert_not_predicate") {
                Some("refute_predicate")
            } else if str_eq(bad, "assert_not_respond_to") {
                Some("refute_respond_to")
            } else if str_eq(bad, "assert_not_same") {
                Some("refute_same")
            } else if str_eq(bad, "assert_no_match") {
                Some("refute_match")
            } else {
                None
            }
        },
    }
}

/// Correcting to one style and back restores the name: the two spellings
/// correspond one to one.
pub proof fn lemma_corrections_inverse(name: Seq<char>)
    ensures
        assert_not_form(name) matches Some(g) ==> refute_form(g) == Some(name),
        refute_form(name) matches Some(g) ==> assert_not_form(g) == Some(name),
{
    reveal_strlit("refute");
    assert("refute"@.len() == 6);
    reveal_strlit("refute_empty");
    assert("refute_empty"@.len() == 12);
    reveal_strlit("refute_equal");
    assert("refute_equal"@.len() == 12);
    reveal_strlit("refute_in_delta");
    assert("refute_in_delta"@.len() == 15);
    reveal_strlit("refute_in_epsilon");
    assert("refute_in_epsilon"@.len() == 17);
    reveal_strlit("refute_includes");
    assert("refute_includes"@.len() == 15);
    reveal_strlit("refute_instance_of");
    assert("refute_instance_of"@.len() == 18);
    reveal_strlit("refute_kind_of");
    assert("refute_kind_of"@.len() == 14);
    reveal_strlit("refute_nil");
    assert("refute_nil"@.len() == 10);
    reveal_strlit("refute_operator");
    assert("refute_operator"@.len() == 15);
    reveal_strlit("refute_predicate");
    assert("refute_predicate"@.len() == 16);
    reveal_strlit("refute_respond_to");
    assert("refute_respond_to"@.len() == 17);
    reveal_strlit("refute_same");
    assert("refute_same"@.len() == 11);
    reveal_strlit("refute_match");
    assert("refute_match"@.len() == 12);
    reveal_strlit("assert_not");
    assert("assert_not"@.len() == 10);
    reveal_strlit("assert_not_empty");
    assert("assert_not_empty"@.len() == 16);
    reveal_strlit("assert_not_equal");
    assert("assert_not_equal"@.len() == 16);
    reveal_strlit("assert_not_in_delta");
    assert("assert_not_in_delta"@.len() == 19);
    reveal_strlit("assert_not_in_epsilon");
    assert("assert_not_in_epsilon"@.len() == 21);
    reveal_strlit("assert_not_includes");
    assert("assert_not_includes"@.len() == 19);
    reveal_strlit("assert_not_instance_of");
    assert("assert_not_instance_of"@.len() == 22);
    reveal_strlit("assert_not_kind_of");
    assert("assert_not_kind_of"@.len() == 18);
    reveal_strlit("assert_not_nil");
    assert("assert_not_nil"@.len() == 14);
    reveal_strlit("assert_not_operator");
    assert("assert_not_operator"@.len() == 19);
    reveal_strlit("assert_not_predicate");
    assert("assert_not_predicate"@.len() == 20);
    reveal_strlit("assert_not_respond_to");
    assert("assert_not_respond_to"@.len() == 21);
    reveal_strlit("assert_not_same");
    assert("assert_not_same"@.len() == 15);
    reveal_strlit("assert_no_match");
    assert("assert_no_match"@.len() == 15);
    if name == "refute"@ {
    } else if name == "refute_empty"@ {
    } else if name == "refute_equal"@ {
        assert("assert_not_empty"@[12] != "assert_not_equal"@[12]);
    } else if name == "refute_in_delta"@ {
    } else if name == "refute_in_epsilon"@ {
    } else if name == "refute_includes"@ {
        assert("assert_not_in_delta"@[13] != "assert_not_includes"@[13]);
    } else if name == "refute_instance_of"@ {
    } else if name == "refute_kind_of"@ {
    } else if name == "refute_nil"@ {
    } else if name == "refute_operator"@ {
        assert("assert_not_in_delta"@[11] != "assert_not_operator"@[11]);
        assert("assert_not_includes"@[11] != "assert_not_operator"@[11]);
    } else if name == "refute_predicate"@ {
    } else if name == "refute_respond_to"@ {
        assert("assert_not_in_epsilon"@[11] != "assert_not_respond_to"@[11]);
    } else if name == "refute_same"@ {
    } else if name == "refute_match"@ {
        assert("assert_not_same"@[9] != "assert_no_match"@[9]);
    }
    if name == "assert_not"@ {
    } else if name == "assert_not_empty"@ {
    } else if name == "assert_not_equal"@ {
        assert("refute_empty"@[8] != "refute_equal"@[8]);
    } else if name == "assert_not_in_delta"@ {
    } else if name == "assert_not_in_epsilon"@ {
    } else if name == "assert_not_includes"@ {
        assert("refute_in_delta"@[9] != "refute_includes"@[9]);
    } else if name == "assert_not_instance_of"@ {
    } else if name == "assert_not_kind_of"@ {
    } else if name == "assert_not_nil"@ {
    } else if name == "assert_not_operator"@ {
        assert("refute_in_delta"@[7] != "refute_operator"@[7]);
        assert("refute_includes"@[7] != "refute_operator"@[7]);
    } else if name == "assert_not_predicate"@ {
    } else if name == "assert_not_respond_to"@ {
        assert("refute_in_epsilon"@[7] != "refute_respond_to"@[7]);
    } else if name == "assert_not_same"@ {
    } else if name == "assert_no_match"@ {
        assert("refute_empty"@[7] != "refute_match"@[7]);
        assert("refute_equal"@[7] != "refute_match"@[7]);
    }
}

/// What `RefuteMethods::check_send` reports for `node`.
pub open spec fn refute_finding(file: &SourceFile, node: NodeId, style: RefuteMethodsStyle) -> Option<Finding> {
    match file.kind(node) {
        NodeKind::Send { receiver: None, method, .. } => match good_form(method@, style) {
            Some(good) => Some(finding1(
                file.name_range(node),
                "Prefer `"@ + good + "` over `"@ + method@ + "`."@,
                file.name_range(node),
                good,
            )),
            None => None,
        },
        _ => None,
    }
}

impl RefuteMethods {
    /// Reports a bare assertion in the non-preferred spelling, with the edit
    /// that respells its selector.
    pub fn check_send(&self, file: &SourceFile, node: NodeId, options: &RefuteMethodsOptions) -> (r: Option<Offense>)
        requires
            file.valid(node),
        ensures
            r.deep_view() == refute_finding(file, node, options.enforced_style),
    {
        match &file.nodes[node].kind {
            NodeKind::Send { receiver: None, method, .. } => match good_method(method.as_str(), options.enforced_style) {
                Some(good) => {
                    let name = file.nodes[node].name_range;
                    let msg = concat5("Prefer `", good, "` over `", method.as_str(), "`.");
                    Some(offense1(name, msg, name, String::from_str(good)))
                },
                None => None,
            },
            _ => None,
        }
    }
}

} // verus!
