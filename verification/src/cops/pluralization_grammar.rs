//! `Rails/PluralizationGrammar`: the duration method must agree in number
//! with its literal receiver (`1.day`, `2.days`).

use vstd::prelude::*;
use crate::ast::{NodeId, NodeKind, SourceFile};
use crate::report::{finding1, offense1, Finding, Offense};
use crate::text::{concat2, opt_str_view, str_eq};

verus! {

/// Plural form of a singular duration method.
pub open spec fn plural_of(name: Seq<char>) -> Option<Seq<char>> {
    if name == "second"@ {
        Some("seconds"@)
    } else if name == "minute"@ {
        Some("minutes"@)
    } else if name == "hour"@ {
        Some("hours"@)
    } else if name == "day"@ {
        Some("days"@)
    } else if name == "week"@ {
        Some("weeks"@)
    } else if name == "fortnight"@ {
        Some("fortnights"@)
    } else if name == "month"@ {
        Some("months"@)
    } else if name == "year"@ {
        Some("years"@)
    } else if name == "byte"@ {
        Some("bytes"@)
    } else if name == "kilobyte"@ {
        Some("kilobytes"@)
    } else if name == "megabyte"@ {
        Some("megabytes"@)
    } else if name == "gigabyte"@ {
        Some("gigabytes"@)
    } else if name == "terabyte"@ {
        Some("terabytes"@)
    } else if name == "petabyte"@ {
        Some("petabytes"@)
    } else if name == "exabyte"@ {
        Some("exabytes"@)
    } else if name == "zettabyte"@ {
        Some("zettabytes"@)
    } else {
        None
    }
}

/// Singular form of a plural duration method.
pub open spec fn singular_of(name: Seq<char>) -> Option<Seq<char>> {
    if name == "seconds"@ {
        Some("second"@)
    } else if name == "minutes"@ {
        Some("minute"@)
    } else if name == "hours"@ {
        Some("hour"@)
    } else if name == "days"@ {
        Some("day"@)
    } else if name == "weeks"@ {
        Some("week"@)
    } else if name == "fortnights"@ {
        Some("fortnight"@)
    } else if name == "months"@ {
        Some("month"@)
    } else if name == "years"@ {
        Some("year"@)
    } else if name == "bytes"@ {
        Some("byte"@)
    } else if name == "kilobytes"@ {
        Some("kilobyte"@)
    } else if name == "megabytes"@ {
        Some("megabyte"@)
    } else if name == "gigabytes"@ {
        Some("gigabyte"@)
    } else if name == "terabytes"@ {
        Some("terabyte"@)
    } else if name == "petabytes"@ {
        Some("petabyte"@)
    } else if name == "exabytes"@ {
        Some("exabyte"@)
    } else if name == "zettabytes"@ {
        Some("zettabyte"@)
    } else {
        None
    }
}

/// Singular duration method to its plural form.
pub fn pluralize(name: &str) -> (r: Option<&'static str>)
    ensures
        opt_str_view(r) == plural_of(name@),
{
    if str_eq(name, "second") {
        Some("seconds")
    } else if str_eq(name, "minute") {
        Some("minutes")
    } else if str_eq(name, "hour") {
        Some("hours")
    } else if str_eq(name, "day") {
        Some("days")
    } else if str_eq(name, "week") {
        Some("weeks")
    } else if str_eq(name, "fortnight") {
        Some("fortnights")
    } else if str_eq(name, "month") {
        Some("months")
    } else if str_eq(name, "year") {
        Some("years")
    } else if str_eq(name, "byte") {
        Some("bytes")
    } else if str_eq(name, "kilobyte") {
        Some("kilobytes")
    } else if str_eq(name, "megabyte") {
        Some("megabytes")
    } else if str_eq(name, "gigabyte") {
        Some("gigabytes")
    } else if str_eq(name, "terabyte") {
        Some("terabytes")
    } else if str_eq(name, "petabyte") {
        Some("petabytes")
    } else if str_eq(name, "exabyte") {
        Some("exabytes")
    } else if str_eq(name, "zettabyte") {
        Some("zettabytes")
    } else {
        None
    }
}

/// Plural duration method to its singular form.
pub fn singularize(name: &str) -> (r: Option<&'static str>)
    ensures
        opt_str_view(r) == singular_of(name@),
{
    if str_eq(name, "seconds") {
        Some("second")
    } else if str_eq(name, "minutes") {
        Some("minute")
    } else if str_eq(name, "hours") {
        Some("hour")
    } else if str_eq(name, "days") {
        Some("day")
    } else if str_eq(name, "weeks") {
        Some("week")
    } else if str_eq(name, "fortnights") {
        Some("fortnight")
    } else if str_eq(name, "months") {
        Some("month")
    } else if str_eq(name, "years") {
        Some("year")
    } else if str_eq(name, "bytes") {
        Some("byte")
    } else if str_eq(name, "kilobytes") {
        Some("kilobyte")
    } else if str_eq(name, "megabytes") {
        Some("megabyte")
    } else if str_eq(name, "gigabytes") {
        Some("gigabyte")
    } else if str_eq(name, "terabytes") {
        Some("terabyte")
    } else if str_eq(name, "petabytes") {
        Some("petabyte")
    } else if str_eq(name, "exabytes") {
        Some("exabyte")
    } else if str_eq(name, "zettabytes") {
        Some("zettabyte")
    } else {
        None
    }
}

/// The two tables are inverse to each other.
pub proof fn lemma_number_forms_inverse(name: Seq<char>)
    ensures
        plural_of(name) matches Some(p) ==> singular_of(p) == Some(name),
        singular_of(name) matches Some(s) ==> plural_of(s) == Some(name),
{
    reveal_strlit("second");
    assert("second"@.len() == 6);
    reveal_strlit("minute");
    assert("minute"@.len() == 6);
    reveal_strlit("hour");
    assert("hour"@.len() == 4);
    reveal_strlit("day");
    assert("day"@.len() == 3);
    reveal_strlit("week");
    assert("week"@.len() == 4);
    reveal_strlit("fortnight");
    assert("fortnight"@.len() == 9);
    reveal_strlit("month");
    assert("month"@.len() == 5);
    reveal_strlit("year");
    assert("year"@.len() == 4);
    reveal_strlit("byte");
    assert("byte"@.len() == 4);
    reveal_strlit("kilobyte");
    assert("kilobyte"@.len() == 8);
    reveal_strlit("megabyte");
    assert("megabyte"@.len() == 8);
    reveal_strlit("gigabyte");
    assert("gigabyte"@.len() == 8);
    reveal_strlit("terabyte");
    assert("terabyte"@.len() == 8);
    reveal_strlit("petabyte");
    assert("petabyte"@.len() == 8);
    reveal_strlit("exabyte");
    assert("exabyte"@.len() == 7);
    reveal_strlit("zettabyte");
    assert("zettabyte"@.len() == 9);
    reveal_strlit("seconds");
    assert("seconds"@.len() == 7);
    reveal_strlit("minutes");
    assert("minutes"@.len() == 7);
    reveal_strlit("hours");
    assert("hours"@.len() == 5);
    reveal_strlit("days");
    assert("days"@.len() == 4);
    reveal_strlit("weeks");
    assert("weeks"@.len() == 5);
    reveal_strlit("fortnights");
    assert("fortnights"@.len() == 10);
    reveal_strlit("months");
    assert("months"@.len() == 6);
    reveal_strlit("years");
    assert("years"@.len() == 5);
    reveal_strlit("bytes");
    assert("bytes"@.len() == 5);
    reveal_strlit("kilobytes");
    assert("kilobytes"@.len() == 9);
    reveal_strlit("megabytes");
    assert("megabytes"@.len() == 9);
    reveal_strlit("gigabytes");
    assert("gigabytes"@.len() == 9);
    reveal_strlit("terabytes");
    assert("terabytes"@.len() == 9);
    reveal_strlit("petabytes");
    assert("petabytes"@.len() == 9);
    reveal_strlit("exabytes");
    assert("exabytes"@.len() == 8);
    reveal_strlit("zettabytes");
    assert("zettabytes"@.len() == 10);
    if name == "second"@ {
    } else if name == "minute"@ {
        assert("seconds"@[0] != "minutes"@[0]);
    } else if name == "hour"@ {
    } else if name == "day"@ {
    } else if name == "week"@ {
        assert("hours"@[0] != "weeks"@[0]);
    } else if name == "fortnight"@ {
    } else if name == "month"@ {
    } else if name == "year"@ {
        assert("hours"@[0] != "years"@[0]);
        assert("weeks"@[0] != "years"@[0]);
    } else if name == "byte"@ {
        assert("hours"@[0] != "bytes"@[0]);
        assert("weeks"@[0] != "bytes"@[0]);
        assert("years"@[0] != "bytes"@[0]);
    } else if name == "kilobyte"@ {
    } else if name == "megabyte"@ {
        assert("kilobytes"@[0] != "megabytes"@[0]);
    } else if name == "gigabyte"@ {
        assert("kilobytes"@[0] != "gigabytes"@[0]);
        assert("megabytes"@[0] != "gigabytes"@[0]);
    } else if name == "terabyte"@ {
        assert("kilobytes"@[0] != "terabytes"@[0]);
        assert("megabytes"@[0] != "terabytes"@[0]);
        assert("gigabytes"@[0] != "terabytes"@[0]);
    } else if name == "petabyte"@ {
        assert("kilobytes"@[0] != "petabytes"@[0]);
        assert("megabytes"@[0] != "petabytes"@[0]);
        assert("gigabytes"@[0] != "petabytes"@[0]);
        assert("terabytes"@[0] != "petabytes"@[0]);
    } else if name == "exabyte"@ {
    } else if name == "zettabyte"@ {
        assert("fortnights"@[0] != "zettabytes"@[0]);
    }
    if name == "seconds"@ {
    } else if name == "minutes"@ {
        assert("second"@[0] != "minute"@[0]);
    } else if name == "hours"@ {
    } else if name == "days"@ {
    } else if name == "weeks"@ {
        assert("hour"@[0] != "week"@[0]);
    } else if name == "fortnights"@ {
    } else if name == "months"@ {
    } else if name == "years"@ {
        assert("hour"@[0] != "year"@[0]);
        assert("week"@[0] != "year"@[0]);
    } else if name == "bytes"@ {
        assert("hour"@[0] != "byte"@[0]);
        assert("week"@[0] != "byte"@[0]);
        assert("year"@[0] != "byte"@[0]);
    } else if name == "kilobytes"@ {
    } else if name == "megabytes"@ {
        assert("kilobyte"@[0] != "megabyte"@[0]);
    } else if name == "gigabytes"@ {
        assert("kilobyte"@[0] != "gigabyte"@[0]);
        assert("megabyte"@[0] != "gigabyte"@[0]);
    } else if name == "terabytes"@ {
        assert("kilobyte"@[0] != "terabyte"@[0]);
        assert("megabyte"@[0] != "terabyte"@[0]);
        assert("gigabyte"@[0] != "terabyte"@[0]);
    } else if name == "petabytes"@ {
        assert("kilobyte"@[0] != "petabyte"@[0]);
        assert("megabyte"@[0] != "petabyte"@[0]);
        assert("gigabyte"@[0] != "petabyte"@[0]);
        assert("terabyte"@[0] != "petabyte"@[0]);
    } else if name == "exabytes"@ {
    } else if name == "zettabytes"@ {
        assert("fortnight"@[0] != "zettabyte"@[0]);
    }
}

/// Checks duration calls on a number literal for singular/plural agreement.
#[derive(Debug, Default)]
pub struct PluralizationGrammar;

/// What `PluralizationGrammar::check_send` reports for `node`: a call on an
/// integer or float literal whose method's number disagrees with it.
pub open spec fn pluralization_finding(file: &SourceFile, node: NodeId) -> Option<Finding> {
    match file.kind(node) {
        NodeKind::Send { receiver: Some(recv), method, .. } => {
            let is_one = match file.kind(recv) {
                NodeKind::Int(n) => Some(n == 1 || n == -1),
                NodeKind::Float { unit_magnitude } => Some(unit_magnitude),
                _ => None,
            };
            let is_plural = method@.len() > 0 && method@.last() == 's';
            match is_one {
                Some(one) => {
                    let correct = if one && is_plural {
                        singular_of(method@)
                    } else if !one && !is_plural {
                        plural_of(method@)
                    } else {
                        None
                    };
                    match correct {
                        Some(c) => {
                            let number = file.source@.subrange(file.range(recv).start as int, file.range(recv).end as int);
                            Some(finding1(file.range(node), "Prefer `"@ + number + "."@ + c + "`."@, file.name_range(node), c))
                        },
                        None => None,
                    }
                },
                None => None,
            }
        },
        _ => None,
    }
}

impl PluralizationGrammar {
    /// Reports the call and respells its method in the agreeing number.
    pub fn check_send(&self, file: &SourceFile, node: NodeId) -> (r: Option<Offense>)
        requires
            file.valid(node),
        ensures
            r.deep_view() == pluralization_finding(file, node),
    {
        let (recv, method) = match &file.nodes[node].kind {
            NodeKind::Send { receiver: Some(recv), method, .. } => (*recv, method),
            _ => return None,
        };
        assert(file.children(node)[0] == recv);
        let is_one = match &file.nodes[recv].kind {
            NodeKind::Int(n) => *n == 1 || *n == -1,
            NodeKind::Float { unit_magnitude } => *unit_magnitude,
            _ => return None,
        };
        let len = method.as_str().unicode_len();
        let is_plural = len > 0 && method.as_str().get_char(len - 1) == 's';
        let correct = if is_one && is_plural {
            singularize(method.as_str())
        } else if !is_one && !is_plural {
            pluralize(method.as_str())
        } else {
            None
        };
        match correct {
            Some(c) => {
                let number = file.raw_source(file.nodes[recv].range);
                let msg = {
                    let mut m = concat2("Prefer `", number);
                    m.append(".");
                    m.append(c);
                    m.append("`.");
                    m
                };
                Some(offense1(file.nodes[node].range, msg, file.nodes[node].name_range, String::from_str(c)))
            },
            None => None,
        }
    }
}

} // verus!
