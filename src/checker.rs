//! Linter rules that an outside checker evaluates over the live bindings.
use vstd::prelude::*;

verus! {

/// The names of the rules.
#[derive(PartialEq, Eq, Structural, Clone, Copy, Debug, Hash)]
pub enum RuleName {
    Included,
    SameData,
    SameInteractions,
}

/// The severity levels.
#[derive(PartialEq, Eq, Structural, Clone, Copy, Debug, Hash)]
pub enum Severity {
    Error,
    Ignore,
    Warn,
}

/// The severity that a table of rules gives to `rule`: the last entry for it wins.
pub open spec fn severity_in(rules: Seq<(RuleName, Severity)>, rule: RuleName) -> Option<Severity>
    decreases rules.len(),
{
    if rules.len() == 0 {
        None
    } else if rules.last().0 == rule {
        Some(rules.last().1)
    } else {
        severity_in(rules.drop_last(), rule)
    }
}

/// Looks `rule` up in a table of rules.
pub fn severity_of(rules: &Vec<(RuleName, Severity)>, rule: RuleName) -> (r: Option<Severity>)
    ensures
        r == severity_in(rules@, rule),
{
    let mut i: usize = rules.len();
    proof {
        assert(rules@.subrange(0, i as int) =~= rules@);
    }
    while i > 0
        invariant
            0 <= i <= rules.len(),
            severity_in(rules@, rule) == severity_in(rules@.subrange(0, i as int), rule),
        decreases i,
    {
        proof {
            assert(rules@.subrange(0, i as int).drop_last() =~= rules@.subrange(0, i - 1));
        }
        if rules[i - 1].0 == rule {
            return Some(rules[i - 1].1);
        }
        i = i - 1;
    }
    None
}

} // verus!
