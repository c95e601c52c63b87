//! What it means for a box to meet a rule, and what follows for the rules
//! that the scans are made of.

use vstd::prelude::*;
use crate::predicate::{Rule, script_only};

verus! {

/// What a rule can see of a box: the ids of the tokens it holds, the bytes
/// of its script tree, and the bytes of its registers.
pub ghost struct BoxFacts {
    pub assets: Set<Seq<char>>,
    pub script: Seq<char>,
    pub registers: Map<Seq<char>, Seq<char>>,
}

impl Rule {
    /// Whether a box with these facts meets the rule.
    pub open spec fn holds(self, facts: BoxFacts) -> bool
        decreases self,
    {
        match self {
            Rule::ContainsAsset(id) => facts.assets.contains(id),
            Rule::EqualsValue(bytes) => facts.script == bytes,
            Rule::EqualsRegister(register, bytes) => facts.registers.dom().contains(register)
                && facts.registers[register] == bytes,
            Rule::And(parts) => forall|i: int|
                0 <= i < parts.len() ==> (#[trigger] parts[i]).holds(facts),
        }
    }
}

/// A conjunction holds where each of its parts holds.
pub proof fn lemma_and_holds(parts: Seq<Rule>, facts: BoxFacts)
    ensures
        Rule::And(parts).holds(facts) <==> forall|i: int|
            0 <= i < parts.len() ==> (#[trigger] parts[i]).holds(facts),
{
    let rule = Rule::And(parts);
    assert(rule->And_0 == parts);
    assert forall|i: int| 0 <= i < parts.len() implies decreases_to!(rule->And_0 => parts[i]) by {}
}

/// The order of the parts of a conjunction does not change which boxes meet
/// it: two conjunctions of the same parts, in whatever order, hold of the
/// same boxes.
pub proof fn lemma_order_of_parts_is_irrelevant(parts: Seq<Rule>, other: Seq<Rule>, facts: BoxFacts)
    requires
        parts.to_multiset() == other.to_multiset(),
    ensures
        Rule::And(parts).holds(facts) == Rule::And(other).holds(facts),
{
    lemma_and_holds(parts, facts);
    lemma_and_holds(other, facts);
    parts.to_multiset_ensures();
    other.to_multiset_ensures();
    if Rule::And(parts).holds(facts) {
        assert forall|j: int| 0 <= j < other.len() implies (#[trigger] other[j]).holds(facts) by {
            assert(other.to_multiset().count(other[j]) > 0);
            assert(parts.contains(other[j]));
            let i = choose|i: int| 0 <= i < parts.len() && parts[i] == other[j];
            assert(parts[i].holds(facts));
        }
    }
    if Rule::And(other).holds(facts) {
        assert forall|i: int| 0 <= i < parts.len() implies (#[trigger] parts[i]).holds(facts) by {
            assert(parts.to_multiset().count(parts[i]) > 0);
            assert(other.contains(parts[i]));
            let j = choose|j: int| 0 <= j < other.len() && other[j] == parts[i];
            assert(other[j].holds(facts));
        }
    }
}

/// A rule that asks for no asset does not tell apart two boxes that differ
/// in their assets alone.
pub proof fn lemma_rule_without_asset_ignores_assets(rule: Rule, one: BoxFacts, other: BoxFacts)
    requires
        !rule.checks_asset(),
        one.script == other.script,
        one.registers == other.registers,
    ensures
        rule.holds(one) == rule.holds(other),
    decreases rule,
{
    match rule {
        Rule::And(parts) => {
            lemma_and_holds(parts, one);
            lemma_and_holds(parts, other);
            assert forall|i: int| 0 <= i < parts.len() implies (#[trigger] parts[i]).holds(one)
                == parts[i].holds(other) by {
                assert(decreases_to!(rule->And_0 => parts[i]));
                assert(!(rule->And_0[i]).checks_asset());
                lemma_rule_without_asset_ignores_assets(parts[i], one, other);
            }
        },
        _ => {},
    }
}

/// The rule of the pool deposits holds of every box with that script,
/// whatever the box holds.
pub proof fn lemma_script_only_holds_at_script(script: Seq<char>, facts: BoxFacts)
    ensures
        script_only(script).holds(facts) <==> facts.script == script,
{
}

} // verus!
