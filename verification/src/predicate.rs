//! Matching rules over boxes, and the rules of the six tracked kinds of box.

use vstd::prelude::*;

verus! {

/// The mathematical value of a [`Predicate`].
pub ghost enum Rule {
    ContainsAsset(Seq<char>),
    EqualsValue(Seq<char>),
    EqualsRegister(Seq<char>, Seq<char>),
    And(Seq<Rule>),
}

impl Rule {
    /// Whether some condition of the rule, at any depth, asks for an asset.
    pub open spec fn checks_asset(self) -> bool
        decreases self,
    {
        match self {
            Rule::ContainsAsset(_) => true,
            Rule::EqualsValue(_) => false,
            Rule::EqualsRegister(_, _) => false,
            Rule::And(parts) => exists|i: int|
                0 <= i < parts.len() && (#[trigger] parts[i]).checks_asset(),
        }
    }
}

/// A tree of conditions that a box must meet.
#[derive(Debug, PartialEq, Eq)]
pub enum Predicate {
    /// The box holds a token with this id.
    ContainsAsset(String),
    /// The script tree bytes of the box equal these bytes.
    EqualsValue(String),
    /// The named register of the box equals these bytes.
    EqualsRegister(String, String),
    /// Every part holds, in the order given.
    And(Vec<Predicate>),
}

/// The values of a sequence of predicates, one by one.
pub open spec fn rules_of(parts: Seq<Predicate>) -> Seq<Rule>
    decreases parts,
{
    Seq::new(
        parts.len(),
        |i: int|
            if 0 <= i < parts.len() {
                parts[i].view()
            } else {
                Rule::And(Seq::empty())
            },
    )
}

impl Predicate {
    /// The rule as a value: its conditions with the texts they name.
    pub open spec fn view(&self) -> Rule
        decreases self,
    {
        match self {
            Predicate::ContainsAsset(id) => Rule::ContainsAsset(id@),
            Predicate::EqualsValue(bytes) => Rule::EqualsValue(bytes@),
            Predicate::EqualsRegister(register, bytes) => Rule::EqualsRegister(register@, bytes@),
            Predicate::And(parts) => Rule::And(rules_of(parts@)),
        }
    }
}

/// The rule that asks for an asset and for a script: both must hold.
pub open spec fn asset_and_script(asset: Seq<char>, script: Seq<char>) -> Rule {
    Rule::And(seq![Rule::ContainsAsset(asset), Rule::EqualsValue(script)])
}

/// The rule that asks for an asset, for a script and for the content of a
/// register: all three must hold.
pub open spec fn asset_script_and_register(
    asset: Seq<char>,
    script: Seq<char>,
    register: Seq<char>,
    content: Seq<char>,
) -> Rule {
    Rule::And(
        seq![
            Rule::ContainsAsset(asset),
            Rule::EqualsValue(script),
            Rule::EqualsRegister(register, content),
        ],
    )
}

/// The rule that asks for a script and for nothing else.
pub open spec fn script_only(script: Seq<char>) -> Rule {
    Rule::EqualsValue(script)
}

impl Predicate {
    /// Whether some condition of the rule, at any depth, asks for an asset.
    pub fn checks_asset(&self) -> (found: bool)
        ensures
            found == self@.checks_asset(),
        decreases self,
    {
        match self {
            Predicate::ContainsAsset(_) => true,
            Predicate::EqualsValue(_) => false,
            Predicate::EqualsRegister(_, _) => false,
            Predicate::And(parts) => {
                let mut i: usize = 0;
                while i < parts.len()
                    invariant
                        self is And && self->And_0 == *parts,
                        i <= parts.len(),
                        forall|j: int| 0 <= j < i ==> !(#[trigger] rules_of(parts@)[j]).checks_asset(),
                    decreases parts.len() - i,
                {
                    assert(decreases_to!(self->And_0 => parts[i as int]));
                    if parts[i].checks_asset() {
                        assert(self@ == Rule::And(rules_of(parts@)));
                        assert(rules_of(parts@)[i as int] == parts[i as int]@);
                        assert(self@->And_0[i as int].checks_asset());
                        return true;
                    }
                    assert(rules_of(parts@)[i as int] == parts[i as int]@);
                    i += 1;
                }
                assert(self@ == Rule::And(rules_of(parts@)));
                false
            },
        }
    }

    /// The rule for a box that holds `asset` and is guarded by `script`.
    pub fn asset_and_script(asset: &String, script: &String) -> (rule: Predicate)
        ensures
            rule@ == asset_and_script(asset@, script@),
    {
        let mut parts: Vec<Predicate> = Vec::new();
        parts.push(Predicate::ContainsAsset(asset.clone()));
        parts.push(Predicate::EqualsValue(script.clone()));
        assert(rules_of(parts@) =~= asset_and_script(asset@, script@)->And_0);
        Predicate::And(parts)
    }

    /// The rule for a box that holds `asset`, is guarded by `script` and
    /// carries `content` in `register`.
    pub fn asset_script_and_register(
        asset: &String,
        script: &String,
        register: &str,
        content: &String,
    ) -> (rule: Predicate)
        ensures
            rule@ == asset_script_and_register(asset@, script@, register@, content@),
    {
        let mut parts: Vec<Predicate> = Vec::new();
        parts.push(Predicate::ContainsAsset(asset.clone()));
        parts.push(Predicate::EqualsValue(script.clone()));
        parts.push(Predicate::EqualsRegister(register.to_owned(), content.clone()));
        assert(rules_of(parts@) =~= asset_script_and_register(
            asset@,
            script@,
            register@,
            content@,
        )->And_0);
        Predicate::And(parts)
    }

    /// The rule for any box guarded by `script`, whatever it holds.
    pub fn script_only(script: &String) -> (rule: Predicate)
        ensures
            rule@ == script_only(script@),
    {
        Predicate::EqualsValue(script.clone())
    }
}

/// A rule made of an asset and a script asks for an asset.
pub proof fn lemma_asset_and_script_checks_asset(asset: Seq<char>, script: Seq<char>)
    ensures
        asset_and_script(asset, script).checks_asset(),
{
    let parts = asset_and_script(asset, script)->And_0;
    assert(parts[0].checks_asset());
}

/// A rule made of an asset, a script and a register asks for an asset.
pub proof fn lemma_asset_script_and_register_checks_asset(
    asset: Seq<char>,
    script: Seq<char>,
    register: Seq<char>,
    content: Seq<char>,
)
    ensures
        asset_script_and_register(asset, script, register, content).checks_asset(),
{
    let parts = asset_script_and_register(asset, script, register, content)->And_0;
    assert(parts[0].checks_asset());
}

/// A rule made of a script alone asks for no asset.
pub proof fn lemma_script_only_checks_no_asset(script: Seq<char>)
    ensures
        !script_only(script).checks_asset(),
{
}

} // verus!
