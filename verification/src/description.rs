//! The structured description of a rule, in the form a node is sent, and the
//! way back from such a description to the rule.

use vstd::prelude::*;
use crate::predicate::{Predicate, Rule, rules_of};

verus! {

/// The mathematical value of a [`Description`]: a text, a list, or a record
/// of keyed members in their written order.
pub ghost enum Tree {
    Text(Seq<char>),
    List(Seq<Tree>),
    Record(Seq<(Seq<char>, Tree)>),
}

/// One keyed member of a record.
#[derive(Debug, PartialEq, Eq)]
pub struct Member {
    pub key: String,
    pub value: Description,
}

/// A structured value: what a rule, or a whole registration, looks like on
/// its way to the node.
#[derive(Debug, PartialEq, Eq)]
pub enum Description {
    Text(String),
    List(Vec<Description>),
    Record(Vec<Member>),
}

/// The values of a sequence of descriptions, one by one.
pub open spec fn trees_of(items: Seq<Description>) -> Seq<Tree>
    decreases items,
{
    Seq::new(
        items.len(),
        |i: int|
            if 0 <= i < items.len() {
                items[i].view()
            } else {
                Tree::List(Seq::empty())
            },
    )
}

/// The keys and values of a sequence of members, one by one.
pub open spec fn members_of(members: Seq<Member>) -> Seq<(Seq<char>, Tree)>
    decreases members,
{
    Seq::new(
        members.len(),
        |i: int|
            if 0 <= i < members.len() {
                (members[i].key@, members[i].value.view())
            } else {
                (Seq::empty(), Tree::List(Seq::empty()))
            },
    )
}

impl Description {
    /// The description as a value.
    pub open spec fn view(&self) -> Tree
        decreases self,
    {
        match self {
            Description::Text(text) => Tree::Text(text@),
            Description::List(items) => Tree::List(trees_of(items@)),
            Description::Record(members) => Tree::Record(members_of(members@)),
        }
    }
}

/// The descriptions of a sequence of rules, one by one.
pub open spec fn describe_all(parts: Seq<Rule>) -> Seq<Tree>
    decreases parts,
{
    Seq::new(
        parts.len(),
        |i: int|
            if 0 <= i < parts.len() {
                describe(parts[i])
            } else {
                Tree::List(Seq::empty())
            },
    )
}

/// The description of a rule: a record that names the kind of condition
/// under `predicate` and then gives its operands.
pub open spec fn describe(rule: Rule) -> Tree
    decreases rule,
{
    match rule {
        Rule::ContainsAsset(id) => Tree::Record(
            seq![("predicate"@, Tree::Text("containsAsset"@)), ("assetId"@, Tree::Text(id))],
        ),
        Rule::EqualsValue(bytes) => Tree::Record(
            seq![("predicate"@, Tree::Text("equals"@)), ("value"@, Tree::Text(bytes))],
        ),
        Rule::EqualsRegister(register, bytes) => Tree::Record(
            seq![
                ("predicate"@, Tree::Text("equals"@)),
                ("register"@, Tree::Text(register)),
                ("value"@, Tree::Text(bytes)),
            ],
        ),
        Rule::And(parts) => Tree::Record(
            seq![("predicate"@, Tree::Text("and"@)), ("args"@, Tree::List(describe_all(parts)))],
        ),
    }
}

/// The rules that a sequence of descriptions stands for, where each stands
/// for one.
pub open spec fn parse_all(items: Seq<Tree>) -> Option<Seq<Rule>>
    decreases items,
{
    if forall|i: int| 0 <= i < items.len() ==> parse(#[trigger] items[i]) is Some {
        Some(
            Seq::new(
                items.len(),
                |i: int|
                    if 0 <= i < items.len() {
                        parse(items[i]).unwrap()
                    } else {
                        Rule::And(Seq::empty())
                    },
            ),
        )
    } else {
        None
    }
}

/// The rule that a description stands for, where it is the description of
/// one: a record with the members of that kind of condition, in their
/// order, and nothing else.
pub open spec fn parse(tree: Tree) -> Option<Rule>
    decreases tree,
{
    match tree {
        Tree::Record(members) => {
            if members.len() < 2 || members[0] !== ("predicate"@, Tree::Text("containsAsset"@))
                && members[0] !== ("predicate"@, Tree::Text("equals"@)) && members[0] !== (
                "predicate"@,
                Tree::Text("and"@),
            ) {
                None
            } else if members[0].1 == Tree::Text("containsAsset"@) {
                match members[1].1 {
                    Tree::Text(id) if members.len() == 2 && members[1].0 == "assetId"@ => Some(
                        Rule::ContainsAsset(id),
                    ),
                    _ => None,
                }
            } else if members[0].1 == Tree::Text("and"@) {
                match members[1].1 {
                    Tree::List(items) if members.len() == 2 && members[1].0 == "args"@ => {
                        match parse_all(items) {
                            Some(parts) => Some(Rule::And(parts)),
                            None => None,
                        }
                    },
                    _ => None,
                }
            } else if members.len() == 2 {
                match members[1].1 {
                    Tree::Text(bytes) if members[1].0 == "value"@ => Some(Rule::EqualsValue(bytes)),
                    _ => None,
                }
            } else if members.len() == 3 {
                match (members[1].1, members[2].1) {
                    (Tree::Text(register), Tree::Text(bytes)) if members[1].0 == "register"@
                        && members[2].0 == "value"@ => Some(Rule::EqualsRegister(register, bytes)),
                    _ => None,
                }
            } else {
                None
            }
        },
        _ => None,
    }
}

/// A description that is read back gives the rule it was written from.
pub proof fn lemma_parse_describe(rule: Rule)
    ensures
        parse(describe(rule)) == Some(rule),
    decreases rule,
{
    reveal_strlit("containsAsset");
    reveal_strlit("equals");
    reveal_strlit("and");
    assert("containsAsset"@.len() == 13 && "equals"@.len() == 6 && "and"@.len() == 3);
    let members = describe(rule)->Record_0;
    match rule {
        Rule::And(parts) => {
            let items = describe_all(parts);
            assert(members[1].1->List_0 == items);
            assert forall|i: int| 0 <= i < items.len() implies parse(#[trigger] items[i]) == Some(
                parts[i],
            ) by {
                assert(decreases_to!(rule->And_0 => parts[i]));
                lemma_parse_describe(parts[i]);
            }
            assert(parse_all(items).unwrap() =~= parts);
        },
        Rule::ContainsAsset(_) => {
            assert(members.len() == 2);
        },
        Rule::EqualsValue(_) => {
            assert(members.len() == 2);
        },
        Rule::EqualsRegister(_, _) => {
            assert(members.len() == 3);
        },
    }
}

/// A member whose value is a text.
fn text_member(key: &str, text: String) -> (member: Member)
    ensures
        member.key@ == key@,
        member.value@ == Tree::Text(text@),
{
    Member { key: key.to_owned(), value: Description::Text(text) }
}

/// Whether a text is a given word.
fn text_is(text: &String, word: &str) -> (same: bool)
    ensures
        same == (text@ == word@),
{
    let owned = word.to_owned();
    *text == owned
}

/// The text of a member, where it has the given key and its value is a text.
fn text_under<'a>(member: &'a Member, key: &str) -> (out: Option<&'a String>)
    ensures
        match out {
            Some(text) => member.key@ == key@ && member.value@ == Tree::Text(text@),
            None => member.key@ != key@ || !(member.value@ is Text),
        },
{
    match &member.value {
        Description::Text(text) => if text_is(&member.key, key) {
            Some(text)
        } else {
            None
        },
        _ => None,
    }
}

impl Predicate {
    /// The rule that a description stands for, or `None` where it is not the
    /// description of a rule.
    pub fn parse(description: &Description) -> (out: Option<Predicate>)
        ensures
            match out {
                Some(rule) => parse(description@) == Some(rule@),
                None => parse(description@) is None,
            },
        decreases description,
    {
        proof {
            reveal_strlit("containsAsset");
            reveal_strlit("equals");
            reveal_strlit("and");
            assert("containsAsset"@.len() == 13 && "equals"@.len() == 6 && "and"@.len() == 3);
        }
        let members = match description {
            Description::Record(members) => members,
            _ => { return None; },
        };
        if members.len() < 2 {
            return None;
        }
        let ghost shown = members_of(members@);
        assert(description@ == Tree::Record(shown));
        assert(shown[0] == (members[0].key@, members[0].value@));
        assert(shown[1] == (members[1].key@, members[1].value@));
        let kind = match text_under(&members[0], "predicate") {
            Some(kind) => kind,
            None => { return None; },
        };
        if text_is(kind, "containsAsset") {
            if members.len() != 2 {
                return None;
            }
            match text_under(&members[1], "assetId") {
                Some(id) => Some(Predicate::ContainsAsset(id.clone())),
                None => None,
            }
        } else if text_is(kind, "and") {
            if members.len() != 2 || !text_is(&members[1].key, "args") {
                return None;
            }
            let items = match &members[1].value {
                Description::List(items) => items,
                _ => { return None; },
            };
            let ghost trees = trees_of(items@);
            assert(shown[1].1 == Tree::List(trees));
            let mut parts: Vec<Predicate> = Vec::new();
            let mut i: usize = 0;
            while i < items.len()
                invariant
                    description is Record && description->Record_0 == *members,
                    members.len() == 2,
                    members[1].value is List && members[1].value->List_0 == *items,
                    trees == trees_of(items@),
                    description@ == Tree::Record(shown),
                    shown.len() == 2,
                    shown[0] == ("predicate"@, Tree::Text("and"@)),
                    shown[1] == ("args"@, Tree::List(trees)),
                    "containsAsset"@.len() == 13 && "equals"@.len() == 6 && "and"@.len() == 3,
                    i <= items.len(),
                    parts@.len() == i,
                    forall|j: int| 0 <= j < i ==> parse(#[trigger] trees[j]) == Some(parts@[j]@),
                decreases items.len() - i,
            {
                assert(decreases_to!(description->Record_0 => members[1]));
                assert(decreases_to!(members[1].value->List_0 => items[i as int]));
                assert(trees[i as int] == items[i as int]@);
                match Predicate::parse(&items[i]) {
                    Some(part) => {
                        parts.push(part);
                    },
                    None => {
                        return None;
                    },
                }
                i += 1;
            }
            assert(parse_all(trees).unwrap() =~= rules_of(parts@));
            Some(Predicate::And(parts))
        } else if text_is(kind, "equals") {
            if members.len() == 2 {
                match text_under(&members[1], "value") {
                    Some(bytes) => Some(Predicate::EqualsValue(bytes.clone())),
                    None => None,
                }
            } else if members.len() == 3 {
                assert(shown[2] == (members[2].key@, members[2].value@));
                match text_under(&members[1], "register") {
                    Some(register) => match text_under(&members[2], "value") {
                        Some(bytes) => Some(
                            Predicate::EqualsRegister(register.clone(), bytes.clone()),
                        ),
                        None => None,
                    },
                    None => None,
                }
            } else {
                None
            }
        } else {
            None
        }
    }

    /// The description of this rule: its conditions in their order, each
    /// with its operands.
    pub fn describe(&self) -> (out: Description)
        ensures
            out@ == describe(self@),
            parse(out@) == Some(self@),
        decreases self,
    {
        proof {
            lemma_parse_describe(self@);
        }
        match self {
            Predicate::ContainsAsset(id) => {
                let mut members: Vec<Member> = Vec::new();
                members.push(text_member("predicate", "containsAsset".to_owned()));
                members.push(text_member("assetId", id.clone()));
                assert(members_of(members@) =~= describe(self@)->Record_0);
                Description::Record(members)
            },
            Predicate::EqualsValue(bytes) => {
                let mut members: Vec<Member> = Vec::new();
                members.push(text_member("predicate", "equals".to_owned()));
                members.push(text_member("value", bytes.clone()));
                assert(members_of(members@) =~= describe(self@)->Record_0);
                Description::Record(members)
            },
            Predicate::EqualsRegister(register, bytes) => {
                let mut members: Vec<Member> = Vec::new();
                members.push(text_member("predicate", "equals".to_owned()));
                members.push(text_member("register", register.clone()));
                members.push(text_member("value", bytes.clone()));
                assert(members_of(members@) =~= describe(self@)->Record_0);
                Description::Record(members)
            },
            Predicate::And(parts) => {
                let mut items: Vec<Description> = Vec::new();
                let mut i: usize = 0;
                while i < parts.len()
                    invariant
                        self is And && self->And_0 == *parts,
                        i <= parts.len(),
                        items@.len() == i,
                        forall|j: int| 0 <= j < i ==> (#[trigger] items@[j])@ == describe(parts@[j]@),
                    decreases parts.len() - i,
                {
                    assert(decreases_to!(self->And_0 => parts[i as int]));
                    let item = parts[i].describe();
                    items.push(item);
                    i += 1;
                }
                assert(trees_of(items@) =~= describe_all(rules_of(parts@)));
                let mut members: Vec<Member> = Vec::new();
                members.push(text_member("predicate", "and".to_owned()));
                members.push(Member { key: "args".to_owned(), value: Description::List(items) });
                assert(members_of(members@) =~= describe(self@)->Record_0);
                Description::Record(members)
            },
        }
    }
}

} // verus!
