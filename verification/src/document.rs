//! The document that keeps texts under keys: a JSON object, built and
//! printed by the `json` crate.

use vstd::prelude::*;
use json::JsonValue;

verus! {

#[verifier::external_type_specification]
#[verifier::external_body]
pub struct ExJsonValue(JsonValue);

/// Whether a JSON value is an object all of whose values are strings.
pub uninterp spec fn is_text_record(doc: JsonValue) -> bool;

/// The members of such an object, each a key with its text, in the order in
/// which the keys were first set.
pub uninterp spec fn members(doc: JsonValue) -> Seq<(Seq<char>, Seq<char>)>;

/// The text that `json::stringify_pretty` prints for an object with these
/// members and this many spaces to a level.
pub uninterp spec fn pretty_text(members: Seq<(Seq<char>, Seq<char>)>, spaces: u16) -> Seq<char>;

/// Whether some member has this key.
pub open spec fn has_key(members: Seq<(Seq<char>, Seq<char>)>, key: Seq<char>) -> bool {
    exists|i: int| 0 <= i < members.len() && (#[trigger] members[i]).0 == key
}

/// The members after `text` is set under `key`: a key that is there keeps
/// its place and gets the new text, a new key goes to the end.
pub open spec fn with_member(
    members: Seq<(Seq<char>, Seq<char>)>,
    key: Seq<char>,
    text: Seq<char>,
) -> Seq<(Seq<char>, Seq<char>)> {
    if has_key(members, key) {
        Seq::new(
            members.len(),
            |i: int|
                if members[i].0 == key {
                    (key, text)
                } else {
                    members[i]
                },
        )
    } else {
        members.push((key, text))
    }
}

/// `json::JsonValue::new_object`: an object without members.
#[verifier::external_body]
pub(crate) fn new_record() -> (doc: JsonValue)
    ensures
        is_text_record(doc),
        members(doc) == Seq::<(Seq<char>, Seq<char>)>::empty(),
{
    JsonValue::new_object()
}

/// Assignment through the `IndexMut<&str>` of `json::JsonValue`: on an
/// object it puts the value under the key, in place where the key is there
/// and at the end where it is not, and leaves the other members alone.
#[verifier::external_body]
pub(crate) fn set_text(doc: &mut JsonValue, key: &str, text: String)
    requires
        is_text_record(*old(doc)),
    ensures
        is_text_record(*final(doc)),
        members(*final(doc)) == with_member(members(*old(doc)), key@, text@),
{
    doc[key] = text.into();
}

/// `json::stringify_pretty`: the printed form of the object, which its
/// members and the number of spaces determine.
#[verifier::external_body]
pub(crate) fn print_pretty(doc: JsonValue, spaces: u16) -> (text: String)
    requires
        is_text_record(doc),
    ensures
        text@ == pretty_text(members(doc), spaces),
{
    json::stringify_pretty(doc, spaces)
}

} // verus!
