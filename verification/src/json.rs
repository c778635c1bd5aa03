//! The members of a JSON object, as far as they are texts.
use vstd::prelude::*;

use crate::text::same;

verus! {

/// A JSON object: the name of each member and, where the member is a string, its text.
#[derive(Debug, PartialEq, Eq)]
pub struct JsonObject {
    pub members: Vec<(String, Option<String>)>,
}

/// The text in `value`, if there is one.
pub open spec fn text_of(value: Option<String>) -> Option<Seq<char>> {
    match value {
        Some(text) => Some(text@),
        None => None,
    }
}

/// What `members` says of each name; of two members of one name the first counts.
pub open spec fn member_map(members: Seq<(String, Option<String>)>) -> Map<
    Seq<char>,
    Option<Seq<char>>,
>
    decreases members.len(),
{
    if members.len() == 0 {
        Map::empty()
    } else {
        member_map(members.drop_first()).insert(members[0].0@, text_of(members[0].1))
    }
}

impl View for JsonObject {
    type V = Map<Seq<char>, Option<Seq<char>>>;

    open spec fn view(&self) -> Map<Seq<char>, Option<Seq<char>>> {
        member_map(self.members@)
    }
}

/// The members of an object, where there is one.
pub open spec fn members_of(object: Option<JsonObject>) -> Option<
    Map<Seq<char>, Option<Seq<char>>>,
> {
    match object {
        Some(object) => Some(object@),
        None => None,
    }
}

/// The text of the member called `name`, where there is an object with such a member and the member
/// is a string.
pub open spec fn text_member(
    members: Option<Map<Seq<char>, Option<Seq<char>>>>,
    name: Seq<char>,
) -> Option<Seq<char>> {
    match members {
        Some(members) => if members.dom().contains(name) {
            members[name]
        } else {
            None
        },
        None => None,
    }
}

/// Finds the text of the member called `name`.
pub fn find_text<'a>(object: &'a Option<JsonObject>, name: &str) -> (r: Option<&'a str>)
    ensures
        match r {
            Some(text) => text_member(members_of(*object), name@) == Some(text@),
            None => text_member(members_of(*object), name@) is None,
        },
{
    match object {
        None => None,
        Some(found) => {
            let members = &found.members;
            let mut i: usize = 0;
            proof {
                assert(members@.skip(0) =~= members@);
            }
            while i < members.len()
                invariant
                    i <= members.len(),
                    members_of(*object) == Some(member_map(members@)),
                    text_member(Some(member_map(members@.skip(i as int))), name@) == text_member(
                        Some(member_map(members@)),
                        name@,
                    ),
                decreases members.len() - i,
            {
                proof {
                    assert(members@.skip(i as int).drop_first() =~= members@.skip(i + 1));
                    assert(members@.skip(i as int)[0] == members@[i as int]);
                }
                if same(members[i].0.as_str(), name) {
                    return match &members[i].1 {
                        Some(text) => Some(text.as_str()),
                        None => None,
                    };
                }
                i = i + 1;
            }
            None
        },
    }
}

/// White space between the parts of a JSON text.
pub open spec fn json_space(c: char) -> bool {
    c == ' ' || c == '\n' || c == '\t' || c == '\r'
}

/// Whether `text` is, but for the white space around it, enclosed in curly braces.
pub open spec fn in_braces(text: Seq<char>) -> bool {
    exists|i: int, j: int|
        #![trigger text[i], text[j]]
        {
            &&& 0 <= i < j < text.len()
            &&& text[i] == '{'
            &&& text[j] == '}'
            &&& forall|k: int| 0 <= k < i ==> json_space(#[trigger] text[k])
            &&& forall|k: int| j < k < text.len() ==> json_space(#[trigger] text[k])
        }
}

/// Whether `s` needs no escape inside a JSON string.
pub open spec fn plain(s: Seq<char>) -> bool {
    forall|i: int| 0 <= i < s.len() ==> (#[trigger] s[i]) >= ' ' && s[i] != '"' && s[i] != '\\'
}

/// The JSON object with one member, called `name`, that is the string `text`.
pub open spec fn one_member(name: Seq<char>, text: Seq<char>) -> Seq<char> {
    "{\""@ + name + "\":\""@ + text + "\"}"@
}

/// What is sure of the members that a parser finds in `text`: there are none without curly braces
/// around the text, and an object with one string that needs no escape has that one member.
pub open spec fn sure_members(
    text: Seq<char>,
    members: Option<Map<Seq<char>, Option<Seq<char>>>>,
) -> bool {
    &&& members is Some ==> in_braces(text)
    &&& forall|name: Seq<char>, value: Seq<char>|
        plain(name) && plain(value) && text == #[trigger] one_member(name, value) ==> members
            == Some(map![name => Some(value)])
}

/// What `serde_json` makes of `text`: the members of the object that `text` is, each with its text
/// where it is a string, or nothing where `text` is not a JSON object.
pub uninterp spec fn json_object_members(text: Seq<char>) -> Option<
    Map<Seq<char>, Option<Seq<char>>>,
>;

/// Parses `text` with `serde_json::from_str` into a `serde_json::Value` and, where that is an object,
/// takes the text of each member by `serde_json::Value::as_str`. Trusted is that the members are a
/// function of the text, which `json_object_members` names, and that they are as `sure_members`
/// says. Which members any other text has is left unsaid.
#[verifier::external_body]
pub(crate) fn parse_json_object(text: &str) -> (r: Option<JsonObject>)
    ensures
        members_of(r) == json_object_members(text@),
        sure_members(text@, members_of(r)),
{
    match serde_json::from_str::<serde_json::Value>(text) {
        Ok(serde_json::Value::Object(members)) => Some(
            JsonObject {
                members: members.into_iter().map(
                    |(name, value)| (name, value.as_str().map(str::to_owned)),
                ).collect(),
            },
        ),
        Ok(_) => None,
        Err(_) => None,
    }
}

/// The views of an object and of its members hold just the texts.
pub proof fn views_hold_the_texts(object: JsonObject, text: String)
    ensures
        members_of(None) is None,
        members_of(Some(object)) == Some(object@),
        object@ == member_map(object.members@),
        text_of(None) is None,
        text_of(Some(text)) == Some(text@),
{
}

/// A name has the text of the first member that is called so, whatever other members there are, and a
/// name that no member has is not there.
pub proof fn the_first_member_of_a_name_counts(
    before: Seq<(String, Option<String>)>,
    member: (String, Option<String>),
    after: Seq<(String, Option<String>)>,
    name: Seq<char>,
)
    requires
        forall|i: int| 0 <= i < before.len() ==> (#[trigger] before[i]).0@ != name,
    ensures
        !member_map(before).dom().contains(name),
        member.0@ == name ==> {
            &&& member_map(before.push(member) + after).dom().contains(name)
            &&& member_map(before.push(member) + after)[name] == text_of(member.1)
        },
    decreases before.len(),
{
    let all = before.push(member) + after;
    if before.len() == 0 {
        assert(all[0] == member);
    } else {
        let rest = before.drop_first();
        the_first_member_of_a_name_counts(rest, member, after, name);
        assert(before[0].0@ != name);
        assert(all[0] == before[0]);
        assert(all.drop_first() =~= rest.push(member) + after);
    }
}

/// The text of a member is looked up by its name alone: it is found where the object has a member of
/// that name that is a string, whatever the other members are, and nowhere else.
pub proof fn a_text_is_found_by_its_name(
    members: Map<Seq<char>, Option<Seq<char>>>,
    name: Seq<char>,
    text: Seq<char>,
    other: Seq<char>,
    value: Option<Seq<char>>,
)
    ensures
        text_member(None, name) is None,
        text_member(Some(members.insert(name, Some(text))), name) == Some(text),
        text_member(Some(members.insert(name, None)), name) is None,
        text_member(Some(members.remove(name)), name) is None,
        other != name ==> text_member(Some(members.insert(other, value)), name) == text_member(
            Some(members),
            name,
        ),
{
}

} // verus!
