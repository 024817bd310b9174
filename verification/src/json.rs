//! The JSON texts that records are made of.
//!
//! Reading and writing JSON itself is left to `serde_json`; this module gives
//! its two entry points a contract and offers the verified lookup that the
//! record decoders are built on.

use vstd::prelude::*;

verus! {

/// What one member of a JSON object holds, as far as a record decoder cares:
/// a string, `null`, or anything else.
#[derive(Debug, PartialEq, Eq)]
pub enum Member {
    Null,
    Text(String),
    Other,
}

/// The mathematical value of a [`Member`].
pub enum MemberView {
    Null,
    Text(Seq<char>),
    Other,
}

impl View for Member {
    type V = MemberView;

    open spec fn view(&self) -> MemberView {
        match self {
            Member::Null => MemberView::Null,
            Member::Text(s) => MemberView::Text(s@),
            Member::Other => MemberView::Other,
        }
    }
}

/// The members of a parsed object, by view.
pub open spec fn members_view(members: Seq<(String, Member)>) -> Seq<(Seq<char>, MemberView)> {
    Seq::new(members.len(), |i: int| (members[i].0@, members[i].1@))
}

/// The JSON text that `serde_json::to_string` writes for a string.
pub uninterp spec fn json_string_text(s: Seq<char>) -> Seq<char>;

/// The members of the JSON object that `serde_json::from_str` reads from
/// `text`, in the order in which the parsed map hands them out, or `None`
/// where `text` is not JSON or its top-level value is not an object.
pub uninterp spec fn json_object_members(text: Seq<char>) -> Option<Seq<(Seq<char>, MemberView)>>;

/// Calls `serde_json::to_string` on a string: the result is the quoted and
/// escaped JSON text of `s`, a function of `s` alone. Writing a string
/// cannot fail: the text goes into a buffer in memory, and a string is no
/// map and has no `Serialize` of its own that could refuse.
#[verifier::external_body]
pub(crate) fn quote(s: &str) -> (text: Option<String>)
    ensures
        text is Some,
        text->0@ == json_string_text(s@),
{
    serde_json::to_string(s).ok()
}

/// The JSON text of a string: the string in quotes, with what JSON
/// reserves escaped.
pub fn json_text(s: &str) -> (text: String)
    ensures
        text@ == json_string_text(s@),
{
    quote(s).unwrap()
}

/// Calls `serde_json::from_str` for a `serde_json::Value` and, where the
/// value is an object, hands out its members one for one.
#[verifier::external_body]
pub(crate) fn parse_object(text: &str) -> (members: Option<Vec<(String, Member)>>)
    ensures
        members matches Some(m) ==> json_object_members(text@) == Some(members_view(m@)),
        members is None ==> json_object_members(text@) is None,
{
    match serde_json::from_str::<serde_json::Value>(text) {
        Ok(serde_json::Value::Object(map)) => Some(
            map.into_iter().map(|(key, value)| (key, match value {
                serde_json::Value::Null => Member::Null,
                serde_json::Value::String(s) => Member::Text(s),
                _ => Member::Other,
            })).collect(),
        ),
        _ => None,
    }
}

/// What looking a key up in a list of members gives: the first member with
/// that key, if there is one.
pub open spec fn lookup_spec(members: Seq<(Seq<char>, MemberView)>, key: Seq<char>) -> Option<MemberView>
    decreases members.len(),
{
    if members.len() == 0 {
        None
    } else if members[0].0 == key {
        Some(members[0].1)
    } else {
        lookup_spec(members.drop_first(), key)
    }
}

/// Finds the first member named `key`.
pub fn lookup<'a>(members: &'a Vec<(String, Member)>, key: &str) -> (found: Option<&'a Member>)
    ensures
        found matches Some(m) ==> lookup_spec(members_view(members@), key@) == Some(m@),
        found is None ==> lookup_spec(members_view(members@), key@) is None,
{
    let wanted = key.to_owned();
    let mut i: usize = 0;
    assert(members_view(members@).skip(0) =~= members_view(members@));
    while i < members.len()
        invariant
            i <= members.len(),
            wanted@ == key@,
            lookup_spec(members_view(members@), key@) == lookup_spec(
                members_view(members@).skip(i as int),
                key@,
            ),
        decreases members.len() - i,
    {
        let ghost rest = members_view(members@).skip(i as int);
        assert(rest[0] == (members@[i as int].0@, members@[i as int].1@));
        assert(rest.drop_first() =~= members_view(members@).skip(i + 1));
        if members[i].0 == wanted {
            return Some(&members[i].1);
        }
        i += 1;
    }
    None
}

/// The string that the member `key` must hold, if it does.
pub open spec fn required_text(members: Seq<(Seq<char>, MemberView)>, key: Seq<char>) -> Option<
    Seq<char>,
> {
    match lookup_spec(members, key) {
        Some(MemberView::Text(s)) => Some(s),
        _ => None,
    }
}

/// Reads the member `key`, which must hold a string.
pub fn required<'a>(members: &'a Vec<(String, Member)>, key: &str) -> (text: Option<&'a String>)
    ensures
        text matches Some(s) ==> required_text(members_view(members@), key@) == Some(s@),
        text is None ==> required_text(members_view(members@), key@) is None,
{
    match lookup(members, key) {
        Some(Member::Text(s)) => Some(s),
        _ => None,
    }
}

} // verus!
