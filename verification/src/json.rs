//! The JSON text in which a member list is stored.

use vstd::prelude::*;

verus! {

/// Why JSON text could not be written or read.
#[verifier::external_type_specification]
#[verifier::external_body]
pub struct ExJsonError(serde_json::Error);

/// What `serde_json::to_string` writes for a list of strings.
pub uninterp spec fn members_json(members: Seq<Seq<char>>) -> Seq<char>;

/// What `serde_json::from_str` reads as a list of strings; `None` where it reports an error.
pub uninterp spec fn json_members(text: Seq<char>) -> Option<Seq<Seq<char>>>;

/// `serde_json::to_string` on a list of strings. It never fails on one: the writer is a
/// byte vector and a string always has a JSON form. Its text is a function of the list,
/// and `serde_json::from_str` reads it back as that very list.
#[verifier::external_body]
fn to_string(members: &Vec<String>) -> (text: Result<String, serde_json::Error>)
    ensures
        text is Ok,
        text->Ok_0@ == members_json(members.deep_view()),
        json_members(text->Ok_0@) == Some(members.deep_view()),
{
    serde_json::to_string(members)
}

/// `serde_json::from_str` into a list of strings: what it gives, the list or an error,
/// is a function of the text.
#[verifier::external_body]
fn from_str(text: &str) -> (members: Result<Vec<String>, serde_json::Error>)
    ensures
        members is Ok <==> json_members(text@) is Some,
        members is Ok ==> json_members(text@) == Some(members->Ok_0.deep_view()),
{
    serde_json::from_str(text)
}

/// The list that was read, or no members where none could be.
pub open spec fn or_no_members(read: Option<Seq<Seq<char>>>) -> Seq<Seq<char>> {
    match read {
        Some(members) => members,
        None => Seq::empty(),
    }
}

/// The list that a stored text stands for: the one it encodes, or no members when it
/// encodes none.
pub open spec fn decoded(text: Seq<char>) -> Seq<Seq<char>> {
    or_no_members(json_members(text))
}

/// The list that was read, or no members where none could be.
pub fn members_or_none(read: Option<Vec<String>>) -> (members: Vec<String>)
    ensures
        members.deep_view() == or_no_members(read.deep_view()),
{
    match read {
        Some(members) => members,
        None => {
            let none: Vec<String> = Vec::new();
            assert(none.deep_view() =~= Seq::<Seq<char>>::empty());
            none
        },
    }
}

/// The text to store for a member list. Reading it back gives the list.
pub fn encode_members(members: &Vec<String>) -> (text: String)
    ensures
        text@ == members_json(members.deep_view()),
        decoded(text@) == members.deep_view(),
{
    match to_string(members) {
        Ok(text) => text,
        Err(_) => "[]".to_owned(),
    }
}

/// The member list that a stored text stands for. Text that is no list of strings reads
/// as no members, so a bad row never breaks listing.
pub fn decode_members(text: &str) -> (members: Vec<String>)
    ensures
        members.deep_view() == decoded(text@),
{
    let read = match from_str(text) {
        Ok(members) => Some(members),
        Err(_) => None,
    };
    members_or_none(read)
}

} // verus!
