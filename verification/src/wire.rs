//! The JSON form of the data model: which members an object has, when one is
//! left out, and how each is read again.

mod account;
mod listing;
mod metadata;
mod permissions;

pub use self::account::{
    group_json, group_of, lemma_empty_name_is_omitted, lemma_group_round_trip,
    lemma_owner_round_trip, owner_json, owner_of, unix_fields, unix_json, unix_of,
    windows_fields, windows_json, windows_of,
};
pub use self::listing::{
    entry_fields, entry_json, entry_of, kind_at, lemma_entry_round_trip,
    lemma_listing_round_trip, listing_from_json, listing_json, listing_of, listing_to_json,
    metadata_at,
};
pub use self::metadata::{
    lemma_metadata_round_trip, metadata_fields, metadata_json, metadata_json_with, metadata_of,
    optional_text_json, permissions_at, size_at, stamp_at, stamp_text, text_view,
};
pub use self::permissions::{
    group_at, lemma_permissions_round_trip, optional_group_json, optional_owner_json, owner_at,
    permissions_fields, permissions_json, permissions_of,
};
use crate::json::{find, lemma_lookup_concat, lookup, members_view, Json, JsonValue};
use vstd::prelude::*;

verus! {

/// The members of a JSON object, as a mathematical value: names with values.
pub type Members = Seq<(Seq<char>, JsonValue)>;

/// The fields of a record on its way to JSON: names with the value to write,
/// or with `None` where the member is to be left out.
pub type Fields = Seq<(Seq<char>, Option<JsonValue>)>;

/// The member that holds `value` under `key`, left out where there is no
/// value.
pub open spec fn optional_member(key: Seq<char>, value: Option<JsonValue>) -> Members {
    match value {
        Some(value) => seq![(key, value)],
        None => Seq::empty(),
    }
}

/// The members that `fields` are written as: in order, without those that
/// have no value.
pub open spec fn object_members(fields: Fields) -> Members
    decreases fields.len(),
{
    if fields.len() == 0 {
        Seq::empty()
    } else {
        object_members(fields.drop_last()) + optional_member(fields.last().0, fields.last().1)
    }
}

/// The JSON object that `fields` are written as.
pub open spec fn object(fields: Fields) -> JsonValue {
    JsonValue::Object(object_members(fields))
}

/// No two of `fields` have the same name.
pub open spec fn distinct_names(fields: Fields) -> bool {
    forall|a: int, b: int| 0 <= a < b < fields.len() ==> fields[a].0 != fields[b].0
}

/// `text` as a JSON value, or nothing where `text` is empty.
pub open spec fn nonempty_text(text: Seq<char>) -> Option<JsonValue> {
    if text.len() == 0 {
        None
    } else {
        Some(JsonValue::Text(text))
    }
}

/// The value under `key`, where `members` has one that is not `null`.
pub open spec fn present_at(members: Members, key: Seq<char>) -> Option<JsonValue> {
    match lookup(members, key) {
        None => None,
        Some(JsonValue::Null) => None,
        Some(value) => Some(value),
    }
}

/// The text under `key`: empty where `members` has no such member, and none
/// where the member is anything but a text.
pub open spec fn text_or_empty_at(members: Members, key: Seq<char>) -> Option<Seq<char>> {
    match lookup(members, key) {
        None => Some(Seq::empty()),
        Some(JsonValue::Text(text)) => Some(text),
        Some(_) => None,
    }
}

/// The text under `key`, where `members` has a text there.
pub open spec fn text_at(members: Members, key: Seq<char>) -> Option<Seq<char>> {
    match lookup(members, key) {
        Some(JsonValue::Text(text)) => Some(text),
        _ => None,
    }
}

/// The truth value under `key`, where `members` has one there.
pub open spec fn bool_at(members: Members, key: Seq<char>) -> Option<bool> {
    match lookup(members, key) {
        Some(JsonValue::Bool(value)) => Some(value),
        _ => None,
    }
}

/// Looking a name up in a member that may have been left out finds the value
/// under that very name, and nothing under any other.
pub proof fn lemma_lookup_optional(key: Seq<char>, value: Option<JsonValue>, wanted: Seq<char>)
    ensures
        lookup(optional_member(key, value), wanted) == if wanted == key {
            value
        } else {
            None
        },
{
    reveal_with_fuel(lookup, 2);
    if let Some(value) = value {
        assert(seq![(key, value)].drop_first() =~= Seq::empty());
    }
}

/// A name that no field has is not found among the members.
pub proof fn lemma_lookup_absent(fields: Fields, wanted: Seq<char>)
    requires
        forall|a: int| 0 <= a < fields.len() ==> fields[a].0 != wanted,
    ensures
        lookup(object_members(fields), wanted) is None,
    decreases fields.len(),
{
    if fields.len() > 0 {
        let front = fields.drop_last();
        let last = fields.last();
        lemma_lookup_absent(front, wanted);
        lemma_lookup_optional(last.0, last.1, wanted);
        lemma_lookup_concat(object_members(front), optional_member(last.0, last.1), wanted);
    }
}

/// Among the members of fields with distinct names, the name of a field finds
/// the value of that field, and nothing where the field was left out.
pub proof fn lemma_lookup_field(fields: Fields, i: int)
    requires
        distinct_names(fields),
        0 <= i < fields.len(),
    ensures
        lookup(object_members(fields), fields[i].0) == fields[i].1,
    decreases fields.len(),
{
    let front = fields.drop_last();
    let last = fields.last();
    let wanted = fields[i].0;
    lemma_lookup_optional(last.0, last.1, wanted);
    lemma_lookup_concat(object_members(front), optional_member(last.0, last.1), wanted);
    if i == fields.len() - 1 {
        lemma_lookup_absent(front, wanted);
    } else {
        assert(front[i] == fields[i]);
        lemma_lookup_field(front, i);
    }
}

/// One more field adds its member, or none, after those of the others.
pub proof fn lemma_object_members_push(fields: Fields, key: Seq<char>, value: Option<JsonValue>)
    ensures
        object_members(fields.push((key, value))) == object_members(fields) + optional_member(
            key,
            value,
        ),
{
    assert(fields.push((key, value)).drop_last() =~= fields);
}

/// The view of a value that may be absent.
pub open spec fn json_view(value: Option<Json>) -> Option<JsonValue> {
    match value {
        Some(value) => Some(value@),
        None => None,
    }
}

/// Adds to `members`, which are those of `fields`, the member of one more
/// field: `value` under `key`, or nothing where there is no value.
pub(crate) fn push_field(
    members: &mut Vec<(String, Json)>,
    Ghost(fields): Ghost<Fields>,
    key: &str,
    value: Option<Json>,
)
    requires
        members_view(old(members)@) == object_members(fields),
    ensures
        members_view(final(members)@) == object_members(fields.push((key@, json_view(value)))),
{
    proof {
        lemma_object_members_push(fields, key@, json_view(value));
    }
    match value {
        Some(value) => {
            members.push((String::from_str(key), value));
            assert(members_view(members@) =~= members_view(old(members)@).push((key@, value@)));
            assert(members_view(old(members)@).push((key@, value@)) =~= members_view(
                old(members)@,
            ) + optional_member(key@, Some(value@)));
        },
        None => {
            assert(members_view(members@) =~= members_view(old(members)@) + optional_member(
                key@,
                None,
            ));
        },
    }
}

/// `text` as a JSON value, or nothing where `text` is empty.
pub(crate) fn text_unless_empty(text: &str) -> (value: Option<Json>)
    ensures
        json_view(value) == nonempty_text(text@),
{
    if text.is_empty() {
        None
    } else {
        Some(Json::Text(String::from_str(text)))
    }
}

/// The value under `key`, where `members` has one that is not `null`.
pub(crate) fn present_in<'a>(members: &'a Vec<(String, Json)>, key: &str) -> (found: Option<
    &'a Json,
>)
    ensures
        match found {
            Some(value) => present_at(members_view(members@), key@) == Some(value@),
            None => present_at(members_view(members@), key@) is None,
        },
{
    match find(members, key) {
        None => None,
        Some(Json::Null) => None,
        Some(value) => Some(value),
    }
}

/// The text under `key`: empty where there is no such member, and none where
/// the member is anything but a text.
pub(crate) fn text_or_empty_in(members: &Vec<(String, Json)>, key: &str) -> (text: Option<String>)
    ensures
        match text {
            Some(text) => text_or_empty_at(members_view(members@), key@) == Some(text@),
            None => text_or_empty_at(members_view(members@), key@) is None,
        },
{
    match find(members, key) {
        None => Some(String::new()),
        Some(Json::Text(text)) => Some(text.clone()),
        Some(_) => None,
    }
}

/// The text under `key`, where `members` has a text there.
pub(crate) fn text_in<'a>(members: &'a Vec<(String, Json)>, key: &str) -> (text: Option<&'a str>)
    ensures
        match text {
            Some(text) => text_at(members_view(members@), key@) == Some(text@),
            None => text_at(members_view(members@), key@) is None,
        },
{
    match find(members, key) {
        Some(Json::Text(text)) => Some(text.as_str()),
        _ => None,
    }
}

/// The truth value under `key`, where `members` has one there.
pub(crate) fn bool_in(members: &Vec<(String, Json)>, key: &str) -> (value: Option<bool>)
    ensures
        value == bool_at(members_view(members@), key@),
{
    match find(members, key) {
        Some(Json::Bool(value)) => Some(*value),
        _ => None,
    }
}

} // verus!
