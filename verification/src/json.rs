//! JSON values, as far as the protocol writes and reads them.

use vstd::prelude::*;

verus! {

/// A JSON value.
///
/// The members of an object keep the order in which they were written, and a
/// name may occur more than once; [`lookup`] finds the first.
#[derive(Debug, PartialEq, Eq)]
pub enum Json {
    Null,
    Bool(bool),
    /// A whole number from zero up to the largest 64-bit unsigned integer.
    Number(u64),
    /// Any other number: negative, fractional or larger. The protocol writes
    /// none, and takes none for a value that it reads.
    OtherNumber,
    Text(String),
    Array(Vec<Json>),
    Object(Vec<(String, Json)>),
}

/// What a [`Json`] is, as a mathematical value.
pub enum JsonValue {
    Null,
    Bool(bool),
    Number(u64),
    OtherNumber,
    Text(Seq<char>),
    Array(Seq<JsonValue>),
    Object(Seq<(Seq<char>, JsonValue)>),
}

impl View for Json {
    type V = JsonValue;

    open spec fn view(&self) -> JsonValue
        decreases self,
    {
        match self {
            Json::Null => JsonValue::Null,
            Json::Bool(b) => JsonValue::Bool(*b),
            Json::Number(n) => JsonValue::Number(*n),
            Json::OtherNumber => JsonValue::OtherNumber,
            Json::Text(text) => JsonValue::Text(text@),
            Json::Array(items) => JsonValue::Array(
                Seq::new(
                    items@.len(),
                    |i: int|
                        if 0 <= i < items@.len() {
                            items@[i]@
                        } else {
                            JsonValue::Null
                        },
                ),
            ),
            Json::Object(members) => JsonValue::Object(
                Seq::new(
                    members@.len(),
                    |i: int|
                        if 0 <= i < members@.len() {
                            (members@[i].0@, members@[i].1@)
                        } else {
                            (Seq::empty(), JsonValue::Null)
                        },
                ),
            ),
        }
    }
}

/// The views of the values of `items`, in order.
pub open spec fn items_view(items: Seq<Json>) -> Seq<JsonValue> {
    Seq::new(items.len(), |i: int| items[i]@)
}

/// The views of the members `members`, in order: each name with its value.
pub open spec fn members_view(members: Seq<(String, Json)>) -> Seq<(Seq<char>, JsonValue)> {
    Seq::new(members.len(), |i: int| (members[i].0@, members[i].1@))
}

/// Each item of an array is smaller than the array.
proof fn lemma_item_decreases(items: Vec<Json>, i: int)
    requires
        0 <= i < items@.len(),
    ensures
        decreases_to!(Json::Array(items) => items@[i]),
{
    broadcast use vstd::std_specs::vec::group_vec_axioms;
    broadcast use vstd::seq::group_seq_axioms;

    let array = Json::Array(items);
    assert(decreases_to!(array => array->Array_0));
    assert(decreases_to!(items => items@));
    assert(decreases_to!(items@ => items@[i]));
}

/// The value of each member of an object is smaller than the object.
proof fn lemma_member_decreases(members: Vec<(String, Json)>, i: int)
    requires
        0 <= i < members@.len(),
    ensures
        decreases_to!(Json::Object(members) => members@[i].1),
{
    broadcast use vstd::std_specs::vec::group_vec_axioms;
    broadcast use vstd::seq::group_seq_axioms;

    let object = Json::Object(members);
    assert(decreases_to!(object => object->Object_0));
    assert(decreases_to!(members => members@));
    assert(decreases_to!(members@ => members@[i]));
    assert(decreases_to!(members@[i] => members@[i].1));
}

/// An array is viewed item by item.
pub proof fn lemma_array_view(items: Vec<Json>)
    ensures
        Json::Array(items)@ == JsonValue::Array(items_view(items@)),
{
    reveal_with_fuel(<Json as View>::view, 2);
    assert forall|i: int| 0 <= i < items@.len() implies Json::Array(items)@->Array_0[i]
        == items@[i]@ by {
        lemma_item_decreases(items, i);
    }
    assert(Json::Array(items)@->Array_0 =~= items_view(items@));
}

/// An object is viewed member by member.
pub proof fn lemma_object_view(members: Vec<(String, Json)>)
    ensures
        Json::Object(members)@ == JsonValue::Object(members_view(members@)),
{
    reveal_with_fuel(<Json as View>::view, 2);
    assert forall|i: int| 0 <= i < members@.len() implies Json::Object(members)@->Object_0[i] == (
        members@[i].0@,
        members@[i].1@,
    ) by {
        lemma_member_decreases(members, i);
    }
    assert(Json::Object(members)@->Object_0 =~= members_view(members@));
}

impl Clone for Json {
    /// A copy that denotes the same value.
    fn clone(&self) -> (copy: Self)
        ensures
            copy@ == self@,
        decreases self,
    {
        match self {
            Json::Null => Json::Null,
            Json::Bool(b) => Json::Bool(*b),
            Json::Number(n) => Json::Number(*n),
            Json::OtherNumber => Json::OtherNumber,
            Json::Text(text) => Json::Text(text.clone()),
            Json::Array(items) => {
                let mut copies: Vec<Json> = Vec::new();
                let mut at: usize = 0;
                while at < items.len()
                    invariant
                        at <= items.len(),
                        copies.len() == at,
                        self == Json::Array(*items),
                        forall|i: int| 0 <= i < at ==> (#[trigger] copies@[i])@ == items@[i]@,
                    decreases items.len() - at,
                {
                    proof {
                        lemma_item_decreases(*items, at as int);
                    }
                    copies.push(items[at].clone());
                    at += 1;
                }
                proof {
                    lemma_array_view(*items);
                    lemma_array_view(copies);
                    assert(items_view(copies@) =~= items_view(items@));
                }
                Json::Array(copies)
            },
            Json::Object(members) => {
                let mut copies: Vec<(String, Json)> = Vec::new();
                let mut at: usize = 0;
                while at < members.len()
                    invariant
                        at <= members.len(),
                        copies.len() == at,
                        self == Json::Object(*members),
                        forall|i: int|
                            0 <= i < at ==> {
                                &&& (#[trigger] copies@[i]).0@ == members@[i].0@
                                &&& copies@[i].1@ == members@[i].1@
                            },
                    decreases members.len() - at,
                {
                    proof {
                        lemma_member_decreases(*members, at as int);
                    }
                    copies.push((members[at].0.clone(), members[at].1.clone()));
                    at += 1;
                }
                proof {
                    lemma_object_view(*members);
                    lemma_object_view(copies);
                    assert(members_view(copies@) =~= members_view(members@));
                }
                Json::Object(copies)
            },
        }
    }
}

/// The value of the first member of `members` that is named `key`, if there
/// is one.
pub open spec fn lookup(members: Seq<(Seq<char>, JsonValue)>, key: Seq<char>) -> Option<JsonValue>
    decreases members.len(),
{
    if members.len() == 0 {
        None
    } else if members[0].0 == key {
        Some(members[0].1)
    } else {
        lookup(members.drop_first(), key)
    }
}

/// Looking a name up in two lists of members, one after the other, finds
/// what the first list holds under it, and else what the second holds.
pub proof fn lemma_lookup_concat(
    front: Seq<(Seq<char>, JsonValue)>,
    back: Seq<(Seq<char>, JsonValue)>,
    key: Seq<char>,
)
    ensures
        lookup(front + back, key) == match lookup(front, key) {
            Some(value) => Some(value),
            None => lookup(back, key),
        },
    decreases front.len(),
{
    if front.len() == 0 {
        assert(front + back =~= back);
    } else {
        assert((front + back).drop_first() =~= front.drop_first() + back);
        lemma_lookup_concat(front.drop_first(), back, key);
    }
}

/// The first member of `members` that is named `key`, if there is one.
pub fn find<'a>(members: &'a Vec<(String, Json)>, key: &str) -> (found: Option<&'a Json>)
    ensures
        match found {
            Some(value) => lookup(members_view(members@), key@) == Some(value@),
            None => lookup(members_view(members@), key@) is None,
        },
{
    let name = String::from_str(key);
    let ghost all = members_view(members@);
    let mut at: usize = 0;
    proof {
        assert(all.skip(0) =~= all);
    }
    while at < members.len()
        invariant
            at <= members.len(),
            all == members_view(members@),
            name@ == key@,
            lookup(all, key@) == lookup(all.skip(at as int), key@),
        decreases members.len() - at,
    {
        let ghost rest = all.skip(at as int);
        proof {
            assert(rest[0] == all[at as int]);
            assert(rest.drop_first() =~= all.skip(at + 1));
        }
        if members[at].0 == name {
            return Some(&members[at].1);
        }
        at += 1;
    }
    proof {
        assert(all.skip(at as int) =~= Seq::empty());
    }
    None
}

} // verus!
