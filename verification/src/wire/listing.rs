use crate::dir::{listing_view, DirectoryListEntry, DirectoryListEntryView, DirectoryListing};
use crate::file::{lemma_wire_name_round_trip, FileType};
use crate::json::{
    find, items_view, lemma_array_view, lemma_object_view, lookup, members_view, Json, JsonValue,
};
use crate::metadata::{Metadata, MetadataView};
use crate::wire::{
    distinct_names, json_view, lemma_lookup_field, lemma_metadata_round_trip, metadata_json,
    metadata_of, object, object_members, push_field, text_at, text_in, Fields, Members,
};
use vstd::prelude::*;

verus! {

/// The fields of an entry whose metadata is written as `metadata`: the name,
/// the kind under `type`, then the metadata.
pub open spec fn entry_fields(entry: DirectoryListEntryView, metadata: JsonValue) -> Fields {
    seq![
        ("name"@, Some(JsonValue::Text(entry.name))),
        ("type"@, Some(JsonValue::Text(entry.file_type.wire_name()))),
        ("metadata"@, Some(metadata)),
    ]
}

/// The JSON form of an entry, where its metadata can be written.
pub open spec fn entry_json(entry: DirectoryListEntryView) -> Option<JsonValue> {
    match metadata_json(entry.metadata) {
        Some(metadata) => Some(object(entry_fields(entry, metadata))),
        None => None,
    }
}

/// The kind that `members` give under `type`.
pub open spec fn kind_at(members: Members) -> Option<FileType> {
    match text_at(members, "type"@) {
        Some(name) => FileType::of_wire_name(name),
        None => None,
    }
}

/// The metadata that `members` give.
pub open spec fn metadata_at(members: Members) -> Option<MetadataView> {
    match lookup(members, "metadata"@) {
        Some(value) => metadata_of(value),
        None => None,
    }
}

/// The entry that a JSON value denotes: an object whose `name` is a text,
/// whose `type` is the name of a kind, and whose `metadata` is metadata.
pub open spec fn entry_of(json: JsonValue) -> Option<DirectoryListEntryView> {
    match json {
        JsonValue::Object(members) => match (
            text_at(members, "name"@),
            kind_at(members),
            metadata_at(members),
        ) {
            (Some(name), Some(file_type), Some(metadata)) => Some(
                DirectoryListEntryView { name, file_type, metadata },
            ),
            _ => None,
        },
        _ => None,
    }
}

/// The JSON form of a listing, where each of its entries can be written: the
/// array of the entries' forms, in the order of the listing.
pub open spec fn listing_json(listing: Seq<DirectoryListEntryView>) -> Option<JsonValue> {
    if forall|i: int| 0 <= i < listing.len() ==> (#[trigger] entry_json(listing[i])) is Some {
        Some(JsonValue::Array(Seq::new(listing.len(), |i: int| entry_json(listing[i]).unwrap())))
    } else {
        None
    }
}

/// The listing that a JSON value denotes: an array of entries.
pub open spec fn listing_of(json: JsonValue) -> Option<Seq<DirectoryListEntryView>> {
    match json {
        JsonValue::Array(items) => if forall|i: int|
            0 <= i < items.len() ==> (#[trigger] entry_of(items[i])) is Some {
            Some(Seq::new(items.len(), |i: int| entry_of(items[i]).unwrap()))
        } else {
            None
        },
        _ => None,
    }
}

/// The names of the members of an entry differ from each other.
proof fn lemma_entry_names_differ()
    ensures
        "name"@ != "type"@,
        "name"@ != "metadata"@,
        "type"@ != "metadata"@,
{
    reveal_strlit("name");
    reveal_strlit("type");
    reveal_strlit("metadata");
    assert("name"@.len() == 4 && "name"@[0] == 'n');
    assert("type"@.len() == 4 && "type"@[0] == 't');
    assert("metadata"@.len() == 8);
}

/// An entry that can be written is read back from its JSON form.
pub proof fn lemma_entry_round_trip(entry: DirectoryListEntryView)
    ensures
        entry_json(entry) matches Some(json) ==> entry_of(json) == Some(entry),
{
    if let Some(metadata) = metadata_json(entry.metadata) {
        let fields = entry_fields(entry, metadata);
        lemma_entry_names_differ();
        assert(distinct_names(fields));
        lemma_lookup_field(fields, 0);
        lemma_lookup_field(fields, 1);
        lemma_lookup_field(fields, 2);
        lemma_wire_name_round_trip(entry.file_type);
        lemma_metadata_round_trip(entry.metadata);
    }
}

/// A listing that can be written is read back from its JSON form: as many
/// entries, the same ones, in the same order.
pub proof fn lemma_listing_round_trip(listing: Seq<DirectoryListEntryView>)
    ensures
        listing_json(listing) matches Some(json) ==> listing_of(json) == Some(listing),
{
    if let Some(json) = listing_json(listing) {
        let items = json->Array_0;
        assert forall|i: int| 0 <= i < items.len() implies (#[trigger] entry_of(items[i]))
            == Some(listing[i]) by {
            assert(entry_json(listing[i]) is Some);
            lemma_entry_round_trip(listing[i]);
        }
        assert(Seq::new(items.len(), |i: int| entry_of(items[i]).unwrap()) =~= listing);
    }
}

impl DirectoryListEntry {
    /// Writes this entry as JSON, with `metadata` as the form of its
    /// metadata: an object with `name`, `type` and `metadata`.
    pub fn to_json_with(&self, metadata: Json) -> (json: Json)
        ensures
            json@ == object(entry_fields(self@, metadata@)),
    {
        let mut members: Vec<(String, Json)> = Vec::new();
        let ghost none: Fields = Seq::empty();
        assert(members_view(members@) =~= object_members(none));
        let name = Json::Text(String::from_str(self.name()));
        push_field(&mut members, Ghost(none), "name", Some(name));
        let ghost one = none.push(("name"@, Some(JsonValue::Text(self@.name))));
        let kind = Json::Text(String::from_str(self.file_type().as_str()));
        push_field(&mut members, Ghost(one), "type", Some(kind));
        let ghost two = one.push(
            ("type"@, Some(JsonValue::Text(self@.file_type.wire_name()))),
        );
        push_field(&mut members, Ghost(two), "metadata", Some(metadata));
        proof {
            lemma_object_view(members);
            assert(two.push(("metadata"@, Some(metadata@))) =~= entry_fields(self@, metadata@));
        }
        Json::Object(members)
    }

    /// Writes this entry as JSON. The result is `None` where the metadata
    /// cannot be written.
    pub fn to_json(&self) -> (json: Option<Json>)
        ensures
            json_view(json) == entry_json(self@),
    {
        match self.metadata().to_json() {
            Some(metadata) => Some(self.to_json_with(metadata)),
            None => None,
        }
    }

    /// Reads an entry from JSON.
    ///
    /// `name` must be a text, `type` one of `file`, `directory` and
    /// `symlink`, and `metadata` must be metadata. Members under other names
    /// are passed over.
    pub fn from_json(json: &Json) -> (entry: Option<DirectoryListEntry>)
        ensures
            match entry {
                Some(entry) => entry_of(json@) == Some(entry@),
                None => entry_of(json@) is None,
            },
    {
        let members = match json {
            Json::Object(members) => members,
            _ => {
                return None;
            },
        };
        proof {
            lemma_object_view(*members);
        }
        let name = match text_in(members, "name") {
            Some(name) => String::from_str(name),
            None => {
                return None;
            },
        };
        let file_type = match text_in(members, "type") {
            Some(kind) => match FileType::from_name(kind) {
                Some(file_type) => file_type,
                None => {
                    return None;
                },
            },
            None => {
                return None;
            },
        };
        let metadata = match find(members, "metadata") {
            Some(value) => match Metadata::from_json(value) {
                Some(metadata) => metadata,
                None => {
                    return None;
                },
            },
            None => {
                return None;
            },
        };
        Some(
            DirectoryListEntry::default().with_name(name).with_file_type(file_type).with_metadata(
                metadata,
            ),
        )
    }
}

/// Writes a listing as JSON: the array of its entries, in their order. The
/// result is `None` where an entry cannot be written.
pub fn listing_to_json(listing: &DirectoryListing) -> (json: Option<Json>)
    ensures
        json_view(json) == listing_json(listing_view(listing@)),
{
    let ghost entries = listing_view(listing@);
    let mut items: Vec<Json> = Vec::new();
    let mut at: usize = 0;
    while at < listing.len()
        invariant
            at <= listing.len(),
            entries == listing_view(listing@),
            items.len() == at,
            forall|i: int| 0 <= i < at ==> entry_json(entries[i]) == Some(#[trigger] items@[i]@),
        decreases listing.len() - at,
    {
        match listing[at].to_json() {
            Some(item) => {
                items.push(item);
            },
            None => {
                assert(entry_json(entries[at as int]) is None);
                return None;
            },
        }
        at += 1;
    }
    proof {
        lemma_array_view(items);
        assert forall|i: int| 0 <= i < entries.len() implies (#[trigger] entry_json(
            entries[i],
        )) is Some by {
            assert(entry_json(entries[i]) == Some(items@[i]@));
        }
        assert(items_view(items@) =~= Seq::new(
            entries.len(),
            |i: int| entry_json(entries[i]).unwrap(),
        ));
    }
    Some(Json::Array(items))
}

/// Reads a listing from JSON: an array, each item of which must be an entry.
/// The entries keep the order of the array.
pub fn listing_from_json(json: &Json) -> (listing: Option<DirectoryListing>)
    ensures
        match listing {
            Some(listing) => listing_of(json@) == Some(listing_view(listing@)),
            None => listing_of(json@) is None,
        },
{
    let items = match json {
        Json::Array(items) => items,
        _ => {
            return None;
        },
    };
    proof {
        lemma_array_view(*items);
    }
    let ghost values = items_view(items@);
    let mut listing: Vec<DirectoryListEntry> = Vec::new();
    let mut at: usize = 0;
    while at < items.len()
        invariant
            at <= items.len(),
            values == items_view(items@),
            json@ == JsonValue::Array(values),
            listing.len() == at,
            forall|i: int| 0 <= i < at ==> entry_of(values[i]) == Some(#[trigger] listing@[i]@),
        decreases items.len() - at,
    {
        match DirectoryListEntry::from_json(&items[at]) {
            Some(entry) => {
                listing.push(entry);
            },
            None => {
                assert(entry_of(values[at as int]) is None);
                return None;
            },
        }
        at += 1;
    }
    proof {
        assert forall|i: int| 0 <= i < values.len() implies (#[trigger] entry_of(
            values[i],
        )) is Some by {
            assert(entry_of(values[i]) == Some(listing@[i]@));
        }
        assert(listing_view(listing@) =~= Seq::new(
            values.len(),
            |i: int| entry_of(values[i]).unwrap(),
        ));
    }
    Some(listing)
}

} // verus!
