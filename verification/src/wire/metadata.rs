use crate::json::{find, lemma_object_view, lookup, members_view, Json, JsonValue};
use crate::metadata::{FilePermissions, FilePermissionsView, Metadata, MetadataView, Timestamp};
use crate::text::{
    decimal_text, decimal_u64, format_decimal, lemma_decimal_round_trip, parse_decimal,
};
use crate::wire::{
    distinct_names, json_view, lemma_lookup_field, lemma_permissions_round_trip, object,
    object_members, permissions_json, permissions_of, present_at, present_in, push_field,
    text_at, text_in, Fields, Members,
};
use vstd::prelude::*;

verus! {

/// A text as a JSON value, where there is a text.
pub open spec fn optional_text_json(text: Option<Seq<char>>) -> Option<JsonValue> {
    match text {
        Some(text) => Some(JsonValue::Text(text)),
        None => None,
    }
}

/// The view of a text that may be absent.
pub open spec fn text_view(text: Option<String>) -> Option<Seq<char>> {
    match text {
        Some(text) => Some(text@),
        None => None,
    }
}

/// The fields of metadata, the three timestamps being written as `created`,
/// `updated` and `accessed` say: each timestamp unless unknown, then the
/// permissions, then the size in decimal digits.
pub open spec fn metadata_fields(
    metadata: MetadataView,
    created: Option<Seq<char>>,
    updated: Option<Seq<char>>,
    accessed: Option<Seq<char>>,
) -> Fields {
    seq![
        ("created"@, optional_text_json(created)),
        ("updated"@, optional_text_json(updated)),
        ("accessed"@, optional_text_json(accessed)),
        ("permissions"@, Some(permissions_json(metadata.permissions))),
        ("size"@, Some(JsonValue::Text(decimal_text(metadata.size as nat)))),
    ]
}

/// The JSON form of metadata whose timestamps are written as the three texts
/// say.
pub open spec fn metadata_json_with(
    metadata: MetadataView,
    created: Option<Seq<char>>,
    updated: Option<Seq<char>>,
    accessed: Option<Seq<char>>,
) -> JsonValue {
    object(metadata_fields(metadata, created, updated, accessed))
}

/// How a timestamp that may be unknown is written: not at all where it is
/// unknown, as its text on the wire where it has one, and nothing at all
/// where it is known but has no such text.
pub open spec fn stamp_text(stamp: Option<Timestamp>) -> Option<Option<Seq<char>>> {
    match stamp {
        None => Some(None),
        Some(stamp) => match stamp.wire_text() {
            Some(text) => Some(Some(text)),
            None => None,
        },
    }
}

/// The JSON form of metadata, where each timestamp that is known can be
/// written.
pub open spec fn metadata_json(metadata: MetadataView) -> Option<JsonValue> {
    match (
        stamp_text(metadata.created),
        stamp_text(metadata.updated),
        stamp_text(metadata.accessed),
    ) {
        (Some(created), Some(updated), Some(accessed)) => Some(
            metadata_json_with(metadata, created, updated, accessed),
        ),
        _ => None,
    }
}

/// The timestamp that `members` give under `key`: unknown where the member is
/// absent or `null`, and nothing at all where it is there but is no text that
/// reads as a timestamp.
pub open spec fn stamp_at(members: Members, key: Seq<char>) -> Option<Option<Timestamp>> {
    match present_at(members, key) {
        None => Some(None),
        Some(JsonValue::Text(text)) => match Timestamp::read(text) {
            Some(stamp) => Some(Some(stamp)),
            None => None,
        },
        Some(_) => None,
    }
}

/// The permissions that `members` give.
pub open spec fn permissions_at(members: Members) -> Option<FilePermissionsView> {
    match lookup(members, "permissions"@) {
        Some(value) => permissions_of(value),
        None => None,
    }
}

/// The size that `members` give: a text of decimal digits.
pub open spec fn size_at(members: Members) -> Option<u64> {
    match text_at(members, "size"@) {
        Some(text) => decimal_u64(text),
        None => None,
    }
}

/// The metadata that a JSON value denotes: an object whose `permissions` are
/// permissions, whose `size` is a text of decimal digits, and whose `created`,
/// `updated` and `accessed` are each absent, `null`, or a timestamp.
pub open spec fn metadata_of(json: JsonValue) -> Option<MetadataView> {
    match json {
        JsonValue::Object(members) => match (
            stamp_at(members, "created"@),
            stamp_at(members, "updated"@),
            stamp_at(members, "accessed"@),
            permissions_at(members),
            size_at(members),
        ) {
            (Some(created), Some(updated), Some(accessed), Some(permissions), Some(size)) => Some(
                MetadataView { created, updated, accessed, permissions, size },
            ),
            _ => None,
        },
        _ => None,
    }
}

/// The names of the members of metadata differ from each other.
proof fn lemma_metadata_names_differ()
    ensures
        distinct_names(
            seq![
                ("created"@, None),
                ("updated"@, None),
                ("accessed"@, None),
                ("permissions"@, None),
                ("size"@, None),
            ],
        ),
{
    reveal_strlit("created");
    reveal_strlit("updated");
    reveal_strlit("accessed");
    reveal_strlit("permissions");
    reveal_strlit("size");
    assert("created"@.len() == 7 && "created"@[0] == 'c');
    assert("updated"@.len() == 7 && "updated"@[0] == 'u');
    assert("accessed"@.len() == 8);
    assert("permissions"@.len() == 11);
    assert("size"@.len() == 4);
}

/// A timestamp that was written is read back.
proof fn lemma_stamp_round_trip(fields: Fields, i: int, stamp: Option<Timestamp>)
    requires
        distinct_names(fields),
        0 <= i < fields.len(),
        stamp_text(stamp) matches Some(text) && fields[i].1 == optional_text_json(text),
    ensures
        stamp_at(object_members(fields), fields[i].0) == Some(stamp),
{
    lemma_lookup_field(fields, i);
}

/// Metadata that can be written is read back from its JSON form.
pub proof fn lemma_metadata_round_trip(metadata: MetadataView)
    ensures
        metadata_json(metadata) matches Some(json) ==> metadata_of(json) == Some(metadata),
{
    if let Some(json) = metadata_json(metadata) {
        let created = stamp_text(metadata.created).unwrap();
        let updated = stamp_text(metadata.updated).unwrap();
        let accessed = stamp_text(metadata.accessed).unwrap();
        let fields = metadata_fields(metadata, created, updated, accessed);
        assert(distinct_names(fields)) by {
            lemma_metadata_names_differ();
            let names: Fields = seq![
                ("created"@, None),
                ("updated"@, None),
                ("accessed"@, None),
                ("permissions"@, None),
                ("size"@, None),
            ];
            assert forall|a: int, b: int| 0 <= a < b < fields.len() implies fields[a].0
                != fields[b].0 by {
                assert(fields[a].0 == names[a].0);
                assert(fields[b].0 == names[b].0);
            }
        }
        lemma_stamp_round_trip(fields, 0, metadata.created);
        lemma_stamp_round_trip(fields, 1, metadata.updated);
        lemma_stamp_round_trip(fields, 2, metadata.accessed);
        lemma_lookup_field(fields, 3);
        lemma_lookup_field(fields, 4);
        lemma_permissions_round_trip(metadata.permissions);
        lemma_decimal_round_trip(metadata.size as nat);
    }
}

/// Writes a timestamp that may be unknown.
fn write_stamp(stamp: Option<Timestamp>) -> (text: Option<Option<String>>)
    ensures
        match text {
            Some(text) => stamp_text(stamp) == Some(text_view(text)),
            None => stamp_text(stamp) is None,
        },
{
    match stamp {
        None => Some(None),
        Some(stamp) => match stamp.to_rfc3339() {
            Some(text) => Some(Some(text)),
            None => None,
        },
    }
}

/// Reads the timestamp under `key`, which may be unknown.
fn read_stamp(members: &Vec<(String, Json)>, key: &str) -> (stamp: Option<Option<Timestamp>>)
    ensures
        stamp == stamp_at(members_view(members@), key@),
{
    match present_in(members, key) {
        None => Some(None),
        Some(Json::Text(text)) => match Timestamp::from_rfc3339(text.as_str()) {
            Some(stamp) => Some(Some(stamp)),
            None => None,
        },
        Some(_) => None,
    }
}

/// A text as a JSON value, where there is a text.
fn optional_text(text: Option<String>) -> (json: Option<Json>)
    ensures
        json_view(json) == optional_text_json(text_view(text)),
{
    match text {
        Some(text) => Some(Json::Text(text)),
        None => None,
    }
}

impl Metadata {
    /// Writes this metadata as JSON, with `created`, `updated` and `accessed`
    /// as the texts of the three timestamps; one that is `None` is left out.
    ///
    /// The object holds the timestamps that are given, then `permissions`,
    /// then `size` as a text of decimal digits.
    pub fn to_json_with(
        &self,
        created: Option<String>,
        updated: Option<String>,
        accessed: Option<String>,
    ) -> (json: Json)
        ensures
            json@ == metadata_json_with(
                self@,
                text_view(created),
                text_view(updated),
                text_view(accessed),
            ),
    {
        let permissions = self.permissions().to_json();
        let size = Json::Text(format_decimal(self.size()));
        let mut members: Vec<(String, Json)> = Vec::new();
        let ghost none: Fields = Seq::empty();
        assert(members_view(members@) =~= object_members(none));
        push_field(&mut members, Ghost(none), "created", optional_text(created));
        let ghost one = none.push(("created"@, optional_text_json(text_view(created))));
        push_field(&mut members, Ghost(one), "updated", optional_text(updated));
        let ghost two = one.push(("updated"@, optional_text_json(text_view(updated))));
        push_field(&mut members, Ghost(two), "accessed", optional_text(accessed));
        let ghost three = two.push(("accessed"@, optional_text_json(text_view(accessed))));
        push_field(&mut members, Ghost(three), "permissions", Some(permissions));
        let ghost four = three.push(("permissions"@, Some(permissions_json(self@.permissions))));
        push_field(&mut members, Ghost(four), "size", Some(size));
        proof {
            lemma_object_view(members);
            assert(four.push(("size"@, Some(JsonValue::Text(decimal_text(self@.size as nat)))))
                =~= metadata_fields(
                self@,
                text_view(created),
                text_view(updated),
                text_view(accessed),
            ));
        }
        Json::Object(members)
    }

    /// Writes this metadata as JSON.
    ///
    /// Each timestamp that is known is written in its RFC 3339 form, and one
    /// that is unknown is left out. The result is `None` where a timestamp
    /// has no form that reads back as itself.
    pub fn to_json(&self) -> (json: Option<Json>)
        ensures
            json_view(json) == metadata_json(self@),
    {
        let created = match write_stamp(self.created()) {
            Some(created) => created,
            None => {
                return None;
            },
        };
        let updated = match write_stamp(self.updated()) {
            Some(updated) => updated,
            None => {
                return None;
            },
        };
        let accessed = match write_stamp(self.accessed()) {
            Some(accessed) => accessed,
            None => {
                return None;
            },
        };
        Some(self.to_json_with(created, updated, accessed))
    }

    /// Reads metadata from JSON.
    ///
    /// `permissions` and `size` must be there, the size as a text of decimal
    /// digits that fits 64 bits. `created`, `updated` and `accessed` may be
    /// absent or `null`, which both mean unknown; one that is there must be a
    /// text in RFC 3339 form. Members under other names are passed over.
    pub fn from_json(json: &Json) -> (metadata: Option<Metadata>)
        ensures
            match metadata {
                Some(metadata) => metadata_of(json@) == Some(metadata@),
                None => metadata_of(json@) is None,
            },
    {
        let members = match json {
            Json::Object(members) => members,
            _ => {
                return None;
            },
        };
        proof {
            lemma_object_view(*members);
        }
        let created = match read_stamp(members, "created") {
            Some(created) => created,
            None => {
                return None;
            },
        };
        let updated = match read_stamp(members, "updated") {
            Some(updated) => updated,
            None => {
                return None;
            },
        };
        let accessed = match read_stamp(members, "accessed") {
            Some(accessed) => accessed,
            None => {
                return None;
            },
        };
        let permissions = match find(members, "permissions") {
            Some(value) => match FilePermissions::from_json(value) {
                Some(permissions) => permissions,
                None => {
                    return None;
                },
            },
            None => {
                return None;
            },
        };
        let size = match text_in(members, "size") {
            Some(text) => match parse_decimal(text) {
                Some(size) => size,
                None => {
                    return None;
                },
            },
            None => {
                return None;
            },
        };
        Some(
            Metadata::default().with_created(created).with_updated(updated).with_accessed(
                accessed,
            ).with_permissions(permissions).with_size(size),
        )
    }
}

} // verus!
