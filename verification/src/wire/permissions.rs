use crate::json::{lemma_object_view, members_view, Json, JsonValue};
use crate::metadata::{
    FileGroup, FileGroupView, FileOwner, FileOwnerView, FilePermissions, FilePermissionsView,
};
use crate::wire::{
    bool_at, bool_in, distinct_names, group_json, group_of, lemma_group_round_trip,
    lemma_lookup_field, lemma_owner_round_trip, object, object_members, owner_json, owner_of,
    present_at, present_in, push_field, Fields, Members,
};
use vstd::prelude::*;

verus! {

/// The JSON form of an owner that may be unknown.
pub open spec fn optional_owner_json(owner: Option<FileOwnerView>) -> Option<JsonValue> {
    match owner {
        Some(owner) => Some(owner_json(owner)),
        None => None,
    }
}

/// The JSON form of a group that may be unknown.
pub open spec fn optional_group_json(group: Option<FileGroupView>) -> Option<JsonValue> {
    match group {
        Some(group) => Some(group_json(group)),
        None => None,
    }
}

/// The fields of permissions: the three flags, then owner and group, each
/// unless unknown.
pub open spec fn permissions_fields(permissions: FilePermissionsView) -> Fields {
    seq![
        ("read"@, Some(JsonValue::Bool(permissions.read))),
        ("write"@, Some(JsonValue::Bool(permissions.write))),
        ("execute"@, Some(JsonValue::Bool(permissions.execute))),
        ("owner"@, optional_owner_json(permissions.owner)),
        ("group"@, optional_group_json(permissions.group)),
    ]
}

/// The JSON form of permissions.
pub open spec fn permissions_json(permissions: FilePermissionsView) -> JsonValue {
    object(permissions_fields(permissions))
}

/// The owner that `members` give: unknown where the member is absent or
/// `null`, and nothing at all where it is there but is no owner.
pub open spec fn owner_at(members: Members) -> Option<Option<FileOwnerView>> {
    match present_at(members, "owner"@) {
        None => Some(None),
        Some(value) => match owner_of(value) {
            Some(owner) => Some(Some(owner)),
            None => None,
        },
    }
}

/// The group that `members` give: unknown where the member is absent or
/// `null`, and nothing at all where it is there but is no group.
pub open spec fn group_at(members: Members) -> Option<Option<FileGroupView>> {
    match present_at(members, "group"@) {
        None => Some(None),
        Some(value) => match group_of(value) {
            Some(group) => Some(Some(group)),
            None => None,
        },
    }
}

/// The permissions that a JSON value denotes: an object whose `read`, `write`
/// and `execute` are truth values, and whose `owner` and `group` are each
/// absent, `null`, or an owner and a group.
pub open spec fn permissions_of(json: JsonValue) -> Option<FilePermissionsView> {
    match json {
        JsonValue::Object(members) => match (
            bool_at(members, "read"@),
            bool_at(members, "write"@),
            bool_at(members, "execute"@),
            owner_at(members),
            group_at(members),
        ) {
            (Some(read), Some(write), Some(execute), Some(owner), Some(group)) => Some(
                FilePermissionsView { read, write, execute, owner, group },
            ),
            _ => None,
        },
        _ => None,
    }
}

/// The names of the members of permissions differ from each other.
proof fn lemma_permission_names_differ()
    ensures
        distinct_names(
            seq![
                ("read"@, None),
                ("write"@, None),
                ("execute"@, None),
                ("owner"@, None),
                ("group"@, None),
            ],
        ),
{
    reveal_strlit("read");
    reveal_strlit("write");
    reveal_strlit("execute");
    reveal_strlit("owner");
    reveal_strlit("group");
    assert("read"@.len() == 4);
    assert("write"@.len() == 5 && "write"@[0] == 'w');
    assert("execute"@.len() == 7);
    assert("owner"@.len() == 5 && "owner"@[0] == 'o');
    assert("group"@.len() == 5 && "group"@[0] == 'g');
}

/// Permissions are read back from their JSON form.
pub proof fn lemma_permissions_round_trip(permissions: FilePermissionsView)
    ensures
        permissions_of(permissions_json(permissions)) == Some(permissions),
{
    let fields = permissions_fields(permissions);
    assert(distinct_names(fields)) by {
        lemma_permission_names_differ();
        let names: Fields = seq![
            ("read"@, None),
            ("write"@, None),
            ("execute"@, None),
            ("owner"@, None),
            ("group"@, None),
        ];
        assert forall|a: int, b: int| 0 <= a < b < fields.len() implies fields[a].0
            != fields[b].0 by {
            assert(fields[a].0 == names[a].0);
            assert(fields[b].0 == names[b].0);
        }
    }
    lemma_lookup_field(fields, 0);
    lemma_lookup_field(fields, 1);
    lemma_lookup_field(fields, 2);
    lemma_lookup_field(fields, 3);
    lemma_lookup_field(fields, 4);
    if let Some(owner) = permissions.owner {
        lemma_owner_round_trip(owner);
    }
    if let Some(group) = permissions.group {
        lemma_group_round_trip(group);
    }
}

impl FilePermissions {
    /// Writes these permissions as JSON: an object with `read`, `write` and
    /// `execute`, then `owner` and `group` where they are known.
    pub fn to_json(&self) -> (json: Json)
        ensures
            json@ == permissions_json(self@),
    {
        let owner = match self.owner() {
            Some(owner) => Some(owner.to_json()),
            None => None,
        };
        let group = match self.group() {
            Some(group) => Some(group.to_json()),
            None => None,
        };
        let mut members: Vec<(String, Json)> = Vec::new();
        let ghost none: Fields = Seq::empty();
        assert(members_view(members@) =~= object_members(none));
        push_field(&mut members, Ghost(none), "read", Some(Json::Bool(self.read())));
        let ghost one = none.push(("read"@, Some(JsonValue::Bool(self@.read))));
        push_field(&mut members, Ghost(one), "write", Some(Json::Bool(self.write())));
        let ghost two = one.push(("write"@, Some(JsonValue::Bool(self@.write))));
        push_field(&mut members, Ghost(two), "execute", Some(Json::Bool(self.execute())));
        let ghost three = two.push(("execute"@, Some(JsonValue::Bool(self@.execute))));
        push_field(&mut members, Ghost(three), "owner", owner);
        let ghost four = three.push(("owner"@, optional_owner_json(self@.owner)));
        push_field(&mut members, Ghost(four), "group", group);
        proof {
            lemma_object_view(members);
            assert(four.push(("group"@, optional_group_json(self@.group))) =~= permissions_fields(
                self@,
            ));
        }
        Json::Object(members)
    }

    /// Reads permissions from JSON.
    ///
    /// `read`, `write` and `execute` must be there, as truth values. `owner`
    /// and `group` may be absent or `null`, which both mean unknown; one that
    /// is there must be an owner or a group. Members under other names are
    /// passed over.
    pub fn from_json(json: &Json) -> (permissions: Option<FilePermissions>)
        ensures
            match permissions {
                Some(permissions) => permissions_of(json@) == Some(permissions@),
                None => permissions_of(json@) is None,
            },
    {
        let members = match json {
            Json::Object(members) => members,
            _ => {
                return None;
            },
        };
        proof {
            lemma_object_view(*members);
        }
        let read = match bool_in(members, "read") {
            Some(read) => read,
            None => {
                return None;
            },
        };
        let write = match bool_in(members, "write") {
            Some(write) => write,
            None => {
                return None;
            },
        };
        let execute = match bool_in(members, "execute") {
            Some(execute) => execute,
            None => {
                return None;
            },
        };
        let owner = match present_in(members, "owner") {
            None => None,
            Some(value) => match FileOwner::from_json(value) {
                Some(owner) => Some(owner),
                None => {
                    return None;
                },
            },
        };
        let group = match present_in(members, "group") {
            None => None,
            Some(value) => match FileGroup::from_json(value) {
                Some(group) => Some(group),
                None => {
                    return None;
                },
            },
        };
        Some(
            FilePermissions::default().with_read(read).with_write(write).with_execute(
                execute,
            ).with_owner(owner).with_group(group),
        )
    }
}

} // verus!
