use crate::json::{find, lemma_object_view, lookup, members_view, Json, JsonValue};
use crate::metadata::{FileGroup, FileGroupView, FileOwner, FileOwnerView};
use crate::wire::{
    distinct_names, lemma_lookup_absent, lemma_lookup_field, nonempty_text, object,
    object_members, push_field, text_or_empty_at, text_or_empty_in, text_unless_empty, Fields,
    Members,
};
use vstd::prelude::*;

verus! {

/// The fields of an owner or a group of a Unix-like host: the number under
/// `id_key`, then the name unless it is empty.
pub open spec fn unix_fields(id_key: Seq<char>, id: u32, name: Seq<char>) -> Fields {
    seq![(id_key, Some(JsonValue::Number(id as u64))), ("name"@, nonempty_text(name))]
}

/// The fields of an owner or a group of a Windows host: the identifier, then
/// the domain and the name, each unless it is empty.
pub open spec fn windows_fields(sid: Seq<char>, domain: Seq<char>, name: Seq<char>) -> Fields {
    seq![
        ("sid"@, Some(JsonValue::Text(sid))),
        ("domain"@, nonempty_text(domain)),
        ("name"@, nonempty_text(name)),
    ]
}

/// The object of an owner or a group of a Unix-like host.
pub open spec fn unix_json(id_key: Seq<char>, id: u32, name: Seq<char>) -> JsonValue {
    object(unix_fields(id_key, id, name))
}

/// The object of an owner or a group of a Windows host.
pub open spec fn windows_json(sid: Seq<char>, domain: Seq<char>, name: Seq<char>) -> JsonValue {
    object(windows_fields(sid, domain, name))
}

/// The id and the name that `members` give for a Unix-like host: the member
/// under `id_key` must be a number of 32 bits, the name a text or absent.
pub open spec fn unix_of(members: Members, id_key: Seq<char>) -> Option<(u32, Seq<char>)> {
    match (lookup(members, id_key), text_or_empty_at(members, "name"@)) {
        (Some(JsonValue::Number(id)), Some(name)) => if id <= u32::MAX {
            Some((id as u32, name))
        } else {
            None
        },
        _ => None,
    }
}

/// The identifier, the domain and the name that `members` give for a Windows
/// host: the identifier must be a text, domain and name each a text or absent.
pub open spec fn windows_of(members: Members) -> Option<(Seq<char>, Seq<char>, Seq<char>)> {
    match (
        lookup(members, "sid"@),
        text_or_empty_at(members, "domain"@),
        text_or_empty_at(members, "name"@),
    ) {
        (Some(JsonValue::Text(sid)), Some(domain), Some(name)) => Some((sid, domain, name)),
        _ => None,
    }
}

/// The JSON form of an owner.
pub open spec fn owner_json(owner: FileOwnerView) -> JsonValue {
    match owner {
        FileOwnerView::Unix { uid, name } => unix_json("uid"@, uid, name),
        FileOwnerView::Windows { sid, domain, name } => windows_json(sid, domain, name),
    }
}

/// The owner that a JSON value denotes: an object that gives a `uid` is an
/// owner of a Unix-like host, any other object that gives a `sid` is one of a
/// Windows host, and nothing else is an owner.
pub open spec fn owner_of(json: JsonValue) -> Option<FileOwnerView> {
    match json {
        JsonValue::Object(members) => match unix_of(members, "uid"@) {
            Some((uid, name)) => Some(FileOwnerView::Unix { uid, name }),
            None => match windows_of(members) {
                Some((sid, domain, name)) => Some(FileOwnerView::Windows { sid, domain, name }),
                None => None,
            },
        },
        _ => None,
    }
}

/// The JSON form of a group.
pub open spec fn group_json(group: FileGroupView) -> JsonValue {
    match group {
        FileGroupView::Unix { gid, name } => unix_json("gid"@, gid, name),
        FileGroupView::Windows { sid, domain, name } => windows_json(sid, domain, name),
    }
}

/// The group that a JSON value denotes: an object that gives a `gid` is a
/// group of a Unix-like host, any other object that gives a `sid` is one of a
/// Windows host, and nothing else is a group.
pub open spec fn group_of(json: JsonValue) -> Option<FileGroupView> {
    match json {
        JsonValue::Object(members) => match unix_of(members, "gid"@) {
            Some((gid, name)) => Some(FileGroupView::Unix { gid, name }),
            None => match windows_of(members) {
                Some((sid, domain, name)) => Some(FileGroupView::Windows { sid, domain, name }),
                None => None,
            },
        },
        _ => None,
    }
}

/// The names of the members of an owner or a group differ from each other.
proof fn lemma_account_names_differ()
    ensures
        "uid"@ != "name"@,
        "gid"@ != "name"@,
        "uid"@ != "sid"@,
        "gid"@ != "sid"@,
        "uid"@ != "domain"@,
        "gid"@ != "domain"@,
        "sid"@ != "domain"@,
        "sid"@ != "name"@,
        "domain"@ != "name"@,
{
    reveal_strlit("uid");
    reveal_strlit("gid");
    reveal_strlit("sid");
    reveal_strlit("domain");
    reveal_strlit("name");
    assert("uid"@.len() == 3 && "uid"@[0] == 'u');
    assert("gid"@.len() == 3 && "gid"@[0] == 'g');
    assert("sid"@.len() == 3 && "sid"@[0] == 's');
    assert("domain"@.len() == 6);
    assert("name"@.len() == 4);
}

/// Reading the object of a Unix-like host gives the id and the name back.
proof fn lemma_unix_round_trip(id_key: Seq<char>, id: u32, name: Seq<char>)
    requires
        id_key != "name"@,
    ensures
        unix_of(object_members(unix_fields(id_key, id, name)), id_key) == Some((id, name)),
{
    let fields = unix_fields(id_key, id, name);
    assert(distinct_names(fields));
    lemma_lookup_field(fields, 0);
    lemma_lookup_field(fields, 1);
}

/// The object of a Windows host has no member under `id_key`, provided that
/// this is none of its three names.
proof fn lemma_windows_has_no(
    sid: Seq<char>,
    domain: Seq<char>,
    name: Seq<char>,
    id_key: Seq<char>,
)
    requires
        id_key != "sid"@,
        id_key != "domain"@,
        id_key != "name"@,
    ensures
        lookup(object_members(windows_fields(sid, domain, name)), id_key) is None,
{
    lemma_lookup_absent(windows_fields(sid, domain, name), id_key);
}

/// Reading the object of a Windows host gives the identifier, the domain and
/// the name back.
proof fn lemma_windows_round_trip(sid: Seq<char>, domain: Seq<char>, name: Seq<char>)
    ensures
        windows_of(object_members(windows_fields(sid, domain, name))) == Some((sid, domain, name)),
{
    lemma_account_names_differ();
    let fields = windows_fields(sid, domain, name);
    assert(distinct_names(fields));
    lemma_lookup_field(fields, 0);
    lemma_lookup_field(fields, 1);
    lemma_lookup_field(fields, 2);
}

/// An owner is read back from its JSON form, in the shape it was written in.
pub proof fn lemma_owner_round_trip(owner: FileOwnerView)
    ensures
        owner_of(owner_json(owner)) == Some(owner),
{
    lemma_account_names_differ();
    match owner {
        FileOwnerView::Unix { uid, name } => {
            lemma_unix_round_trip("uid"@, uid, name);
        },
        FileOwnerView::Windows { sid, domain, name } => {
            lemma_windows_has_no(sid, domain, name, "uid"@);
            lemma_windows_round_trip(sid, domain, name);
        },
    }
}

/// A group is read back from its JSON form, in the shape it was written in.
pub proof fn lemma_group_round_trip(group: FileGroupView)
    ensures
        group_of(group_json(group)) == Some(group),
{
    lemma_account_names_differ();
    match group {
        FileGroupView::Unix { gid, name } => {
            lemma_unix_round_trip("gid"@, gid, name);
        },
        FileGroupView::Windows { sid, domain, name } => {
            lemma_windows_has_no(sid, domain, name, "gid"@);
            lemma_windows_round_trip(sid, domain, name);
        },
    }
}

/// An owner of a Windows host whose name is empty has no `name` member in its
/// JSON form, and is read back with an empty name.
pub proof fn lemma_empty_name_is_omitted(sid: Seq<char>, domain: Seq<char>)
    ensures
        owner_json(
            FileOwnerView::Windows { sid, domain, name: Seq::empty() },
        ) matches JsonValue::Object(members) && lookup(members, "name"@) is None,
        owner_of(owner_json(FileOwnerView::Windows { sid, domain, name: Seq::empty() })) == Some(
            FileOwnerView::Windows { sid, domain, name: Seq::empty() },
        ),
{
    lemma_owner_round_trip(FileOwnerView::Windows { sid, domain, name: Seq::empty() });
    lemma_account_names_differ();
    let fields = windows_fields(sid, domain, Seq::empty());
    assert(distinct_names(fields));
    lemma_lookup_field(fields, 2);
}

/// Writes the object of an owner or a group of a Unix-like host.
fn unix_to_json(id_key: &str, id: u32, name: &str) -> (json: Json)
    ensures
        json@ == unix_json(id_key@, id, name@),
{
    let mut members: Vec<(String, Json)> = Vec::new();
    let ghost none: Fields = Seq::empty();
    assert(members_view(members@) =~= object_members(none));
    push_field(&mut members, Ghost(none), id_key, Some(Json::Number(id as u64)));
    let ghost one = none.push((id_key@, Some(JsonValue::Number(id as u64))));
    push_field(&mut members, Ghost(one), "name", text_unless_empty(name));
    proof {
        lemma_object_view(members);
        assert(one.push(("name"@, nonempty_text(name@))) =~= unix_fields(id_key@, id, name@));
    }
    Json::Object(members)
}

/// Writes the object of an owner or a group of a Windows host.
fn windows_to_json(sid: &str, domain: &str, name: &str) -> (json: Json)
    ensures
        json@ == windows_json(sid@, domain@, name@),
{
    let mut members: Vec<(String, Json)> = Vec::new();
    let ghost none: Fields = Seq::empty();
    assert(members_view(members@) =~= object_members(none));
    push_field(&mut members, Ghost(none), "sid", Some(Json::Text(String::from_str(sid))));
    let ghost one = none.push(("sid"@, Some(JsonValue::Text(sid@))));
    push_field(&mut members, Ghost(one), "domain", text_unless_empty(domain));
    let ghost two = one.push(("domain"@, nonempty_text(domain@)));
    push_field(&mut members, Ghost(two), "name", text_unless_empty(name));
    proof {
        lemma_object_view(members);
        assert(two.push(("name"@, nonempty_text(name@))) =~= windows_fields(
            sid@,
            domain@,
            name@,
        ));
    }
    Json::Object(members)
}

/// Reads the id and the name of an owner or a group of a Unix-like host.
fn unix_from(members: &Vec<(String, Json)>, id_key: &str) -> (found: Option<(u32, String)>)
    ensures
        match found {
            Some((id, name)) => unix_of(members_view(members@), id_key@) == Some((id, name@)),
            None => unix_of(members_view(members@), id_key@) is None,
        },
{
    let id = match find(members, id_key) {
        Some(Json::Number(id)) => *id,
        _ => {
            return None;
        },
    };
    if id > u32::MAX as u64 {
        return None;
    }
    match text_or_empty_in(members, "name") {
        Some(name) => Some((id as u32, name)),
        None => None,
    }
}

/// Reads the identifier, the domain and the name of an owner or a group of a
/// Windows host.
fn windows_from(members: &Vec<(String, Json)>) -> (found: Option<(String, String, String)>)
    ensures
        match found {
            Some((sid, domain, name)) => windows_of(members_view(members@)) == Some(
                (sid@, domain@, name@),
            ),
            None => windows_of(members_view(members@)) is None,
        },
{
    let sid = match find(members, "sid") {
        Some(Json::Text(sid)) => sid.clone(),
        _ => {
            return None;
        },
    };
    let domain = match text_or_empty_in(members, "domain") {
        Some(domain) => domain,
        None => {
            return None;
        },
    };
    match text_or_empty_in(members, "name") {
        Some(name) => Some((sid, domain, name)),
        None => None,
    }
}

impl FileOwner {
    /// Writes this owner as JSON.
    ///
    /// An owner of a Unix-like host becomes `{"uid": .., "name": ..}`, one of
    /// a Windows host `{"sid": .., "domain": .., "name": ..}`. A domain or a
    /// name that is empty is left out.
    pub fn to_json(&self) -> (json: Json)
        ensures
            json@ == owner_json(self@),
    {
        match self {
            FileOwner::Unix { uid, name } => unix_to_json("uid", *uid, name.as_str()),
            FileOwner::Windows { sid, domain, name } => windows_to_json(
                sid.as_str(),
                domain.as_str(),
                name.as_str(),
            ),
        }
    }

    /// Reads an owner from JSON.
    ///
    /// The members present tell the shape: an object with a `uid` that is a
    /// 32-bit number is an owner of a Unix-like host, any other object with a
    /// `sid` is one of a Windows host. A domain or a name that is absent is
    /// empty. Members under other names are passed over.
    pub fn from_json(json: &Json) -> (owner: Option<FileOwner>)
        ensures
            match owner {
                Some(owner) => owner_of(json@) == Some(owner@),
                None => owner_of(json@) is None,
            },
    {
        let members = match json {
            Json::Object(members) => members,
            _ => {
                return None;
            },
        };
        proof {
            lemma_object_view(*members);
        }
        match unix_from(members, "uid") {
            Some((uid, name)) => Some(FileOwner::Unix { uid, name }),
            None => match windows_from(members) {
                Some((sid, domain, name)) => Some(FileOwner::Windows { sid, domain, name }),
                None => None,
            },
        }
    }
}

impl FileGroup {
    /// Writes this group as JSON.
    ///
    /// A group of a Unix-like host becomes `{"gid": .., "name": ..}`, one of a
    /// Windows host `{"sid": .., "domain": .., "name": ..}`. A domain or a
    /// name that is empty is left out.
    pub fn to_json(&self) -> (json: Json)
        ensures
            json@ == group_json(self@),
    {
        match self {
            FileGroup::Unix { gid, name } => unix_to_json("gid", *gid, name.as_str()),
            FileGroup::Windows { sid, domain, name } => windows_to_json(
                sid.as_str(),
                domain.as_str(),
                name.as_str(),
            ),
        }
    }

    /// Reads a group from JSON.
    ///
    /// The members present tell the shape: an object with a `gid` that is a
    /// 32-bit number is a group of a Unix-like host, any other object with a
    /// `sid` is one of a Windows host. A domain or a name that is absent is
    /// empty. Members under other names are passed over.
    pub fn from_json(json: &Json) -> (group: Option<FileGroup>)
        ensures
            match group {
                Some(group) => group_of(json@) == Some(group@),
                None => group_of(json@) is None,
            },
    {
        let members = match json {
            Json::Object(members) => members,
            _ => {
                return None;
            },
        };
        proof {
            lemma_object_view(*members);
        }
        match unix_from(members, "gid") {
            Some((gid, name)) => Some(FileGroup::Unix { gid, name }),
            None => match windows_from(members) {
                Some((sid, domain, name)) => Some(FileGroup::Windows { sid, domain, name }),
                None => None,
            },
        }
    }
}

} // verus!
