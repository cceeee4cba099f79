use serde_json::Value;
use xfp_protocol::dir::DirectoryListEntry;
use xfp_protocol::file::FileType;
use xfp_protocol::json::{find, Json};
use xfp_protocol::metadata::{FileGroup, FileOwner, FilePermissions, Metadata, Timestamp};
use xfp_protocol::wire::{listing_from_json, listing_to_json};

const SECOND: i128 = 1_000_000_000;

fn to_value(json: &Json) -> Value {
    match json {
        Json::Null => Value::Null,
        Json::Bool(value) => Value::Bool(*value),
        Json::Number(value) => Value::Number((*value).into()),
        Json::OtherNumber => panic!("the protocol writes no such number"),
        Json::Text(text) => Value::String(text.clone()),
        Json::Array(items) => Value::Array(items.iter().map(to_value).collect()),
        Json::Object(members) => {
            Value::Object(members.iter().map(|(name, value)| (name.clone(), to_value(value))).collect())
        }
    }
}

fn from_value(value: &Value) -> Json {
    match value {
        Value::Null => Json::Null,
        Value::Bool(value) => Json::Bool(*value),
        Value::Number(number) => match number.as_u64() {
            Some(value) => Json::Number(value),
            None => Json::OtherNumber,
        },
        Value::String(text) => Json::Text(text.clone()),
        Value::Array(items) => Json::Array(items.iter().map(from_value).collect()),
        Value::Object(members) => {
            Json::Object(members.iter().map(|(name, value)| (name.clone(), from_value(value))).collect())
        }
    }
}

fn parse(text: &str) -> Json {
    from_value(&serde_json::from_str::<Value>(text).unwrap())
}

fn same_as_text(json: &Json, text: &str) -> bool {
    to_value(json) == serde_json::from_str::<Value>(text).unwrap()
}

fn names(json: &Json) -> Vec<String> {
    match json {
        Json::Object(members) => members.iter().map(|(name, _)| name.clone()).collect(),
        _ => panic!("not an object"),
    }
}

fn alice() -> FileOwner {
    FileOwner::Unix { uid: 1000, name: "alice".to_string() }
}

fn staff() -> FileGroup {
    FileGroup::Unix { gid: 50, name: "staff".to_string() }
}

fn full_metadata() -> Metadata {
    Metadata::default()
        .with_created(Some(Timestamp::new(1_546_300_800 * SECOND, 3600)))
        .with_updated(Some(Timestamp::new(1_546_300_900 * SECOND + 500_000_000, 0)))
        .with_accessed(Some(Timestamp::new(1_546_301_000 * SECOND, -7200)))
        .with_permissions(
            FilePermissions::default()
                .with_read(true)
                .with_execute(true)
                .with_owner(Some(alice()))
                .with_group(Some(staff())),
        )
        .with_size(1234)
}

#[test]
fn unix_owner_on_the_wire() {
    let json = alice().to_json();
    assert!(same_as_text(&json, r#"{"uid": 1000, "name": "alice"}"#));
    assert_eq!(names(&json), vec!["uid", "name"]);
    assert_eq!(
        json,
        Json::Object(vec![
            ("uid".to_string(), Json::Number(1000)),
            ("name".to_string(), Json::Text("alice".to_string())),
        ])
    );
}

#[test]
fn unix_owner_reads_back_as_unix() {
    let json = alice().to_json();
    assert_eq!(FileOwner::from_json(&json), Some(alice()));
    assert_eq!(FileOwner::from_json(&parse(r#"{"uid": 1000, "name": "alice"}"#)), Some(alice()));
    assert_eq!(FileOwner::from_json(&parse(r#"{"name": "alice", "uid": 1000}"#)), Some(alice()));
}

#[test]
fn unix_group_on_the_wire() {
    let json = staff().to_json();
    assert!(same_as_text(&json, r#"{"gid": 50, "name": "staff"}"#));
    assert_eq!(names(&json), vec!["gid", "name"]);
    assert_eq!(FileGroup::from_json(&json), Some(staff()));
}

#[test]
fn windows_owner_on_the_wire() {
    let owner = FileOwner::Windows {
        sid: "S-1-5-21-1".to_string(),
        domain: "CORP".to_string(),
        name: "alice".to_string(),
    };
    let json = owner.to_json();
    assert!(same_as_text(&json, r#"{"sid": "S-1-5-21-1", "domain": "CORP", "name": "alice"}"#));
    assert_eq!(names(&json), vec!["sid", "domain", "name"]);
    assert_eq!(FileOwner::from_json(&json), Some(owner));
}

#[test]
fn windows_owner_with_empty_name_omits_the_name() {
    let owner = FileOwner::Windows {
        sid: "S-1-5-21-1".to_string(),
        domain: "CORP".to_string(),
        name: String::new(),
    };
    let json = owner.to_json();
    assert!(same_as_text(&json, r#"{"sid": "S-1-5-21-1", "domain": "CORP"}"#));
    assert_eq!(names(&json), vec!["sid", "domain"]);
    let back = FileOwner::from_json(&json).unwrap();
    assert_eq!(back, owner);
    match back {
        FileOwner::Windows { name, .. } => assert_eq!(name, ""),
        FileOwner::Unix { .. } => panic!("read back in the other shape"),
    }
}

#[test]
fn empty_fields_are_omitted_and_read_back_empty() {
    let bare = FileOwner::Windows { sid: "S-1".to_string(), domain: String::new(), name: String::new() };
    assert!(same_as_text(&bare.to_json(), r#"{"sid": "S-1"}"#));
    assert_eq!(FileOwner::from_json(&bare.to_json()), Some(bare));

    let nameless = FileOwner::Unix { uid: 0, name: String::new() };
    assert!(same_as_text(&nameless.to_json(), r#"{"uid": 0}"#));
    assert_eq!(FileOwner::from_json(&nameless.to_json()), Some(nameless));

    let group = FileGroup::Windows { sid: "S-2".to_string(), domain: String::new(), name: "g".to_string() };
    assert!(same_as_text(&group.to_json(), r#"{"sid": "S-2", "name": "g"}"#));
    assert_eq!(FileGroup::from_json(&group.to_json()), Some(group));

    let group = FileGroup::Unix { gid: u32::MAX, name: String::new() };
    assert!(same_as_text(&group.to_json(), r#"{"gid": 4294967295}"#));
    assert_eq!(FileGroup::from_json(&group.to_json()), Some(group));
}

#[test]
fn the_fields_present_tell_the_shape() {
    assert_eq!(
        FileOwner::from_json(&parse(r#"{"uid": 5, "sid": "S-1"}"#)),
        Some(FileOwner::Unix { uid: 5, name: String::new() })
    );
    assert_eq!(
        FileOwner::from_json(&parse(r#"{"uid": "five", "sid": "S-1"}"#)),
        Some(FileOwner::Windows { sid: "S-1".to_string(), domain: String::new(), name: String::new() })
    );
    assert_eq!(
        FileGroup::from_json(&parse(r#"{"uid": 5, "sid": "S-1"}"#)),
        Some(FileGroup::Windows { sid: "S-1".to_string(), domain: String::new(), name: String::new() })
    );
    assert_eq!(FileGroup::from_json(&parse(r#"{"uid": 5}"#)), None);
    assert_eq!(FileOwner::from_json(&parse(r#"{"gid": 5}"#)), None);
}

#[test]
fn values_that_are_no_owner_are_refused() {
    for text in [
        "null",
        "true",
        "5",
        r#""alice""#,
        "[]",
        "{}",
        r#"{"name": "alice"}"#,
        r#"{"uid": -1}"#,
        r#"{"uid": 1.5}"#,
        r#"{"uid": 4294967296}"#,
        r#"{"uid": "1000"}"#,
        r#"{"uid": 1000, "name": 5}"#,
        r#"{"uid": 1000, "name": null}"#,
        r#"{"sid": 5}"#,
        r#"{"sid": "S-1", "domain": 5}"#,
        r#"{"sid": "S-1", "name": []}"#,
    ] {
        assert_eq!(FileOwner::from_json(&parse(text)), None, "{}", text);
    }
}

#[test]
fn members_under_other_names_are_passed_over() {
    assert_eq!(
        FileOwner::from_json(&parse(r#"{"uid": 1000, "name": "alice", "shell": "/bin/sh", "n": -2.5}"#)),
        Some(alice())
    );
}

#[test]
fn permissions_on_the_wire() {
    let permissions = FilePermissions::default()
        .with_read(true)
        .with_execute(true)
        .with_owner(Some(alice()))
        .with_group(Some(staff()));
    let json = permissions.to_json();
    assert!(same_as_text(
        &json,
        r#"{"read": true, "write": false, "execute": true,
            "owner": {"uid": 1000, "name": "alice"},
            "group": {"gid": 50, "name": "staff"}}"#
    ));
    assert_eq!(names(&json), vec!["read", "write", "execute", "owner", "group"]);
    assert_eq!(FilePermissions::from_json(&json), Some(permissions));
}

#[test]
fn unknown_owner_and_group_are_omitted() {
    let permissions = FilePermissions::default().with_write(true);
    let json = permissions.to_json();
    assert!(same_as_text(&json, r#"{"read": false, "write": true, "execute": false}"#));
    assert_eq!(names(&json), vec!["read", "write", "execute"]);
    assert_eq!(FilePermissions::from_json(&json), Some(permissions));

    let permissions = FilePermissions::default().with_group(Some(staff()));
    let json = permissions.to_json();
    assert_eq!(names(&json), vec!["read", "write", "execute", "group"]);
    assert_eq!(FilePermissions::from_json(&json), Some(permissions));
}

#[test]
fn null_owner_reads_as_unknown() {
    let json = parse(r#"{"read": true, "write": true, "execute": true, "owner": null, "group": null}"#);
    assert_eq!(
        FilePermissions::from_json(&json),
        Some(FilePermissions::default().with_read(true).with_write(true).with_execute(true))
    );
}

#[test]
fn values_that_are_no_permissions_are_refused() {
    for text in [
        "null",
        "[]",
        "{}",
        r#"{"read": true, "write": true}"#,
        r#"{"read": true, "execute": true}"#,
        r#"{"write": true, "execute": true}"#,
        r#"{"read": 1, "write": true, "execute": true}"#,
        r#"{"read": true, "write": "no", "execute": true}"#,
        r#"{"read": true, "write": true, "execute": null}"#,
        r#"{"read": true, "write": true, "execute": true, "owner": {}}"#,
        r#"{"read": true, "write": true, "execute": true, "owner": "alice"}"#,
        r#"{"read": true, "write": true, "execute": true, "group": {"uid": 1}}"#,
    ] {
        assert_eq!(FilePermissions::from_json(&parse(text)), None, "{}", text);
    }
}

#[test]
fn metadata_on_the_wire() {
    let metadata = full_metadata();
    let json = metadata.to_json().unwrap();
    assert!(same_as_text(
        &json,
        r#"{"created": "2019-01-01T01:00:00+01:00",
            "updated": "2019-01-01T00:01:40.5Z",
            "accessed": "2018-12-31T22:03:20-02:00",
            "permissions": {"read": true, "write": false, "execute": true,
                            "owner": {"uid": 1000, "name": "alice"},
                            "group": {"gid": 50, "name": "staff"}},
            "size": "1234"}"#
    ));
    assert_eq!(names(&json), vec!["created", "updated", "accessed", "permissions", "size"]);
    assert_eq!(Metadata::from_json(&json), Some(metadata));
}

#[test]
fn unknown_timestamps_are_omitted_not_null() {
    let metadata = Metadata::default().with_size(7);
    let json = metadata.to_json().unwrap();
    assert!(same_as_text(
        &json,
        r#"{"permissions": {"read": false, "write": false, "execute": false}, "size": "7"}"#
    ));
    assert_eq!(names(&json), vec!["permissions", "size"]);
    assert_eq!(Metadata::from_json(&json), Some(metadata));

    let metadata = Metadata::default().with_updated(Some(Timestamp::new(0, 0)));
    let json = metadata.to_json().unwrap();
    assert_eq!(names(&json), vec!["updated", "permissions", "size"]);
    match &json {
        Json::Object(members) => {
            assert_eq!(find(members, "created"), None);
            assert_eq!(find(members, "accessed"), None);
            assert_eq!(find(members, "updated"), Some(&Json::Text("1970-01-01T00:00:00Z".to_string())));
        }
        _ => panic!("not an object"),
    }
    assert_eq!(Metadata::from_json(&json), Some(metadata));
}

#[test]
fn size_is_written_in_decimal_digits() {
    let json = Metadata::default().with_size(u64::MAX).to_json().unwrap();
    match &json {
        Json::Object(members) => {
            assert_eq!(find(members, "size"), Some(&Json::Text("18446744073709551615".to_string())));
        }
        _ => panic!("not an object"),
    }
    assert_eq!(Metadata::from_json(&json).unwrap().size(), u64::MAX);
}

#[test]
fn metadata_with_given_texts() {
    let metadata = Metadata::default().with_size(3);
    let json = metadata.to_json_with(Some("then".to_string()), None, Some("now".to_string()));
    assert!(same_as_text(
        &json,
        r#"{"created": "then", "accessed": "now",
            "permissions": {"read": false, "write": false, "execute": false}, "size": "3"}"#
    ));
    assert_eq!(names(&json), vec!["created", "accessed", "permissions", "size"]);
}

#[test]
fn metadata_with_a_timestamp_without_a_form_is_not_written() {
    assert_eq!(Metadata::default().with_created(Some(Timestamp::new(0, 1))).to_json(), None);
    assert_eq!(Metadata::default().with_updated(Some(Timestamp::new(i128::MAX, 0))).to_json(), None);
    assert_eq!(Metadata::default().with_accessed(Some(Timestamp::new(0, 200_000))).to_json(), None);
}

#[test]
fn null_timestamps_read_as_unknown() {
    let json = parse(
        r#"{"created": null, "updated": null, "accessed": null,
            "permissions": {"read": false, "write": false, "execute": false}, "size": "0"}"#,
    );
    assert_eq!(Metadata::from_json(&json), Some(Metadata::default()));
}

#[test]
fn values_that_are_no_metadata_are_refused() {
    let permissions = r#"{"read": false, "write": false, "execute": false}"#;
    for text in [
        "null".to_string(),
        "{}".to_string(),
        format!(r#"{{"permissions": {}}}"#, permissions),
        r#"{"size": "0"}"#.to_string(),
        format!(r#"{{"permissions": {}, "size": 0}}"#, permissions),
        format!(r#"{{"permissions": {}, "size": ""}}"#, permissions),
        format!(r#"{{"permissions": {}, "size": "-1"}}"#, permissions),
        format!(r#"{{"permissions": {}, "size": "+1"}}"#, permissions),
        format!(r#"{{"permissions": {}, "size": "18446744073709551616"}}"#, permissions),
        format!(r#"{{"permissions": {}, "size": null}}"#, permissions),
        format!(r#"{{"permissions": null, "size": "0"}}"#),
        format!(r#"{{"permissions": {{}}, "size": "0"}}"#),
        format!(r#"{{"permissions": {}, "size": "0", "created": "yesterday"}}"#, permissions),
        format!(r#"{{"permissions": {}, "size": "0", "updated": 1546300800}}"#, permissions),
        format!(r#"{{"permissions": {}, "size": "0", "accessed": "2019-01-01"}}"#, permissions),
    ] {
        assert_eq!(Metadata::from_json(&parse(&text)), None, "{}", text);
    }
}

#[test]
fn entry_on_the_wire() {
    let entry = DirectoryListEntry::default()
        .with_name("notes.txt".to_string())
        .with_file_type(FileType::Symlink)
        .with_metadata(Metadata::default().with_size(12));
    let json = entry.to_json().unwrap();
    assert!(same_as_text(
        &json,
        r#"{"name": "notes.txt", "type": "symlink",
            "metadata": {"permissions": {"read": false, "write": false, "execute": false},
                         "size": "12"}}"#
    ));
    assert_eq!(names(&json), vec!["name", "type", "metadata"]);
    assert_eq!(DirectoryListEntry::from_json(&json), Some(entry));
}

#[test]
fn entry_with_given_metadata() {
    let entry = DirectoryListEntry::default().with_name("a".to_string()).with_file_type(FileType::Directory);
    let json = entry.to_json_with(Json::Text("m".to_string()));
    assert!(same_as_text(&json, r#"{"name": "a", "type": "directory", "metadata": "m"}"#));
}

#[test]
fn entry_kinds_on_the_wire() {
    for (kind, name) in [
        (FileType::File, "file"),
        (FileType::Directory, "directory"),
        (FileType::Symlink, "symlink"),
    ] {
        let entry = DirectoryListEntry::default().with_file_type(kind);
        let json = entry.to_json().unwrap();
        match &json {
            Json::Object(members) => {
                assert_eq!(find(members, "type"), Some(&Json::Text(name.to_string())));
            }
            _ => panic!("not an object"),
        }
        assert_eq!(DirectoryListEntry::from_json(&json).unwrap().file_type(), kind);
    }
}

#[test]
fn values_that_are_no_entry_are_refused() {
    let metadata = r#"{"permissions": {"read": false, "write": false, "execute": false}, "size": "0"}"#;
    for text in [
        "null".to_string(),
        "{}".to_string(),
        format!(r#"{{"type": "file", "metadata": {}}}"#, metadata),
        format!(r#"{{"name": "a", "metadata": {}}}"#, metadata),
        r#"{"name": "a", "type": "file"}"#.to_string(),
        format!(r#"{{"name": 5, "type": "file", "metadata": {}}}"#, metadata),
        format!(r#"{{"name": "a", "type": "File", "metadata": {}}}"#, metadata),
        format!(r#"{{"name": "a", "type": "socket", "metadata": {}}}"#, metadata),
        format!(r#"{{"name": "a", "type": null, "metadata": {}}}"#, metadata),
        format!(r#"{{"name": "a", "file_type": "file", "metadata": {}}}"#, metadata),
        r#"{"name": "a", "type": "file", "metadata": {}}"#.to_string(),
    ] {
        assert_eq!(DirectoryListEntry::from_json(&parse(&text)), None, "{}", text);
    }
}

#[test]
fn entry_whose_metadata_cannot_be_written_is_not_written() {
    let entry = DirectoryListEntry::default()
        .with_name("a".to_string())
        .with_metadata(Metadata::default().with_created(Some(Timestamp::new(0, 1))));
    assert_eq!(entry.to_json(), None);
}

fn listing() -> Vec<DirectoryListEntry> {
    vec![
        DirectoryListEntry::default()
            .with_name("zeta".to_string())
            .with_file_type(FileType::Directory)
            .with_metadata(full_metadata()),
        DirectoryListEntry::default().with_name("alpha".to_string()),
        DirectoryListEntry::default()
            .with_name("mid".to_string())
            .with_file_type(FileType::Symlink)
            .with_metadata(Metadata::default().with_size(3)),
    ]
}

#[test]
fn listing_keeps_its_order_on_the_wire() {
    let json = listing_to_json(&listing()).unwrap();
    match &json {
        Json::Array(items) => {
            assert_eq!(items.len(), 3);
            let written: Vec<Option<&Json>> = items
                .iter()
                .map(|item| match item {
                    Json::Object(members) => find(members, "name"),
                    _ => None,
                })
                .collect();
            assert_eq!(
                written,
                vec![
                    Some(&Json::Text("zeta".to_string())),
                    Some(&Json::Text("alpha".to_string())),
                    Some(&Json::Text("mid".to_string())),
                ]
            );
        }
        _ => panic!("not an array"),
    }
}

#[test]
fn listing_reads_back() {
    let json = listing_to_json(&listing()).unwrap();
    assert_eq!(listing_from_json(&json), Some(listing()));
}

#[test]
fn empty_listing_on_the_wire() {
    assert_eq!(listing_to_json(&vec![]), Some(Json::Array(vec![])));
    assert_eq!(listing_from_json(&Json::Array(vec![])), Some(vec![]));
}

#[test]
fn listing_with_an_entry_that_cannot_be_written_is_not_written() {
    let mut entries = listing();
    entries.push(
        DirectoryListEntry::default()
            .with_name("bad".to_string())
            .with_metadata(Metadata::default().with_accessed(Some(Timestamp::new(0, 1)))),
    );
    assert_eq!(listing_to_json(&entries), None);
}

#[test]
fn values_that_are_no_listing_are_refused() {
    assert_eq!(listing_from_json(&parse("null")), None);
    assert_eq!(listing_from_json(&parse("{}")), None);
    assert_eq!(listing_from_json(&parse("[1]")), None);
    assert_eq!(listing_from_json(&parse(r#"[{"name": "a"}]"#)), None);
    let good = to_value(&listing_to_json(&listing()).unwrap());
    let mut items = good.as_array().unwrap().clone();
    items.push(Value::Null);
    assert_eq!(listing_from_json(&from_value(&Value::Array(items))), None);
}

#[test]
fn round_trip_through_text() {
    let json = listing_to_json(&listing()).unwrap();
    let text = serde_json::to_string(&to_value(&json)).unwrap();
    assert_eq!(listing_from_json(&parse(&text)), Some(listing()));

    let metadata = full_metadata();
    let text = serde_json::to_string(&to_value(&metadata.to_json().unwrap())).unwrap();
    assert_eq!(Metadata::from_json(&parse(&text)), Some(metadata));

    let permissions = FilePermissions::from_windows_probe(
        true,
        true,
        false,
        Some(("S-1-5-21-1".to_string(), None)),
        Some(("S-1-5-32-544".to_string(), Some(("BUILTIN".to_string(), "Administrators".to_string())))),
    );
    let text = serde_json::to_string(&to_value(&permissions.to_json())).unwrap();
    assert_eq!(FilePermissions::from_json(&parse(&text)), Some(permissions));
}
