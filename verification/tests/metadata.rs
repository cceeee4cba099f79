use xfp_protocol::dir::{is_segment_name, is_well_formed, DirectoryListEntry};
use xfp_protocol::file::FileType;
use xfp_protocol::metadata::{FileOwner, FilePermissions, Metadata, Timestamp};

fn stamp(seconds: i128) -> Timestamp {
    Timestamp::new(seconds * 1_000_000_000, 0)
}

#[test]
fn default_metadata_says_nothing() {
    let metadata = Metadata::default();
    assert_eq!(metadata.created(), None);
    assert_eq!(metadata.updated(), None);
    assert_eq!(metadata.accessed(), None);
    assert_eq!(metadata.permissions(), &FilePermissions::default());
    assert_eq!(metadata.size(), 0);
}

#[test]
fn metadata_builders_set_one_field_each() {
    let metadata = Metadata::default().with_created(Some(stamp(1)));
    assert_eq!(metadata.created(), Some(stamp(1)));
    assert_eq!(metadata.updated(), None);
    assert_eq!(metadata.accessed(), None);

    let metadata = Metadata::default().with_updated(Some(stamp(2)));
    assert_eq!(metadata.created(), None);
    assert_eq!(metadata.updated(), Some(stamp(2)));
    assert_eq!(metadata.accessed(), None);

    let metadata = Metadata::default().with_accessed(Some(stamp(3)));
    assert_eq!(metadata.created(), None);
    assert_eq!(metadata.updated(), None);
    assert_eq!(metadata.accessed(), Some(stamp(3)));

    let metadata = Metadata::default().with_size(u64::MAX);
    assert_eq!(metadata.size(), u64::MAX);

    let permissions = FilePermissions::default().with_read(true).with_owner(Some(FileOwner::unix(1, None)));
    let metadata = Metadata::default().with_permissions(permissions.clone());
    assert_eq!(metadata.permissions(), &permissions);
    assert_eq!(metadata.size(), 0);
}

#[test]
fn metadata_builders_keep_the_other_fields() {
    let metadata = Metadata::default()
        .with_created(Some(stamp(1)))
        .with_updated(Some(stamp(2)))
        .with_accessed(Some(stamp(3)))
        .with_size(9);
    let changed = metadata.clone().with_updated(None);
    assert_eq!(changed.created(), Some(stamp(1)));
    assert_eq!(changed.updated(), None);
    assert_eq!(changed.accessed(), Some(stamp(3)));
    assert_eq!(changed.size(), 9);
    assert_ne!(changed, metadata);
}

#[test]
fn timestamps_differ_by_instant_and_by_offset() {
    assert_eq!(Timestamp::new(5, 3600), Timestamp { unix_nanos: 5, offset_seconds: 3600 });
    assert_ne!(Timestamp::new(5, 3600), Timestamp::new(6, 3600));
    assert_ne!(Timestamp::new(5, 3600), Timestamp::new(5, 0));
}

#[test]
fn default_entry_is_a_nameless_file() {
    let entry = DirectoryListEntry::default();
    assert_eq!(entry.name(), "");
    assert_eq!(entry.file_type(), FileType::File);
    assert_eq!(entry.metadata(), &Metadata::default());
}

#[test]
fn entry_builders_set_one_field_each() {
    let entry = DirectoryListEntry::default().with_name("notes.txt".to_string());
    assert_eq!(entry.name(), "notes.txt");
    assert_eq!(entry.file_type(), FileType::File);

    let entry = DirectoryListEntry::default().with_file_type(FileType::Symlink);
    assert_eq!(entry.name(), "");
    assert_eq!(entry.file_type(), FileType::Symlink);

    let metadata = Metadata::default().with_size(12);
    let entry = DirectoryListEntry::default().with_metadata(metadata.clone());
    assert_eq!(entry.metadata(), &metadata);
    assert_eq!(entry.name(), "");
}

#[test]
fn entry_builders_keep_the_other_fields() {
    let entry = DirectoryListEntry::default()
        .with_name("src".to_string())
        .with_file_type(FileType::Directory)
        .with_metadata(Metadata::default().with_size(4096));
    let renamed = entry.clone().with_name("lib".to_string());
    assert_eq!(renamed.name(), "lib");
    assert_eq!(renamed.file_type(), FileType::Directory);
    assert_eq!(renamed.metadata().size(), 4096);
    assert_ne!(renamed, entry);
}

#[test]
fn a_segment_has_no_separator_and_is_not_empty() {
    assert!(is_segment_name("notes.txt"));
    assert!(is_segment_name(".."));
    assert!(is_segment_name("a b"));
    assert!(!is_segment_name(""));
    assert!(!is_segment_name("a/b"));
    assert!(!is_segment_name("/"));
    assert!(!is_segment_name("a\\b"));
    assert!(!is_segment_name("dir/"));
}

fn named(name: &str) -> DirectoryListEntry {
    DirectoryListEntry::default().with_name(name.to_string())
}

#[test]
fn a_listing_has_distinct_segments_for_names() {
    assert!(is_well_formed(&vec![]));
    assert!(is_well_formed(&vec![named("a")]));
    assert!(is_well_formed(&vec![named("b"), named("a"), named("c")]));
    assert!(!is_well_formed(&vec![named("a"), named("b"), named("a")]));
    assert!(!is_well_formed(&vec![named("a"), named("a")]));
    assert!(!is_well_formed(&vec![named("a"), named("")]));
    assert!(!is_well_formed(&vec![named("x/y"), named("a")]));
    assert!(is_well_formed(&vec![named("a"), named("A")]));
}
