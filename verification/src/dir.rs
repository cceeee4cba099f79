use crate::file::FileType;
use crate::metadata::{Metadata, MetadataView};
use crate::text::chars_of;
use vstd::prelude::*;

verus! {

/// The entries of one directory, in the order in which the backing store
/// yielded them.
pub type DirectoryListing = Vec<DirectoryListEntry>;

/// One resource of a directory: its name, what kind of thing it is, and its
/// metadata.
#[derive(Debug, Clone, PartialEq, Eq, Hash)]
pub struct DirectoryListEntry {
    name: String,
    file_type: FileType,
    metadata: Metadata,
}

/// What a [`DirectoryListEntry`] is, as a mathematical value.
pub struct DirectoryListEntryView {
    pub name: Seq<char>,
    pub file_type: FileType,
    pub metadata: MetadataView,
}

impl View for DirectoryListEntry {
    type V = DirectoryListEntryView;

    closed spec fn view(&self) -> DirectoryListEntryView {
        DirectoryListEntryView {
            name: self.name@,
            file_type: self.file_type,
            metadata: self.metadata@,
        }
    }
}

impl Default for DirectoryListEntry {
    /// A file with an empty name and the default metadata.
    fn default() -> (entry: Self)
        ensures
            entry@ == (DirectoryListEntryView {
                name: Seq::empty(),
                file_type: FileType::File,
                metadata: Metadata::default_view(),
            }),
    {
        DirectoryListEntry {
            name: String::new(),
            file_type: FileType::File,
            metadata: Metadata::default(),
        }
    }
}

impl DirectoryListEntry {
    /// The name of the resource: the last segment of its path.
    pub fn name(&self) -> (name: &str)
        ensures
            name@ == self@.name,
    {
        self.name.as_str()
    }

    /// This entry with the name set to `name`.
    pub fn with_name(self, name: String) -> (entry: Self)
        ensures
            entry@ == (DirectoryListEntryView { name: name@, ..self@ }),
    {
        DirectoryListEntry { name, ..self }
    }

    /// The kind of thing the resource is.
    pub fn file_type(&self) -> (file_type: FileType)
        ensures
            file_type == self@.file_type,
    {
        self.file_type
    }

    /// This entry with the kind set to `file_type`.
    pub fn with_file_type(self, file_type: FileType) -> (entry: Self)
        ensures
            entry@ == (DirectoryListEntryView { file_type, ..self@ }),
    {
        DirectoryListEntry { file_type, ..self }
    }

    /// The metadata of the resource.
    pub fn metadata(&self) -> (metadata: &Metadata)
        ensures
            metadata@ == self@.metadata,
    {
        &self.metadata
    }

    /// This entry with the metadata set to `metadata`.
    pub fn with_metadata(self, metadata: Metadata) -> (entry: Self)
        ensures
            entry@ == (DirectoryListEntryView { metadata: metadata@, ..self@ }),
    {
        DirectoryListEntry { metadata, ..self }
    }
}

/// The views of the entries `entries`, in order.
pub open spec fn listing_view(entries: Seq<DirectoryListEntry>) -> Seq<DirectoryListEntryView> {
    Seq::new(entries.len(), |i: int| entries[i]@)
}

/// Whether `c` parts the segments of a path.
pub open spec fn is_separator(c: char) -> bool {
    c == '/' || c == '\\'
}

/// Whether `name` is one segment of a path: not empty, and without a
/// separator.
pub open spec fn is_segment(name: Seq<char>) -> bool {
    &&& name.len() > 0
    &&& forall|i: int| 0 <= i < name.len() ==> !is_separator(#[trigger] name[i])
}

/// Whether `listing` can be the listing of one directory: each name is one
/// segment of a path, and no name occurs twice.
pub open spec fn is_listing(listing: Seq<DirectoryListEntryView>) -> bool {
    &&& forall|i: int| 0 <= i < listing.len() ==> is_segment((#[trigger] listing[i]).name)
    &&& forall|a: int, b: int|
        0 <= a < b < listing.len() ==> (#[trigger] listing[a]).name != (#[trigger] listing[b]).name
}

/// Whether `name` is one segment of a path: not empty, and without a
/// separator.
pub fn is_segment_name(name: &str) -> (segment: bool)
    ensures
        segment == is_segment(name@),
{
    let chars = chars_of(name);
    if chars.len() == 0 {
        return false;
    }
    let mut at: usize = 0;
    while at < chars.len()
        invariant
            at <= chars.len(),
            chars@ == name@,
            forall|i: int| 0 <= i < at ==> !is_separator(#[trigger] name@[i]),
        decreases chars.len() - at,
    {
        if chars[at] == '/' || chars[at] == '\\' {
            return false;
        }
        at += 1;
    }
    true
}

/// Whether the entry at `at` has a name that no earlier entry of `listing`
/// has.
fn is_new_name(listing: &DirectoryListing, at: usize) -> (new: bool)
    requires
        at < listing.len(),
    ensures
        new == (forall|a: int|
            0 <= a < at ==> (#[trigger] listing@[a])@.name != listing@[at as int]@.name),
{
    let mut before: usize = 0;
    while before < at
        invariant
            before <= at < listing.len(),
            forall|a: int|
                0 <= a < before ==> (#[trigger] listing@[a])@.name != listing@[at as int]@.name,
        decreases at - before,
    {
        if listing[before].name == listing[at].name {
            return false;
        }
        before += 1;
    }
    true
}

/// Whether `listing` can be the listing of one directory: each name is one
/// segment of a path, and no name occurs twice.
pub fn is_well_formed(listing: &DirectoryListing) -> (well_formed: bool)
    ensures
        well_formed == is_listing(listing_view(listing@)),
{
    let ghost entries = listing_view(listing@);
    let mut at: usize = 0;
    while at < listing.len()
        invariant
            at <= listing.len(),
            entries == listing_view(listing@),
            forall|i: int| 0 <= i < at ==> is_segment((#[trigger] entries[i]).name),
            forall|a: int, b: int|
                0 <= a < b < at ==> (#[trigger] entries[a]).name != (#[trigger] entries[b]).name,
        decreases listing.len() - at,
    {
        if !is_segment_name(listing[at].name()) {
            assert(!is_segment(entries[at as int].name));
            return false;
        }
        if !is_new_name(listing, at) {
            let ghost a = choose|a: int|
                0 <= a < at && (#[trigger] listing@[a])@.name == listing@[at as int]@.name;
            assert(entries[a].name == entries[at as int].name);
            return false;
        }
        assert forall|a: int, b: int| 0 <= a < b < at + 1 implies (#[trigger] entries[a]).name
            != (#[trigger] entries[b]).name by {
            if b == at {
                assert(listing@[a]@.name != listing@[at as int]@.name);
            }
        }
        at += 1;
    }
    true
}

} // verus!
