mod permissions;
mod timestamp;

pub use self::permissions::{
    account_or_empty, domain_or_empty, group_view, owner_view, text_or_empty, windows_group_view,
    windows_owner_view, FileGroup, FileGroupView, FileOwner, FileOwnerView, FilePermissions,
    FilePermissionsView,
};
pub use self::timestamp::{
    lemma_timestamp_round_trip, rfc3339_text, rfc3339_value, Timestamp,
};
use vstd::prelude::*;

verus! {

/// What is known of one resource: its timestamps, its size and the server's
/// permissions on it.
#[derive(Debug, Clone, PartialEq, Eq, Hash)]
pub struct Metadata {
    created: Option<Timestamp>,
    updated: Option<Timestamp>,
    accessed: Option<Timestamp>,
    permissions: FilePermissions,
    size: u64,
}

/// What a [`Metadata`] is, as a mathematical value.
pub struct MetadataView {
    pub created: Option<Timestamp>,
    pub updated: Option<Timestamp>,
    pub accessed: Option<Timestamp>,
    pub permissions: FilePermissionsView,
    pub size: u64,
}

impl View for Metadata {
    type V = MetadataView;

    closed spec fn view(&self) -> MetadataView {
        MetadataView {
            created: self.created,
            updated: self.updated,
            accessed: self.accessed,
            permissions: self.permissions@,
            size: self.size,
        }
    }
}

impl Metadata {
    /// The metadata that says nothing: no timestamp, no access, no owner or
    /// group, and a size of zero.
    pub open spec fn default_view() -> MetadataView {
        MetadataView {
            created: None,
            updated: None,
            accessed: None,
            permissions: FilePermissionsView {
                read: false,
                write: false,
                execute: false,
                owner: None,
                group: None,
            },
            size: 0,
        }
    }
}

impl Default for Metadata {
    /// No timestamp, no access, no owner or group, and a size of zero.
    fn default() -> (metadata: Self)
        ensures
            metadata@ == Metadata::default_view(),
    {
        Metadata {
            created: None,
            updated: None,
            accessed: None,
            permissions: FilePermissions::default(),
            size: 0,
        }
    }
}

impl Metadata {
    /// The time the resource was created, if known.
    pub fn created(&self) -> (created: Option<Timestamp>)
        ensures
            created == self@.created,
    {
        self.created
    }

    /// This metadata with the time of creation set to `created`.
    pub fn with_created(self, created: Option<Timestamp>) -> (metadata: Self)
        ensures
            metadata@ == (MetadataView { created, ..self@ }),
    {
        Metadata { created, ..self }
    }

    /// The time the resource was last updated, if known.
    pub fn updated(&self) -> (updated: Option<Timestamp>)
        ensures
            updated == self@.updated,
    {
        self.updated
    }

    /// This metadata with the time of the last update set to `updated`.
    pub fn with_updated(self, updated: Option<Timestamp>) -> (metadata: Self)
        ensures
            metadata@ == (MetadataView { updated, ..self@ }),
    {
        Metadata { updated, ..self }
    }

    /// The time the resource was last accessed, if known.
    ///
    /// Some hosts never record it: nothing may rely on its presence.
    pub fn accessed(&self) -> (accessed: Option<Timestamp>)
        ensures
            accessed == self@.accessed,
    {
        self.accessed
    }

    /// This metadata with the time of the last access set to `accessed`.
    pub fn with_accessed(self, accessed: Option<Timestamp>) -> (metadata: Self)
        ensures
            metadata@ == (MetadataView { accessed, ..self@ }),
    {
        Metadata { accessed, ..self }
    }

    /// The server's permissions on the resource.
    pub fn permissions(&self) -> (permissions: &FilePermissions)
        ensures
            permissions@ == self@.permissions,
    {
        &self.permissions
    }

    /// This metadata with the permissions set to `permissions`.
    pub fn with_permissions(self, permissions: FilePermissions) -> (metadata: Self)
        ensures
            metadata@ == (MetadataView { permissions: permissions@, ..self@ }),
    {
        Metadata { permissions, ..self }
    }

    /// The size of the resource in bytes.
    pub fn size(&self) -> (size: u64)
        ensures
            size == self@.size,
    {
        self.size
    }

    /// This metadata with the size set to `size`.
    pub fn with_size(self, size: u64) -> (metadata: Self)
        ensures
            metadata@ == (MetadataView { size, ..self@ }),
    {
        Metadata { size, ..self }
    }
}

} // verus!
