use vstd::prelude::*;

verus! {

/// The user that owns a resource: a unique identifier and a visible name.
///
/// The shape follows the host: a numeric id on Unix-like systems, a security
/// identifier and a domain on Windows.
#[derive(Debug, Clone, PartialEq, Eq, Hash)]
pub enum FileOwner {
    Unix {
        /// The user's unique identifier.
        uid: u32,
        /// The user's visible name, empty when the host knows none.
        name: String,
    },
    Windows {
        /// The security identifier (SID) of the user.
        sid: String,
        /// The user's domain name, empty when the host knows none.
        domain: String,
        /// The user's visible name, empty when the host knows none.
        name: String,
    },
}

/// The group that owns a resource: a unique identifier and a visible name.
#[derive(Debug, Clone, PartialEq, Eq, Hash)]
pub enum FileGroup {
    Unix {
        /// The group's unique identifier.
        gid: u32,
        /// The group's visible name, empty when the host knows none.
        name: String,
    },
    Windows {
        /// The security identifier (SID) of the group.
        sid: String,
        /// The group's domain, empty when the host knows none.
        domain: String,
        /// The group's visible name, empty when the host knows none.
        name: String,
    },
}

/// What a [`FileOwner`] is, as a mathematical value.
pub enum FileOwnerView {
    Unix { uid: u32, name: Seq<char> },
    Windows { sid: Seq<char>, domain: Seq<char>, name: Seq<char> },
}

/// What a [`FileGroup`] is, as a mathematical value.
pub enum FileGroupView {
    Unix { gid: u32, name: Seq<char> },
    Windows { sid: Seq<char>, domain: Seq<char>, name: Seq<char> },
}

impl View for FileOwner {
    type V = FileOwnerView;

    open spec fn view(&self) -> FileOwnerView {
        match *self {
            FileOwner::Unix { uid, name } => FileOwnerView::Unix { uid, name: name@ },
            FileOwner::Windows { sid, domain, name } => FileOwnerView::Windows {
                sid: sid@,
                domain: domain@,
                name: name@,
            },
        }
    }
}

impl View for FileGroup {
    type V = FileGroupView;

    open spec fn view(&self) -> FileGroupView {
        match *self {
            FileGroup::Unix { gid, name } => FileGroupView::Unix { gid, name: name@ },
            FileGroup::Windows { sid, domain, name } => FileGroupView::Windows {
                sid: sid@,
                domain: domain@,
                name: name@,
            },
        }
    }
}

/// The text that a lookup found, or the empty text where it found none.
pub open spec fn text_or_empty(found: Option<String>) -> Seq<char> {
    match found {
        Some(text) => text@,
        None => Seq::empty(),
    }
}

/// The domain that an account lookup found, or the empty text.
pub open spec fn domain_or_empty(account: Option<(String, String)>) -> Seq<char> {
    match account {
        Some(pair) => pair.0@,
        None => Seq::empty(),
    }
}

/// The account name that an account lookup found, or the empty text.
pub open spec fn account_or_empty(account: Option<(String, String)>) -> Seq<char> {
    match account {
        Some(pair) => pair.1@,
        None => Seq::empty(),
    }
}

/// The text that a lookup found, or the empty text where it found none.
fn found_or_empty(found: Option<String>) -> (text: String)
    ensures
        text@ == text_or_empty(found),
{
    match found {
        Some(text) => text,
        None => String::new(),
    }
}

impl FileOwner {
    /// The owner of a resource on a Unix-like host.
    ///
    /// `name` is what the host's user directory answered for `uid`. A failed
    /// lookup still yields an owner: the id stays and the name is empty.
    pub fn unix(uid: u32, name: Option<String>) -> (owner: FileOwner)
        ensures
            owner@ == (FileOwnerView::Unix { uid, name: text_or_empty(name) }),
    {
        FileOwner::Unix { uid, name: found_or_empty(name) }
    }

    /// The owner of a resource on a Windows host.
    ///
    /// `account` is the domain and the account name that the host found for
    /// `sid`. A failed lookup still yields an owner: the identifier stays,
    /// domain and name are empty.
    pub fn windows(sid: String, account: Option<(String, String)>) -> (owner: FileOwner)
        ensures
            owner@ == (FileOwnerView::Windows {
                sid: sid@,
                domain: domain_or_empty(account),
                name: account_or_empty(account),
            }),
    {
        match account {
            Some((domain, name)) => FileOwner::Windows { sid, domain, name },
            None => FileOwner::Windows { sid, domain: String::new(), name: String::new() },
        }
    }

    /// Whether this owner has the shape of a Unix-like host.
    pub fn is_unix(&self) -> (unix: bool)
        ensures
            unix == (self@ is Unix),
    {
        match self {
            FileOwner::Unix { .. } => true,
            FileOwner::Windows { .. } => false,
        }
    }
}

impl FileGroup {
    /// The group of a resource on a Unix-like host.
    ///
    /// `name` is what the host's group directory answered for `gid`. A failed
    /// lookup still yields a group: the id stays and the name is empty.
    pub fn unix(gid: u32, name: Option<String>) -> (group: FileGroup)
        ensures
            group@ == (FileGroupView::Unix { gid, name: text_or_empty(name) }),
    {
        FileGroup::Unix { gid, name: found_or_empty(name) }
    }

    /// The group of a resource on a Windows host.
    ///
    /// `account` is the domain and the account name that the host found for
    /// `sid`. A failed lookup still yields a group: the identifier stays,
    /// domain and name are empty.
    pub fn windows(sid: String, account: Option<(String, String)>) -> (group: FileGroup)
        ensures
            group@ == (FileGroupView::Windows {
                sid: sid@,
                domain: domain_or_empty(account),
                name: account_or_empty(account),
            }),
    {
        match account {
            Some((domain, name)) => FileGroup::Windows { sid, domain, name },
            None => FileGroup::Windows { sid, domain: String::new(), name: String::new() },
        }
    }

    /// Whether this group has the shape of a Unix-like host.
    pub fn is_unix(&self) -> (unix: bool)
        ensures
            unix == (self@ is Unix),
    {
        match self {
            FileGroup::Unix { .. } => true,
            FileGroup::Windows { .. } => false,
        }
    }
}

/// The server's access to a resource, and who owns it.
///
/// `read`, `write` and `execute` say what the server process can in fact do
/// with the resource, which mode bits alone do not tell.
#[derive(Debug, Clone, PartialEq, Eq, Hash)]
pub struct FilePermissions {
    read: bool,
    write: bool,
    execute: bool,
    owner: Option<FileOwner>,
    group: Option<FileGroup>,
}

/// What a [`FilePermissions`] is, as a mathematical value.
pub struct FilePermissionsView {
    pub read: bool,
    pub write: bool,
    pub execute: bool,
    pub owner: Option<FileOwnerView>,
    pub group: Option<FileGroupView>,
}

impl FilePermissionsView {
    /// No owner or group of the shape of a Windows host.
    pub open spec fn unix_shaped(self) -> bool {
        &&& self.owner matches Some(owner) ==> owner is Unix
        &&& self.group matches Some(group) ==> group is Unix
    }

    /// No owner or group of the shape of a Unix-like host.
    pub open spec fn windows_shaped(self) -> bool {
        &&& self.owner matches Some(owner) ==> owner is Windows
        &&& self.group matches Some(group) ==> group is Windows
    }

    /// Owner and group, where both are known, have the shape of one host.
    pub open spec fn single_platform(self) -> bool {
        self.unix_shaped() || self.windows_shaped()
    }
}

/// The view of an owner that may be absent.
pub open spec fn owner_view(owner: Option<FileOwner>) -> Option<FileOwnerView> {
    match owner {
        Some(owner) => Some(owner@),
        None => None,
    }
}

/// The view of a group that may be absent.
pub open spec fn group_view(group: Option<FileGroup>) -> Option<FileGroupView> {
    match group {
        Some(group) => Some(group@),
        None => None,
    }
}

/// The owner that a Windows probe describes: absent where the resource names
/// none, else the identifier with what the account lookup found.
pub open spec fn windows_owner_view(
    found: Option<(String, Option<(String, String)>)>,
) -> Option<FileOwnerView> {
    match found {
        Some(entry) => Some(
            FileOwnerView::Windows {
                sid: entry.0@,
                domain: domain_or_empty(entry.1),
                name: account_or_empty(entry.1),
            },
        ),
        None => None,
    }
}

/// The group that a Windows probe describes: absent where the resource names
/// none, else the identifier with what the account lookup found.
pub open spec fn windows_group_view(
    found: Option<(String, Option<(String, String)>)>,
) -> Option<FileGroupView> {
    match found {
        Some(entry) => Some(
            FileGroupView::Windows {
                sid: entry.0@,
                domain: domain_or_empty(entry.1),
                name: account_or_empty(entry.1),
            },
        ),
        None => None,
    }
}

impl View for FilePermissions {
    type V = FilePermissionsView;

    closed spec fn view(&self) -> FilePermissionsView {
        FilePermissionsView {
            read: self.read,
            write: self.write,
            execute: self.execute,
            owner: owner_view(self.owner),
            group: group_view(self.group),
        }
    }
}

impl Default for FilePermissions {
    /// No access, and neither owner nor group known.
    fn default() -> (permissions: Self)
        ensures
            permissions@ == (FilePermissionsView {
                read: false,
                write: false,
                execute: false,
                owner: None,
                group: None,
            }),
    {
        FilePermissions { read: false, write: false, execute: false, owner: None, group: None }
    }
}

impl FilePermissions {
    /// The permissions that a probe of a Unix-like host found.
    ///
    /// `read`, `write` and `execute` are the answers of the effective-access
    /// check for the server process; `uid` and `gid` come from the resource,
    /// `user` and `group` from looking the two up. Owner and group are always
    /// present, with an empty name where the lookup failed.
    pub fn from_unix_probe(
        read: bool,
        write: bool,
        execute: bool,
        uid: u32,
        user: Option<String>,
        gid: u32,
        group: Option<String>,
    ) -> (permissions: Self)
        ensures
            permissions@ == (FilePermissionsView {
                read,
                write,
                execute,
                owner: Some(FileOwnerView::Unix { uid, name: text_or_empty(user) }),
                group: Some(FileGroupView::Unix { gid, name: text_or_empty(group) }),
            }),
            permissions@.unix_shaped(),
    {
        FilePermissions {
            read,
            write,
            execute,
            owner: Some(FileOwner::unix(uid, user)),
            group: Some(FileGroup::unix(gid, group)),
        }
    }

    /// The permissions that a probe of a Windows host found.
    ///
    /// `read`, `write` and `execute` are the answers of the effective-access
    /// check for the server process. `owner` and `group` each hold the
    /// identifier that the resource's security descriptor names, if it names
    /// one, with the domain and the account name that the host found for the
    /// identifier, if the lookup succeeded.
    pub fn from_windows_probe(
        read: bool,
        write: bool,
        execute: bool,
        owner: Option<(String, Option<(String, String)>)>,
        group: Option<(String, Option<(String, String)>)>,
    ) -> (permissions: Self)
        ensures
            permissions@ == (FilePermissionsView {
                read,
                write,
                execute,
                owner: windows_owner_view(owner),
                group: windows_group_view(group),
            }),
            permissions@.windows_shaped(),
    {
        let owner = match owner {
            Some((sid, account)) => Some(FileOwner::windows(sid, account)),
            None => None,
        };
        let group = match group {
            Some((sid, account)) => Some(FileGroup::windows(sid, account)),
            None => None,
        };
        FilePermissions { read, write, execute, owner, group }
    }

    /// Whether owner and group, where both are known, have the shape of one
    /// host.
    pub fn is_single_platform(&self) -> (single: bool)
        ensures
            single == self@.single_platform(),
    {
        let unix = match &self.owner {
            Some(owner) => owner.is_unix(),
            None => true,
        } && match &self.group {
            Some(group) => group.is_unix(),
            None => true,
        };
        let windows = match &self.owner {
            Some(owner) => !owner.is_unix(),
            None => true,
        } && match &self.group {
            Some(group) => !group.is_unix(),
            None => true,
        };
        unix || windows
    }

    /// Whether the server can read the resource.
    pub fn read(&self) -> (read: bool)
        ensures
            read == self@.read,
    {
        self.read
    }

    /// These permissions with the read flag set to `read`.
    pub fn with_read(self, read: bool) -> (permissions: Self)
        ensures
            permissions@ == (FilePermissionsView { read, ..self@ }),
    {
        FilePermissions { read, ..self }
    }

    /// Whether the server can write the resource.
    pub fn write(&self) -> (write: bool)
        ensures
            write == self@.write,
    {
        self.write
    }

    /// These permissions with the write flag set to `write`.
    pub fn with_write(self, write: bool) -> (permissions: Self)
        ensures
            permissions@ == (FilePermissionsView { write, ..self@ }),
    {
        FilePermissions { write, ..self }
    }

    /// Whether the server can execute the resource.
    pub fn execute(&self) -> (execute: bool)
        ensures
            execute == self@.execute,
    {
        self.execute
    }

    /// These permissions with the execute flag set to `execute`.
    pub fn with_execute(self, execute: bool) -> (permissions: Self)
        ensures
            permissions@ == (FilePermissionsView { execute, ..self@ }),
    {
        FilePermissions { execute, ..self }
    }

    /// The owner of the resource, if known.
    pub fn owner(&self) -> (owner: Option<&FileOwner>)
        ensures
            match owner {
                Some(owner) => self@.owner == Some(owner@),
                None => self@.owner is None,
            },
    {
        self.owner.as_ref()
    }

    /// These permissions with the owner set to `owner`.
    pub fn with_owner(self, owner: Option<FileOwner>) -> (permissions: Self)
        ensures
            permissions@ == (FilePermissionsView { owner: owner_view(owner), ..self@ }),
    {
        FilePermissions { owner, ..self }
    }

    /// The group of the resource, if known.
    pub fn group(&self) -> (group: Option<&FileGroup>)
        ensures
            match group {
                Some(group) => self@.group == Some(group@),
                None => self@.group is None,
            },
    {
        self.group.as_ref()
    }

    /// These permissions with the group set to `group`.
    pub fn with_group(self, group: Option<FileGroup>) -> (permissions: Self)
        ensures
            permissions@ == (FilePermissionsView { group: group_view(group), ..self@ }),
    {
        FilePermissions { group, ..self }
    }
}

} // verus!
