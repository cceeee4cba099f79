//! A mount is a named logical root that a server exposes. What stands behind
//! it can be anything that stores files; it may ask for credentials of its
//! own. Its name is how requests reach it, and must be safe in a URL: letters,
//! digits, `_` and `-`.
//!
//! The mount named `default` is the one meant where a request names none.

use crate::api::error::ErrorKind;
use crate::text::chars_of;
use vstd::prelude::*;

verus! {

/// Whether `c` may stand in the name of a mount: a letter of the Latin
/// alphabet, a digit, `_` or `-`.
pub open spec fn is_mount_char(c: char) -> bool {
    ||| 'a' <= c && c <= 'z'
    ||| 'A' <= c && c <= 'Z'
    ||| '0' <= c && c <= '9'
    ||| c == '_'
    ||| c == '-'
}

/// Whether `name` can name a mount: every character may stand in such a name.
/// The empty name can.
pub open spec fn is_mount_name(name: Seq<char>) -> bool {
    forall|i: int| 0 <= i < name.len() ==> is_mount_char(#[trigger] name[i])
}

/// Whether `c` may stand in the name of a mount.
pub fn mount_char(c: char) -> (allowed: bool)
    ensures
        allowed == is_mount_char(c),
{
    ('a' <= c && c <= 'z') || ('A' <= c && c <= 'Z') || ('0' <= c && c <= '9') || c == '_' || c
        == '-'
}

/// Whether `name` can name a mount.
pub fn valid_mount_name(name: &str) -> (valid: bool)
    ensures
        valid == is_mount_name(name@),
{
    let chars = chars_of(name);
    let mut at: usize = 0;
    while at < chars.len()
        invariant
            at <= chars.len(),
            chars@ == name@,
            forall|i: int| 0 <= i < at ==> is_mount_char(#[trigger] name@[i]),
        decreases chars.len() - at,
    {
        if !mount_char(chars[at]) {
            return false;
        }
        at += 1;
    }
    true
}

/// The name of the mount that is meant where a request names none.
pub open spec fn default_mount() -> Seq<char> {
    "default"@
}

/// The name of a mount.
#[derive(Debug, PartialEq, Eq, Hash)]
pub struct MountName {
    name: String,
}

impl View for MountName {
    type V = Seq<char>;

    closed spec fn view(&self) -> Seq<char> {
        self.name@
    }
}

impl Clone for MountName {
    /// A copy of the same name.
    fn clone(&self) -> (copy: Self)
        ensures
            copy@ == self@,
    {
        proof {
            use_type_invariant(self);
        }
        MountName { name: self.name.clone() }
    }
}

/// The name of the mount that a request means: the one it gives, which must
/// be able to name a mount, or `default` where it gives none.
pub open spec fn mount_of_segment(segment: Option<&str>) -> Option<Seq<char>> {
    match segment {
        Some(name) => if is_mount_name(name@) {
            Some(name@)
        } else {
            None
        },
        None => Some(default_mount()),
    }
}

/// `default` can name a mount.
pub proof fn lemma_default_is_mount_name()
    ensures
        is_mount_name(default_mount()),
{
    reveal_strlit("default");
}

impl MountName {
    #[verifier::type_invariant]
    spec fn valid(self) -> bool {
        is_mount_name(self.name@)
    }

    /// The mount name `name`, if it can name a mount.
    pub fn new(name: &str) -> (mount: Option<MountName>)
        ensures
            mount is Some <==> is_mount_name(name@),
            mount matches Some(mount) ==> mount@ == name@,
    {
        if valid_mount_name(name) {
            Some(MountName { name: String::from_str(name) })
        } else {
            None
        }
    }

    /// The name of the mount that a request means: `segment` where the
    /// request gives one, which must be able to name a mount, and `default`
    /// where it gives none.
    pub fn from_segment(segment: Option<&str>) -> (mount: Option<MountName>)
        ensures
            match mount {
                Some(mount) => mount_of_segment(segment) == Some(mount@),
                None => mount_of_segment(segment) is None,
            },
    {
        match segment {
            Some(name) => MountName::new(name),
            None => Some(MountName::default()),
        }
    }

    /// The name as text. It holds letters, digits, `_` and `-` only.
    pub fn as_str(&self) -> (name: &str)
        ensures
            name@ == self@,
            is_mount_name(name@),
    {
        proof {
            use_type_invariant(self);
        }
        self.name.as_str()
    }

    /// Whether this is the name `default`.
    pub fn is_default(&self) -> (default: bool)
        ensures
            default == (self@ == default_mount()),
    {
        crate::text::same_text(self.name.as_str(), "default")
    }
}

impl Default for MountName {
    /// The name `default`.
    fn default() -> (mount: Self)
        ensures
            mount@ == default_mount(),
    {
        proof {
            lemma_default_is_mount_name();
        }
        MountName { name: String::from_str("default") }
    }
}

/// What a mount's policy says of a request.
#[derive(Debug, Copy, Clone, PartialEq, Eq, Hash, Structural)]
pub enum Authorization {
    /// The request may proceed.
    Allowed,
    /// The credentials are valid but do not grant access.
    Forbidden,
    /// Credentials are missing or invalid.
    Unauthorized,
}

/// What a mount finds at a path.
#[derive(Debug, Copy, Clone, PartialEq, Eq, Hash, Structural)]
pub enum Resolution {
    /// A directory.
    Directory,
    /// A file of `size` bytes.
    File { size: u64 },
    /// A symbolic link.
    Symlink,
    /// Nothing: the mount or the path does not exist.
    NotFound,
}

impl Authorization {
    /// The failure that this answer of the policy stands for, if it is a
    /// refusal: missing or invalid credentials are `Unauthorized`, valid ones
    /// that do not suffice are `Forbidden`.
    pub open spec fn refusal(self) -> Option<ErrorKind> {
        match self {
            Authorization::Allowed => None,
            Authorization::Forbidden => Some(ErrorKind::Forbidden),
            Authorization::Unauthorized => Some(ErrorKind::Unauthorized),
        }
    }

    /// The failure that this answer of the policy stands for, if it is a
    /// refusal.
    pub fn refused(self) -> (kind: Option<ErrorKind>)
        ensures
            kind == self.refusal(),
    {
        match self {
            Authorization::Allowed => None,
            Authorization::Forbidden => Some(ErrorKind::Forbidden),
            Authorization::Unauthorized => Some(ErrorKind::Unauthorized),
        }
    }
}

} // verus!
