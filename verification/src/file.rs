use crate::text::same_text;
use vstd::prelude::*;

verus! {

/// The kind of thing a resource is.
#[derive(Debug, Copy, Clone, PartialEq, Eq, Hash, Structural)]
pub enum FileType {
    /// A regular file, written `file` on the wire.
    File,
    /// A directory, written `directory` on the wire.
    Directory,
    /// A symbolic link, written `symlink` on the wire.
    Symlink,
}

impl Default for FileType {
    fn default() -> (kind: Self)
        ensures
            kind == FileType::File,
    {
        FileType::File
    }
}

impl FileType {
    /// The name of this kind on the wire.
    pub open spec fn wire_name(self) -> Seq<char> {
        match self {
            FileType::File => "file"@,
            FileType::Directory => "directory"@,
            FileType::Symlink => "symlink"@,
        }
    }

    /// The kind that `name` stands for on the wire, if it stands for one.
    pub open spec fn of_wire_name(name: Seq<char>) -> Option<FileType> {
        if name == "file"@ {
            Some(FileType::File)
        } else if name == "directory"@ {
            Some(FileType::Directory)
        } else if name == "symlink"@ {
            Some(FileType::Symlink)
        } else {
            None
        }
    }

    /// The name of this kind on the wire: `file`, `directory` or `symlink`.
    pub fn as_str(self) -> (name: &'static str)
        ensures
            name@ == self.wire_name(),
    {
        match self {
            FileType::File => "file",
            FileType::Directory => "directory",
            FileType::Symlink => "symlink",
        }
    }

    /// The kind that `name` stands for on the wire. Every text but `file`,
    /// `directory` and `symlink`, written just so, stands for none.
    pub fn from_name(name: &str) -> (kind: Option<FileType>)
        ensures
            kind == FileType::of_wire_name(name@),
    {
        if same_text(name, "file") {
            Some(FileType::File)
        } else if same_text(name, "directory") {
            Some(FileType::Directory)
        } else if same_text(name, "symlink") {
            Some(FileType::Symlink)
        } else {
            None
        }
    }
}

/// The three names on the wire differ from each other.
pub proof fn lemma_wire_names_differ()
    ensures
        "file"@ != "directory"@,
        "file"@ != "symlink"@,
        "directory"@ != "symlink"@,
{
    reveal_strlit("file");
    reveal_strlit("directory");
    reveal_strlit("symlink");
    assert("file"@.len() == 4);
    assert("directory"@.len() == 9);
    assert("symlink"@.len() == 7);
}

/// A kind is read back from its name on the wire.
pub proof fn lemma_wire_name_round_trip(kind: FileType)
    ensures
        FileType::of_wire_name(kind.wire_name()) == Some(kind),
{
    lemma_wire_names_differ();
}

/// A text stands for a kind exactly when it is that kind's name: no other
/// text is read as a kind.
pub proof fn lemma_wire_name_exact(name: Seq<char>, kind: FileType)
    ensures
        FileType::of_wire_name(name) == Some(kind) <==> name == kind.wire_name(),
{
    lemma_wire_names_differ();
}

} // verus!
