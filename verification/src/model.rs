//! What the editor knows of a file system: entries, metadata, permissions,
//! patch operations and file searches.
use vstd::prelude::*;

verus! {

/// The kind of a directory entry.
#[derive(Clone, Copy, Debug, PartialEq, Eq)]
pub enum EntryType {
    File,
    Directory,
    Symlink,
}

/// Unix permission bits.
#[derive(Clone, Copy, Debug, PartialEq, Eq)]
pub struct FilePermissions {
    pub mode: u32,
}

/// The user on whose behalf files are opened: effective user id and groups.
#[derive(Debug, PartialEq, Eq)]
pub struct UserIdentity {
    pub euid: u32,
    pub groups: Vec<u32>,
}

impl FilePermissions {
    pub fn from_mode(mode: u32) -> (permissions: FilePermissions)
        ensures
            permissions == (FilePermissions { mode }),
    {
        FilePermissions { mode }
    }

    pub fn mode(&self) -> (mode: u32)
        ensures
            mode == self.mode,
    {
        self.mode
    }

    /// Whether no write bit is set.
    pub open spec fn no_write_bit(self) -> bool {
        self.mode & 0o222 == 0
    }

    /// Whether the write bit of the class that the user falls in is clear. The
    /// owner's bit decides for the owner, the group's for its members, the last
    /// for everyone else; the superuser may always write.
    pub open spec fn denies_write_to(
        self,
        euid: u32,
        uid: u32,
        gid: u32,
        groups: Seq<u32>,
    ) -> bool {
        if euid == 0 {
            false
        } else if euid == uid {
            self.mode & 0o200 == 0
        } else if groups.contains(gid) {
            self.mode & 0o020 == 0
        } else {
            self.mode & 0o002 == 0
        }
    }

    /// Whether no write bit is set.
    pub fn is_readonly(&self) -> (readonly: bool)
        ensures
            readonly == self.no_write_bit(),
    {
        self.mode & 0o222 == 0
    }

    /// Whether a file of owner `uid` and group `gid` is closed for writing to
    /// `user`.
    pub fn is_readonly_for_user(&self, user: &UserIdentity, uid: u32, gid: u32) -> (readonly: bool)
        ensures
            readonly == self.denies_write_to(user.euid, uid, gid, user.groups@),
    {
        if user.euid == 0 {
            return false;
        }
        if user.euid == uid {
            return self.mode & 0o200 == 0;
        }
        let mut i: usize = 0;
        while i < user.groups.len()
            invariant
                i <= user.groups.len(),
                forall|k: int| 0 <= k < i ==> user.groups@[k] != gid,
                user.euid != 0,
                user.euid != uid,
            decreases user.groups.len() - i,
        {
            if user.groups[i] == gid {
                return self.mode & 0o020 == 0;
            }
            i += 1;
        }
        self.mode & 0o002 == 0
    }
}

/// What is known of a file without reading it.
#[derive(Clone, Copy, Debug, PartialEq, Eq)]
pub struct FileMetadata {
    pub size: u64,
    /// Seconds between the Unix epoch and the last modification.
    pub modified: Option<u64>,
    pub permissions: Option<FilePermissions>,
    pub is_hidden: bool,
    pub is_readonly: bool,
    pub uid: Option<u32>,
    pub gid: Option<u32>,
}

/// One entry of a directory listing.
#[derive(Debug, PartialEq, Eq)]
pub struct DirEntry {
    pub path: String,
    pub name: String,
    pub entry_type: EntryType,
    pub metadata: Option<FileMetadata>,
    pub symlink_target_is_dir: bool,
}

impl DirEntry {
    pub fn is_symlink(&self) -> (b: bool)
        ensures
            b == (self.entry_type == EntryType::Symlink),
    {
        match self.entry_type {
            EntryType::Symlink => true,
            _ => false,
        }
    }
}

/// One step of a patched write: copy a range of the source, or insert bytes.
#[derive(Debug, PartialEq, Eq)]
pub enum WriteOp {
    Copy { offset: u64, len: u64 },
    Insert { data: Vec<u8> },
}

/// How a file is searched.
#[derive(Clone, Copy, Debug, PartialEq, Eq)]
pub struct FileSearchOptions {
    pub fixed_string: bool,
    pub case_sensitive: bool,
    pub whole_word: bool,
    pub max_matches: usize,
}

/// How far a search through a file has come.
#[derive(Clone, Copy, Debug, PartialEq, Eq)]
pub struct FileSearchCursor {
    pub offset: usize,
    pub running_line: usize,
    pub end_offset: Option<usize>,
    pub done: bool,
}

/// One match of a file search.
#[derive(Debug, PartialEq, Eq)]
pub struct SearchMatch {
    pub byte_offset: usize,
    pub length: usize,
    pub line: usize,
    pub column: usize,
    pub context: String,
}

} // verus!
