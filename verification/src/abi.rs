//! The messages exchanged between the enclave and the runner's file server,
//! and the host metadata they carry.
use vstd::prelude::*;

verus! {

/// A request of the enclave's file system, addressed by inode numbers.
#[derive(Debug, PartialEq, Eq)]
pub enum FsOpRequest {
    Create { parent: u64, name: String, metadata: Vec<u8>, flags: i32 },
    GetAttr { ino: u64 },
    InitRoot { metadata: Vec<u8> },
    Lookup { ino: u64, name: String },
    Mkdir { ino: u64, name: String, metadata: Vec<u8> },
    Read { ino: u64 },
    ReadDir { ino: u64, offset: i64 },
    Rename { parent: u64, name: String, new_parent: u64, new_name: String },
    RmDir { ino: u64, name: String },
    SetAttr { ino: u64, metadata: Vec<u8> },
    Symlink { parent: u64, name: String, target: LinkTarget, metadata: Vec<u8> },
    Readlink { ino: u64 },
    Link { ino: u64, new_parent: u64, new_name: String, metadata: Vec<u8> },
    Unlink { ino: u64, name: String },
    Write { ino: u64, content: Vec<u8>, flags: i32 },
}

/// Where a symbolic link points: an absolute host path, or a path relative
/// to the root of the served tree.
#[derive(Debug, PartialEq, Eq)]
pub enum LinkTarget {
    Absolute(String),
    Relative(String),
}

#[derive(Clone, Copy, Debug, PartialEq, Eq, Structural)]
pub enum FileType {
    RegularFile,
    Directory,
    Symlink,
}

/// Non-encrypted metadata about a file or directory entry, used by the
/// enclave's file system as it is.
#[derive(Clone, Copy, Debug, PartialEq, Eq, Structural)]
pub struct HostMetadata {
    pub blocks: u64,
    pub ino: u64,
    pub kind: FileType,
    pub nlink: u32,
    pub rdev: u32,
    pub atime: u64,
    pub mtime: u64,
    pub ctime: u64,
}

/// What the host reports of a path, as plain values: the kind tests and the
/// numeric fields in the widths the host gives them.
#[derive(Clone, Copy, Debug, PartialEq, Eq, Structural)]
pub struct RawMetadata {
    pub is_file: bool,
    pub is_dir: bool,
    pub is_symlink: bool,
    pub blocks: u64,
    pub ino: u64,
    pub nlink: u64,
    pub rdev: u64,
    pub atime: i64,
    pub mtime: i64,
    pub ctime: i64,
}

impl RawMetadata {
    /// The entry is a regular file, a directory or a symbolic link.
    pub open spec fn is_supported(self) -> bool {
        self.is_file || self.is_dir || self.is_symlink
    }

    /// The kind of a supported entry; a regular file wins over a directory,
    /// a directory over a link.
    pub open spec fn kind(self) -> FileType {
        if self.is_file {
            FileType::RegularFile
        } else if self.is_dir {
            FileType::Directory
        } else {
            FileType::Symlink
        }
    }

    pub fn supported(&self) -> (r: bool)
        ensures
            r == self.is_supported(),
    {
        self.is_file || self.is_dir || self.is_symlink
    }
}

impl HostMetadata {
    /// The metadata the enclave sees of a host entry: the kind, and each
    /// number narrowed (`nlink`, `rdev`) or reinterpreted (the times) as
    /// the host's `as` casts do.
    pub open spec fn of_raw(raw: RawMetadata) -> HostMetadata {
        HostMetadata {
            blocks: raw.blocks,
            ino: raw.ino,
            kind: raw.kind(),
            nlink: raw.nlink as u32,
            rdev: raw.rdev as u32,
            atime: raw.atime as u64,
            mtime: raw.mtime as u64,
            ctime: raw.ctime as u64,
        }
    }

    /// Converts what the host reports of an entry. An entry of another kind
    /// than file, directory or link is not accepted.
    pub fn from_raw(raw: RawMetadata) -> (r: HostMetadata)
        requires
            raw.is_supported(),
        ensures
            r == Self::of_raw(raw),
    {
        let kind = if raw.is_file {
            FileType::RegularFile
        } else if raw.is_dir {
            FileType::Directory
        } else {
            FileType::Symlink
        };
        HostMetadata {
            blocks: raw.blocks,
            ino: raw.ino,
            kind,
            nlink: raw.nlink as u32,
            rdev: raw.rdev as u32,
            atime: raw.atime as u64,
            mtime: raw.mtime as u64,
            ctime: raw.ctime as u64,
        }
    }
}

/// An entry as the enclave receives it: the content of its metadata file and
/// the host's metadata of the entry itself.
#[derive(Debug, PartialEq, Eq)]
pub struct FsEntry {
    pub metadata: Vec<u8>,
    pub host_metadata: HostMetadata,
}

pub struct FsEntryView {
    pub metadata: Seq<u8>,
    pub host_metadata: HostMetadata,
}

impl View for FsEntry {
    type V = FsEntryView;

    open spec fn view(&self) -> FsEntryView {
        FsEntryView { metadata: self.metadata@, host_metadata: self.host_metadata }
    }
}

/// The answer to a request that succeeded.
#[derive(Debug, PartialEq, Eq)]
pub enum FsOpResponse {
    Empty,
    GetAttr { entry: FsEntry },
    FileContent { content: Vec<u8> },
    ReadDir { entries: Vec<FsEntry> },
    Readlink { target: Vec<u8> },
}

pub enum FsOpResponseView {
    Empty,
    GetAttr { entry: FsEntryView },
    FileContent { content: Seq<u8> },
    ReadDir { entries: Seq<FsEntryView> },
    Readlink { target: Seq<u8> },
}

pub open spec fn entries_view(entries: Seq<FsEntry>) -> Seq<FsEntryView> {
    entries.map_values(|e: FsEntry| e@)
}

impl View for FsOpResponse {
    type V = FsOpResponseView;

    open spec fn view(&self) -> FsOpResponseView {
        match self {
            FsOpResponse::Empty => FsOpResponseView::Empty,
            FsOpResponse::GetAttr { entry } => FsOpResponseView::GetAttr { entry: entry@ },
            FsOpResponse::FileContent { content } => FsOpResponseView::FileContent {
                content: content@,
            },
            FsOpResponse::ReadDir { entries } => FsOpResponseView::ReadDir {
                entries: entries_view(entries@),
            },
            FsOpResponse::Readlink { target } => FsOpResponseView::Readlink { target: target@ },
        }
    }
}

/// The kind of a failure, as the host's I/O error kinds name them.
#[derive(Clone, Copy, Debug, PartialEq, Eq, Structural)]
pub enum ErrorKind {
    NotFound,
    PermissionDenied,
    AlreadyExists,
    NotADirectory,
    IsADirectory,
    DirectoryNotEmpty,
    InvalidInput,
    InvalidData,
    Unsupported,
    Other,
}

/// The error that a request is answered with.
#[derive(Clone, Copy, Debug, PartialEq, Eq, Structural)]
pub enum Error {
    Command(ErrorKind),
}

} // verus!
