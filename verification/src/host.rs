//! The operations on the host's directory tree that the file server asks
//! for, and the replies it is handed back.
use crate::abi::{ErrorKind, RawMetadata};
use vstd::prelude::*;

verus! {

/// A message for whoever runs the server.
#[derive(Debug, PartialEq, Eq)]
pub enum Notice {
    /// The link at `path` is about to be read; written to the error stream.
    ReadingLink { path: String },
    /// The entry a rename should move is missing; a warning.
    RenameSourceMissing { path: String },
    /// The metadata file a rename should move is missing; a warning.
    RenameMetaMissing { path: String },
}

pub enum NoticeView {
    ReadingLink { path: Seq<char> },
    RenameSourceMissing { path: Seq<char> },
    RenameMetaMissing { path: Seq<char> },
}

impl View for Notice {
    type V = NoticeView;

    open spec fn view(&self) -> NoticeView {
        match self {
            Notice::ReadingLink { path } => NoticeView::ReadingLink { path: path@ },
            Notice::RenameSourceMissing { path } => NoticeView::RenameSourceMissing { path: path@ },
            Notice::RenameMetaMissing { path } => NoticeView::RenameMetaMissing { path: path@ },
        }
    }
}

/// One operation on the host. Paths are host paths.
#[derive(Debug, PartialEq, Eq)]
pub enum HostAction {
    /// Whether anything exists at the path.
    Exists { path: String },
    /// The host's metadata of the path, following links.
    Metadata { path: String },
    /// The whole content of the file at the path.
    ReadFile { path: String },
    /// Opens the file for writing, creating and truncating it, with the
    /// extra open flags where there are any, then writes all of `content`.
    WriteFile { path: String, content: Vec<u8>, custom_flags: Option<i32> },
    CreateDir { path: String },
    RemoveFile { path: String },
    RemoveDir { path: String },
    Rename { from: String, to: String },
    HardLink { existing: String, link: String },
    Symlink { target: String, link: String },
    /// The entries of the directory at the path, those the host could list.
    ReadDir { path: String },
    /// Gives the notice out; it is answered with `Done`.
    Notify { notice: Notice },
}

pub enum HostActionView {
    Exists { path: Seq<char> },
    Metadata { path: Seq<char> },
    ReadFile { path: Seq<char> },
    WriteFile { path: Seq<char>, content: Seq<u8>, custom_flags: Option<i32> },
    CreateDir { path: Seq<char> },
    RemoveFile { path: Seq<char> },
    RemoveDir { path: Seq<char> },
    Rename { from: Seq<char>, to: Seq<char> },
    HardLink { existing: Seq<char>, link: Seq<char> },
    Symlink { target: Seq<char>, link: Seq<char> },
    ReadDir { path: Seq<char> },
    Notify { notice: NoticeView },
}

impl View for HostAction {
    type V = HostActionView;

    open spec fn view(&self) -> HostActionView {
        match self {
            HostAction::Exists { path } => HostActionView::Exists { path: path@ },
            HostAction::Metadata { path } => HostActionView::Metadata { path: path@ },
            HostAction::ReadFile { path } => HostActionView::ReadFile { path: path@ },
            HostAction::WriteFile { path, content, custom_flags } => HostActionView::WriteFile {
                path: path@,
                content: content@,
                custom_flags: *custom_flags,
            },
            HostAction::CreateDir { path } => HostActionView::CreateDir { path: path@ },
            HostAction::RemoveFile { path } => HostActionView::RemoveFile { path: path@ },
            HostAction::RemoveDir { path } => HostActionView::RemoveDir { path: path@ },
            HostAction::Rename { from, to } => HostActionView::Rename { from: from@, to: to@ },
            HostAction::HardLink { existing, link } => HostActionView::HardLink {
                existing: existing@,
                link: link@,
            },
            HostAction::Symlink { target, link } => HostActionView::Symlink {
                target: target@,
                link: link@,
            },
            HostAction::ReadDir { path } => HostActionView::ReadDir { path: path@ },
            HostAction::Notify { notice } => HostActionView::Notify { notice: notice@ },
        }
    }
}

pub open spec fn option_action_view(a: Option<HostAction>) -> Option<HostActionView> {
    match a {
        Some(a) => Some(a@),
        None => None,
    }
}

/// What the host reports of one entry of a listed directory, without
/// following links.
#[derive(Clone, Copy, Debug, PartialEq, Eq, Structural)]
pub struct EntryInfo {
    pub ino: u64,
    pub is_dir: bool,
}

/// One entry of a listed directory: its path, and its inode and kind where
/// the host could read them.
#[derive(Debug, PartialEq, Eq)]
pub struct DirItem {
    pub path: String,
    pub info: Option<EntryInfo>,
}

pub struct DirItemView {
    pub path: Seq<char>,
    pub info: Option<EntryInfo>,
}

impl View for DirItem {
    type V = DirItemView;

    open spec fn view(&self) -> DirItemView {
        DirItemView { path: self.path@, info: self.info }
    }
}

pub open spec fn items_view(items: Seq<DirItem>) -> Seq<DirItemView> {
    items.map_values(|i: DirItem| i@)
}

/// The host's reply to an action: `Exists` answers `Exists`, `Metadata`
/// answers `Metadata`, `Content` answers `ReadFile`, `Listing` answers
/// `ReadDir`, and `Done` answers each of the others.
#[derive(Debug, PartialEq, Eq)]
pub enum HostReply {
    Exists(bool),
    Metadata(Result<RawMetadata, ErrorKind>),
    Content(Result<Vec<u8>, ErrorKind>),
    Done(Result<(), ErrorKind>),
    Listing(Result<Vec<DirItem>, ErrorKind>),
}

pub enum HostReplyView {
    Exists(bool),
    Metadata(Result<RawMetadata, ErrorKind>),
    Content(Result<Seq<u8>, ErrorKind>),
    Done(Result<(), ErrorKind>),
    Listing(Result<Seq<DirItemView>, ErrorKind>),
}

impl View for HostReply {
    type V = HostReplyView;

    open spec fn view(&self) -> HostReplyView {
        match self {
            HostReply::Exists(b) => HostReplyView::Exists(*b),
            HostReply::Metadata(m) => HostReplyView::Metadata(*m),
            HostReply::Content(Ok(bytes)) => HostReplyView::Content(Ok(bytes@)),
            HostReply::Content(Err(e)) => HostReplyView::Content(Err(*e)),
            HostReply::Done(r) => HostReplyView::Done(*r),
            HostReply::Listing(Ok(items)) => HostReplyView::Listing(Ok(items_view(items@))),
            HostReply::Listing(Err(e)) => HostReplyView::Listing(Err(*e)),
        }
    }
}

/// A state the host tree must never put the file server in; the server
/// stops on each of them.
#[derive(Clone, Copy, Debug, PartialEq, Eq, Structural)]
pub enum Fault {
    /// A request that works on an entry was resolved to a metadata file.
    MetadataFileAccess,
    /// The host reported an entry that is neither a file, a directory nor a
    /// link.
    UnsupportedFileType,
    /// A reply that does not answer the action asked for, or a reply after
    /// the request was answered.
    UnexpectedReply,
}

/// A copy of a byte vector.
pub fn copy_bytes(v: &Vec<u8>) -> (r: Vec<u8>)
    ensures
        r@ == v@,
{
    let r = v.clone();
    assert(r@ =~= v@);
    r
}

impl HostAction {
    /// A copy of the action.
    pub fn copy(&self) -> (r: HostAction)
        ensures
            r@ == self@,
    {
        match self {
            HostAction::Exists { path } => HostAction::Exists { path: path.clone() },
            HostAction::Metadata { path } => HostAction::Metadata { path: path.clone() },
            HostAction::ReadFile { path } => HostAction::ReadFile { path: path.clone() },
            HostAction::WriteFile { path, content, custom_flags } => HostAction::WriteFile {
                path: path.clone(),
                content: copy_bytes(content),
                custom_flags: *custom_flags,
            },
            HostAction::CreateDir { path } => HostAction::CreateDir { path: path.clone() },
            HostAction::RemoveFile { path } => HostAction::RemoveFile { path: path.clone() },
            HostAction::RemoveDir { path } => HostAction::RemoveDir { path: path.clone() },
            HostAction::Rename { from, to } => HostAction::Rename { from: from.clone(), to: to.clone() },
            HostAction::HardLink { existing, link } => HostAction::HardLink {
                existing: existing.clone(),
                link: link.clone(),
            },
            HostAction::Symlink { target, link } => HostAction::Symlink {
                target: target.clone(),
                link: link.clone(),
            },
            HostAction::ReadDir { path } => HostAction::ReadDir { path: path.clone() },
            HostAction::Notify { notice } => HostAction::Notify {
                notice: match notice {
                    Notice::ReadingLink { path } => Notice::ReadingLink { path: path.clone() },
                    Notice::RenameSourceMissing { path } => Notice::RenameSourceMissing {
                        path: path.clone(),
                    },
                    Notice::RenameMetaMissing { path } => Notice::RenameMetaMissing {
                        path: path.clone(),
                    },
                },
            },
        }
    }
}

} // verus!
