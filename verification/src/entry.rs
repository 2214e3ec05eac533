//! Reading an entry as the enclave receives it: the host's metadata of the
//! entry, then the content of its metadata file, which must exist.
use crate::abi::{Error, ErrorKind, FsEntry, FsEntryView, HostMetadata};
use crate::fs::VmeFs;
use crate::host::{Fault, HostAction, HostActionView, HostReply, HostReplyView};
use crate::paths::{meta_path, meta_path_of};
use vstd::prelude::*;

verus! {

/// Where a read of an entry stands.
pub enum EntryStage {
    /// Waiting for the host's metadata of the entry.
    Metadata,
    /// Waiting to learn whether the metadata file `meta` exists.
    MetaExists { meta: String, host: HostMetadata },
    /// Waiting for the content of the metadata file `meta`.
    MetaContent { meta: String, host: HostMetadata },
}

pub enum EntryStageView {
    Metadata,
    MetaExists { meta: Seq<char>, host: HostMetadata },
    MetaContent { meta: Seq<char>, host: HostMetadata },
}

/// A read of the entry at `path` in progress.
pub struct EntryRead {
    pub path: String,
    pub stage: EntryStage,
}

pub struct EntryReadView {
    pub path: Seq<char>,
    pub stage: EntryStageView,
}

impl View for EntryRead {
    type V = EntryReadView;

    open spec fn view(&self) -> EntryReadView {
        EntryReadView {
            path: self.path@,
            stage: match &self.stage {
                EntryStage::Metadata => EntryStageView::Metadata,
                EntryStage::MetaExists { meta, host } => EntryStageView::MetaExists {
                    meta: meta@,
                    host: *host,
                },
                EntryStage::MetaContent { meta, host } => EntryStageView::MetaContent {
                    meta: meta@,
                    host: *host,
                },
            },
        }
    }
}

/// What a read of an entry does next.
pub enum EntryProgress {
    Ask(HostAction),
    Read(Result<FsEntry, Error>),
    Fault(Fault),
}

pub enum EntryProgressView {
    Ask(HostActionView),
    Read(Result<FsEntryView, Error>),
    Fault(Fault),
}

impl View for EntryProgress {
    type V = EntryProgressView;

    open spec fn view(&self) -> EntryProgressView {
        match self {
            EntryProgress::Ask(a) => EntryProgressView::Ask(a@),
            EntryProgress::Read(Ok(e)) => EntryProgressView::Read(Ok(e@)),
            EntryProgress::Read(Err(e)) => EntryProgressView::Read(Err(*e)),
            EntryProgress::Fault(f) => EntryProgressView::Fault(*f),
        }
    }
}

pub open spec fn entry_start(path: Seq<char>) -> (EntryReadView, HostActionView) {
    (
        EntryReadView { path, stage: EntryStageView::Metadata },
        HostActionView::Metadata { path },
    )
}

/// How a read of an entry answers a reply of the host. A failure of the
/// host is the request's error; a missing metadata file is `NotFound`.
pub open spec fn entry_step(s: EntryReadView, reply: HostReplyView) -> (
    EntryReadView,
    EntryProgressView,
) {
    match s.stage {
        EntryStageView::Metadata => match reply {
            HostReplyView::Metadata(Err(e)) => (s, EntryProgressView::Read(Err(Error::Command(e)))),
            HostReplyView::Metadata(Ok(raw)) => if !raw.is_supported() {
                (s, EntryProgressView::Fault(Fault::UnsupportedFileType))
            } else {
                let meta = meta_path(s.path);
                (
                    EntryReadView {
                        stage: EntryStageView::MetaExists { meta, host: HostMetadata::of_raw(raw) },
                        ..s
                    },
                    EntryProgressView::Ask(HostActionView::Exists { path: meta }),
                )
            },
            _ => (s, EntryProgressView::Fault(Fault::UnexpectedReply)),
        },
        EntryStageView::MetaExists { meta, host } => match reply {
            HostReplyView::Exists(true) => (
                EntryReadView { stage: EntryStageView::MetaContent { meta, host }, ..s },
                EntryProgressView::Ask(HostActionView::ReadFile { path: meta }),
            ),
            HostReplyView::Exists(false) => (
                s,
                EntryProgressView::Read(Err(Error::Command(ErrorKind::NotFound))),
            ),
            _ => (s, EntryProgressView::Fault(Fault::UnexpectedReply)),
        },
        EntryStageView::MetaContent { meta, host } => match reply {
            HostReplyView::Content(Ok(bytes)) => (
                s,
                EntryProgressView::Read(Ok(FsEntryView { metadata: bytes, host_metadata: host })),
            ),
            HostReplyView::Content(Err(e)) => (s, EntryProgressView::Read(Err(Error::Command(e)))),
            _ => (s, EntryProgressView::Fault(Fault::UnexpectedReply)),
        },
    }
}

impl VmeFs {
    /// Starts reading the entry at `path`: first the host's metadata of it.
    pub fn read_fs_entry(path: String) -> (r: (EntryRead, HostAction))
        ensures
            (r.0@, r.1@) == entry_start(path@),
    {
        let action = HostAction::Metadata { path: path.clone() };
        (EntryRead { path, stage: EntryStage::Metadata }, action)
    }
}

impl EntryRead {
    /// Answers a reply of the host.
    pub fn resume(&mut self, reply: HostReply) -> (p: EntryProgress)
        ensures
            (final(self)@, p@) == entry_step(old(self)@, reply@),
    {
        match &self.stage {
            EntryStage::Metadata => match reply {
                HostReply::Metadata(Err(e)) => EntryProgress::Read(Err(Error::Command(e))),
                HostReply::Metadata(Ok(raw)) => {
                    if !raw.supported() {
                        EntryProgress::Fault(Fault::UnsupportedFileType)
                    } else {
                        let host = HostMetadata::from_raw(raw);
                        let meta = meta_path_of(&self.path);
                        let action = HostAction::Exists { path: meta.clone() };
                        self.stage = EntryStage::MetaExists { meta, host };
                        EntryProgress::Ask(action)
                    }
                },
                _ => EntryProgress::Fault(Fault::UnexpectedReply),
            },
            EntryStage::MetaExists { meta, host } => match reply {
                HostReply::Exists(true) => {
                    let meta = meta.clone();
                    let host = *host;
                    let action = HostAction::ReadFile { path: meta.clone() };
                    self.stage = EntryStage::MetaContent { meta, host };
                    EntryProgress::Ask(action)
                },
                HostReply::Exists(false) => EntryProgress::Read(
                    Err(Error::Command(ErrorKind::NotFound)),
                ),
                _ => EntryProgress::Fault(Fault::UnexpectedReply),
            },
            EntryStage::MetaContent { meta: _, host } => match reply {
                HostReply::Content(Ok(bytes)) => EntryProgress::Read(
                    Ok(FsEntry { metadata: bytes, host_metadata: *host }),
                ),
                HostReply::Content(Err(e)) => EntryProgress::Read(Err(Error::Command(e))),
                _ => EntryProgress::Fault(Fault::UnexpectedReply),
            },
        }
    }
}

} // verus!
