//! What the small computations of the server give, stated directly: the
//! metadata the enclave sees of a host entry, the open flags a write keeps,
//! the page of a listing, and how a read of an entry answers the host.
use crate::abi::{Error, ErrorKind, FileType, FsEntryView, HostMetadata, RawMetadata};
use crate::entry::{EntryProgressView, EntryReadView, EntryStageView, entry_step};
use crate::flags::sync_request;
use crate::host::{Fault, HostActionView, HostReplyView};
use crate::laws::{entry_inv, paged_len};
use crate::paths::meta_path;
use crate::request::page;
use vstd::prelude::*;

verus! {

/// The enclave sees a host entry with its block count and inode as they are,
/// as a regular file if the host says it is one, else as a directory if it
/// is one, else as a link; its link count and device number are the low 32
/// bits of the host's, and its times are the host's seconds read as unsigned
/// 64-bit numbers (a time before 1970 wraps around).
pub proof fn law_host_metadata_of_raw(raw: RawMetadata)
    requires
        raw.is_supported(),
    ensures
        ({
            let m = HostMetadata::of_raw(raw);
            &&& m.blocks == raw.blocks
            &&& m.ino == raw.ino
            &&& raw.is_file ==> m.kind == FileType::RegularFile
            &&& !raw.is_file && raw.is_dir ==> m.kind == FileType::Directory
            &&& !raw.is_file && !raw.is_dir ==> m.kind == FileType::Symlink && raw.is_symlink
            &&& m.nlink as int == raw.nlink % 0x1_0000_0000
            &&& m.rdev as int == raw.rdev % 0x1_0000_0000
            &&& m.atime as int == (if raw.atime >= 0 { raw.atime as int } else { raw.atime + 0x1_0000_0000_0000_0000 })
            &&& m.mtime as int == (if raw.mtime >= 0 { raw.mtime as int } else { raw.mtime + 0x1_0000_0000_0000_0000 })
            &&& m.ctime as int == (if raw.ctime >= 0 { raw.ctime as int } else { raw.ctime + 0x1_0000_0000_0000_0000 })
        }),
{
    let (n, r) = (raw.nlink, raw.rdev);
    assert(n as u32 == n % 0x1_0000_0000) by (bit_vector);
    assert(r as u32 == r % 0x1_0000_0000) by (bit_vector);
    lemma_time(raw.atime);
    lemma_time(raw.mtime);
    lemma_time(raw.ctime);
}

proof fn lemma_time(t: i64)
    ensures
        t as u64 as int == (if t >= 0 { t as int } else { t + 0x1_0000_0000_0000_0000 }),
{
    assert(t >= 0 ==> t as u64 == t) by (bit_vector);
    assert(t < 0 ==> t as u64 == (t + 0x1_0000_0000_0000_0000) as u64) by (bit_vector);
}

/// A write keeps exactly the `O_SYNC` and `O_DSYNC` bits its flags carry,
/// and asks for no extra open flags where it carries none of them.
pub proof fn law_sync_flags_keep_the_sync_bits(flags: i32, o_sync: i32, o_dsync: i32)
    ensures
        match sync_request(flags, o_sync, o_dsync) {
            Some(x) => {
                &&& x & o_sync == flags & o_sync
                &&& x & o_dsync == flags & o_dsync
                &&& x & !(o_sync | o_dsync) == 0
                &&& x != 0
            },
            None => flags & o_sync == 0 && flags & o_dsync == 0,
        },
{
    let m = flags & (o_sync | o_dsync);
    assert(m & o_sync == flags & o_sync) by (bit_vector)
        requires
            m == flags & (o_sync | o_dsync),
    ;
    assert(m & o_dsync == flags & o_dsync) by (bit_vector)
        requires
            m == flags & (o_sync | o_dsync),
    ;
    assert(m & !(o_sync | o_dsync) == 0) by (bit_vector)
        requires
            m == flags & (o_sync | o_dsync),
    ;
    assert(m == 0 ==> flags & o_sync == 0 && flags & o_dsync == 0) by (bit_vector)
        requires
            m == flags & (o_sync | o_dsync),
    ;
}

/// A page of a listing is the listing from the offset on, read as an
/// unsigned size: its `k`-th entry is the listing's `offset + k`-th, and it
/// is empty where the offset is past the last entry.
pub proof fn law_page_is_the_tail(entries: Seq<FsEntryView>, offset: i64)
    ensures
        page(entries, offset).len() == paged_len(entries.len(), offset),
        forall|k: int|
            0 <= k < page(entries, offset).len() ==> #[trigger] page(entries, offset)[k] == entries[(
            offset as usize) + k],
{
}

/// How a read of an entry answers the host, by what it waits for: a
/// failure of the host is the read's error; an entry of another kind than
/// file, directory or link stops the server; the metadata of a supported
/// entry leads to asking whether the entry's metadata file exists; a missing
/// metadata file is `NotFound`; an existing one is read next.
pub open spec fn entry_read_answers(s: EntryReadView, reply: HostReplyView, p: EntryProgressView) -> bool {
    match (s.stage, reply) {
        (EntryStageView::Metadata, HostReplyView::Metadata(Err(e))) => p == EntryProgressView::Read(
            Err(Error::Command(e)),
        ),
        (EntryStageView::Metadata, HostReplyView::Metadata(Ok(raw))) => if raw.is_supported() {
            p == EntryProgressView::Ask(HostActionView::Exists { path: meta_path(s.path) })
        } else {
            p == EntryProgressView::Fault(Fault::UnsupportedFileType)
        },
        (EntryStageView::MetaExists { .. }, HostReplyView::Exists(false)) => p
            == EntryProgressView::Read(Err(Error::Command(ErrorKind::NotFound))),
        (EntryStageView::MetaExists { .. }, HostReplyView::Exists(true)) => p == EntryProgressView::Ask(
            HostActionView::ReadFile { path: meta_path(s.path) },
        ),
        (EntryStageView::MetaContent { .. }, HostReplyView::Content(Err(e))) => p
            == EntryProgressView::Read(Err(Error::Command(e))),
        (EntryStageView::MetaContent { .. }, HostReplyView::Content(Ok(_))) => p is Read,
        _ => p == EntryProgressView::Fault(Fault::UnexpectedReply),
    }
}

/// Where the host reports a supported entry, the read keeps for it the
/// metadata the enclave sees of that report.
pub open spec fn keeps_reported_metadata(s: EntryReadView, reply: HostReplyView, s2: EntryReadView) -> bool {
    match (s.stage, reply) {
        (EntryStageView::Metadata, HostReplyView::Metadata(Ok(raw))) => raw.is_supported() ==> match s2.stage {
            EntryStageView::MetaExists { host, .. } => host == HostMetadata::of_raw(raw),
            _ => false,
        },
        _ => true,
    }
}

/// A read of an entry answers each reply of the host as
/// `entry_read_answers` says, and the host metadata it keeps for the entry
/// is what the host reported of the entry itself.
pub proof fn law_entry_read_answers(s: EntryReadView, reply: HostReplyView)
    requires
        entry_inv(s),
    ensures
        entry_read_answers(s, reply, entry_step(s, reply).1),
        keeps_reported_metadata(s, reply, entry_step(s, reply).0),
{
}

} // verus!
