//! What each request asks of the host tree: the entries it changes lie in
//! the directories it names, each such change comes with the same change of
//! the entry's metadata file, and a script moves past a step only when that
//! step went through.
use crate::abi::FsOpRequest;
use crate::fs::VmeFsView;
use crate::host::{HostActionView, HostReplyView, NoticeView};
use crate::paths::{joined, meta_path};
use crate::flags::sync_request;
use crate::fs::link_target_path;
use crate::script::FinishView;
use crate::entry::{EntryProgressView, entry_step};
use crate::request::{PhaseView, RunView, WaitView, run_step, run_wf, script_for};
use crate::script::InstrView;
use vstd::prelude::*;

verus! {

/// A name of one path component: not empty, without a separator.
pub open spec fn is_plain(name: Seq<char>) -> bool {
    name.len() > 0 && forall|i: int| 0 <= i < name.len() ==> name[i] != '/'
}

/// `p` names an entry of the directory `base`: `base`, a separator where
/// `base` has no trailing one, then one more component.
pub open spec fn is_child_path(base: Seq<char>, p: Seq<char>) -> bool {
    let start: int = if base.len() > 0 && base.last() != '/' {
        base.len() + 1int
    } else {
        base.len() as int
    };
    &&& p.len() > start
    &&& p.subrange(0, base.len() as int) == base
    &&& start > base.len() ==> p[base.len() as int] == '/'
    &&& forall|i: int| start <= i < p.len() ==> p[i] != '/'
}

/// Joining a plain name to a directory gives an entry of that directory.
pub proof fn law_join_stays_inside(base: Seq<char>, name: Seq<char>)
    requires
        is_plain(name),
    ensures
        is_child_path(base, joined(base, name)),
{
    let p = joined(base, name);
    assert(p.subrange(0, base.len() as int) =~= base);
    if base.len() > 0 && base.last() != '/' {
        assert forall|i: int| base.len() + 1 <= i < p.len() implies p[i] != '/' by {
            assert(p[i] == name[i - base.len() - 1]);
        }
    } else {
        assert forall|i: int| base.len() <= i < p.len() implies p[i] != '/' by {
            assert(p[i] == name[i - base.len()]);
        }
    }
}

/// The changes a script asks of the tree, in order: the actions of its
/// steps other than notices, and the fallback of a step that has one.
pub open spec fn script_changes(steps: Seq<InstrView>) -> Seq<HostActionView>
    decreases steps.len(),
{
    if steps.len() == 0 {
        Seq::empty()
    } else {
        let rest = script_changes(steps.drop_last());
        match steps.last() {
            InstrView::Perform { action, .. } => if action is Notify {
                rest
            } else {
                rest.push(action)
            },
            InstrView::Probe { fallback: Some(a), .. } => rest.push(a),
            _ => rest,
        }
    }
}

/// The entry a change makes, moves to, or removes.
pub open spec fn changed_entry(a: HostActionView) -> Seq<char> {
    match a {
        HostActionView::WriteFile { path, .. } => path,
        HostActionView::CreateDir { path } => path,
        HostActionView::Symlink { link, .. } => link,
        HostActionView::HardLink { link, .. } => link,
        HostActionView::Rename { to, .. } => to,
        HostActionView::RemoveDir { path } => path,
        HostActionView::RemoveFile { path } => path,
        _ => Seq::empty(),
    }
}

/// `b` does to the metadata file of an entry what `a` does to the entry:
/// it writes the metadata file of an entry `a` makes, moves the metadata
/// file along with a moved entry, and removes that of a removed entry.
pub open spec fn sidecar_of(a: HostActionView, b: HostActionView) -> bool {
    match a {
        HostActionView::WriteFile { path, .. } | HostActionView::CreateDir { path }
        | HostActionView::Symlink { link: path, .. } | HostActionView::HardLink {
            link: path,
            ..
        } => b matches HostActionView::WriteFile { path: m, .. } && m == meta_path(path),
        HostActionView::Rename { from, to } => b == HostActionView::Rename {
            from: meta_path(from),
            to: meta_path(to),
        },
        HostActionView::RemoveDir { path } | HostActionView::RemoveFile { path } => b
            == HostActionView::RemoveFile { path: meta_path(path) },
        _ => false,
    }
}

/// The change writes the file at `p`.
pub open spec fn writes(a: HostActionView, p: Seq<char>) -> bool {
    match a {
        HostActionView::WriteFile { path, .. } => path == p,
        _ => false,
    }
}

/// The request's names are plain components.
pub open spec fn names_plain(req: FsOpRequest) -> bool {
    match req {
        FsOpRequest::Create { name, .. } | FsOpRequest::Lookup { name, .. }
        | FsOpRequest::Mkdir { name, .. } | FsOpRequest::RmDir { name, .. }
        | FsOpRequest::Symlink { name, .. } | FsOpRequest::Unlink { name, .. } => is_plain(name@),
        FsOpRequest::Rename { name, new_name, .. } => is_plain(name@) && is_plain(new_name@),
        FsOpRequest::Link { new_name, .. } => is_plain(new_name@),
        _ => true,
    }
}

/// What each request asks of the tree: create, mkdir, symlink and link make
/// one entry and then write its metadata file; rename moves an entry and
/// then its metadata file the same way; rmdir and unlink remove an entry and
/// then its metadata file; write writes the file its inode names, setattr
/// the metadata file of that entry, initroot the root's metadata file; the
/// other requests change nothing.
pub open spec fn changes_paired(
    fs: VmeFsView,
    req: FsOpRequest,
    found: Seq<Seq<char>>,
    c: Seq<HostActionView>,
) -> bool {
    match req {
        FsOpRequest::Create { .. } | FsOpRequest::Mkdir { .. } | FsOpRequest::Symlink { .. }
        | FsOpRequest::RmDir { .. } | FsOpRequest::Unlink { .. } | FsOpRequest::Link { .. }
        | FsOpRequest::Rename { .. } => c.len() == 2 && sidecar_of(c[0], c[1]),
        FsOpRequest::Write { .. } => c.len() == 1 && writes(c[0], found[0]),
        FsOpRequest::SetAttr { .. } => c.len() == 1 && writes(c[0], meta_path(found[0])),
        FsOpRequest::InitRoot { .. } => c.len() == 1 && writes(c[0], meta_path(fs.root)),
        _ => c.len() == 0,
    }
}

/// Where the entries a request changes lie: those that create, mkdir,
/// symlink, rmdir and unlink change are entries of the directory their
/// inode resolved to, the new name of link is an entry of its new parent,
/// and rename moves an entry of its parent to an entry of its new parent.
pub open spec fn changes_inside(req: FsOpRequest, found: Seq<Seq<char>>, c: Seq<HostActionView>) -> bool {
    match req {
        FsOpRequest::Create { .. } | FsOpRequest::Mkdir { .. } | FsOpRequest::Symlink { .. }
        | FsOpRequest::RmDir { .. } | FsOpRequest::Unlink { .. } => is_child_path(
            found[0],
            changed_entry(c[0]),
        ),
        FsOpRequest::Link { .. } => is_child_path(found[1], changed_entry(c[0])),
        FsOpRequest::Rename { .. } => match c[0] {
            HostActionView::Rename { from, to } => is_child_path(found[0], from) && is_child_path(
                found[1],
                to,
            ),
            _ => false,
        },
        _ => true,
    }
}

/// Every change a request asks of the tree comes with the same change of
/// the entry's metadata file, whatever the names it carries.
pub proof fn law_changes_come_with_metadata(fs: VmeFsView, req: FsOpRequest, found: Seq<Seq<char>>)
    ensures
        changes_paired(fs, req, found, script_changes(script_for(fs, req, found).steps)),
{
    reveal_with_fuel(script_changes, 6);
}

/// For plain names, the entries a request makes, moves or removes lie in
/// the directories its inodes resolved to.
pub proof fn law_changes_stay_in_named_directories(
    fs: VmeFsView,
    req: FsOpRequest,
    found: Seq<Seq<char>>,
)
    requires
        names_plain(req),
    ensures
        changes_inside(req, found, script_changes(script_for(fs, req, found).steps)),
{
    reveal_with_fuel(script_changes, 6);
    match req {
        FsOpRequest::Create { name, .. } | FsOpRequest::Mkdir { name, .. }
        | FsOpRequest::Symlink { name, .. } | FsOpRequest::RmDir { name, .. }
        | FsOpRequest::Unlink { name, .. } => {
            law_join_stays_inside(found[0], name@);
        },
        FsOpRequest::Link { new_name, .. } => {
            law_join_stays_inside(found[1], new_name@);
        },
        FsOpRequest::Rename { name, new_name, .. } => {
            law_join_stays_inside(found[0], name@);
            law_join_stays_inside(found[1], new_name@);
        },
        _ => {},
    }
}

/// The reply says an action was done.
pub open spec fn is_done(reply: HostReplyView) -> bool {
    match reply {
        HostReplyView::Done(Ok(_)) => true,
        _ => false,
    }
}

/// A step's own reply is its success: the answer it expects, a directory
/// or not as it expects, or a done action.
pub open spec fn step_succeeds(i: InstrView, reply: HostReplyView) -> bool {
    match i {
        InstrView::Expect { exists, .. } => reply == HostReplyView::Exists(exists),
        InstrView::ExpectDir { is_dir, .. } => reply matches HostReplyView::Metadata(Ok(raw))
            && raw.is_dir == is_dir,
        InstrView::Perform { .. } => is_done(reply),
        InstrView::Probe { .. } => true,
    }
}

/// A reply lets the current step go through: its own action succeeded, the
/// read of its entry gave the entry, or its fallback was done.
pub open spec fn reply_passes(run: RunView, reply: HostReplyView) -> bool {
    match run.wait {
        WaitView::Step => step_succeeds(run.script.steps[run.pc as int], reply),
        WaitView::StepEntry(read) => entry_step(read, reply).1 matches EntryProgressView::Read(Ok(_)),
        WaitView::Fallback => is_done(reply),
        _ => false,
    }
}

/// A script moves past one of its steps only on a reply that lets that step
/// go through, and then to the next step: a request is answered with success
/// only after each step of its script, each change among them, went through
/// in order.
pub proof fn law_steps_pass_only_on_success(run: RunView, reply: HostReplyView)
    requires
        run_wf(run),
        run.pc < run.script.steps.len(),
    ensures
        ({
            let (ph, c) = run_step(run, reply);
            &&& ph matches PhaseView::Running(run2) ==> run2.pc == run.pc || (run2.pc == run.pc + 1
                && reply_passes(run, reply))
            &&& c matches crate::request::CommandView::Complete(Ok(_)) ==> reply_passes(run, reply)
                && run.pc + 1 == run.script.steps.len()
        }),
{
    lemma_run_from_stays(run.script, run.pc + 1);
}

proof fn lemma_run_from_stays(script: crate::script::ScriptView, pc: nat)
    ensures
        ({
            let (ph, c) = crate::request::run_from(script, pc);
            &&& ph matches PhaseView::Running(r) ==> r.pc == pc
            &&& c matches crate::request::CommandView::Complete(Ok(_)) ==> pc >= script.steps.len()
        }),
{
}

/// The step of `steps` that writes the metadata file `meta` undoes, where it
/// fails, with `undo`.
pub open spec fn undone_by(steps: Seq<InstrView>, meta: Seq<char>, undo: HostActionView) -> bool {
    exists|i: int| 0 <= i < steps.len() && undoes(#[trigger] steps[i], meta, undo)
}

/// The step writes the metadata file `meta` and, where that fails, performs
/// `undo`.
pub open spec fn undoes(step: InstrView, meta: Seq<char>, undo: HostActionView) -> bool {
    match step {
        InstrView::Perform { action: HostActionView::WriteFile { path, .. }, undo: Some(u) } => path
            == meta && u == undo,
        _ => false,
    }
}

/// Before removing the entry at `path`, the steps check that it exists
/// (else `NotFound`), that it is a directory exactly when `dir` holds (else
/// `kind_error`), and that its metadata file exists (else `NotFound`).
pub open spec fn removal_checked(
    steps: Seq<InstrView>,
    path: Seq<char>,
    dir: bool,
    kind_error: crate::abi::ErrorKind,
) -> bool {
    &&& steps[0] == InstrView::Expect {
        path,
        exists: true,
        error: crate::abi::ErrorKind::NotFound,
        on_fail: None,
    }
    &&& steps[1] == InstrView::ExpectDir { path, is_dir: dir, error: kind_error }
    &&& steps[2] == InstrView::Expect {
        path: meta_path(path),
        exists: true,
        error: crate::abi::ErrorKind::NotFound,
        on_fail: None,
    }
}

/// What a request asks of the host and answers with, in terms of the
/// request and the paths its inodes resolved to (`found`, in the order the
/// request names the inodes):
/// - create writes an empty file `found[0]/name`, with only its sync open
///   flags, removes it again where its metadata file cannot be written, and
///   answers with that entry;
/// - mkdir first checks that `found[0]/name` does not exist (else
///   `AlreadyExists`), makes that directory, removes it again where its
///   metadata file cannot be written, and answers with it;
/// - symlink makes `found[0]/name` a link to its target (a relative target
///   taken below the root) and answers with the link;
/// - link makes `found[1]/new_name` a hard link to `found[0]`, the entry of
///   its own inode, and answers with the new name;
/// - rename first checks that `found[0]/name` and its metadata file exist,
///   warning and failing with `NotFound` where one does not, then moves the
///   entry to `found[1]/new_name`;
/// - rmdir and unlink first check that `found[0]/name` exists, is a
///   directory (rmdir, else `NotADirectory`) or not (unlink, else
///   `IsADirectory`), and has a metadata file, then remove it;
/// - write writes its content to `found[0]` with only its sync open flags;
/// - setattr writes the metadata file of `found[0]` with `O_SYNC` and
///   answers with `found[0]` itself, not its metadata file;
/// - initroot writes the root's metadata file;
/// - getattr answers with `found[0]`; lookup checks that `found[0]/name`
///   exists (else `NotFound`) and answers with it; read answers with the
///   content of `found[0]`; readlink gives notice that it reads the link
///   `found[0]` and answers with its content; readdir answers with the
///   listing of `found[0]` from its offset.
pub open spec fn script_serves_request(
    fs: VmeFsView,
    req: FsOpRequest,
    found: Seq<Seq<char>>,
    s: crate::script::ScriptView,
) -> bool {
    let c = script_changes(s.steps);
    match req {
        FsOpRequest::Create { name, flags, .. } => {
            let path = joined(found[0], name@);
            &&& s.finish == FinishView::Entry(path)
            &&& c[0] == HostActionView::WriteFile {
                path,
                content: Seq::empty(),
                custom_flags: sync_request(flags, fs.o_sync, fs.o_dsync),
            }
            &&& undone_by(s.steps, meta_path(path), HostActionView::RemoveFile { path })
        },
        FsOpRequest::Mkdir { name, .. } => {
            let path = joined(found[0], name@);
            &&& s.finish == FinishView::Entry(path)
            &&& c[0] == HostActionView::CreateDir { path }
            &&& s.steps[0] == InstrView::Expect {
                path,
                exists: false,
                error: crate::abi::ErrorKind::AlreadyExists,
                on_fail: None,
            }
            &&& undone_by(s.steps, meta_path(path), HostActionView::RemoveDir { path })
        },
        FsOpRequest::Symlink { name, target, .. } => {
            let path = joined(found[0], name@);
            &&& s.finish == FinishView::Entry(path)
            &&& c[0] == HostActionView::Symlink { target: link_target_path(fs, target), link: path }
        },
        FsOpRequest::Link { new_name, .. } => {
            let path = joined(found[1], new_name@);
            &&& s.finish == FinishView::Entry(path)
            &&& c[0] == HostActionView::HardLink { existing: found[0], link: path }
        },
        FsOpRequest::Rename { name, new_name, .. } => {
            let path = joined(found[0], name@);
            &&& s.finish == FinishView::Empty
            &&& c[0] == HostActionView::Rename { from: path, to: joined(found[1], new_name@) }
            &&& s.steps[0] == InstrView::Expect {
                path,
                exists: true,
                error: crate::abi::ErrorKind::NotFound,
                on_fail: Some(
                    HostActionView::Notify { notice: NoticeView::RenameSourceMissing { path } },
                ),
            }
            &&& s.steps[1] == InstrView::Expect {
                path: meta_path(path),
                exists: true,
                error: crate::abi::ErrorKind::NotFound,
                on_fail: Some(
                    HostActionView::Notify {
                        notice: NoticeView::RenameMetaMissing { path: meta_path(path) },
                    },
                ),
            }
        },
        FsOpRequest::RmDir { name, .. } => {
            let path = joined(found[0], name@);
            &&& s.finish == FinishView::Empty
            &&& c[0] == HostActionView::RemoveDir { path }
            &&& removal_checked(s.steps, path, true, crate::abi::ErrorKind::NotADirectory)
        },
        FsOpRequest::Unlink { name, .. } => {
            let path = joined(found[0], name@);
            &&& s.finish == FinishView::Empty
            &&& c[0] == HostActionView::RemoveFile { path }
            &&& removal_checked(s.steps, path, false, crate::abi::ErrorKind::IsADirectory)
        },
        FsOpRequest::Write { content, flags, .. } => {
            &&& s.finish == FinishView::Empty
            &&& c[0] == HostActionView::WriteFile {
                path: found[0],
                content: content@,
                custom_flags: sync_request(flags, fs.o_sync, fs.o_dsync),
            }
        },
        FsOpRequest::SetAttr { metadata, .. } => {
            &&& s.finish == FinishView::Entry(found[0])
            &&& c[0] == HostActionView::WriteFile {
                path: meta_path(found[0]),
                content: metadata@,
                custom_flags: Some(fs.o_sync),
            }
        },
        FsOpRequest::InitRoot { metadata } => {
            &&& s.finish == FinishView::Empty
            &&& c[0] == HostActionView::WriteFile {
                path: meta_path(fs.root),
                content: metadata@,
                custom_flags: None,
            }
        },
        FsOpRequest::GetAttr { .. } => s.finish == FinishView::Entry(found[0]),
        FsOpRequest::Lookup { name, .. } => {
            let path = joined(found[0], name@);
            &&& s.finish == FinishView::Entry(path)
            &&& s.steps[0] == InstrView::Expect {
                path,
                exists: true,
                error: crate::abi::ErrorKind::NotFound,
                on_fail: None,
            }
        },
        FsOpRequest::Read { .. } => s.finish == FinishView::Content(found[0]),
        FsOpRequest::Readlink { .. } => {
            &&& s.finish == FinishView::Target(found[0])
            &&& s.steps[0] == InstrView::Perform {
                action: HostActionView::Notify { notice: NoticeView::ReadingLink { path: found[0] } },
                undo: None,
            }
        },
        FsOpRequest::ReadDir { offset, .. } => s.finish == FinishView::Listing { path: found[0], offset },
    }
}

/// Each request's script does to the host what the request asks and answers
/// from the entry it names or makes, as `script_serves_request` says.
pub proof fn law_script_serves_request(fs: VmeFsView, req: FsOpRequest, found: Seq<Seq<char>>)
    ensures
        script_serves_request(fs, req, found, script_for(fs, req, found)),
{
    reveal_with_fuel(script_changes, 6);
    let s = script_for(fs, req, found);
    match req {
        FsOpRequest::Create { name, .. } => {
            let path = joined(found[0], name@);
            assert(undoes(s.steps[1], meta_path(path), HostActionView::RemoveFile { path }));
        },
        FsOpRequest::Mkdir { name, .. } => {
            let path = joined(found[0], name@);
            assert(undoes(s.steps[2], meta_path(path), HostActionView::RemoveDir { path }));
        },
        _ => {},
    }
}

} // verus!
