//! Serving one request: resolving its inodes to host paths, then running its
//! script, one host action at a time. The caller performs each action the
//! task asks for and hands the host's reply back, until the task answers the
//! request.
use crate::abi::{
    Error,
    ErrorKind,
    FsEntry,
    FsEntryView,
    FsOpRequest,
    FsOpResponse,
    FsOpResponseView,
    entries_view,
};
use crate::entry::{EntryProgress, EntryProgressView, EntryRead, EntryReadView, entry_start, entry_step};
use crate::fs::{
    VmeFs,
    VmeFsView,
    create_script,
    getattr_script,
    initroot_script,
    link_script,
    lookup_script,
    mkdir_script,
    read_script,
    readdir_script,
    readlink_script,
    rename_script,
    rmdir_script,
    setattr_script,
    symlink_script,
    unlink_script,
    write_script,
};
use crate::host::{
    DirItem,
    DirItemView,
    Fault,
    HostAction,
    HostActionView,
    HostReply,
    HostReplyView,
    items_view,
};
use crate::paths::is_meta;
use crate::script::{Finish, FinishView, Instr, InstrView, Script, ScriptView};
use crate::search::{InoSearch, InoSearchView, SearchStep, SearchStepView, search_start, search_step};
use vstd::prelude::*;

verus! {

/// What a task asks of its caller.
#[derive(Debug, PartialEq, Eq)]
pub enum Command {
    /// Perform this action on the host and hand back the host's reply.
    Perform(HostAction),
    /// The request is answered.
    Complete(Result<FsOpResponse, Error>),
    /// The host tree is in a state the server does not serve; the request
    /// is abandoned.
    Fault(Fault),
}

pub enum CommandView {
    Perform(HostActionView),
    Complete(Result<FsOpResponseView, Error>),
    Fault(Fault),
}

impl View for Command {
    type V = CommandView;

    open spec fn view(&self) -> CommandView {
        match self {
            Command::Perform(a) => CommandView::Perform(a@),
            Command::Complete(Ok(r)) => CommandView::Complete(Ok(r@)),
            Command::Complete(Err(e)) => CommandView::Complete(Err(*e)),
            Command::Fault(f) => CommandView::Fault(*f),
        }
    }
}

/// The directory entries being read for a listing: the host's entries of the
/// directory, the index of the one being read, the entries read so far and
/// the read in progress.
pub struct Scan {
    pub items: Vec<DirItem>,
    pub next: usize,
    pub acc: Vec<FsEntry>,
    pub read: EntryRead,
}

pub struct ScanView {
    pub items: Seq<DirItemView>,
    pub next: nat,
    pub acc: Seq<FsEntryView>,
    pub read: EntryReadView,
}

/// The reply a running script waits for.
pub enum Wait {
    /// The reply to the current step's own action.
    Step,
    /// The reply to an undo, or to a notice, after a failed step; then the
    /// request fails with this error.
    Undo(ErrorKind),
    /// A reply to the current step's read of an entry.
    StepEntry(EntryRead),
    /// The reply to the current step's fallback action.
    Fallback,
    /// A reply to the read of the entry that is the response.
    FinishEntry(EntryRead),
    /// The content of the file that is the response.
    FinishRead,
    /// The listing of the directory that is the response.
    FinishList,
    /// A reply to the read of one of the listed entries.
    Scan(Scan),
}

pub enum WaitView {
    Step,
    Undo(ErrorKind),
    StepEntry(EntryReadView),
    Fallback,
    FinishEntry(EntryReadView),
    FinishRead,
    FinishList,
    Scan(ScanView),
}

impl View for Wait {
    type V = WaitView;

    open spec fn view(&self) -> WaitView {
        match self {
            Wait::Step => WaitView::Step,
            Wait::Undo(e) => WaitView::Undo(*e),
            Wait::StepEntry(r) => WaitView::StepEntry(r@),
            Wait::Fallback => WaitView::Fallback,
            Wait::FinishEntry(r) => WaitView::FinishEntry(r@),
            Wait::FinishRead => WaitView::FinishRead,
            Wait::FinishList => WaitView::FinishList,
            Wait::Scan(s) => WaitView::Scan(
                ScanView {
                    items: items_view(s.items@),
                    next: s.next as nat,
                    acc: entries_view(s.acc@),
                    read: s.read@,
                },
            ),
        }
    }
}

/// A script being run: the script, the index of its current step (its
/// number of steps once the response is being made), and what it waits for.
pub struct Run {
    pub script: Script,
    pub pc: usize,
    pub wait: Wait,
}

pub struct RunView {
    pub script: ScriptView,
    pub pc: nat,
    pub wait: WaitView,
}

impl View for Run {
    type V = RunView;

    open spec fn view(&self) -> RunView {
        RunView { script: self.script@, pc: self.pc as nat, wait: self.wait@ }
    }
}

/// A running script is at one of its steps, or past them; while it waits
/// for a step it is at one of them, while it makes the response it is past
/// them, and a listing reads one of its entries.
pub open spec fn run_wf(run: RunView) -> bool {
    &&& run.pc <= run.script.steps.len()
    &&& (run.wait is Step || run.wait is Undo || run.wait is StepEntry || run.wait is Fallback)
        ==> run.pc < run.script.steps.len()
    &&& (run.wait matches WaitView::Scan(sc) ==> sc.next < sc.items.len())
    &&& (run.wait is FinishEntry || run.wait is FinishRead || run.wait is FinishList
        || run.wait is Scan) ==> run.pc == run.script.steps.len()
}

pub open spec fn phase_wf(p: PhaseView) -> bool {
    p matches PhaseView::Running(run) ==> run_wf(run)
}

pub enum Phase {
    /// Looking for the host path of the request's next inode.
    Resolving(InoSearch),
    Running(Run),
    /// The request is answered or abandoned.
    Done,
}

pub enum PhaseView {
    Resolving(InoSearchView),
    Running(RunView),
    Done,
}

impl View for Phase {
    type V = PhaseView;

    open spec fn view(&self) -> PhaseView {
        match self {
            Phase::Resolving(s) => PhaseView::Resolving(s@),
            Phase::Running(r) => PhaseView::Running(r@),
            Phase::Done => PhaseView::Done,
        }
    }
}

/// A request being served: the server, the request, the host paths of the
/// request's inodes found so far, and where the task stands.
pub struct RequestTask {
    pub(crate) fs: VmeFs,
    pub(crate) request: FsOpRequest,
    pub(crate) found: Vec<String>,
    pub(crate) phase: Phase,
}

pub struct RequestTaskView {
    pub fs: VmeFsView,
    pub request: FsOpRequest,
    pub found: Seq<Seq<char>>,
    pub phase: PhaseView,
}

pub open spec fn paths_view(paths: Seq<String>) -> Seq<Seq<char>> {
    paths.map_values(|p: String| p@)
}

impl View for RequestTask {
    type V = RequestTaskView;

    closed spec fn view(&self) -> RequestTaskView {
        RequestTaskView {
            fs: self.fs@,
            request: self.request,
            found: paths_view(self.found@),
            phase: self.phase@,
        }
    }
}

impl RequestTask {
    #[verifier::type_invariant]
    spec fn wf(self) -> bool {
        &&& phase_wf(self.phase@)
        &&& self.phase is Resolving ==> self.found@.len() < inos_of(self.request).len()
    }
}

/// The inodes a request names, in the order they are resolved.
pub open spec fn inos_of(req: FsOpRequest) -> Seq<u64> {
    match req {
        FsOpRequest::Create { parent, .. } => seq![parent],
        FsOpRequest::GetAttr { ino } => seq![ino],
        FsOpRequest::InitRoot { .. } => Seq::empty(),
        FsOpRequest::Lookup { ino, .. } => seq![ino],
        FsOpRequest::Mkdir { ino, .. } => seq![ino],
        FsOpRequest::Read { ino } => seq![ino],
        FsOpRequest::ReadDir { ino, .. } => seq![ino],
        FsOpRequest::Rename { parent, new_parent, .. } => seq![parent, new_parent],
        FsOpRequest::RmDir { ino, .. } => seq![ino],
        FsOpRequest::SetAttr { ino, .. } => seq![ino],
        FsOpRequest::Symlink { parent, .. } => seq![parent],
        FsOpRequest::Readlink { ino } => seq![ino],
        FsOpRequest::Link { ino, new_parent, .. } => seq![ino, new_parent],
        FsOpRequest::Unlink { ino, .. } => seq![ino],
        FsOpRequest::Write { ino, .. } => seq![ino],
    }
}

/// The requests whose inodes must not resolve to metadata files.
pub open spec fn guards_meta(req: FsOpRequest) -> bool {
    match req {
        FsOpRequest::ReadDir { .. } | FsOpRequest::Rename { .. } | FsOpRequest::RmDir { .. }
        | FsOpRequest::SetAttr { .. } | FsOpRequest::Unlink { .. } | FsOpRequest::Write {
            ..
        } => true,
        _ => false,
    }
}

/// The script of a request whose inodes are at the host paths `found`.
pub open spec fn script_for(fs: VmeFsView, req: FsOpRequest, found: Seq<Seq<char>>) -> ScriptView {
    match req {
        FsOpRequest::Create { name, metadata, flags, .. } => create_script(
            fs,
            found[0],
            name@,
            metadata@,
            flags,
        ),
        FsOpRequest::GetAttr { .. } => getattr_script(found[0]),
        FsOpRequest::InitRoot { metadata } => initroot_script(fs, metadata@),
        FsOpRequest::Lookup { name, .. } => lookup_script(found[0], name@),
        FsOpRequest::Mkdir { name, metadata, .. } => mkdir_script(found[0], name@, metadata@),
        FsOpRequest::Read { .. } => read_script(found[0]),
        FsOpRequest::ReadDir { offset, .. } => readdir_script(found[0], offset),
        FsOpRequest::Rename { name, new_name, .. } => rename_script(
            found[0],
            name@,
            found[1],
            new_name@,
        ),
        FsOpRequest::RmDir { name, .. } => rmdir_script(found[0], name@),
        FsOpRequest::SetAttr { metadata, .. } => setattr_script(fs, found[0], metadata@),
        FsOpRequest::Symlink { name, target, metadata, .. } => symlink_script(
            fs,
            found[0],
            name@,
            target,
            metadata@,
        ),
        FsOpRequest::Readlink { .. } => readlink_script(found[0]),
        FsOpRequest::Link { new_name, metadata, .. } => link_script(
            found[0],
            found[1],
            new_name@,
            metadata@,
        ),
        FsOpRequest::Unlink { name, .. } => unlink_script(found[0], name@),
        FsOpRequest::Write { content, flags, .. } => write_script(fs, found[0], content@, flags),
    }
}

pub open spec fn fail(e: ErrorKind) -> (PhaseView, CommandView) {
    (PhaseView::Done, CommandView::Complete(Err(Error::Command(e))))
}

pub open spec fn fault(f: Fault) -> (PhaseView, CommandView) {
    (PhaseView::Done, CommandView::Fault(f))
}

/// The offset of a listing, for a script that makes one.
pub open spec fn listing_offset(f: FinishView) -> i64 {
    match f {
        FinishView::Listing { offset, .. } => offset,
        _ => 0,
    }
}

/// The entries from the `offset`-th on, read as the host's unsigned size;
/// none where the offset is past the last.
pub open spec fn page(entries: Seq<FsEntryView>, offset: i64) -> Seq<FsEntryView> {
    let off = offset as usize;
    if off >= entries.len() {
        Seq::empty()
    } else {
        entries.subrange(off as int, entries.len() as int)
    }
}

/// The index of the first listed entry from `i` on that is no metadata file,
/// or the number of entries where there is none.
pub open spec fn next_plain(items: Seq<DirItemView>, i: nat) -> nat
    decreases items.len() - i,
{
    if i >= items.len() {
        items.len()
    } else if is_meta(items[i as int].path) {
        next_plain(items, i + 1)
    } else {
        i
    }
}

/// Starts the step `pc` of a script, or, past the last step, the making of
/// the response.
pub open spec fn run_from(script: ScriptView, pc: nat) -> (PhaseView, CommandView) {
    if pc < script.steps.len() {
        let at = |w: WaitView| PhaseView::Running(RunView { script, pc, wait: w });
        match script.steps[pc as int] {
            InstrView::Expect { path, .. } => (
                at(WaitView::Step),
                CommandView::Perform(HostActionView::Exists { path }),
            ),
            InstrView::ExpectDir { path, .. } => (
                at(WaitView::Step),
                CommandView::Perform(HostActionView::Metadata { path }),
            ),
            InstrView::Perform { action, .. } => (at(WaitView::Step), CommandView::Perform(action)),
            InstrView::Probe { path, .. } => (
                at(WaitView::StepEntry(entry_start(path).0)),
                CommandView::Perform(entry_start(path).1),
            ),
        }
    } else {
        let at = |w: WaitView| PhaseView::Running(RunView { script, pc, wait: w });
        match script.finish {
            FinishView::Empty => (PhaseView::Done, CommandView::Complete(Ok(FsOpResponseView::Empty))),
            FinishView::Entry(path) => (
                at(WaitView::FinishEntry(entry_start(path).0)),
                CommandView::Perform(entry_start(path).1),
            ),
            FinishView::Content(path) => (
                at(WaitView::FinishRead),
                CommandView::Perform(HostActionView::ReadFile { path }),
            ),
            FinishView::Target(path) => (
                at(WaitView::FinishRead),
                CommandView::Perform(HostActionView::ReadFile { path }),
            ),
            FinishView::Listing { path, .. } => (
                at(WaitView::FinishList),
                CommandView::Perform(HostActionView::ReadDir { path }),
            ),
        }
    }
}

/// Goes on with a listing from the `i`-th entry: reads the next entry that
/// is no metadata file, or answers with the entries read so far, from the
/// listing's offset on.
pub open spec fn scan_from(
    script: ScriptView,
    pc: nat,
    items: Seq<DirItemView>,
    i: nat,
    acc: Seq<FsEntryView>,
) -> (PhaseView, CommandView) {
    let j = next_plain(items, i);
    if j >= items.len() {
        (
            PhaseView::Done,
            CommandView::Complete(
                Ok(FsOpResponseView::ReadDir { entries: page(acc, listing_offset(script.finish)) }),
            ),
        )
    } else {
        let path = items[j as int].path;
        (
            PhaseView::Running(
                RunView {
                    script,
                    pc,
                    wait: WaitView::Scan(
                        ScanView { items, next: j, acc, read: entry_start(path).0 },
                    ),
                },
            ),
            CommandView::Perform(entry_start(path).1),
        )
    }
}

/// How the current step answers the reply to its own action.
pub open spec fn step_reply(run: RunView, reply: HostReplyView) -> (PhaseView, CommandView) {
    if run.pc < run.script.steps.len() {
        match run.script.steps[run.pc as int] {
            InstrView::Expect { exists, error, on_fail, .. } => match reply {
                HostReplyView::Exists(b) => if b == exists {
                    run_from(run.script, run.pc + 1)
                } else {
                    match on_fail {
                        Some(a) => (
                            PhaseView::Running(RunView { wait: WaitView::Undo(error), ..run }),
                            CommandView::Perform(a),
                        ),
                        None => fail(error),
                    }
                },
                _ => fault(Fault::UnexpectedReply),
            },
            InstrView::ExpectDir { is_dir, error, .. } => match reply {
                HostReplyView::Metadata(Err(e)) => fail(e),
                HostReplyView::Metadata(Ok(raw)) => if raw.is_dir == is_dir {
                    run_from(run.script, run.pc + 1)
                } else {
                    fail(error)
                },
                _ => fault(Fault::UnexpectedReply),
            },
            InstrView::Perform { undo, .. } => match reply {
                HostReplyView::Done(Ok(())) => run_from(run.script, run.pc + 1),
                HostReplyView::Done(Err(e)) => match undo {
                    Some(u) => (
                        PhaseView::Running(RunView { wait: WaitView::Undo(e), ..run }),
                        CommandView::Perform(u),
                    ),
                    None => fail(e),
                },
                _ => fault(Fault::UnexpectedReply),
            },
            InstrView::Probe { .. } => fault(Fault::UnexpectedReply),
        }
    } else {
        fault(Fault::UnexpectedReply)
    }
}

/// The fallback of the current step, where it has one.
pub open spec fn fallback_of(run: RunView) -> Option<HostActionView> {
    if run.pc < run.script.steps.len() {
        match run.script.steps[run.pc as int] {
            InstrView::Probe { fallback, .. } => fallback,
            _ => None,
        }
    } else {
        None
    }
}

/// How a running script answers a reply of the host.
pub open spec fn run_step(run: RunView, reply: HostReplyView) -> (PhaseView, CommandView) {
    match run.wait {
        WaitView::Step => step_reply(run, reply),
        WaitView::Undo(e) => match reply {
            HostReplyView::Done(_) => fail(e),
            _ => fault(Fault::UnexpectedReply),
        },
        WaitView::StepEntry(read) => {
            let (read2, p) = entry_step(read, reply);
            match p {
                EntryProgressView::Ask(a) => (
                    PhaseView::Running(RunView { wait: WaitView::StepEntry(read2), ..run }),
                    CommandView::Perform(a),
                ),
                EntryProgressView::Fault(f) => fault(f),
                EntryProgressView::Read(Ok(_)) => run_from(run.script, run.pc + 1),
                EntryProgressView::Read(Err(e)) => match fallback_of(run) {
                    Some(a) => (
                        PhaseView::Running(RunView { wait: WaitView::Fallback, ..run }),
                        CommandView::Perform(a),
                    ),
                    None => (PhaseView::Done, CommandView::Complete(Err(e))),
                },
            }
        },
        WaitView::Fallback => match reply {
            HostReplyView::Done(Ok(())) => run_from(run.script, run.pc + 1),
            HostReplyView::Done(Err(e)) => fail(e),
            _ => fault(Fault::UnexpectedReply),
        },
        WaitView::FinishEntry(read) => {
            let (read2, p) = entry_step(read, reply);
            match p {
                EntryProgressView::Ask(a) => (
                    PhaseView::Running(RunView { wait: WaitView::FinishEntry(read2), ..run }),
                    CommandView::Perform(a),
                ),
                EntryProgressView::Fault(f) => fault(f),
                EntryProgressView::Read(Ok(entry)) => (
                    PhaseView::Done,
                    CommandView::Complete(Ok(FsOpResponseView::GetAttr { entry })),
                ),
                EntryProgressView::Read(Err(e)) => (PhaseView::Done, CommandView::Complete(Err(e))),
            }
        },
        WaitView::FinishRead => match reply {
            HostReplyView::Content(Ok(c)) => (
                PhaseView::Done,
                CommandView::Complete(
                    Ok(
                        match run.script.finish {
                            FinishView::Target(_) => FsOpResponseView::Readlink { target: c },
                            _ => FsOpResponseView::FileContent { content: c },
                        },
                    ),
                ),
            ),
            HostReplyView::Content(Err(e)) => fail(e),
            _ => fault(Fault::UnexpectedReply),
        },
        WaitView::FinishList => match reply {
            HostReplyView::Listing(Ok(items)) => scan_from(run.script, run.pc, items, 0, Seq::empty()),
            HostReplyView::Listing(Err(e)) => fail(e),
            _ => fault(Fault::UnexpectedReply),
        },
        WaitView::Scan(sc) => {
            let (read2, p) = entry_step(sc.read, reply);
            match p {
                EntryProgressView::Ask(a) => (
                    PhaseView::Running(
                        RunView { wait: WaitView::Scan(ScanView { read: read2, ..sc }), ..run },
                    ),
                    CommandView::Perform(a),
                ),
                EntryProgressView::Fault(f) => fault(f),
                EntryProgressView::Read(Err(e)) => (PhaseView::Done, CommandView::Complete(Err(e))),
                EntryProgressView::Read(Ok(entry)) => scan_from(
                    run.script,
                    run.pc,
                    sc.items,
                    sc.next + 1,
                    sc.acc.push(entry),
                ),
            }
        },
    }
}

/// Resolves the request's inodes from the `found.len()`-th on, as far as
/// that needs no listing; with all of them found, starts the script. Gives
/// the paths found, the phase and the command.
pub open spec fn resolve(fs: VmeFsView, req: FsOpRequest, found: Seq<Seq<char>>) -> (
    Seq<Seq<char>>,
    PhaseView,
    CommandView,
)
    decreases inos_of(req).len() - found.len(),
{
    if found.len() < inos_of(req).len() {
        let (search, step) = search_start(fs.root, inos_of(req)[found.len() as int]);
        match step {
            SearchStepView::Found(p) => if guards_meta(req) && is_meta(p) {
                (found, PhaseView::Done, CommandView::Fault(Fault::MetadataFileAccess))
            } else {
                resolve(fs, req, found.push(p))
            },
            SearchStepView::NotFound => (
                found,
                PhaseView::Done,
                CommandView::Complete(Err(Error::Command(ErrorKind::NotFound))),
            ),
            SearchStepView::List(p) => (
                found,
                PhaseView::Resolving(search),
                CommandView::Perform(HostActionView::ReadDir { path: p }),
            ),
        }
    } else {
        let (ph, c) = run_from(script_for(fs, req, found), 0);
        (found, ph, c)
    }
}

/// Where a request starts.
pub open spec fn handle_spec(fs: VmeFsView, req: FsOpRequest) -> (RequestTaskView, CommandView) {
    let (found, phase, c) = resolve(fs, req, Seq::empty());
    (RequestTaskView { fs, request: req, found, phase }, c)
}

/// How a task answers a reply of the host.
pub open spec fn resume_spec(t: RequestTaskView, reply: HostReplyView) -> (RequestTaskView, CommandView) {
    match t.phase {
        PhaseView::Done => (t, CommandView::Fault(Fault::UnexpectedReply)),
        PhaseView::Resolving(search) => match reply {
            HostReplyView::Listing(listing) => {
                let (search2, step) = search_step(search, listing);
                match step {
                    SearchStepView::Found(p) => if guards_meta(t.request) && is_meta(p) {
                        (
                            RequestTaskView { phase: PhaseView::Done, ..t },
                            CommandView::Fault(Fault::MetadataFileAccess),
                        )
                    } else {
                        let (found, phase, c) = resolve(t.fs, t.request, t.found.push(p));
                        (RequestTaskView { found, phase, ..t }, c)
                    },
                    SearchStepView::NotFound => (
                        RequestTaskView { phase: PhaseView::Done, ..t },
                        CommandView::Complete(Err(Error::Command(ErrorKind::NotFound))),
                    ),
                    SearchStepView::List(p) => (
                        RequestTaskView { phase: PhaseView::Resolving(search2), ..t },
                        CommandView::Perform(HostActionView::ReadDir { path: p }),
                    ),
                }
            },
            _ => (
                RequestTaskView { phase: PhaseView::Done, ..t },
                CommandView::Fault(Fault::UnexpectedReply),
            ),
        },
        PhaseView::Running(run) => {
            let (phase, c) = run_step(run, reply);
            (RequestTaskView { phase, ..t }, c)
        },
    }
}

/// The `i`-th inode a request names, if it names that many.
fn ino_at(req: &FsOpRequest, i: usize) -> (r: Option<u64>)
    ensures
        r == (if i < inos_of(*req).len() {
            Some(inos_of(*req)[i as int])
        } else {
            None
        }),
{
    let (first, second): (u64, Option<u64>) = match req {
        FsOpRequest::Create { parent, .. } => (*parent, None),
        FsOpRequest::GetAttr { ino } => (*ino, None),
        FsOpRequest::InitRoot { .. } => {
            return None;
        },
        FsOpRequest::Lookup { ino, .. } => (*ino, None),
        FsOpRequest::Mkdir { ino, .. } => (*ino, None),
        FsOpRequest::Read { ino } => (*ino, None),
        FsOpRequest::ReadDir { ino, .. } => (*ino, None),
        FsOpRequest::Rename { parent, new_parent, .. } => (*parent, Some(*new_parent)),
        FsOpRequest::RmDir { ino, .. } => (*ino, None),
        FsOpRequest::SetAttr { ino, .. } => (*ino, None),
        FsOpRequest::Symlink { parent, .. } => (*parent, None),
        FsOpRequest::Readlink { ino } => (*ino, None),
        FsOpRequest::Link { ino, new_parent, .. } => (*ino, Some(*new_parent)),
        FsOpRequest::Unlink { ino, .. } => (*ino, None),
        FsOpRequest::Write { ino, .. } => (*ino, None),
    };
    if i == 0 {
        Some(first)
    } else if i == 1 {
        second
    } else {
        None
    }
}

/// Whether the request's inodes must not resolve to metadata files.
fn guards(req: &FsOpRequest) -> (r: bool)
    ensures
        r == guards_meta(*req),
{
    match req {
        FsOpRequest::ReadDir { .. } | FsOpRequest::Rename { .. } | FsOpRequest::RmDir { .. }
        | FsOpRequest::SetAttr { .. } | FsOpRequest::Unlink { .. } | FsOpRequest::Write {
            ..
        } => true,
        _ => false,
    }
}

/// The entries from the `offset`-th on (the offset read as an unsigned
/// size); none where the offset is past the last.
pub fn skip_entries(entries: Vec<FsEntry>, offset: i64) -> (r: Vec<FsEntry>)
    ensures
        entries_view(r@) == page(entries_view(entries@), offset),
{
    let ghost all = entries_view(entries@);
    let off = offset as usize;
    if off >= entries.len() {
        let r: Vec<FsEntry> = Vec::new();
        assert(entries_view(r@) =~= Seq::<FsEntryView>::empty());
        r
    } else {
        let mut entries = entries;
        let r = entries.split_off(off);
        assert(entries_view(r@) =~= page(all, offset));
        r
    }
}

impl VmeFs {
    /// The script of a request whose inodes are at the host paths `found`.
    pub fn script(&self, req: &FsOpRequest, found: &Vec<String>) -> (s: Script)
        requires
            found@.len() == inos_of(*req).len(),
        ensures
            s@ == script_for(self@, *req, paths_view(found@)),
    {
        match req {
            FsOpRequest::Create { name, metadata, flags, .. } => self.create(
                &found[0],
                name,
                metadata,
                *flags,
            ),
            FsOpRequest::GetAttr { .. } => self.getattr(&found[0]),
            FsOpRequest::InitRoot { metadata } => self.initroot(metadata),
            FsOpRequest::Lookup { name, .. } => self.lookup(&found[0], name),
            FsOpRequest::Mkdir { name, metadata, .. } => self.mkdir(&found[0], name, metadata),
            FsOpRequest::Read { .. } => self.read(&found[0]),
            FsOpRequest::ReadDir { offset, .. } => self.readdir(&found[0], *offset),
            FsOpRequest::Rename { name, new_name, .. } => self.rename(
                &found[0],
                name,
                &found[1],
                new_name,
            ),
            FsOpRequest::RmDir { name, .. } => self.rmdir(&found[0], name),
            FsOpRequest::SetAttr { metadata, .. } => self.setattr(&found[0], metadata),
            FsOpRequest::Symlink { name, target, metadata, .. } => self.symlink(
                &found[0],
                name,
                target,
                metadata,
            ),
            FsOpRequest::Readlink { .. } => self.readlink(&found[0]),
            FsOpRequest::Link { new_name, metadata, .. } => self.link(
                &found[0],
                &found[1],
                new_name,
                metadata,
            ),
            FsOpRequest::Unlink { name, .. } => self.unlink(&found[0], name),
            FsOpRequest::Write { content, flags, .. } => self.write(&found[0], content, *flags),
        }
    }

}

/// Starts step `pc` of the script, or past its steps, the response.
fn start_step(script: Script, pc: usize) -> (r: (Phase, Command))
    requires
        pc <= script.steps@.len(),
    ensures
        (r.0@, r.1@) == run_from(script@, pc as nat),
        phase_wf(r.0@),
{
    if pc < script.steps.len() {
        let (wait, action) = match &script.steps[pc] {
            Instr::Expect { path, .. } => (Wait::Step, HostAction::Exists { path: path.clone() }),
            Instr::ExpectDir { path, .. } => (Wait::Step, HostAction::Metadata { path: path.clone() }),
            Instr::Perform { action, .. } => (Wait::Step, action.copy()),
            Instr::Probe { path, .. } => {
                let (read, a) = VmeFs::read_fs_entry(path.clone());
                (Wait::StepEntry(read), a)
            },
        };
        (Phase::Running(Run { script, pc, wait }), Command::Perform(action))
    } else {
        let (wait, action) = match &script.finish {
            Finish::Empty => {
                return (Phase::Done, Command::Complete(Ok(FsOpResponse::Empty)));
            },
            Finish::Entry(path) => {
                let (read, a) = VmeFs::read_fs_entry(path.clone());
                (Wait::FinishEntry(read), a)
            },
            Finish::Content(path) => (Wait::FinishRead, HostAction::ReadFile { path: path.clone() }),
            Finish::Target(path) => (Wait::FinishRead, HostAction::ReadFile { path: path.clone() }),
            Finish::Listing { path, .. } => (Wait::FinishList, HostAction::ReadDir { path: path.clone() }),
        };
        (Phase::Running(Run { script, pc, wait }), Command::Perform(action))
    }
}

/// Goes on with a listing from its `i`-th entry.
fn scan(script: Script, pc: usize, items: Vec<DirItem>, i: usize, acc: Vec<FsEntry>) -> (r: (
    Phase,
    Command,
))
    requires
        pc == script.steps@.len(),
        i <= items@.len(),
    ensures
        (r.0@, r.1@) == scan_from(script@, pc as nat, items_view(items@), i as nat, entries_view(acc@)),
        phase_wf(r.0@),
{
    let ghost iv = items_view(items@);
    let mut j = i;
    while j < items.len() && VmeFs::is_metadata_file(&items[j].path)
        invariant
            i <= j <= items@.len(),
            iv == items_view(items@),
            next_plain(iv, i as nat) == next_plain(iv, j as nat),
        decreases items@.len() - j,
    {
        j = j + 1;
    }
    assert(next_plain(iv, j as nat) == j as nat);
    if j >= items.len() {
        let offset = match &script.finish {
            Finish::Listing { offset, .. } => *offset,
            _ => 0,
        };
        let entries = skip_entries(acc, offset);
        (Phase::Done, Command::Complete(Ok(FsOpResponse::ReadDir { entries })))
    } else {
        let (read, action) = VmeFs::read_fs_entry(items[j].path.clone());
        let sc = Scan { items, next: j, acc, read };
        (Phase::Running(Run { script, pc, wait: Wait::Scan(sc) }), Command::Perform(action))
    }
}

/// How the current step's own action turned out.
enum StepOutcome {
    Next,
    Fail(ErrorKind),
    Undo(HostAction, ErrorKind),
    Unexpected,
}

/// Answers the reply to the own action of step `pc`.
fn step_reply_exec(script: Script, pc: usize, reply: HostReply) -> (r: (Phase, Command))
    requires
        pc < script.steps@.len(),
    ensures
        (r.0@, r.1@) == step_reply(RunView { script: script@, pc: pc as nat, wait: WaitView::Step }, reply@),
        phase_wf(r.0@),
{
    let n = script.steps.len();
    let outcome = match &script.steps[pc] {
        Instr::Expect { exists, error, on_fail, .. } => match reply {
            HostReply::Exists(b) => if b == *exists {
                StepOutcome::Next
            } else {
                match on_fail {
                    Some(a) => StepOutcome::Undo(a.copy(), *error),
                    None => StepOutcome::Fail(*error),
                }
            },
            _ => StepOutcome::Unexpected,
        },
        Instr::ExpectDir { is_dir, error, .. } => match reply {
            HostReply::Metadata(Err(e)) => StepOutcome::Fail(e),
            HostReply::Metadata(Ok(raw)) => if raw.is_dir == *is_dir {
                StepOutcome::Next
            } else {
                StepOutcome::Fail(*error)
            },
            _ => StepOutcome::Unexpected,
        },
        Instr::Perform { undo, .. } => match reply {
            HostReply::Done(Ok(())) => StepOutcome::Next,
            HostReply::Done(Err(e)) => match undo {
                Some(u) => StepOutcome::Undo(u.copy(), e),
                None => StepOutcome::Fail(e),
            },
            _ => StepOutcome::Unexpected,
        },
        Instr::Probe { .. } => StepOutcome::Unexpected,
    };
    match outcome {
        StepOutcome::Next => start_step(script, pc + 1),
        StepOutcome::Fail(e) => (Phase::Done, Command::Complete(Err(Error::Command(e)))),
        StepOutcome::Undo(u, e) => (
            Phase::Running(Run { script, pc, wait: Wait::Undo(e) }),
            Command::Perform(u),
        ),
        StepOutcome::Unexpected => (Phase::Done, Command::Fault(Fault::UnexpectedReply)),
    }
}

/// Answers a reply to the current step's read of an entry.
fn step_entry_exec(script: Script, pc: usize, read: EntryRead, reply: HostReply) -> (r: (Phase, Command))
    requires
        pc < script.steps@.len(),
    ensures
        (r.0@, r.1@) == run_step(
            RunView { script: script@, pc: pc as nat, wait: WaitView::StepEntry(read@) },
            reply@,
        ),
        phase_wf(r.0@),
{
    let n = script.steps.len();
    let mut read = read;
    let p = read.resume(reply);
    match p {
        EntryProgress::Ask(a) => (
            Phase::Running(Run { script, pc, wait: Wait::StepEntry(read) }),
            Command::Perform(a),
        ),
        EntryProgress::Fault(f) => (Phase::Done, Command::Fault(f)),
        EntryProgress::Read(Ok(_)) => start_step(script, pc + 1),
        EntryProgress::Read(Err(e)) => {
            let fallback = match &script.steps[pc] {
                Instr::Probe { fallback: Some(a), .. } => Some(a.copy()),
                _ => None,
            };
            match fallback {
                Some(a) => (Phase::Running(Run { script, pc, wait: Wait::Fallback }), Command::Perform(a)),
                None => (Phase::Done, Command::Complete(Err(e))),
            }
        },
    }
}

/// Answers a reply to the read of the entry that is the response.
fn finish_entry_exec(script: Script, pc: usize, read: EntryRead, reply: HostReply) -> (r: (Phase, Command))
    requires
        pc == script.steps@.len(),
    ensures
        (r.0@, r.1@) == run_step(
            RunView { script: script@, pc: pc as nat, wait: WaitView::FinishEntry(read@) },
            reply@,
        ),
        phase_wf(r.0@),
{
    let mut read = read;
    let p = read.resume(reply);
    match p {
        EntryProgress::Ask(a) => (
            Phase::Running(Run { script, pc, wait: Wait::FinishEntry(read) }),
            Command::Perform(a),
        ),
        EntryProgress::Fault(f) => (Phase::Done, Command::Fault(f)),
        EntryProgress::Read(Ok(entry)) => (Phase::Done, Command::Complete(Ok(FsOpResponse::GetAttr { entry }))),
        EntryProgress::Read(Err(e)) => (Phase::Done, Command::Complete(Err(e))),
    }
}

/// Answers a reply to the read of one of the listed entries.
fn scan_exec(script: Script, pc: usize, sc: Scan, reply: HostReply) -> (r: (Phase, Command))
    requires
        pc == script.steps@.len(),
        sc.next < sc.items@.len(),
    ensures
        (r.0@, r.1@) == run_step(
            RunView { script: script@, pc: pc as nat, wait: Wait::Scan(sc)@ },
            reply@,
        ),
        phase_wf(r.0@),
{
    let Scan { items, next, acc, read } = sc;
    let m = items.len();
    let mut read = read;
    let mut acc = acc;
    let p = read.resume(reply);
    match p {
        EntryProgress::Ask(a) => (
            Phase::Running(Run { script, pc, wait: Wait::Scan(Scan { items, next, acc, read }) }),
            Command::Perform(a),
        ),
        EntryProgress::Fault(f) => (Phase::Done, Command::Fault(f)),
        EntryProgress::Read(Err(e)) => (Phase::Done, Command::Complete(Err(e))),
        EntryProgress::Read(Ok(entry)) => {
            let ghost before = entries_view(acc@);
            acc.push(entry);
            assert(entries_view(acc@) =~= before.push(entry@));
            scan(script, pc, items, next + 1, acc)
        },
    }
}

/// Answers a reply of the host to a running script.
fn run_step_exec(run: Run, reply: HostReply) -> (r: (Phase, Command))
    requires
        run_wf(run@),
    ensures
        (r.0@, r.1@) == run_step(run@, reply@),
        phase_wf(r.0@),
{
    let Run { script, pc, wait } = run;
    let n = script.steps.len();
    assert(pc <= n);
    match wait {
        Wait::Step => step_reply_exec(script, pc, reply),
        Wait::Undo(e) => match reply {
            HostReply::Done(_) => (Phase::Done, Command::Complete(Err(Error::Command(e)))),
            _ => (Phase::Done, Command::Fault(Fault::UnexpectedReply)),
        },
        Wait::StepEntry(read) => step_entry_exec(script, pc, read, reply),
        Wait::Fallback => match reply {
            HostReply::Done(Ok(())) => start_step(script, pc + 1),
            HostReply::Done(Err(e)) => (Phase::Done, Command::Complete(Err(Error::Command(e)))),
            _ => (Phase::Done, Command::Fault(Fault::UnexpectedReply)),
        },
        Wait::FinishEntry(read) => finish_entry_exec(script, pc, read, reply),
        Wait::FinishRead => match reply {
            HostReply::Content(Ok(c)) => {
                let response = match &script.finish {
                    Finish::Target(_) => FsOpResponse::Readlink { target: c },
                    _ => FsOpResponse::FileContent { content: c },
                };
                (Phase::Done, Command::Complete(Ok(response)))
            },
            HostReply::Content(Err(e)) => (Phase::Done, Command::Complete(Err(Error::Command(e)))),
            _ => (Phase::Done, Command::Fault(Fault::UnexpectedReply)),
        },
        Wait::FinishList => match reply {
            HostReply::Listing(Ok(items)) => {
                let acc: Vec<FsEntry> = Vec::new();
                assert(entries_view(acc@) =~= Seq::<FsEntryView>::empty());
                scan(script, pc, items, 0, acc)
            },
            HostReply::Listing(Err(e)) => (Phase::Done, Command::Complete(Err(Error::Command(e)))),
            _ => (Phase::Done, Command::Fault(Fault::UnexpectedReply)),
        },
        Wait::Scan(sc) => scan_exec(script, pc, sc, reply),
    }
}

/// Resolves the request's inodes from the `found.len()`-th on, as far as
/// that needs no listing; with all of them found, starts the script.
fn resolve_exec(fs: &VmeFs, req: &FsOpRequest, found: Vec<String>) -> (r: (Vec<String>, Phase, Command))
    requires
        found@.len() <= inos_of(*req).len(),
    ensures
        (paths_view(r.0@), r.1@, r.2@) == resolve(fs@, *req, paths_view(found@)),
        phase_wf(r.1@),
        r.1 is Resolving ==> r.0@.len() < inos_of(*req).len(),
    decreases inos_of(*req).len() - found@.len(),
{
    match ino_at(req, found.len()) {
        Some(ino) => {
            let (search, step) = fs.find_path_by_ino(ino);
            match step {
                SearchStep::Found(p) => {
                    if guards(req) && VmeFs::is_metadata_file(&p) {
                        (found, Phase::Done, Command::Fault(Fault::MetadataFileAccess))
                    } else {
                        let ghost before = paths_view(found@);
                        let mut found = found;
                        found.push(p);
                        assert(paths_view(found@) =~= before.push(p@));
                        resolve_exec(fs, req, found)
                    }
                },
                SearchStep::NotFound => (
                    found,
                    Phase::Done,
                    Command::Complete(Err(Error::Command(ErrorKind::NotFound))),
                ),
                SearchStep::List(p) => (
                    found,
                    Phase::Resolving(search),
                    Command::Perform(HostAction::ReadDir { path: p }),
                ),
            }
        },
        None => {
            let script = fs.script(req, &found);
            let (phase, c) = start_step(script, 0);
            (found, phase, c)
        },
    }
}

impl VmeFs {
    /// Starts serving `request`: the task, and what it asks first.
    pub fn handle_request(&self, request: FsOpRequest) -> (r: (RequestTask, Command))
        ensures
            (r.0@, r.1@) == handle_spec(self@, request),
    {
        let found: Vec<String> = Vec::new();
        assert(paths_view(found@) =~= Seq::<Seq<char>>::empty());
        let (found, phase, c) = resolve_exec(self, &request, found);
        (RequestTask { fs: self.copy(), request, found, phase }, c)
    }
}

impl RequestTask {
    /// Goes on with the host's reply to the action the task asked for last.
    pub fn resume(&mut self, reply: HostReply) -> (c: Command)
        ensures
            (final(self)@, c@) == resume_spec(old(self)@, reply@),
    {
        proof {
            use_type_invariant(&*self);
        }
        let mut phase = Phase::Done;
        std::mem::swap(&mut phase, &mut self.phase);
        match phase {
            Phase::Done => Command::Fault(Fault::UnexpectedReply),
            Phase::Resolving(search) => match reply {
                HostReply::Listing(listing) => {
                    let mut search = search;
                    let step = search.resume(listing);
                    match step {
                        SearchStep::Found(p) => {
                            if guards(&self.request) && VmeFs::is_metadata_file(&p) {
                                Command::Fault(Fault::MetadataFileAccess)
                            } else {
                                let mut found: Vec<String> = Vec::new();
                                std::mem::swap(&mut found, &mut self.found);
                                let ghost before = paths_view(found@);
                                found.push(p);
                                assert(paths_view(found@) =~= before.push(p@));
                                let (found, phase, c) = resolve_exec(&self.fs, &self.request, found);
                                self.found = found;
                                self.phase = phase;
                                c
                            }
                        },
                        SearchStep::NotFound => Command::Complete(
                            Err(Error::Command(ErrorKind::NotFound)),
                        ),
                        SearchStep::List(p) => {
                            self.phase = Phase::Resolving(search);
                            Command::Perform(HostAction::ReadDir { path: p })
                        },
                    }
                },
                _ => Command::Fault(Fault::UnexpectedReply),
            },
            Phase::Running(run) => {
                let (phase, c) = run_step_exec(run, reply);
                self.phase = phase;
                c
            },
        }
    }
}

} // verus!
