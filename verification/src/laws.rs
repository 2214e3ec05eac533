//! What holds of every request the server serves, whatever the host replies.
use crate::abi::{Error, FsOpRequest, FsOpResponseView};
use crate::entry::{EntryProgressView, EntryReadView, EntryStageView, entry_start, entry_step};
use crate::fs::VmeFsView;
use crate::host::{DirItemView, HostReplyView};
use crate::paths::{is_meta, meta_path};
use crate::request::{
    CommandView,
    PhaseView,
    RequestTaskView,
    RunView,
    WaitView,
    guards_meta,
    handle_spec,
    inos_of,
    next_plain,
    resolve,
    resume_spec,
    run_from,
    run_step,
    scan_from,
    script_for,
};
use crate::script::{FinishView, InstrView, ScriptView};
use crate::search::{FrameView, InoSearchView, SearchStepView, advance, pending, search_step};
use vstd::prelude::*;

verus! {

/// The response a successful request gets: an entry for the requests that
/// make or describe one, the content for reads, the entries for listings,
/// and the empty response for the others.
pub open spec fn response_fits(req: FsOpRequest, r: FsOpResponseView) -> bool {
    match req {
        FsOpRequest::Create { .. } | FsOpRequest::GetAttr { .. } | FsOpRequest::Lookup { .. }
        | FsOpRequest::Mkdir { .. } | FsOpRequest::SetAttr { .. } | FsOpRequest::Symlink {
            ..
        } | FsOpRequest::Link { .. } => r is GetAttr,
        FsOpRequest::Read { .. } => r is FileContent,
        FsOpRequest::ReadDir { .. } => r is ReadDir,
        FsOpRequest::Readlink { .. } => r is Readlink,
        FsOpRequest::InitRoot { .. } | FsOpRequest::Rename { .. } | FsOpRequest::RmDir { .. }
        | FsOpRequest::Unlink { .. } | FsOpRequest::Write { .. } => r is Empty,
    }
}

/// The way a request's script makes its response.
pub open spec fn finish_fits(req: FsOpRequest, f: FinishView) -> bool {
    match req {
        FsOpRequest::Create { .. } | FsOpRequest::GetAttr { .. } | FsOpRequest::Lookup { .. }
        | FsOpRequest::Mkdir { .. } | FsOpRequest::SetAttr { .. } | FsOpRequest::Symlink {
            ..
        } | FsOpRequest::Link { .. } => f is Entry,
        FsOpRequest::Read { .. } => f is Content,
        FsOpRequest::ReadDir { .. } => f is Listing,
        FsOpRequest::Readlink { .. } => f is Target,
        FsOpRequest::InitRoot { .. } | FsOpRequest::Rename { .. } | FsOpRequest::RmDir { .. }
        | FsOpRequest::Unlink { .. } | FsOpRequest::Write { .. } => f is Empty,
    }
}

/// The response that a way of making one gives.
pub open spec fn finish_gives(f: FinishView, r: FsOpResponseView) -> bool {
    match f {
        FinishView::Empty => r is Empty,
        FinishView::Entry(_) => r is GetAttr,
        FinishView::Content(_) => r is FileContent,
        FinishView::Target(_) => r is Readlink,
        FinishView::Listing { .. } => r is ReadDir,
    }
}

/// A running script waits for the reply its way of making the response asks
/// for, and a listing reads only listed entries that are no metadata files.
pub open spec fn wait_fits(run: RunView) -> bool {
    match run.wait {
        WaitView::FinishEntry(read) => {
            &&& run.script.finish == FinishView::Entry(read.path)
            &&& entry_inv(read)
        },
        WaitView::FinishRead => run.script.finish is Content || run.script.finish is Target,
        WaitView::FinishList => run.script.finish is Listing,
        WaitView::Scan(sc) => {
            &&& run.script.finish is Listing
            &&& sc.next < sc.items.len()
            &&& !is_meta(sc.items[sc.next as int].path)
            &&& sc.read.path == sc.items[sc.next as int].path
            &&& entry_inv(sc.read)
            &&& sc.acc.len() == plain_count(sc.items, sc.next)
        },
        _ => true,
    }
}

/// The number of listed entries before the `i`-th that are no metadata
/// files.
pub open spec fn plain_count(items: Seq<DirItemView>, i: nat) -> nat
    decreases i,
{
    if i == 0 {
        0
    } else {
        let prev = plain_count(items, (i - 1) as nat);
        if i - 1 < items.len() && !is_meta(items[i - 1].path) {
            prev + 1
        } else {
            prev
        }
    }
}

/// How many of `n` entries a listing from `offset` on gives.
pub open spec fn paged_len(n: nat, offset: i64) -> nat {
    let off = offset as usize;
    if off >= n {
        0
    } else {
        (n - off) as nat
    }
}

/// The paths found for a request that must not work on metadata files are
/// no metadata files.
pub open spec fn found_plain(req: FsOpRequest, found: Seq<Seq<char>>) -> bool {
    guards_meta(req) ==> forall|i: int| 0 <= i < found.len() ==> !is_meta(#[trigger] found[i])
}

/// What holds of every task: its paths are no metadata files where the
/// request forbids them, a running script makes the response the request
/// calls for, and it waits for what that response needs.
pub open spec fn task_inv(t: RequestTaskView) -> bool {
    &&& found_plain(t.request, t.found)
    &&& match t.phase {
        PhaseView::Running(run) => finish_fits(t.request, run.script.finish) && wait_fits(run),
        _ => true,
    }
}

proof fn lemma_finish_fits(fs: VmeFsView, req: FsOpRequest, found: Seq<Seq<char>>)
    ensures
        finish_fits(req, script_for(fs, req, found).finish),
{
}

proof fn lemma_fits_give(req: FsOpRequest, f: FinishView, r: FsOpResponseView)
    requires
        finish_fits(req, f),
        finish_gives(f, r),
    ensures
        response_fits(req, r),
{
}

proof fn lemma_next_plain(items: Seq<DirItemView>, i: nat)
    requires
        i <= items.len(),
    ensures
        next_plain(items, i) < items.len() ==> !is_meta(items[next_plain(items, i) as int].path),
        i <= next_plain(items, i) <= items.len(),
        plain_count(items, next_plain(items, i)) == plain_count(items, i),
    decreases items.len() - i,
{
    if i < items.len() && is_meta(items[i as int].path) {
        lemma_next_plain(items, i + 1);
    }
}

proof fn lemma_run_from(script: ScriptView, pc: nat)
    ensures
        ({
            let (ph, c) = run_from(script, pc);
            &&& ph matches PhaseView::Running(run) ==> run.script == script && wait_fits(run)
            &&& c matches CommandView::Complete(Ok(r)) ==> finish_gives(script.finish, r)
        }),
{
}

proof fn lemma_scan_from(
    script: ScriptView,
    pc: nat,
    items: Seq<DirItemView>,
    i: nat,
    acc: Seq<crate::abi::FsEntryView>,
)
    requires
        script.finish is Listing,
        i <= items.len(),
        acc.len() == plain_count(items, i),
    ensures
        ({
            let (ph, c) = scan_from(script, pc, items, i, acc);
            &&& ph matches PhaseView::Running(run) ==> run.script == script && wait_fits(run)
            &&& c matches CommandView::Complete(Ok(r)) ==> finish_gives(script.finish, r)
            &&& c matches CommandView::Complete(Ok(FsOpResponseView::ReadDir { entries }))
                ==> entries.len() == paged_len(
                plain_count(items, items.len()),
                crate::request::listing_offset(script.finish),
            )
        }),
{
    lemma_next_plain(items, i);
    let j = next_plain(items, i);
    if j >= items.len() {
        assert(j == items.len());
    } else {
        law_entry_starts_with_metadata(items[j as int].path);
    }
}

proof fn lemma_run_step(run: RunView, reply: HostReplyView)
    requires
        wait_fits(run),
    ensures
        ({
            let (ph, c) = run_step(run, reply);
            &&& ph matches PhaseView::Running(run2) ==> run2.script == run.script && wait_fits(run2)
            &&& c matches CommandView::Complete(Ok(r)) ==> finish_gives(run.script.finish, r)
        }),
{
    lemma_run_from(run.script, run.pc + 1);
    match run.wait {
        WaitView::FinishList => {
            match reply {
                HostReplyView::Listing(Ok(items)) => {
                    lemma_scan_from(run.script, run.pc, items, 0, Seq::empty());
                },
                _ => {},
            }
        },
        WaitView::Scan(sc) => {
            let (read2, p) = entry_step(sc.read, reply);
            law_entry_metadata_is_meta_file(sc.read, reply);
            match p {
                EntryProgressView::Read(Ok(entry)) => {
                    lemma_scan_from(run.script, run.pc, sc.items, sc.next + 1, sc.acc.push(entry));
                },
                _ => {},
            }
        },
        WaitView::FinishEntry(read) => {
            law_entry_metadata_is_meta_file(read, reply);
        },
        _ => {},
    }
}

proof fn lemma_resolve(fs: VmeFsView, req: FsOpRequest, found: Seq<Seq<char>>)
    requires
        found_plain(req, found),
    ensures
        ({
            let (found2, ph, c) = resolve(fs, req, found);
            &&& found_plain(req, found2)
            &&& ph matches PhaseView::Running(run) ==> finish_fits(req, run.script.finish) && wait_fits(run)
            &&& c matches CommandView::Complete(Ok(r)) ==> response_fits(req, r)
        }),
    decreases inos_of(req).len() - found.len(),
{
    if found.len() < inos_of(req).len() {
        let (search, step) = crate::search::search_start(fs.root, inos_of(req)[found.len() as int]);
        match step {
            SearchStepView::Found(p) => {
                if !(guards_meta(req) && is_meta(p)) {
                    assert(found_plain(req, found.push(p))) by {
                        if guards_meta(req) {
                            assert forall|i: int| 0 <= i < found.push(p).len() implies !is_meta(
                                #[trigger] found.push(p)[i],
                            ) by {
                                if i < found.len() {
                                    assert(found.push(p)[i] == found[i]);
                                }
                            }
                        }
                    }
                    lemma_resolve(fs, req, found.push(p));
                }
            },
            _ => {},
        }
    } else {
        let script = script_for(fs, req, found);
        lemma_finish_fits(fs, req, found);
        lemma_run_from(script, 0);
        let (ph, c) = run_from(script, 0);
        match c {
            CommandView::Complete(Ok(r)) => lemma_fits_give(req, script.finish, r),
            _ => {},
        }
    }
}

/// Every task starts in a state where its invariant holds, and a request
/// answered at once gets the response its kind calls for.
pub proof fn law_start_keeps_invariant(fs: VmeFsView, req: FsOpRequest)
    ensures
        task_inv(handle_spec(fs, req).0),
        handle_spec(fs, req).1 matches CommandView::Complete(Ok(r)) ==> response_fits(req, r),
{
    lemma_resolve(fs, req, Seq::empty());
}

/// Whatever the host replies, a task keeps its invariant, and a request
/// that succeeds gets the response its kind calls for: an entry for create,
/// getattr, lookup, mkdir, setattr, symlink and link, the file's content for
/// read, the link's content for readlink, the entries for readdir, and the
/// empty response for initroot, rename, rmdir, unlink and write.
pub proof fn law_resume_keeps_invariant(t: RequestTaskView, reply: HostReplyView)
    requires
        task_inv(t),
    ensures
        task_inv(resume_spec(t, reply).0),
        resume_spec(t, reply).1 matches CommandView::Complete(Ok(r)) ==> response_fits(t.request, r),
{
    match t.phase {
        PhaseView::Resolving(search) => {
            match reply {
                HostReplyView::Listing(listing) => {
                    let (search2, step) = search_step(search, listing);
                    match step {
                        SearchStepView::Found(p) => {
                            if !(guards_meta(t.request) && is_meta(p)) {
                                let found = t.found.push(p);
                                assert(found_plain(t.request, found)) by {
                                    if guards_meta(t.request) {
                                        assert forall|i: int| 0 <= i < found.len() implies !is_meta(
                                            #[trigger] found[i],
                                        ) by {
                                            if i < t.found.len() {
                                                assert(found[i] == t.found[i]);
                                            }
                                        }
                                    }
                                }
                                lemma_resolve(t.fs, t.request, found);
                            }
                        },
                        _ => {},
                    }
                },
                _ => {},
            }
        },
        PhaseView::Running(run) => {
            lemma_run_step(run, reply);
            let (ph, c) = run_step(run, reply);
            match c {
                CommandView::Complete(Ok(r)) => lemma_fits_give(t.request, run.script.finish, r),
                _ => {},
            }
        },
        PhaseView::Done => {},
    }
}

/// A read of an entry keeps, for the metadata file it asks about and reads,
/// the metadata path of the entry.
pub open spec fn entry_inv(s: EntryReadView) -> bool {
    match s.stage {
        EntryStageView::Metadata => true,
        EntryStageView::MetaExists { meta, .. } => meta == meta_path(s.path),
        EntryStageView::MetaContent { meta, .. } => meta == meta_path(s.path),
    }
}

/// Where a step of a read of an entry gives the entry, the read was waiting
/// for the content of the metadata file at the entry's metadata path, the
/// reply is that content, and the entry carries it unchanged, beside the
/// host metadata the read kept.
pub open spec fn entry_given_from_meta_file(
    s: EntryReadView,
    reply: HostReplyView,
    p: EntryProgressView,
) -> bool {
    match p {
        EntryProgressView::Read(Ok(e)) => match s.stage {
            EntryStageView::MetaContent { meta, host } => {
                &&& meta == meta_path(s.path)
                &&& e.host_metadata == host
                &&& reply == HostReplyView::Content(Ok(e.metadata))
            },
            _ => false,
        },
        _ => true,
    }
}

/// The enclave's metadata of an entry is the content of the entry's own
/// metadata file: a read of an entry gives an entry only in answer to the
/// content of the file at the entry's metadata path, which it asked for
/// after the host said that file exists, and the entry carries that content
/// unchanged.
pub proof fn law_entry_metadata_is_meta_file(s: EntryReadView, reply: HostReplyView)
    requires
        entry_inv(s),
    ensures
        entry_inv(entry_step(s, reply).0),
        entry_given_from_meta_file(s, reply, entry_step(s, reply).1),
{
}

/// A read of an entry starts with the host's metadata of the entry itself.
pub proof fn law_entry_starts_with_metadata(path: Seq<char>)
    ensures
        entry_inv(entry_start(path).0),
        entry_start(path).1 == (crate::host::HostActionView::Metadata { path }),
{
}

/// The host read the listed entry, with the inode `target`.
pub open spec fn item_has_ino(item: DirItemView, target: u64) -> bool {
    match item.info {
        Some(info) => info.ino == target,
        None => false,
    }
}

/// The path `p` is that of an entry with the inode `target` in one of the
/// directories a walk has listed.
pub open spec fn listed(stack: Seq<FrameView>, p: Seq<char>, target: u64) -> bool {
    exists|i: int, j: int|
        0 <= i < stack.len() && 0 <= j < stack[i].items.len() && (#[trigger] stack[i].items[j]).path
            == p && item_has_ino(stack[i].items[j], target)
}

proof fn lemma_advance_found(s: InoSearchView)
    ensures
        advance(s).1 matches SearchStepView::Found(p) ==> listed(s.stack, p, s.target),
    decreases pending(s.stack),
{
    if s.stack.len() > 0 {
        let top = s.stack.last();
        let rest = s.stack.drop_last();
        crate::search::lemma_pending_push(rest, FrameView { next: top.next + 1, ..top });
        if top.next >= top.items.len() {
            let s0 = InoSearchView { stack: rest, ..s };
            lemma_advance_found(s0);
            if let SearchStepView::Found(p) = advance(s0).1 {
                let (i, j) = choose|i: int, j: int|
                    0 <= i < rest.len() && 0 <= j < rest[i].items.len() && (#[trigger] rest[i].items[j]).path
                        == p && item_has_ino(rest[i].items[j], s.target);
                assert(s.stack[i].items[j] == rest[i].items[j]);
            }
        } else {
            let item = top.items[top.next as int];
            let top1 = FrameView { next: top.next + 1, ..top };
            let s1 = InoSearchView { stack: rest.push(top1), ..s };
            if item_has_ino(item, s.target) {
                let last = s.stack.len() - 1;
                assert(s.stack[last].items[top.next as int] == item);
            } else {
                lemma_advance_found(s1);
                if let SearchStepView::Found(p) = advance(s1).1 {
                    let (i, j) = choose|i: int, j: int|
                        0 <= i < s1.stack.len() && 0 <= j < s1.stack[i].items.len() && (
                        #[trigger] s1.stack[i].items[j]).path == p && item_has_ino(s1.stack[i].items[j], s.target);
                    if i < rest.len() {
                        assert(s.stack[i].items[j] == s1.stack[i].items[j]);
                    } else {
                        assert(s.stack[i].items[j] == s1.stack[i].items[j]);
                    }
                }
            }
        }
    }
}

/// A walk reports a path only for an entry the host listed with the inode
/// looked for: one of the directories already listed, or the listing just
/// handed to it.
pub proof fn law_found_path_has_inode(
    s: InoSearchView,
    listing: Result<Seq<DirItemView>, crate::abi::ErrorKind>,
)
    ensures
        search_step(s, listing).1 matches SearchStepView::Found(p) ==> {
            ||| listed(s.stack, p, s.target)
            ||| (listing matches Ok(items) && exists|j: int|
                0 <= j < items.len() && (#[trigger] items[j]).path == p && item_has_ino(items[j], s.target))
        },
{
    match listing {
        Ok(items) => {
            let f = FrameView { items, next: 0 };
            let s1 = InoSearchView { stack: s.stack.push(f), ..s };
            lemma_advance_found(s1);
            if let SearchStepView::Found(p) = search_step(s, listing).1 {
                let (i, j) = choose|i: int, j: int|
                    0 <= i < s1.stack.len() && 0 <= j < s1.stack[i].items.len() && (
                    #[trigger] s1.stack[i].items[j]).path == p && item_has_ino(s1.stack[i].items[j], s.target);
                if i < s.stack.len() {
                    assert(s.stack[i].items[j] == s1.stack[i].items[j]);
                } else {
                    assert(items[j] == s1.stack[i].items[j]);
                }
            }
        },
        Err(_) => {
            lemma_advance_found(s);
        },
    }
}

/// A failure the host reports for a step's action without an undo, for a
/// fallback, or for the read or listing that makes the response, is the
/// request's error, unchanged.
pub proof fn law_host_error_is_the_answer(run: RunView, e: crate::abi::ErrorKind)
    ensures
        (run.wait is Step && run.pc < run.script.steps.len() && run.script.steps[run.pc as int] matches InstrView::Perform { undo: None, .. })
            ==> run_step(run, HostReplyView::Done(Err(e))) == crate::request::fail(e),
        run.wait is Fallback ==> run_step(run, HostReplyView::Done(Err(e))) == crate::request::fail(e),
        run.wait is FinishRead ==> run_step(run, HostReplyView::Content(Err(e))) == crate::request::fail(e),
        run.wait is FinishList ==> run_step(run, HostReplyView::Listing(Err(e))) == crate::request::fail(e),
{
}

/// A request whose inodes are all resolved runs the script of its kind,
/// built from its own fields, from the first step.
pub proof fn law_resolved_request_runs_its_script(fs: VmeFsView, req: FsOpRequest, found: Seq<Seq<char>>)
    requires
        found.len() == inos_of(req).len(),
    ensures
        resolve(fs, req, found) == (
            found,
            run_from(script_for(fs, req, found), 0).0,
            run_from(script_for(fs, req, found), 0).1,
        ),
{
}

/// A step whose action fails and that has an undo asks for the undo next,
/// and then, whatever the undo gives, the request fails with the step's
/// error.
pub proof fn law_failed_step_is_undone(run: RunView, e: crate::abi::ErrorKind, undo_reply: HostReplyView)
    requires
        run.wait is Step,
        run.pc < run.script.steps.len(),
        run.script.steps[run.pc as int] matches InstrView::Perform { undo, .. } && undo is Some,
        undo_reply is Done,
    ensures
        ({
            let (ph, c) = run_step(run, HostReplyView::Done(Err(e)));
            &&& c == CommandView::Perform(
                run.script.steps[run.pc as int]->Perform_undo->0,
            )
            &&& ph matches PhaseView::Running(run2)
            &&& run_step(run2, undo_reply) == (
                PhaseView::Done,
                CommandView::Complete(Err(Error::Command(e))),
            )
        }),
{
}

/// What the recursive depth-first search of a host tree gives: a path, no
/// path, or no answer within the depth it may descend.
pub enum WalkResult {
    Found(Seq<char>),
    Absent,
    Exhausted,
}

/// A host tree: what listing each directory gives.
pub type HostTree = spec_fn(Seq<char>) -> Result<Seq<DirItemView>, crate::abi::ErrorKind>;

/// The recursive search below the directory at `path`, entering at most
/// `fuel` levels of directories: a directory that cannot be listed holds
/// nothing.
pub open spec fn walk_dir(tree: HostTree, path: Seq<char>, target: u64, fuel: nat) -> WalkResult
    decreases fuel, 0nat, 0nat,
{
    if fuel == 0 {
        WalkResult::Exhausted
    } else {
        match tree(path) {
            Ok(items) => walk_items(tree, items, target, (fuel - 1) as nat),
            Err(_) => WalkResult::Absent,
        }
    }
}

/// The recursive search through a directory's entries in their order: an
/// entry with the inode is the answer; a directory is searched before its
/// next sibling; entries the host could not read are passed over.
pub open spec fn walk_items(tree: HostTree, items: Seq<DirItemView>, target: u64, fuel: nat) -> WalkResult
    decreases fuel, 1nat, items.len(),
{
    if items.len() == 0 {
        WalkResult::Absent
    } else {
        let it = items[0];
        let rest = items.subrange(1, items.len() as int);
        match it.info {
            None => walk_items(tree, rest, target, fuel),
            Some(info) => if info.ino == target {
                WalkResult::Found(it.path)
            } else if info.is_dir {
                match walk_dir(tree, it.path, target, fuel) {
                    WalkResult::Absent => walk_items(tree, rest, target, fuel),
                    other => other,
                }
            } else {
                walk_items(tree, rest, target, fuel)
            },
        }
    }
}

/// The search for `ino` below `root`, stated recursively: the root
/// inode is the root itself, any other is searched for recursively.
pub open spec fn find_walk(tree: HostTree, root: Seq<char>, ino: u64, fuel: nat) -> WalkResult {
    if ino == crate::search::ROOT_INO {
        WalkResult::Found(root)
    } else {
        walk_dir(tree, root, ino, fuel)
    }
}

/// A walk handed, `n` times over, the listing `tree` gives of the directory
/// it asks for.
pub open spec fn exec_walk(tree: HostTree, s: InoSearchView, step: SearchStepView, n: nat) -> (
    InoSearchView,
    SearchStepView,
)
    decreases n,
{
    if n == 0 {
        (s, step)
    } else {
        match step {
            SearchStepView::List(p) => {
                let (s2, step2) = search_step(s, tree(p));
                exec_walk(tree, s2, step2, (n - 1) as nat)
            },
            _ => (s, step),
        }
    }
}

proof fn lemma_exec_walk_compose(tree: HostTree, s: InoSearchView, step: SearchStepView, a: nat, b: nat)
    ensures
        exec_walk(tree, s, step, a + b) == exec_walk(
            tree,
            exec_walk(tree, s, step, a).0,
            exec_walk(tree, s, step, a).1,
            b,
        ),
    decreases a,
{
    if a > 0 {
        match step {
            SearchStepView::List(p) => {
                let (s2, step2) = search_step(s, tree(p));
                lemma_exec_walk_compose(tree, s2, step2, (a - 1) as nat, b);
                assert((a + b - 1) as nat == ((a - 1) as nat + b) as nat);
            },
            _ => {
                if b > 0 {
                    assert(exec_walk(tree, s, step, a + b) == (s, step));
                }
            },
        }
    }
}

/// A walk whose innermost directory is `items`, read from its `i`-th entry,
/// over the directories `stack`, goes as the recursive search of the rest of
/// `items`: it reaches the same path, or, where that search finds nothing,
/// it comes to stand as it would with only `stack` left.
proof fn lemma_walk_frame(
    tree: HostTree,
    target: u64,
    stack: Seq<FrameView>,
    items: Seq<DirItemView>,
    i: nat,
    fuel: nat,
) -> (n: nat)
    requires
        i <= items.len(),
    ensures
        ({
            let s = InoSearchView { target, stack: stack.push(FrameView { items, next: i }) };
            let (sa, sta) = advance(s);
            let w = walk_items(tree, items.subrange(i as int, items.len() as int), target, fuel);
            &&& (w matches WalkResult::Found(p) ==> exec_walk(tree, sa, sta, n).1 == SearchStepView::Found(p))
            &&& (w is Absent ==> exec_walk(tree, sa, sta, n) == advance(InoSearchView { target, stack }))
        }),
    decreases fuel, items.len() - i,
{
    let s = InoSearchView { target, stack: stack.push(FrameView { items, next: i }) };
    let rest_items = items.subrange(i as int, items.len() as int);
    assert(s.stack.drop_last() =~= stack);
    assert(s.stack.last() == FrameView { items, next: i });
    if i >= items.len() {
        assert(rest_items.len() == 0);
        0
    } else {
        let item = items[i as int];
        let s1 = InoSearchView { target, stack: stack.push(FrameView { items, next: i + 1 }) };
        assert(rest_items[0] == item);
        assert(rest_items.subrange(1, rest_items.len() as int) =~= items.subrange(
            (i + 1) as int,
            items.len() as int,
        ));
        assert(advance(s) == (match item.info {
            None => advance(s1),
            Some(info) => if info.ino == target {
                (s1, SearchStepView::Found(item.path))
            } else if info.is_dir {
                (s1, SearchStepView::List(item.path))
            } else {
                advance(s1)
            },
        }));
        match item.info {
            None => lemma_walk_frame(tree, target, stack, items, i + 1, fuel),
            Some(info) => if info.ino == target {
                0
            } else if !info.is_dir {
                lemma_walk_frame(tree, target, stack, items, i + 1, fuel)
            } else if fuel == 0 {
                0
            } else {
                let sub = walk_dir(tree, item.path, target, fuel);
                match tree(item.path) {
                    Err(_) => {
                        assert(search_step(s1, tree(item.path)) == advance(s1));
                        let m = lemma_walk_frame(tree, target, stack, items, i + 1, fuel);
                        assert(exec_walk(tree, s1, SearchStepView::List(item.path), m + 1) == exec_walk(
                            tree,
                            advance(s1).0,
                            advance(s1).1,
                            m,
                        ));
                        m + 1
                    },
                    Ok(children) => {
                        let inner = stack.push(FrameView { items, next: i + 1 });
                        let s2 = InoSearchView { target, stack: inner.push(FrameView { items: children, next: 0 }) };
                        assert(search_step(s1, tree(item.path)) == advance(s2));
                        assert(children.subrange(0, children.len() as int) =~= children);
                        let m = lemma_walk_frame(tree, target, inner, children, 0, (fuel - 1) as nat);
                        let (sa2, sta2) = advance(s2);
                        assert(exec_walk(tree, s1, SearchStepView::List(item.path), m + 1) == exec_walk(
                            tree,
                            sa2,
                            sta2,
                            m,
                        ));
                        if sub is Absent {
                            let k = lemma_walk_frame(tree, target, stack, items, i + 1, fuel);
                            lemma_exec_walk_compose(tree, s1, SearchStepView::List(item.path), m + 1, k);
                            assert(InoSearchView { target, stack: inner } == s1);
                            m + 1 + k
                        } else {
                            m + 1
                        }
                    },
                }
            },
        }
    }
}

/// The walk is a recursive depth-first search: handed the listings of a
/// host tree, it reaches the path that the recursive search of that tree
/// reaches, or reports that no entry has the inode, wherever that search
/// answers within some depth.
pub proof fn law_walk_is_depth_first_search(tree: HostTree, root: Seq<char>, ino: u64, fuel: nat) -> (n: nat)
    requires
        !(find_walk(tree, root, ino, fuel) is Exhausted),
    ensures
        ({
            let (s0, step0) = crate::search::search_start(root, ino);
            exec_walk(tree, s0, step0, n).1 == match find_walk(tree, root, ino, fuel) {
                WalkResult::Found(p) => SearchStepView::Found(p),
                _ => SearchStepView::NotFound,
            }
        }),
{
    let (s0, step0) = crate::search::search_start(root, ino);
    if ino == crate::search::ROOT_INO {
        0
    } else {
        match tree(root) {
            Err(_) => {
                assert(fuel > 0);
                assert(search_step(s0, tree(root)) == advance(s0));
                assert(advance(s0) == (s0, SearchStepView::NotFound));
                assert(exec_walk(tree, s0, SearchStepView::NotFound, 0) == (s0, SearchStepView::NotFound));
                assert(exec_walk(tree, s0, step0, 1) == exec_walk(tree, s0, SearchStepView::NotFound, 0));
                1
            },
            Ok(children) => {
                assert(fuel > 0);
                let s2 = InoSearchView { target: ino, stack: s0.stack.push(FrameView { items: children, next: 0 }) };
                assert(search_step(s0, tree(root)) == advance(s2));
                assert(children.subrange(0, children.len() as int) =~= children);
                let m = lemma_walk_frame(tree, ino, s0.stack, children, 0, (fuel - 1) as nat);
                let (sa, sta) = advance(s2);
                assert(exec_walk(tree, s0, step0, m + 1) == exec_walk(tree, sa, sta, m));
                assert(advance(InoSearchView { target: ino, stack: s0.stack }) == (
                    s0,
                    SearchStepView::NotFound,
                ));
                m + 1
            },
        }
    }
}

/// The listed entry is a directory.
pub open spec fn is_dir_item(item: DirItemView) -> bool {
    match item.info {
        Some(info) => info.is_dir,
        None => false,
    }
}

/// The tree below `path` is finite: every chain of directories that `tree`
/// lists below `path` has fewer than `depth` levels. Links count as the host
/// reports them when listing, not by what they point to.
pub open spec fn depth_bounded(tree: HostTree, path: Seq<char>, depth: nat) -> bool
    decreases depth,
{
    depth > 0 && match tree(path) {
        Ok(items) => forall|j: int|
            0 <= j < items.len() && is_dir_item(#[trigger] items[j]) ==> depth_bounded(
                tree,
                items[j].path,
                (depth - 1) as nat,
            ),
        Err(_) => true,
    }
}

proof fn lemma_bounded_dir_answers(tree: HostTree, path: Seq<char>, target: u64, depth: nat)
    requires
        depth_bounded(tree, path, depth),
    ensures
        !(walk_dir(tree, path, target, depth) is Exhausted),
    decreases depth, 0nat, 0nat,
{
    match tree(path) {
        Ok(items) => {
            lemma_bounded_items_answer(tree, items, target, (depth - 1) as nat);
        },
        Err(_) => {},
    }
}

proof fn lemma_bounded_items_answer(tree: HostTree, items: Seq<DirItemView>, target: u64, fuel: nat)
    requires
        forall|j: int|
            0 <= j < items.len() && is_dir_item(#[trigger] items[j]) ==> depth_bounded(
                tree,
                items[j].path,
                fuel,
            ),
    ensures
        !(walk_items(tree, items, target, fuel) is Exhausted),
    decreases fuel, 1nat, items.len(),
{
    if items.len() > 0 {
        let it = items[0];
        let rest = items.subrange(1, items.len() as int);
        assert forall|j: int| 0 <= j < rest.len() && is_dir_item(#[trigger] rest[j]) implies depth_bounded(
            tree,
            rest[j].path,
            fuel,
        ) by {
            assert(rest[j] == items[j + 1]);
        }
        lemma_bounded_items_answer(tree, rest, target, fuel);
        if is_dir_item(it) {
            lemma_bounded_dir_answers(tree, it.path, target, fuel);
        }
    }
}

/// On a finite tree the walk always answers: handed the listings of the
/// tree, it reaches, after finitely many of them, the path the recursive
/// depth-first search reaches, or reports that no entry has the inode.
pub proof fn law_walk_answers_on_finite_trees(tree: HostTree, root: Seq<char>, ino: u64, depth: nat) -> (n: nat)
    requires
        depth_bounded(tree, root, depth),
    ensures
        ({
            let (s0, step0) = crate::search::search_start(root, ino);
            exec_walk(tree, s0, step0, n).1 == match find_walk(tree, root, ino, depth) {
                WalkResult::Found(p) => SearchStepView::Found(p),
                _ => SearchStepView::NotFound,
            }
        }),
        !(find_walk(tree, root, ino, depth) is Exhausted),
{
    lemma_bounded_dir_answers(tree, root, ino, depth);
    law_walk_is_depth_first_search(tree, root, ino, depth)
}

/// A task runs the script of its own request: while it resolves inodes it
/// looks for the next one its request names, and once it runs a script, that
/// is the script of the request's kind, built from the request's own fields
/// and the paths of all its inodes in the order the request names them.
pub open spec fn runs_own_script(t: RequestTaskView) -> bool {
    match t.phase {
        PhaseView::Resolving(search) => {
            &&& t.found.len() < inos_of(t.request).len()
            &&& search.target == inos_of(t.request)[t.found.len() as int]
        },
        PhaseView::Running(run) => {
            &&& t.found.len() == inos_of(t.request).len()
            &&& run.script == script_for(t.fs, t.request, t.found)
        },
        PhaseView::Done => true,
    }
}

proof fn lemma_resolve_runs_own_script(fs: VmeFsView, req: FsOpRequest, found: Seq<Seq<char>>)
    requires
        found.len() <= inos_of(req).len(),
    ensures
        ({
            let (found2, ph, c) = resolve(fs, req, found);
            runs_own_script(RequestTaskView { fs, request: req, found: found2, phase: ph })
        }),
    decreases inos_of(req).len() - found.len(),
{
    if found.len() < inos_of(req).len() {
        let (search, step) = crate::search::search_start(fs.root, inos_of(req)[found.len() as int]);
        match step {
            SearchStepView::Found(p) => {
                if !(guards_meta(req) && is_meta(p)) {
                    lemma_resolve_runs_own_script(fs, req, found.push(p));
                }
            },
            _ => {},
        }
    } else {
        lemma_run_from(script_for(fs, req, found), 0);
    }
}

/// Every task starts running its own request, as `runs_own_script` says.
pub proof fn law_start_runs_own_script(fs: VmeFsView, req: FsOpRequest)
    ensures
        runs_own_script(handle_spec(fs, req).0),
{
    lemma_resolve_runs_own_script(fs, req, Seq::empty());
}

/// Whatever the host replies, a task goes on running its own request, as
/// `runs_own_script` says: each request is served by the script of its own
/// kind, with its own fields, and never by another's.
pub proof fn law_resume_runs_own_script(t: RequestTaskView, reply: HostReplyView)
    requires
        runs_own_script(t),
    ensures
        runs_own_script(resume_spec(t, reply).0),
{
    match t.phase {
        PhaseView::Resolving(search) => {
            match reply {
                HostReplyView::Listing(listing) => {
                    let (search2, step) = search_step(search, listing);
                    lemma_search_keeps_target(search, listing);
                    match step {
                        SearchStepView::Found(p) => {
                            if !(guards_meta(t.request) && is_meta(p)) {
                                lemma_resolve_runs_own_script(t.fs, t.request, t.found.push(p));
                            }
                        },
                        _ => {},
                    }
                },
                _ => {},
            }
        },
        PhaseView::Running(run) => {
            lemma_run_keeps_script(run, reply);
        },
        PhaseView::Done => {},
    }
}

proof fn lemma_advance_keeps_target(s: InoSearchView)
    ensures
        advance(s).0.target == s.target,
    decreases pending(s.stack),
{
    if s.stack.len() > 0 {
        let top = s.stack.last();
        let rest = s.stack.drop_last();
        crate::search::lemma_pending_push(rest, FrameView { next: top.next + 1, ..top });
        if top.next >= top.items.len() {
            lemma_advance_keeps_target(InoSearchView { stack: rest, ..s });
        } else {
            lemma_advance_keeps_target(
                InoSearchView { stack: rest.push(FrameView { next: top.next + 1, ..top }), ..s },
            );
        }
    }
}

proof fn lemma_search_keeps_target(s: InoSearchView, listing: Result<Seq<DirItemView>, crate::abi::ErrorKind>)
    ensures
        search_step(s, listing).0.target == s.target,
{
    match listing {
        Ok(items) => lemma_advance_keeps_target(
            InoSearchView { stack: s.stack.push(FrameView { items, next: 0 }), ..s },
        ),
        Err(_) => lemma_advance_keeps_target(s),
    }
}

proof fn lemma_run_keeps_script(run: RunView, reply: HostReplyView)
    ensures
        run_step(run, reply).0 matches PhaseView::Running(run2) ==> run2.script == run.script,
{
    lemma_run_from(run.script, run.pc + 1);
    match run.wait {
        WaitView::FinishList => {
            match reply {
                HostReplyView::Listing(Ok(items)) => {
                    lemma_scan_keeps_script(run.script, run.pc, items, 0, Seq::empty());
                },
                _ => {},
            }
        },
        WaitView::Scan(sc) => {
            let (read2, p) = entry_step(sc.read, reply);
            match p {
                EntryProgressView::Read(Ok(entry)) => {
                    lemma_scan_keeps_script(run.script, run.pc, sc.items, sc.next + 1, sc.acc.push(entry));
                },
                _ => {},
            }
        },
        _ => {},
    }
}

proof fn lemma_scan_keeps_script(
    script: ScriptView,
    pc: nat,
    items: Seq<DirItemView>,
    i: nat,
    acc: Seq<crate::abi::FsEntryView>,
)
    ensures
        scan_from(script, pc, items, i, acc).0 matches PhaseView::Running(run) ==> run.script == script,
{
}

/// An entry given as the answer was read at the path the script makes its
/// response from, and carries the content of that path's own metadata file.
pub open spec fn entry_answer_read_at_finish(run: RunView, reply: HostReplyView, c: CommandView) -> bool {
    match c {
        CommandView::Complete(Ok(FsOpResponseView::GetAttr { entry })) => match run.wait {
            WaitView::FinishEntry(read) => {
                &&& run.script.finish == FinishView::Entry(read.path)
                &&& entry_given_from_meta_file(read, reply, EntryProgressView::Read(Ok(entry)))
            },
            _ => false,
        },
        _ => true,
    }
}

/// The entries a listing reads: those the host listed.
pub open spec fn listed_items(run: RunView, reply: HostReplyView) -> Option<Seq<DirItemView>> {
    match run.wait {
        WaitView::Scan(sc) => Some(sc.items),
        WaitView::FinishList => match reply {
            HostReplyView::Listing(Ok(items)) => Some(items),
            _ => None,
        },
        _ => None,
    }
}

/// A listing answered with success gives one entry for each listed entry
/// that is no metadata file, from the offset on.
pub open spec fn listing_answer_complete(run: RunView, reply: HostReplyView, c: CommandView) -> bool {
    match c {
        CommandView::Complete(Ok(FsOpResponseView::ReadDir { entries })) => match listed_items(run, reply) {
            Some(items) => entries.len() == paged_len(
                plain_count(items, items.len()),
                crate::request::listing_offset(run.script.finish),
            ),
            None => false,
        },
        _ => true,
    }
}

/// Where the read of a listed entry fails, the listing fails with that
/// read's error.
pub open spec fn listing_read_failure_fails(run: RunView, reply: HostReplyView, c: CommandView) -> bool {
    match run.wait {
        WaitView::Scan(sc) => match entry_step(sc.read, reply).1 {
            EntryProgressView::Read(Err(e)) => c == CommandView::Complete(Err(e)),
            _ => true,
        },
        _ => true,
    }
}

/// What a script answers comes from what it read: an entry answer is the
/// entry read at the script's response path, with the content of that path's
/// metadata file; a listing answers with success only with one entry per
/// listed entry that is no metadata file (from its offset), so it never stops
/// early; and a listed entry that cannot be read fails the listing with that
/// read's error.
pub proof fn law_answers_come_from_reads(run: RunView, reply: HostReplyView)
    requires
        wait_fits(run),
    ensures
        entry_answer_read_at_finish(run, reply, run_step(run, reply).1),
        listing_answer_complete(run, reply, run_step(run, reply).1),
        listing_read_failure_fails(run, reply, run_step(run, reply).1),
{
    lemma_run_from(run.script, run.pc + 1);
    lemma_run_from_no_listing(run.script, run.pc + 1);
    match run.wait {
        WaitView::FinishList => {
            match reply {
                HostReplyView::Listing(Ok(items)) => {
                    lemma_scan_from(run.script, run.pc, items, 0, Seq::empty());
                },
                _ => {},
            }
        },
        WaitView::Scan(sc) => {
            let (read2, p) = entry_step(sc.read, reply);
            match p {
                EntryProgressView::Read(Ok(entry)) => {
                    lemma_scan_from(run.script, run.pc, sc.items, sc.next + 1, sc.acc.push(entry));
                },
                _ => {},
            }
        },
        WaitView::FinishEntry(read) => {
            law_entry_metadata_is_meta_file(read, reply);
        },
        _ => {},
    }
}

proof fn lemma_run_from_no_listing(script: ScriptView, pc: nat)
    ensures
        !(run_from(script, pc).1 matches CommandView::Complete(Ok(FsOpResponseView::ReadDir { .. }))),
        !(run_from(script, pc).1 matches CommandView::Complete(Ok(FsOpResponseView::GetAttr { .. }))),
{
}

} // verus!
