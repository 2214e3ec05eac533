use vme_fs::abi::{
    Error, ErrorKind, FileType, FsEntry, FsOpRequest, FsOpResponse, HostMetadata, LinkTarget,
    RawMetadata,
};
use vme_fs::fs::VmeFs;
use vme_fs::host::{DirItem, EntryInfo, Fault, HostAction, HostReply, Notice};
use vme_fs::request::Command;

fn s(x: &str) -> String {
    x.to_string()
}

fn raw(ino: u64, is_file: bool, is_dir: bool) -> RawMetadata {
    RawMetadata {
        is_file,
        is_dir,
        is_symlink: false,
        blocks: 8,
        ino,
        nlink: 1,
        rdev: 0,
        atime: 10,
        mtime: 20,
        ctime: 30,
    }
}

fn host(ino: u64, kind: FileType) -> HostMetadata {
    HostMetadata { blocks: 8, ino, kind, nlink: 1, rdev: 0, atime: 10, mtime: 20, ctime: 30 }
}

fn fs() -> VmeFs {
    VmeFs::new(s("/srv"))
}

fn item(path: &str, ino: u64, is_dir: bool) -> DirItem {
    DirItem { path: s(path), info: Some(EntryInfo { ino, is_dir }) }
}

/// The replies that make a read of an entry succeed.
fn entry_ok(r: RawMetadata, meta: &[u8]) -> Vec<HostReply> {
    vec![
        HostReply::Metadata(Ok(r)),
        HostReply::Exists(true),
        HostReply::Content(Ok(meta.to_vec())),
    ]
}

/// Serves `req`, handing the task `replies` one by one, and gives the
/// actions it asked for and its last command.
fn drive(fs: &VmeFs, req: FsOpRequest, replies: Vec<HostReply>) -> (Vec<HostAction>, Command) {
    let (mut task, mut cmd) = fs.handle_request(req);
    let mut actions = Vec::new();
    for reply in replies {
        match cmd {
            Command::Perform(a) => actions.push(a),
            other => panic!("the task answered early: {:?}", other),
        }
        cmd = task.resume(reply);
    }
    (actions, cmd)
}

fn write_meta(path: &str, content: &[u8], flags: Option<i32>) -> HostAction {
    HostAction::WriteFile { path: s(path), content: content.to_vec(), custom_flags: flags }
}

#[test]
fn new_reads_the_platform_open_flags() {
    let fs = fs();
    assert_eq!(fs.root_path(), "/srv");
    assert_eq!(fs.o_sync(), nix::libc::O_SYNC);
    assert_eq!(fs.o_dsync(), nix::libc::O_DSYNC);
}

#[test]
fn getattr_of_root_needs_no_walk() {
    let fs = fs();
    let replies = entry_ok(raw(1, false, true), b"root-meta");
    let (actions, cmd) = drive(&fs, FsOpRequest::GetAttr { ino: 1 }, replies);
    assert_eq!(
        actions,
        vec![
            HostAction::Metadata { path: s("/srv") },
            HostAction::Exists { path: s("/srv.meta") },
            HostAction::ReadFile { path: s("/srv.meta") },
        ]
    );
    assert_eq!(
        cmd,
        Command::Complete(Ok(FsOpResponse::GetAttr {
            entry: FsEntry {
                metadata: b"root-meta".to_vec(),
                host_metadata: host(1, FileType::Directory),
            },
        }))
    );
}

#[test]
fn getattr_walks_the_tree_depth_first() {
    let fs = fs();
    let mut replies = vec![
        HostReply::Listing(Ok(vec![
            item("/srv/x", 4, false),
            item("/srv/d", 5, true),
            item("/srv/y", 9, false),
        ])),
        HostReply::Listing(Ok(vec![item("/srv/d/z", 9, false)])),
    ];
    replies.extend(entry_ok(raw(9, true, false), b"z"));
    let (actions, cmd) = drive(&fs, FsOpRequest::GetAttr { ino: 9 }, replies);
    assert_eq!(actions[0], HostAction::ReadDir { path: s("/srv") });
    assert_eq!(actions[1], HostAction::ReadDir { path: s("/srv/d") });
    assert_eq!(actions[2], HostAction::Metadata { path: s("/srv/d/z") });
    assert_eq!(
        cmd,
        Command::Complete(Ok(FsOpResponse::GetAttr {
            entry: FsEntry { metadata: b"z".to_vec(), host_metadata: host(9, FileType::RegularFile) },
        }))
    );
}

#[test]
fn walk_skips_unreadable_entries_and_directories() {
    let fs = fs();
    let replies = vec![
        HostReply::Listing(Ok(vec![
            DirItem { path: s("/srv/broken"), info: None },
            item("/srv/locked", 5, true),
            item("/srv/open", 6, true),
        ])),
        HostReply::Listing(Err(ErrorKind::PermissionDenied)),
        HostReply::Listing(Ok(vec![item("/srv/open/f", 12, false)])),
    ];
    let (actions, cmd) = drive(&fs, FsOpRequest::Read { ino: 12 }, replies);
    assert_eq!(
        actions,
        vec![
            HostAction::ReadDir { path: s("/srv") },
            HostAction::ReadDir { path: s("/srv/locked") },
            HostAction::ReadDir { path: s("/srv/open") },
        ]
    );
    assert_eq!(cmd, Command::Perform(HostAction::ReadFile { path: s("/srv/open/f") }));
}

#[test]
fn unknown_inode_is_not_found() {
    let fs = fs();
    let (actions, cmd) = drive(
        &fs,
        FsOpRequest::GetAttr { ino: 77 },
        vec![HostReply::Listing(Ok(vec![item("/srv/a", 3, false)]))],
    );
    assert_eq!(actions, vec![HostAction::ReadDir { path: s("/srv") }]);
    assert_eq!(cmd, Command::Complete(Err(Error::Command(ErrorKind::NotFound))));
}

#[test]
fn lookup_of_missing_name_is_not_found() {
    let fs = fs();
    let (actions, cmd) = drive(
        &fs,
        FsOpRequest::Lookup { ino: 1, name: s("nope") },
        vec![HostReply::Exists(false)],
    );
    assert_eq!(actions, vec![HostAction::Exists { path: s("/srv/nope") }]);
    assert_eq!(cmd, Command::Complete(Err(Error::Command(ErrorKind::NotFound))));
}

#[test]
fn lookup_reads_the_named_entry() {
    let fs = fs();
    let mut replies = vec![HostReply::Exists(true)];
    replies.extend(entry_ok(raw(3, true, false), b"m"));
    let (actions, cmd) = drive(&fs, FsOpRequest::Lookup { ino: 1, name: s("a") }, replies);
    assert_eq!(actions[1], HostAction::Metadata { path: s("/srv/a") });
    assert_eq!(actions[2], HostAction::Exists { path: s("/srv/a.meta") });
    assert_eq!(actions[3], HostAction::ReadFile { path: s("/srv/a.meta") });
    assert_eq!(
        cmd,
        Command::Complete(Ok(FsOpResponse::GetAttr {
            entry: FsEntry { metadata: b"m".to_vec(), host_metadata: host(3, FileType::RegularFile) },
        }))
    );
}

#[test]
fn entry_without_metadata_file_is_not_found() {
    let fs = fs();
    let (_, cmd) = drive(
        &fs,
        FsOpRequest::GetAttr { ino: 1 },
        vec![HostReply::Metadata(Ok(raw(1, false, true))), HostReply::Exists(false)],
    );
    assert_eq!(cmd, Command::Complete(Err(Error::Command(ErrorKind::NotFound))));
}

#[test]
fn host_errors_are_passed_on() {
    let fs = fs();
    let (_, cmd) = drive(
        &fs,
        FsOpRequest::GetAttr { ino: 1 },
        vec![HostReply::Metadata(Err(ErrorKind::PermissionDenied))],
    );
    assert_eq!(cmd, Command::Complete(Err(Error::Command(ErrorKind::PermissionDenied))));
}

#[test]
fn unsupported_file_type_is_a_fault() {
    let fs = fs();
    let (_, cmd) = drive(
        &fs,
        FsOpRequest::GetAttr { ino: 1 },
        vec![HostReply::Metadata(Ok(raw(1, false, false)))],
    );
    assert_eq!(cmd, Command::Fault(Fault::UnsupportedFileType));
}

#[test]
fn unexpected_replies_are_faults() {
    let fs = fs();
    let (_, cmd) = drive(&fs, FsOpRequest::GetAttr { ino: 1 }, vec![HostReply::Exists(true)]);
    assert_eq!(cmd, Command::Fault(Fault::UnexpectedReply));
    let (mut task, cmd) = fs.handle_request(FsOpRequest::InitRoot { metadata: vec![] });
    assert_eq!(cmd, Command::Perform(HostAction::Metadata { path: s("/srv") }));
    for r in entry_ok(raw(1, false, true), b"x") {
        task.resume(r);
    }
    assert_eq!(task.resume(HostReply::Done(Ok(()))), Command::Fault(Fault::UnexpectedReply));
}

#[test]
fn mkdir_of_existing_name_fails_without_change() {
    let fs = fs();
    let (actions, cmd) = drive(
        &fs,
        FsOpRequest::Mkdir { ino: 1, name: s("d"), metadata: b"m".to_vec() },
        vec![HostReply::Exists(true)],
    );
    assert_eq!(actions, vec![HostAction::Exists { path: s("/srv/d") }]);
    assert_eq!(cmd, Command::Complete(Err(Error::Command(ErrorKind::AlreadyExists))));
}

#[test]
fn mkdir_removes_the_directory_when_its_metadata_cannot_be_written() {
    let fs = fs();
    let (actions, cmd) = drive(
        &fs,
        FsOpRequest::Mkdir { ino: 1, name: s("d"), metadata: b"m".to_vec() },
        vec![
            HostReply::Exists(false),
            HostReply::Done(Ok(())),
            HostReply::Done(Err(ErrorKind::Other)),
            HostReply::Done(Err(ErrorKind::PermissionDenied)),
        ],
    );
    assert_eq!(
        actions,
        vec![
            HostAction::Exists { path: s("/srv/d") },
            HostAction::CreateDir { path: s("/srv/d") },
            write_meta("/srv/d.meta", b"m", None),
            HostAction::RemoveDir { path: s("/srv/d") },
        ]
    );
    assert_eq!(cmd, Command::Complete(Err(Error::Command(ErrorKind::Other))));
}

#[test]
fn mkdir_makes_the_directory_and_its_metadata_file() {
    let fs = fs();
    let mut replies =
        vec![HostReply::Exists(false), HostReply::Done(Ok(())), HostReply::Done(Ok(()))];
    replies.extend(entry_ok(raw(20, false, true), b"m"));
    let (actions, cmd) = drive(
        &fs,
        FsOpRequest::Mkdir { ino: 1, name: s("d"), metadata: b"m".to_vec() },
        replies,
    );
    assert_eq!(actions[3], HostAction::Metadata { path: s("/srv/d") });
    assert_eq!(
        cmd,
        Command::Complete(Ok(FsOpResponse::GetAttr {
            entry: FsEntry { metadata: b"m".to_vec(), host_metadata: host(20, FileType::Directory) },
        }))
    );
}

#[test]
fn create_carries_only_the_sync_flags() {
    let fs = fs();
    let flags = nix::libc::O_DSYNC | nix::libc::O_RDWR | nix::libc::O_APPEND;
    let (actions, cmd) = drive(
        &fs,
        FsOpRequest::Create { parent: 1, name: s("f"), metadata: b"m".to_vec(), flags },
        vec![HostReply::Done(Ok(())), HostReply::Done(Err(ErrorKind::Other)), HostReply::Done(Ok(()))],
    );
    let sync = Some(flags & (nix::libc::O_SYNC | nix::libc::O_DSYNC));
    assert_eq!(
        actions,
        vec![
            HostAction::WriteFile { path: s("/srv/f"), content: vec![], custom_flags: sync },
            write_meta("/srv/f.meta", b"m", sync),
            HostAction::RemoveFile { path: s("/srv/f") },
        ]
    );
    assert_eq!(cmd, Command::Complete(Err(Error::Command(ErrorKind::Other))));
}

#[test]
fn create_without_sync_flags_opens_plainly() {
    let fs = fs();
    let (_, cmd) = drive(
        &fs,
        FsOpRequest::Create { parent: 1, name: s("f"), metadata: b"m".to_vec(), flags: nix::libc::O_RDWR },
        vec![],
    );
    assert_eq!(
        cmd,
        Command::Perform(HostAction::WriteFile { path: s("/srv/f"), content: vec![], custom_flags: None })
    );
}

#[test]
fn read_and_readlink_give_the_file_content() {
    let fs = fs();
    let (actions, cmd) = drive(
        &fs,
        FsOpRequest::Read { ino: 1 },
        vec![HostReply::Content(Ok(b"data".to_vec()))],
    );
    assert_eq!(actions, vec![HostAction::ReadFile { path: s("/srv") }]);
    assert_eq!(cmd, Command::Complete(Ok(FsOpResponse::FileContent { content: b"data".to_vec() })));
    let (actions, cmd) = drive(
        &fs,
        FsOpRequest::Readlink { ino: 1 },
        vec![HostReply::Done(Ok(())), HostReply::Content(Ok(b"target".to_vec()))],
    );
    assert_eq!(
        actions,
        vec![
            HostAction::Notify { notice: Notice::ReadingLink { path: s("/srv") } },
            HostAction::ReadFile { path: s("/srv") },
        ]
    );
    assert_eq!(cmd, Command::Complete(Ok(FsOpResponse::Readlink { target: b"target".to_vec() })));
    let (_, cmd) = drive(
        &fs,
        FsOpRequest::Read { ino: 1 },
        vec![HostReply::Content(Err(ErrorKind::IsADirectory))],
    );
    assert_eq!(cmd, Command::Complete(Err(Error::Command(ErrorKind::IsADirectory))));
}

fn listing_replies(offset: i64) -> Command {
    let fs = fs();
    let mut replies = vec![HostReply::Listing(Ok(vec![
        item("/srv/a", 3, false),
        item("/srv/a.meta", 4, false),
        item("/srv/b", 5, true),
        item("/srv/b.meta", 6, false),
    ]))];
    replies.extend(entry_ok(raw(3, true, false), b"A"));
    replies.extend(entry_ok(raw(5, false, true), b"B"));
    let (actions, cmd) = drive(&fs, FsOpRequest::ReadDir { ino: 1, offset }, replies);
    assert_eq!(actions[0], HostAction::ReadDir { path: s("/srv") });
    assert_eq!(actions[1], HostAction::Metadata { path: s("/srv/a") });
    assert_eq!(actions[4], HostAction::Metadata { path: s("/srv/b") });
    cmd
}

#[test]
fn readdir_hides_metadata_files() {
    let a = FsEntry { metadata: b"A".to_vec(), host_metadata: host(3, FileType::RegularFile) };
    let b = FsEntry { metadata: b"B".to_vec(), host_metadata: host(5, FileType::Directory) };
    assert_eq!(listing_replies(0), Command::Complete(Ok(FsOpResponse::ReadDir { entries: vec![a, b] })));
}

#[test]
fn readdir_starts_at_the_offset() {
    let b = FsEntry { metadata: b"B".to_vec(), host_metadata: host(5, FileType::Directory) };
    assert_eq!(listing_replies(1), Command::Complete(Ok(FsOpResponse::ReadDir { entries: vec![b] })));
    assert_eq!(listing_replies(2), Command::Complete(Ok(FsOpResponse::ReadDir { entries: vec![] })));
    assert_eq!(listing_replies(-1), Command::Complete(Ok(FsOpResponse::ReadDir { entries: vec![] })));
}

#[test]
fn readdir_of_a_metadata_file_is_a_fault() {
    let fs = fs();
    let (_, cmd) = drive(
        &fs,
        FsOpRequest::ReadDir { ino: 4, offset: 0 },
        vec![HostReply::Listing(Ok(vec![item("/srv/a.meta", 4, false)]))],
    );
    assert_eq!(cmd, Command::Fault(Fault::MetadataFileAccess));
}

#[test]
fn getattr_of_a_metadata_file_is_served() {
    let fs = fs();
    let (actions, _) = drive(
        &fs,
        FsOpRequest::GetAttr { ino: 4 },
        vec![HostReply::Listing(Ok(vec![item("/srv/a.meta", 4, false)])), HostReply::Metadata(Ok(raw(4, true, false)))],
    );
    assert_eq!(actions[1], HostAction::Metadata { path: s("/srv/a.meta") });
}

#[test]
fn rename_moves_the_entry_then_its_metadata_file() {
    let fs = fs();
    let (actions, cmd) = drive(
        &fs,
        FsOpRequest::Rename { parent: 1, name: s("a"), new_parent: 1, new_name: s("b") },
        vec![
            HostReply::Exists(true),
            HostReply::Exists(true),
            HostReply::Done(Ok(())),
            HostReply::Done(Ok(())),
        ],
    );
    assert_eq!(
        actions,
        vec![
            HostAction::Exists { path: s("/srv/a") },
            HostAction::Exists { path: s("/srv/a.meta") },
            HostAction::Rename { from: s("/srv/a"), to: s("/srv/b") },
            HostAction::Rename { from: s("/srv/a.meta"), to: s("/srv/b.meta") },
        ]
    );
    assert_eq!(cmd, Command::Complete(Ok(FsOpResponse::Empty)));
}

#[test]
fn rename_without_metadata_file_is_not_found() {
    let fs = fs();
    let (actions, cmd) = drive(
        &fs,
        FsOpRequest::Rename { parent: 1, name: s("a"), new_parent: 1, new_name: s("b") },
        vec![HostReply::Exists(true), HostReply::Exists(false), HostReply::Done(Ok(()))],
    );
    assert_eq!(
        actions[2],
        HostAction::Notify { notice: Notice::RenameMetaMissing { path: s("/srv/a.meta") } }
    );
    assert_eq!(cmd, Command::Complete(Err(Error::Command(ErrorKind::NotFound))));
}

#[test]
fn rename_of_missing_entry_warns_then_fails() {
    let fs = fs();
    let (actions, cmd) = drive(
        &fs,
        FsOpRequest::Rename { parent: 1, name: s("a"), new_parent: 1, new_name: s("b") },
        vec![HostReply::Exists(false), HostReply::Done(Ok(()))],
    );
    assert_eq!(
        actions,
        vec![
            HostAction::Exists { path: s("/srv/a") },
            HostAction::Notify { notice: Notice::RenameSourceMissing { path: s("/srv/a") } },
        ]
    );
    assert_eq!(cmd, Command::Complete(Err(Error::Command(ErrorKind::NotFound))));
}

#[test]
fn rename_resolves_both_parents() {
    let fs = fs();
    let (actions, cmd) = drive(
        &fs,
        FsOpRequest::Rename { parent: 1, name: s("a"), new_parent: 5, new_name: s("b") },
        vec![HostReply::Listing(Ok(vec![item("/srv/d", 5, true)])), HostReply::Exists(true)],
    );
    assert_eq!(actions[0], HostAction::ReadDir { path: s("/srv") });
    assert_eq!(actions[1], HostAction::Exists { path: s("/srv/a") });
    assert_eq!(cmd, Command::Perform(HostAction::Exists { path: s("/srv/a.meta") }));
}

#[test]
fn rmdir_of_a_file_is_not_a_directory() {
    let fs = fs();
    let (_, cmd) = drive(
        &fs,
        FsOpRequest::RmDir { ino: 1, name: s("f") },
        vec![HostReply::Exists(true), HostReply::Metadata(Ok(raw(3, true, false)))],
    );
    assert_eq!(cmd, Command::Complete(Err(Error::Command(ErrorKind::NotADirectory))));
}

#[test]
fn rmdir_removes_the_directory_then_its_metadata_file() {
    let fs = fs();
    let (actions, cmd) = drive(
        &fs,
        FsOpRequest::RmDir { ino: 1, name: s("d") },
        vec![
            HostReply::Exists(true),
            HostReply::Metadata(Ok(raw(3, false, true))),
            HostReply::Exists(true),
            HostReply::Done(Ok(())),
            HostReply::Done(Ok(())),
        ],
    );
    assert_eq!(actions[3], HostAction::RemoveDir { path: s("/srv/d") });
    assert_eq!(actions[4], HostAction::RemoveFile { path: s("/srv/d.meta") });
    assert_eq!(cmd, Command::Complete(Ok(FsOpResponse::Empty)));
}

#[test]
fn unlink_of_a_directory_is_a_directory() {
    let fs = fs();
    let (_, cmd) = drive(
        &fs,
        FsOpRequest::Unlink { ino: 1, name: s("d") },
        vec![HostReply::Exists(true), HostReply::Metadata(Ok(raw(3, false, true)))],
    );
    assert_eq!(cmd, Command::Complete(Err(Error::Command(ErrorKind::IsADirectory))));
}

#[test]
fn unlink_removes_the_file_then_its_metadata_file() {
    let fs = fs();
    let (actions, cmd) = drive(
        &fs,
        FsOpRequest::Unlink { ino: 1, name: s("f") },
        vec![
            HostReply::Exists(true),
            HostReply::Metadata(Ok(raw(3, true, false))),
            HostReply::Exists(true),
            HostReply::Done(Ok(())),
            HostReply::Done(Err(ErrorKind::NotFound)),
        ],
    );
    assert_eq!(actions[3], HostAction::RemoveFile { path: s("/srv/f") });
    assert_eq!(actions[4], HostAction::RemoveFile { path: s("/srv/f.meta") });
    assert_eq!(cmd, Command::Complete(Err(Error::Command(ErrorKind::NotFound))));
}

#[test]
fn setattr_rewrites_the_metadata_file_with_o_sync() {
    let fs = fs();
    let mut replies = entry_ok(raw(1, false, true), b"old");
    replies.push(HostReply::Done(Ok(())));
    replies.extend(entry_ok(raw(1, false, true), b"new"));
    let (actions, cmd) = drive(&fs, FsOpRequest::SetAttr { ino: 1, metadata: b"new".to_vec() }, replies);
    assert_eq!(actions[3], write_meta("/srv.meta", b"new", Some(nix::libc::O_SYNC)));
    assert_eq!(
        cmd,
        Command::Complete(Ok(FsOpResponse::GetAttr {
            entry: FsEntry { metadata: b"new".to_vec(), host_metadata: host(1, FileType::Directory) },
        }))
    );
}

#[test]
fn setattr_of_unreadable_entry_fails() {
    let fs = fs();
    let (_, cmd) = drive(
        &fs,
        FsOpRequest::SetAttr { ino: 1, metadata: b"new".to_vec() },
        vec![HostReply::Metadata(Ok(raw(1, false, true))), HostReply::Exists(false)],
    );
    assert_eq!(cmd, Command::Complete(Err(Error::Command(ErrorKind::NotFound))));
}

#[test]
fn symlink_targets_resolve_below_the_root_when_relative() {
    let fs = fs();
    let (_, cmd) = drive(
        &fs,
        FsOpRequest::Symlink {
            parent: 1,
            name: s("l"),
            target: LinkTarget::Relative(s("x/y")),
            metadata: b"m".to_vec(),
        },
        vec![],
    );
    assert_eq!(cmd, Command::Perform(HostAction::Symlink { target: s("/srv/x/y"), link: s("/srv/l") }));
    let (actions, cmd) = drive(
        &fs,
        FsOpRequest::Symlink {
            parent: 1,
            name: s("l"),
            target: LinkTarget::Absolute(s("/etc/hosts")),
            metadata: b"m".to_vec(),
        },
        vec![HostReply::Done(Ok(()))],
    );
    assert_eq!(actions[0], HostAction::Symlink { target: s("/etc/hosts"), link: s("/srv/l") });
    assert_eq!(cmd, Command::Perform(write_meta("/srv/l.meta", b"m", None)));
}

#[test]
fn link_adds_a_name_with_its_own_metadata_file() {
    let fs = fs();
    let (actions, cmd) = drive(
        &fs,
        FsOpRequest::Link { ino: 1, new_parent: 1, new_name: s("h"), metadata: b"m".to_vec() },
        vec![HostReply::Done(Ok(())), HostReply::Done(Ok(()))],
    );
    assert_eq!(actions[0], HostAction::HardLink { existing: s("/srv"), link: s("/srv/h") });
    assert_eq!(actions[1], write_meta("/srv/h.meta", b"m", None));
    assert_eq!(cmd, Command::Perform(HostAction::Metadata { path: s("/srv/h") }));
}

#[test]
fn write_replaces_the_content() {
    let fs = fs();
    let (actions, cmd) = drive(
        &fs,
        FsOpRequest::Write { ino: 1, content: b"abc".to_vec(), flags: nix::libc::O_SYNC },
        vec![HostReply::Done(Ok(()))],
    );
    assert_eq!(
        actions,
        vec![HostAction::WriteFile {
            path: s("/srv"),
            content: b"abc".to_vec(),
            custom_flags: Some(nix::libc::O_SYNC),
        }]
    );
    assert_eq!(cmd, Command::Complete(Ok(FsOpResponse::Empty)));
}

#[test]
fn initroot_writes_the_root_metadata_file_when_missing() {
    let fs = fs();
    let (actions, cmd) = drive(
        &fs,
        FsOpRequest::InitRoot { metadata: b"r".to_vec() },
        vec![HostReply::Metadata(Ok(raw(1, false, true))), HostReply::Exists(false), HostReply::Done(Ok(()))],
    );
    assert_eq!(actions[2], write_meta("/srv.meta", b"r", None));
    assert_eq!(cmd, Command::Complete(Ok(FsOpResponse::Empty)));
}

#[test]
fn initroot_keeps_an_existing_root_metadata_file() {
    let fs = fs();
    let (actions, cmd) =
        drive(&fs, FsOpRequest::InitRoot { metadata: b"r".to_vec() }, entry_ok(raw(1, false, true), b"old"));
    assert_eq!(actions.len(), 3);
    assert_eq!(cmd, Command::Complete(Ok(FsOpResponse::Empty)));
}
