use vme_fs::abi::{Error, ErrorKind, FileType, FsEntry, HostMetadata, RawMetadata};
use vme_fs::flags::sync_flags;
use vme_fs::fs::{RootSetup, VmeFs};
use vme_fs::paths::{join, meta_path_of};
use vme_fs::platform::{Standalone, StandaloneArgs};
use vme_fs::request::skip_entries;

fn s(x: &str) -> String {
    x.to_string()
}

#[test]
fn join_appends_a_name() {
    assert_eq!(join(&s("/srv"), &s("a")), "/srv/a");
    assert_eq!(join(&s("/srv/"), &s("a")), "/srv/a");
    assert_eq!(join(&s("/srv"), &s("/abs")), "/abs");
    assert_eq!(join(&s(""), &s("a")), "a");
    assert_eq!(join(&s("srv"), &s("a/b")), "srv/a/b");
}

#[test]
fn meta_path_replaces_the_extension() {
    assert_eq!(meta_path_of(&s("/srv/a")), "/srv/a.meta");
    assert_eq!(meta_path_of(&s("/srv/a.txt")), "/srv/a.meta");
    assert_eq!(meta_path_of(&s("/srv")), "/srv.meta");
}

#[test]
fn metadata_files_are_recognised_by_extension() {
    assert!(VmeFs::is_metadata_file(&s("/srv/a.meta")));
    assert!(!VmeFs::is_metadata_file(&s("/srv/a")));
    assert!(!VmeFs::is_metadata_file(&s("/srv/a.meta.txt")));
    assert!(!VmeFs::is_metadata_file(&s("/srv/.meta")));
    assert!(VmeFs::is_metadata_file(&meta_path_of(&s("/srv/b"))));
}

#[test]
fn sync_flags_keep_only_the_sync_bits() {
    assert_eq!(sync_flags(0x10_0000 | 0x2, 0x10_1000, 0x1000), Some(0x10_0000));
    assert_eq!(sync_flags(0x10_1000, 0x10_1000, 0x1000), Some(0x10_1000));
    assert_eq!(sync_flags(0x1000 | 0x2, 0x10_1000, 0x1000), Some(0x1000));
    assert_eq!(sync_flags(0x2, 0x10_1000, 0x1000), None);
    assert_eq!(sync_flags(0, 0x10_1000, 0x1000), None);
}

fn raw(is_file: bool, is_dir: bool, is_symlink: bool) -> RawMetadata {
    RawMetadata {
        is_file,
        is_dir,
        is_symlink,
        blocks: 1,
        ino: 42,
        nlink: (1u64 << 32) + 5,
        rdev: 7,
        atime: -1,
        mtime: 100,
        ctime: 200,
    }
}

#[test]
fn host_metadata_narrows_and_reinterprets_numbers() {
    let m = HostMetadata::from_raw(raw(true, false, false));
    assert_eq!(
        m,
        HostMetadata {
            blocks: 1,
            ino: 42,
            kind: FileType::RegularFile,
            nlink: 5,
            rdev: 7,
            atime: u64::MAX,
            mtime: 100,
            ctime: 200,
        }
    );
}

#[test]
fn host_metadata_kind_prefers_file_then_directory() {
    assert_eq!(HostMetadata::from_raw(raw(true, true, true)).kind, FileType::RegularFile);
    assert_eq!(HostMetadata::from_raw(raw(false, true, true)).kind, FileType::Directory);
    assert_eq!(HostMetadata::from_raw(raw(false, false, true)).kind, FileType::Symlink);
    assert!(!raw(false, false, false).supported());
    assert!(raw(false, false, true).supported());
}

fn entry(n: u8) -> FsEntry {
    FsEntry {
        metadata: vec![n],
        host_metadata: HostMetadata {
            blocks: 0,
            ino: n as u64,
            kind: FileType::RegularFile,
            nlink: 1,
            rdev: 0,
            atime: 0,
            mtime: 0,
            ctime: 0,
        },
    }
}

#[test]
fn skip_entries_pages_a_listing() {
    assert_eq!(skip_entries(vec![entry(1), entry(2), entry(3)], 0), vec![entry(1), entry(2), entry(3)]);
    assert_eq!(skip_entries(vec![entry(1), entry(2), entry(3)], 2), vec![entry(3)]);
    assert_eq!(skip_entries(vec![entry(1), entry(2), entry(3)], 3), vec![]);
    assert_eq!(skip_entries(vec![entry(1), entry(2), entry(3)], 99), vec![]);
    assert_eq!(skip_entries(vec![entry(1)], -1), vec![]);
    assert_eq!(skip_entries(vec![], 0), vec![]);
}

#[test]
fn root_setup_decides_from_the_root_state() {
    assert_eq!(VmeFs::root_setup(true, true), RootSetup::Ready);
    assert_eq!(VmeFs::root_setup(true, false), RootSetup::NotADirectory);
    assert_eq!(VmeFs::root_setup(false, false), RootSetup::CreateDirAll);
}

#[test]
fn error_constructors_name_their_kind() {
    assert_eq!(VmeFs::file_not_found_err(), Error::Command(ErrorKind::NotFound));
    assert_eq!(VmeFs::not_directory_err(), Error::Command(ErrorKind::NotADirectory));
    assert_eq!(VmeFs::is_directory_err(), Error::Command(ErrorKind::IsADirectory));
    assert_eq!(VmeFs::not_empty_err(), Error::Command(ErrorKind::DirectoryNotEmpty));
    assert_eq!(VmeFs::already_exists_err(), Error::Command(ErrorKind::AlreadyExists));
}

#[test]
fn standalone_run_always_starts() {
    assert!(Standalone::run(StandaloneArgs).is_ok());
}
