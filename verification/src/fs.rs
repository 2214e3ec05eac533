//! The file server: the root of the served host tree, and the script that
//! serves each request once its inodes are resolved to host paths.
//!
//! Each entry `x` of the tree has a metadata file, the path of `x` with the
//! extension `meta`, that holds the enclave's own metadata of `x`.
use crate::abi::{Error, ErrorKind, LinkTarget};
use crate::flags::{libc_o_dsync, libc_o_sync, sync_flags, sync_request};
use crate::host::{HostAction, HostActionView, Notice, NoticeView, copy_bytes};
use crate::paths::{is_meta, join, joined, meta_path, meta_path_of, path_extension};
use crate::script::{Finish, FinishView, Instr, InstrView, Script, ScriptView};
use vstd::prelude::*;

verus! {

/// Serves the host directory tree at `root_path`.
pub struct VmeFs {
    root_path: String,
    /// The host's `O_SYNC` open flag.
    o_sync: i32,
    /// The host's `O_DSYNC` open flag.
    o_dsync: i32,
}

pub struct VmeFsView {
    pub root: Seq<char>,
    pub o_sync: i32,
    pub o_dsync: i32,
}

impl View for VmeFs {
    type V = VmeFsView;

    closed spec fn view(&self) -> VmeFsView {
        VmeFsView { root: self.root_path@, o_sync: self.o_sync, o_dsync: self.o_dsync }
    }
}

/// The action that writes `content` to the metadata file of `path`.
pub open spec fn write_meta(path: Seq<char>, content: Seq<u8>, custom_flags: Option<i32>) -> HostActionView {
    HostActionView::WriteFile { path: meta_path(path), content, custom_flags }
}

pub open spec fn create_script(
    fs: VmeFsView,
    parent: Seq<char>,
    name: Seq<char>,
    meta: Seq<u8>,
    flags: i32,
) -> ScriptView {
    let path = joined(parent, name);
    let sync = sync_request(flags, fs.o_sync, fs.o_dsync);
    ScriptView {
        steps: seq![
            InstrView::Perform {
                action: HostActionView::WriteFile {
                    path,
                    content: Seq::empty(),
                    custom_flags: sync,
                },
                undo: None,
            },
            InstrView::Perform {
                action: write_meta(path, meta, sync),
                undo: Some(HostActionView::RemoveFile { path }),
            },
        ],
        finish: FinishView::Entry(path),
    }
}

pub open spec fn getattr_script(path: Seq<char>) -> ScriptView {
    ScriptView { steps: Seq::empty(), finish: FinishView::Entry(path) }
}

pub open spec fn initroot_script(fs: VmeFsView, meta: Seq<u8>) -> ScriptView {
    ScriptView {
        steps: seq![
            InstrView::Probe { path: fs.root, fallback: Some(write_meta(fs.root, meta, None)) },
        ],
        finish: FinishView::Empty,
    }
}

pub open spec fn lookup_script(parent: Seq<char>, name: Seq<char>) -> ScriptView {
    let path = joined(parent, name);
    ScriptView {
        steps: seq![
            InstrView::Expect { path, exists: true, error: ErrorKind::NotFound, on_fail: None },
        ],
        finish: FinishView::Entry(path),
    }
}

pub open spec fn mkdir_script(parent: Seq<char>, name: Seq<char>, meta: Seq<u8>) -> ScriptView {
    let path = joined(parent, name);
    ScriptView {
        steps: seq![
            InstrView::Expect {
                path,
                exists: false,
                error: ErrorKind::AlreadyExists,
                on_fail: None,
            },
            InstrView::Perform { action: HostActionView::CreateDir { path }, undo: None },
            InstrView::Perform {
                action: write_meta(path, meta, None),
                undo: Some(HostActionView::RemoveDir { path }),
            },
        ],
        finish: FinishView::Entry(path),
    }
}

pub open spec fn read_script(path: Seq<char>) -> ScriptView {
    ScriptView { steps: Seq::empty(), finish: FinishView::Content(path) }
}

pub open spec fn readdir_script(path: Seq<char>, offset: i64) -> ScriptView {
    ScriptView { steps: Seq::empty(), finish: FinishView::Listing { path, offset } }
}

pub open spec fn rename_script(
    parent: Seq<char>,
    name: Seq<char>,
    new_parent: Seq<char>,
    new_name: Seq<char>,
) -> ScriptView {
    let path = joined(parent, name);
    let new_path = joined(new_parent, new_name);
    ScriptView {
        steps: seq![
            InstrView::Expect {
                path,
                exists: true,
                error: ErrorKind::NotFound,
                on_fail: Some(
                    HostActionView::Notify { notice: NoticeView::RenameSourceMissing { path } },
                ),
            },
            InstrView::Expect {
                path: meta_path(path),
                exists: true,
                error: ErrorKind::NotFound,
                on_fail: Some(
                    HostActionView::Notify {
                        notice: NoticeView::RenameMetaMissing { path: meta_path(path) },
                    },
                ),
            },
            InstrView::Perform {
                action: HostActionView::Rename { from: path, to: new_path },
                undo: None,
            },
            InstrView::Perform {
                action: HostActionView::Rename { from: meta_path(path), to: meta_path(new_path) },
                undo: None,
            },
        ],
        finish: FinishView::Empty,
    }
}

/// Removing the entry `name` of `parent`, which must exist, have a metadata
/// file, and be a directory exactly when `dir` holds (else the request fails
/// with `kind_error`): the entry first, then its metadata file.
pub open spec fn remove_script(
    parent: Seq<char>,
    name: Seq<char>,
    dir: bool,
    kind_error: ErrorKind,
) -> ScriptView {
    let path = joined(parent, name);
    ScriptView {
        steps: seq![
            InstrView::Expect { path, exists: true, error: ErrorKind::NotFound, on_fail: None },
            InstrView::ExpectDir { path, is_dir: dir, error: kind_error },
            InstrView::Expect {
                path: meta_path(path),
                exists: true,
                error: ErrorKind::NotFound,
                on_fail: None,
            },
            InstrView::Perform {
                action: if dir {
                    HostActionView::RemoveDir { path }
                } else {
                    HostActionView::RemoveFile { path }
                },
                undo: None,
            },
            InstrView::Perform {
                action: HostActionView::RemoveFile { path: meta_path(path) },
                undo: None,
            },
        ],
        finish: FinishView::Empty,
    }
}

pub open spec fn rmdir_script(parent: Seq<char>, name: Seq<char>) -> ScriptView {
    remove_script(parent, name, true, ErrorKind::NotADirectory)
}

pub open spec fn unlink_script(parent: Seq<char>, name: Seq<char>) -> ScriptView {
    remove_script(parent, name, false, ErrorKind::IsADirectory)
}

pub open spec fn setattr_script(fs: VmeFsView, path: Seq<char>, meta: Seq<u8>) -> ScriptView {
    ScriptView {
        steps: seq![
            InstrView::Probe { path, fallback: None },
            InstrView::Perform { action: write_meta(path, meta, Some(fs.o_sync)), undo: None },
        ],
        finish: FinishView::Entry(path),
    }
}

/// The host path a link points to: an absolute target as it is, a relative
/// one below the root.
pub open spec fn link_target_path(fs: VmeFsView, target: LinkTarget) -> Seq<char> {
    match target {
        LinkTarget::Absolute(t) => t@,
        LinkTarget::Relative(t) => joined(fs.root, t@),
    }
}

pub open spec fn symlink_script(
    fs: VmeFsView,
    parent: Seq<char>,
    name: Seq<char>,
    target: LinkTarget,
    meta: Seq<u8>,
) -> ScriptView {
    let path = joined(parent, name);
    ScriptView {
        steps: seq![
            InstrView::Perform {
                action: HostActionView::Symlink { target: link_target_path(fs, target), link: path },
                undo: None,
            },
            InstrView::Perform { action: write_meta(path, meta, None), undo: None },
        ],
        finish: FinishView::Entry(path),
    }
}

pub open spec fn readlink_script(path: Seq<char>) -> ScriptView {
    ScriptView {
        steps: seq![
            InstrView::Perform {
                action: HostActionView::Notify { notice: NoticeView::ReadingLink { path } },
                undo: None,
            },
        ],
        finish: FinishView::Target(path),
    }
}

pub open spec fn link_script(
    path: Seq<char>,
    new_parent: Seq<char>,
    new_name: Seq<char>,
    meta: Seq<u8>,
) -> ScriptView {
    let new_path = joined(new_parent, new_name);
    ScriptView {
        steps: seq![
            InstrView::Perform {
                action: HostActionView::HardLink { existing: path, link: new_path },
                undo: None,
            },
            InstrView::Perform { action: write_meta(new_path, meta, None), undo: None },
        ],
        finish: FinishView::Entry(new_path),
    }
}

pub open spec fn write_script(fs: VmeFsView, path: Seq<char>, content: Seq<u8>, flags: i32) -> ScriptView {
    ScriptView {
        steps: seq![
            InstrView::Perform {
                action: HostActionView::WriteFile {
                    path,
                    content,
                    custom_flags: sync_request(flags, fs.o_sync, fs.o_dsync),
                },
                undo: None,
            },
        ],
        finish: FinishView::Empty,
    }
}

/// What a host setup of the root finds to do: the root exists and is a
/// directory, the root exists and is something else, or it is missing.
#[derive(Clone, Copy, Debug, PartialEq, Eq, Structural)]
pub enum RootSetup {
    Ready,
    NotADirectory,
    CreateDirAll,
}

impl VmeFs {
    /// Serves the tree at `root_path`, with the host's open flags that
    /// `nix` gives.
    pub fn new(root_path: String) -> (r: VmeFs)
        ensures
            r@.root == root_path@,
    {
        VmeFs { root_path, o_sync: libc_o_sync(), o_dsync: libc_o_dsync() }
    }

    /// The root of the served tree.
    pub fn root_path(&self) -> (r: &String)
        ensures
            r@ == self@.root,
    {
        &self.root_path
    }

    /// The host's `O_SYNC` open flag.
    pub fn o_sync(&self) -> (r: i32)
        ensures
            r == self@.o_sync,
    {
        self.o_sync
    }

    /// The host's `O_DSYNC` open flag.
    pub fn o_dsync(&self) -> (r: i32)
        ensures
            r == self@.o_dsync,
    {
        self.o_dsync
    }

    /// A server for the same tree.
    pub fn copy(&self) -> (r: VmeFs)
        ensures
            r@ == self@,
    {
        VmeFs { root_path: self.root_path.clone(), o_sync: self.o_sync, o_dsync: self.o_dsync }
    }

    /// What a setup of the root does, from whether the root exists and
    /// whether it is a directory.
    pub fn root_setup(exists: bool, is_dir: bool) -> (r: RootSetup)
        ensures
            r == (if !exists {
                RootSetup::CreateDirAll
            } else if is_dir {
                RootSetup::Ready
            } else {
                RootSetup::NotADirectory
            }),
    {
        if exists {
            if !is_dir {
                return RootSetup::NotADirectory;
            }
            RootSetup::Ready
        } else {
            RootSetup::CreateDirAll
        }
    }

    pub fn file_not_found_err() -> (e: Error)
        ensures
            e == Error::Command(ErrorKind::NotFound),
    {
        Error::Command(ErrorKind::NotFound)
    }

    pub fn not_directory_err() -> (e: Error)
        ensures
            e == Error::Command(ErrorKind::NotADirectory),
    {
        Error::Command(ErrorKind::NotADirectory)
    }

    pub fn is_directory_err() -> (e: Error)
        ensures
            e == Error::Command(ErrorKind::IsADirectory),
    {
        Error::Command(ErrorKind::IsADirectory)
    }

    pub fn not_empty_err() -> (e: Error)
        ensures
            e == Error::Command(ErrorKind::DirectoryNotEmpty),
    {
        Error::Command(ErrorKind::DirectoryNotEmpty)
    }

    pub fn already_exists_err() -> (e: Error)
        ensures
            e == Error::Command(ErrorKind::AlreadyExists),
    {
        Error::Command(ErrorKind::AlreadyExists)
    }

    /// Whether `path` names a metadata file, that is, has the extension
    /// `meta`.
    pub fn is_metadata_file(path: &String) -> (r: bool)
        ensures
            r == is_meta(path@),
    {
        match path_extension(path) {
            Some(ext) => {
                let meta = "meta".to_owned();
                ext == meta
            },
            None => false,
        }
    }

    /// The action that writes `content` to the metadata file of `path`.
    pub fn write_meta_file_for_path(path: &String, content: &Vec<u8>, custom_flags: Option<i32>) -> (a: HostAction)
        ensures
            a@ == write_meta(path@, content@, custom_flags),
    {
        HostAction::WriteFile {
            path: meta_path_of(path),
            content: copy_bytes(content),
            custom_flags,
        }
    }

    /// Creates the regular file `name` in `parent_path` with its metadata
    /// file; where the metadata file cannot be written, the new file is
    /// removed again.
    pub fn create(&self, parent_path: &String, name: &String, meta: &Vec<u8>, flags: i32) -> (s: Script)
        ensures
            s@ == create_script(self@, parent_path@, name@, meta@, flags),
    {
        let path = join(parent_path, name);
        let sync = sync_flags(flags, self.o_sync, self.o_dsync);
        let mut steps: Vec<Instr> = Vec::new();
        steps.push(Instr::Perform {
            action: HostAction::WriteFile { path: path.clone(), content: Vec::new(), custom_flags: sync },
            undo: None,
        });
        steps.push(Instr::Perform {
            action: Self::write_meta_file_for_path(&path, meta, sync),
            undo: Some(HostAction::RemoveFile { path: path.clone() }),
        });
        let s = Script { steps, finish: Finish::Entry(path) };
        assert(s@.steps =~= create_script(self@, parent_path@, name@, meta@, flags).steps);
        s
    }

    /// The entry at `path`.
    pub fn getattr(&self, path: &String) -> (s: Script)
        ensures
            s@ == getattr_script(path@),
    {
        let s = Script { steps: Vec::new(), finish: Finish::Entry(path.clone()) };
        assert(s@.steps =~= getattr_script(path@).steps);
        s
    }

    /// Writes the root's metadata file unless the root's entry can be read.
    pub fn initroot(&self, meta: &Vec<u8>) -> (s: Script)
        ensures
            s@ == initroot_script(self@, meta@),
    {
        let mut steps: Vec<Instr> = Vec::new();
        steps.push(Instr::Probe {
            path: self.root_path.clone(),
            fallback: Some(Self::write_meta_file_for_path(&self.root_path, meta, None)),
        });
        let s = Script { steps, finish: Finish::Empty };
        assert(s@.steps =~= initroot_script(self@, meta@).steps);
        s
    }

    /// The entry `name` of the directory at `parent_path`, which must exist.
    pub fn lookup(&self, parent_path: &String, name: &String) -> (s: Script)
        ensures
            s@ == lookup_script(parent_path@, name@),
    {
        let path = join(parent_path, name);
        let mut steps: Vec<Instr> = Vec::new();
        steps.push(Instr::Expect { path: path.clone(), exists: true, error: ErrorKind::NotFound, on_fail: None });
        let s = Script { steps, finish: Finish::Entry(path) };
        assert(s@.steps =~= lookup_script(parent_path@, name@).steps);
        s
    }

    /// Creates the directory `name` in `parent_path`, which must not exist
    /// yet, with its metadata file; where the metadata file cannot be
    /// written, the new directory is removed again.
    pub fn mkdir(&self, parent_path: &String, name: &String, meta: &Vec<u8>) -> (s: Script)
        ensures
            s@ == mkdir_script(parent_path@, name@, meta@),
    {
        let path = join(parent_path, name);
        let mut steps: Vec<Instr> = Vec::new();
        steps.push(Instr::Expect {
            path: path.clone(),
            exists: false,
            error: ErrorKind::AlreadyExists,
            on_fail: None,
        });
        steps.push(Instr::Perform { action: HostAction::CreateDir { path: path.clone() }, undo: None });
        steps.push(Instr::Perform {
            action: Self::write_meta_file_for_path(&path, meta, None),
            undo: Some(HostAction::RemoveDir { path: path.clone() }),
        });
        let s = Script { steps, finish: Finish::Entry(path) };
        assert(s@.steps =~= mkdir_script(parent_path@, name@, meta@).steps);
        s
    }

    /// The content of the file at `path`.
    pub fn read(&self, path: &String) -> (s: Script)
        ensures
            s@ == read_script(path@),
    {
        let s = Script { steps: Vec::new(), finish: Finish::Content(path.clone()) };
        assert(s@.steps =~= read_script(path@).steps);
        s
    }

    /// The entries of the directory at `path`, from the `offset`-th on.
    pub fn readdir(&self, path: &String, offset: i64) -> (s: Script)
        ensures
            s@ == readdir_script(path@, offset),
    {
        let s = Script { steps: Vec::new(), finish: Finish::Listing { path: path.clone(), offset } };
        assert(s@.steps =~= readdir_script(path@, offset).steps);
        s
    }

    /// Moves the entry `name` of `parent_path`, which must exist and have a
    /// metadata file, to `new_name` in `new_parent_path`, and its metadata
    /// file with it.
    pub fn rename(
        &self,
        parent_path: &String,
        name: &String,
        new_parent_path: &String,
        new_name: &String,
    ) -> (s: Script)
        ensures
            s@ == rename_script(parent_path@, name@, new_parent_path@, new_name@),
    {
        let path = join(parent_path, name);
        let path_meta = meta_path_of(&path);
        let new_path = join(new_parent_path, new_name);
        let new_path_meta = meta_path_of(&new_path);
        let mut steps: Vec<Instr> = Vec::new();
        steps.push(Instr::Expect {
            path: path.clone(),
            exists: true,
            error: ErrorKind::NotFound,
            on_fail: Some(HostAction::Notify { notice: Notice::RenameSourceMissing { path: path.clone() } }),
        });
        steps.push(Instr::Expect {
            path: path_meta.clone(),
            exists: true,
            error: ErrorKind::NotFound,
            on_fail: Some(HostAction::Notify { notice: Notice::RenameMetaMissing { path: path_meta.clone() } }),
        });
        steps.push(Instr::Perform { action: HostAction::Rename { from: path, to: new_path }, undo: None });
        steps.push(Instr::Perform {
            action: HostAction::Rename { from: path_meta, to: new_path_meta },
            undo: None,
        });
        let s = Script { steps, finish: Finish::Empty };
        assert(s@.steps =~= rename_script(parent_path@, name@, new_parent_path@, new_name@).steps);
        s
    }

    fn remove(&self, parent_path: &String, name: &String, dir: bool, kind_error: ErrorKind) -> (s: Script)
        ensures
            s@ == remove_script(parent_path@, name@, dir, kind_error),
    {
        let path = join(parent_path, name);
        let meta = meta_path_of(&path);
        let mut steps: Vec<Instr> = Vec::new();
        steps.push(Instr::Expect { path: path.clone(), exists: true, error: ErrorKind::NotFound, on_fail: None });
        steps.push(Instr::ExpectDir { path: path.clone(), is_dir: dir, error: kind_error });
        steps.push(Instr::Expect { path: meta.clone(), exists: true, error: ErrorKind::NotFound, on_fail: None });
        let removal = if dir {
            HostAction::RemoveDir { path }
        } else {
            HostAction::RemoveFile { path }
        };
        steps.push(Instr::Perform { action: removal, undo: None });
        steps.push(Instr::Perform { action: HostAction::RemoveFile { path: meta }, undo: None });
        let s = Script { steps, finish: Finish::Empty };
        assert(s@.steps =~= remove_script(parent_path@, name@, dir, kind_error).steps);
        s
    }

    /// Removes the directory `name` of `parent_path` and its metadata file.
    pub fn rmdir(&self, parent_path: &String, name: &String) -> (s: Script)
        ensures
            s@ == rmdir_script(parent_path@, name@),
    {
        self.remove(parent_path, name, true, ErrorKind::NotADirectory)
    }

    /// Removes the entry `name` of `parent_path`, which must be no
    /// directory, and its metadata file.
    pub fn unlink(&self, parent_path: &String, name: &String) -> (s: Script)
        ensures
            s@ == unlink_script(parent_path@, name@),
    {
        self.remove(parent_path, name, false, ErrorKind::IsADirectory)
    }

    /// Replaces the metadata file of the entry at `path`, whose entry must
    /// be readable, always with `O_SYNC`, and gives the entry.
    pub fn setattr(&self, path: &String, meta: &Vec<u8>) -> (s: Script)
        ensures
            s@ == setattr_script(self@, path@, meta@),
    {
        let mut steps: Vec<Instr> = Vec::new();
        steps.push(Instr::Probe { path: path.clone(), fallback: None });
        steps.push(Instr::Perform {
            action: Self::write_meta_file_for_path(path, meta, Some(self.o_sync)),
            undo: None,
        });
        let s = Script { steps, finish: Finish::Entry(path.clone()) };
        assert(s@.steps =~= setattr_script(self@, path@, meta@).steps);
        s
    }

    /// Makes `name` in `parent_path` a symbolic link to `target`, with its
    /// metadata file.
    pub fn symlink(&self, parent_path: &String, name: &String, target: &LinkTarget, meta: &Vec<u8>) -> (s: Script)
        ensures
            s@ == symlink_script(self@, parent_path@, name@, *target, meta@),
    {
        let path = join(parent_path, name);
        let target_path = match target {
            LinkTarget::Absolute(t) => t.clone(),
            LinkTarget::Relative(t) => join(&self.root_path, t),
        };
        let mut steps: Vec<Instr> = Vec::new();
        steps.push(Instr::Perform {
            action: HostAction::Symlink { target: target_path, link: path.clone() },
            undo: None,
        });
        steps.push(Instr::Perform {
            action: Self::write_meta_file_for_path(&path, meta, None),
            undo: None,
        });
        let s = Script { steps, finish: Finish::Entry(path) };
        assert(s@.steps =~= symlink_script(self@, parent_path@, name@, *target, meta@).steps);
        s
    }

    /// The target of the link at `path`, as the link file's content, after
    /// a notice that the link is being read.
    pub fn readlink(&self, path: &String) -> (s: Script)
        ensures
            s@ == readlink_script(path@),
    {
        let mut steps: Vec<Instr> = Vec::new();
        steps.push(Instr::Perform {
            action: HostAction::Notify { notice: Notice::ReadingLink { path: path.clone() } },
            undo: None,
        });
        let s = Script { steps, finish: Finish::Target(path.clone()) };
        assert(s@.steps =~= readlink_script(path@).steps);
        s
    }

    /// Makes `new_name` in `new_parent_path` a hard link to the entry at
    /// `path`, with its own metadata file.
    pub fn link(&self, path: &String, new_parent_path: &String, new_name: &String, meta: &Vec<u8>) -> (s: Script)
        ensures
            s@ == link_script(path@, new_parent_path@, new_name@, meta@),
    {
        let new_path = join(new_parent_path, new_name);
        let mut steps: Vec<Instr> = Vec::new();
        steps.push(Instr::Perform {
            action: HostAction::HardLink { existing: path.clone(), link: new_path.clone() },
            undo: None,
        });
        steps.push(Instr::Perform {
            action: Self::write_meta_file_for_path(&new_path, meta, None),
            undo: None,
        });
        let s = Script { steps, finish: Finish::Entry(new_path) };
        assert(s@.steps =~= link_script(path@, new_parent_path@, new_name@, meta@).steps);
        s
    }

    /// Replaces the content of the file at `path`.
    pub fn write(&self, path: &String, content: &Vec<u8>, flags: i32) -> (s: Script)
        ensures
            s@ == write_script(self@, path@, content@, flags),
    {
        let mut steps: Vec<Instr> = Vec::new();
        steps.push(Instr::Perform {
            action: HostAction::WriteFile {
                path: path.clone(),
                content: copy_bytes(content),
                custom_flags: sync_flags(flags, self.o_sync, self.o_dsync),
            },
            undo: None,
        });
        let s = Script { steps, finish: Finish::Empty };
        assert(s@.steps =~= write_script(self@, path@, content@, flags).steps);
        s
    }
}

} // verus!
