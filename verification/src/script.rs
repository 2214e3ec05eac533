//! A request, once its inodes are resolved to host paths, is served by a
//! script: a list of steps on the host, each of which may end the request
//! with an error, then a last part that makes the response.
use crate::abi::ErrorKind;
use crate::host::{HostAction, HostActionView, option_action_view};
use vstd::prelude::*;

verus! {

/// One step of a script.
pub enum Instr {
    /// Asks whether `path` exists; unless the answer is `exists`, the
    /// request fails with `error`, after `on_fail` is performed where there
    /// is one.
    Expect { path: String, exists: bool, error: ErrorKind, on_fail: Option<HostAction> },
    /// Asks for the host's metadata of `path`, whose failure is the
    /// request's error; unless the path is a directory exactly when `is_dir`
    /// holds, the request fails with `error`.
    ExpectDir { path: String, is_dir: bool, error: ErrorKind },
    /// Performs `action`. Where it fails, performs `undo` if there is one,
    /// whatever that gives, and the request fails with the action's error.
    Perform { action: HostAction, undo: Option<HostAction> },
    /// Reads the entry at `path` and drops it. Where the read fails, performs
    /// `fallback` if there is one, whose failure is then the request's error;
    /// without one the read's error is the request's.
    Probe { path: String, fallback: Option<HostAction> },
}

pub enum InstrView {
    Expect {
        path: Seq<char>,
        exists: bool,
        error: ErrorKind,
        on_fail: Option<HostActionView>,
    },
    ExpectDir { path: Seq<char>, is_dir: bool, error: ErrorKind },
    Perform { action: HostActionView, undo: Option<HostActionView> },
    Probe { path: Seq<char>, fallback: Option<HostActionView> },
}

impl View for Instr {
    type V = InstrView;

    open spec fn view(&self) -> InstrView {
        match self {
            Instr::Expect { path, exists, error, on_fail } => InstrView::Expect {
                path: path@,
                exists: *exists,
                error: *error,
                on_fail: option_action_view(*on_fail),
            },
            Instr::ExpectDir { path, is_dir, error } => InstrView::ExpectDir {
                path: path@,
                is_dir: *is_dir,
                error: *error,
            },
            Instr::Perform { action, undo } => InstrView::Perform {
                action: action@,
                undo: option_action_view(*undo),
            },
            Instr::Probe { path, fallback } => InstrView::Probe {
                path: path@,
                fallback: option_action_view(*fallback),
            },
        }
    }
}

/// How a script makes its response once all its steps went through.
pub enum Finish {
    /// The empty response.
    Empty,
    /// The entry at the path.
    Entry(String),
    /// The content of the file at the path.
    Content(String),
    /// The content of the link at the path, as a link's target.
    Target(String),
    /// The entries of the directory at the path that are no metadata files,
    /// from the `offset`-th on.
    Listing { path: String, offset: i64 },
}

pub enum FinishView {
    Empty,
    Entry(Seq<char>),
    Content(Seq<char>),
    Target(Seq<char>),
    Listing { path: Seq<char>, offset: i64 },
}

impl View for Finish {
    type V = FinishView;

    open spec fn view(&self) -> FinishView {
        match self {
            Finish::Empty => FinishView::Empty,
            Finish::Entry(p) => FinishView::Entry(p@),
            Finish::Content(p) => FinishView::Content(p@),
            Finish::Target(p) => FinishView::Target(p@),
            Finish::Listing { path, offset } => FinishView::Listing { path: path@, offset: *offset },
        }
    }
}

pub struct Script {
    pub steps: Vec<Instr>,
    pub finish: Finish,
}

pub struct ScriptView {
    pub steps: Seq<InstrView>,
    pub finish: FinishView,
}

pub open spec fn steps_view(steps: Seq<Instr>) -> Seq<InstrView> {
    steps.map_values(|i: Instr| i@)
}

impl View for Script {
    type V = ScriptView;

    open spec fn view(&self) -> ScriptView {
        ScriptView { steps: steps_view(self.steps@), finish: self.finish@ }
    }
}

} // verus!
