//! Finding the host path of an inode: the root for the root inode, else a
//! depth-first walk of the host tree below the root, in the order the host
//! lists each directory, that stops at the first entry with that inode.
use crate::abi::ErrorKind;
use crate::fs::VmeFs;
use crate::host::{DirItem, DirItemView, items_view};
use vstd::prelude::*;

verus! {

/// The inode of the root of the served tree.
pub const ROOT_INO: u64 = 1;

/// A listed directory and the index of its next entry to look at.
pub struct Frame {
    pub items: Vec<DirItem>,
    pub next: usize,
}

pub struct FrameView {
    pub items: Seq<DirItemView>,
    pub next: nat,
}

impl View for Frame {
    type V = FrameView;

    open spec fn view(&self) -> FrameView {
        FrameView { items: items_view(self.items@), next: self.next as nat }
    }
}

/// A walk in progress: the inode looked for, and the directories entered and
/// not yet left, innermost last.
pub struct InoSearch {
    pub target: u64,
    pub stack: Vec<Frame>,
}

pub struct InoSearchView {
    pub target: u64,
    pub stack: Seq<FrameView>,
}

impl View for InoSearch {
    type V = InoSearchView;

    open spec fn view(&self) -> InoSearchView {
        InoSearchView { target: self.target, stack: self.stack@.map_values(|f: Frame| f@) }
    }
}

/// What a walk does next.
pub enum SearchStep {
    /// The inode is at this path.
    Found(String),
    /// No entry below the root has the inode.
    NotFound,
    /// The walk needs the listing of this directory.
    List(String),
}

pub enum SearchStepView {
    Found(Seq<char>),
    NotFound,
    List(Seq<char>),
}

impl View for SearchStep {
    type V = SearchStepView;

    open spec fn view(&self) -> SearchStepView {
        match self {
            SearchStep::Found(p) => SearchStepView::Found(p@),
            SearchStep::NotFound => SearchStepView::NotFound,
            SearchStep::List(p) => SearchStepView::List(p@),
        }
    }
}

/// The entries not yet looked at, and one more for each open directory.
pub open spec fn pending(stack: Seq<FrameView>) -> nat
    decreases stack.len(),
{
    if stack.len() == 0 {
        0
    } else {
        let top = stack.last();
        let left: nat = if top.next < top.items.len() {
            (top.items.len() - top.next) as nat
        } else {
            0
        };
        pending(stack.drop_last()) + 1 + left
    }
}

/// Goes on with a walk from where it stands: leaves each directory whose
/// entries are all looked at, skips entries the host could not read and
/// entries of another inode that are no directory, stops at an entry with
/// the inode, and asks for the listing of each other directory, which it
/// enters before its next sibling.
pub open spec fn advance(s: InoSearchView) -> (InoSearchView, SearchStepView)
    decreases pending(s.stack),
{
    if s.stack.len() == 0 {
        (s, SearchStepView::NotFound)
    } else {
        let top = s.stack.last();
        let rest = s.stack.drop_last();
        if top.next >= top.items.len() {
            advance(InoSearchView { stack: rest, ..s })
        } else {
            let item = top.items[top.next as int];
            proof {
                lemma_pending_push(rest, FrameView { next: top.next + 1, ..top });
            }
            let s1 = InoSearchView {
                stack: rest.push(FrameView { next: top.next + 1, ..top }),
                ..s
            };
            match item.info {
                None => advance(s1),
                Some(info) => if info.ino == s.target {
                    (s1, SearchStepView::Found(item.path))
                } else if info.is_dir {
                    (s1, SearchStepView::List(item.path))
                } else {
                    advance(s1)
                },
            }
        }
    }
}

/// Where a walk for `ino` starts.
pub open spec fn search_start(root: Seq<char>, ino: u64) -> (InoSearchView, SearchStepView) {
    let s = InoSearchView { target: ino, stack: Seq::empty() };
    if ino == ROOT_INO {
        (s, SearchStepView::Found(root))
    } else {
        (s, SearchStepView::List(root))
    }
}

/// How a walk goes on with the listing it asked for. A directory the host
/// could not list counts as one without entries.
pub open spec fn search_step(s: InoSearchView, listing: Result<Seq<DirItemView>, ErrorKind>) -> (
    InoSearchView,
    SearchStepView,
) {
    match listing {
        Ok(items) => advance(
            InoSearchView { stack: s.stack.push(FrameView { items, next: 0 }), ..s },
        ),
        Err(_) => advance(s),
    }
}

pub proof fn lemma_pending_push(stack: Seq<FrameView>, f: FrameView)
    ensures
        pending(stack.push(f)) == pending(stack) + 1 + (if f.next < f.items.len() {
            (f.items.len() - f.next) as nat
        } else {
            0
        }),
{
    assert(stack.push(f).drop_last() =~= stack);
}

impl VmeFs {
    /// Starts looking for the host path of `ino`.
    pub fn find_path_by_ino(&self, ino: u64) -> (r: (InoSearch, SearchStep))
        ensures
            (r.0@, r.1@) == search_start(self@.root, ino),
    {
        let s = InoSearch { target: ino, stack: Vec::new() };
        assert(s@.stack =~= Seq::<FrameView>::empty());
        if ino == ROOT_INO {
            (s, SearchStep::Found(self.root_path().clone()))
        } else {
            (s, SearchStep::List(self.root_path().clone()))
        }
    }
}

impl InoSearch {

    /// Goes on with the listing the walk asked for.
    pub fn resume(&mut self, listing: Result<Vec<DirItem>, ErrorKind>) -> (step: SearchStep)
        ensures
            (final(self)@, step@) == search_step(
                old(self)@,
                match listing {
                    Ok(items) => Ok(items_view(items@)),
                    Err(e) => Err(e),
                },
            ),
    {
        match listing {
            Ok(items) => {
                let frame = Frame { items, next: 0 };
                self.stack.push(frame);
                assert(self@.stack =~= old(self)@.stack.push(frame@));
            },
            Err(_) => {},
        }
        self.find_path_by_ino_recursive()
    }

    /// Walks on until the walk finds the inode, runs out of entries, or
    /// needs a listing.
    fn find_path_by_ino_recursive(&mut self) -> (step: SearchStep)
        ensures
            (final(self)@, step@) == advance(old(self)@),
    {
        loop
            invariant
                advance(self@) == advance(old(self)@),
            decreases pending(self@.stack),
        {
            let ghost s0 = self@;
            let n = self.stack.len();
            if n == 0 {
                return SearchStep::NotFound;
            }
            let mut top = self.stack.pop().unwrap();
            assert(self@.stack =~= s0.stack.drop_last());
            assert(top@ == s0.stack.last());
            if top.next >= top.items.len() {
                continue ;
            }
            let i = top.next;
            top.next = i + 1;
            let found = match top.items[i].info {
                None => None,
                Some(info) => if info.ino == self.target {
                    Some(SearchStep::Found(top.items[i].path.clone()))
                } else if info.is_dir {
                    Some(SearchStep::List(top.items[i].path.clone()))
                } else {
                    None
                },
            };
            let ghost rest = self@.stack;
            self.stack.push(top);
            assert(self@.stack =~= rest.push(top@));
            proof {
                lemma_pending_push(rest, top@);
            }
            match found {
                Some(step) => {
                    return step;
                },
                None => {},
            }
        }
    }
}

} // verus!
