//! What the library asks of the disk, and what the disk answers.
//!
//! An operation that needs the disk returns a [`Step`]: either its outcome,
//! or a [`Request`] together with the state to resume from. The caller
//! performs the request and hands the [`Reply`] to the operation's `resume`
//! function, until the outcome is there. A reply of another kind than the
//! request asked for counts as a request that failed.
//!
//! In contracts the disk is a [`Disk`]: a function from requests to replies,
//! which stands for what is on the disk while one operation runs.

use crate::path::AbsPath;
use crate::text::optional_text;
use vstd::prelude::*;

verus! {

/// Why a path could not be had.
#[derive(Clone, Copy, Debug, PartialEq, Eq, Structural)]
pub enum ErrorKind {
    /// Nothing exists at the path.
    NotFound,
    /// The path leaves its root, or names a directory where a file is wanted.
    InvalidInput,
    /// Any other failure of the disk.
    Other,
}

/// Whether a disk entry is a directory: an entry whose kind could not be
/// read counts as a file.
pub fn is_dir(metadata: Result<bool, ErrorKind>) -> (dir: bool)
    ensures
        dir == (metadata == Ok::<bool, ErrorKind>(true)),
{
    match metadata {
        Ok(dir) => dir,
        Err(_) => false,
    }
}

/// An entry that exists on the disk: its canonical path, and whether it is a
/// directory.
#[derive(Debug, PartialEq, Eq)]
pub struct Entry {
    pub path: AbsPath,
    pub is_dir: bool,
}

/// An [`Entry`] in contracts.
pub struct EntryView {
    pub path: Seq<Seq<char>>,
    pub is_dir: bool,
}

impl View for Entry {
    type V = EntryView;

    open spec fn view(&self) -> EntryView {
        EntryView { path: self.path@, is_dir: self.is_dir }
    }
}

impl Clone for Entry {
    fn clone(&self) -> (copy: Self)
        ensures
            copy@ == self@,
    {
        Entry { path: self.path.clone(), is_dir: self.is_dir }
    }
}

/// One entry of a directory listing: its name, and whether it is a
/// directory.
#[derive(Debug, PartialEq, Eq)]
pub struct Child {
    pub name: String,
    pub is_dir: bool,
}

/// A [`Child`] in contracts.
pub struct ChildView {
    pub name: Seq<char>,
    pub is_dir: bool,
}

impl View for Child {
    type V = ChildView;

    open spec fn view(&self) -> ChildView {
        ChildView { name: self.name@, is_dir: self.is_dir }
    }
}

impl Clone for Child {
    fn clone(&self) -> (copy: Self)
        ensures
            copy@ == self@,
    {
        Child { name: self.name.clone(), is_dir: self.is_dir }
    }
}

/// The entries of `children`, each as it stands in contracts.
pub open spec fn children_view(children: Seq<Child>) -> Seq<ChildView> {
    children.map_values(|child: Child| child@)
}

/// What an operation asks of the disk.
#[derive(Debug, PartialEq, Eq)]
pub enum Request {
    /// The canonical form of `relative` joined to `base`, with every link
    /// followed, and whether a directory is there.
    Resolve { base: AbsPath, relative: String },
    /// The text of the file at `path`.
    Read { path: AbsPath },
    /// The entries of the directory at `dir`.
    List { dir: AbsPath },
}

/// A [`Request`] in contracts.
pub enum RequestView {
    Resolve { base: Seq<Seq<char>>, relative: Seq<char> },
    Read { path: Seq<Seq<char>> },
    List { dir: Seq<Seq<char>> },
}

impl View for Request {
    type V = RequestView;

    open spec fn view(&self) -> RequestView {
        match self {
            Request::Resolve { base, relative } => RequestView::Resolve {
                base: base@,
                relative: relative@,
            },
            Request::Read { path } => RequestView::Read { path: path@ },
            Request::List { dir } => RequestView::List { dir: dir@ },
        }
    }
}

/// What the disk answers to a [`Request`].
#[derive(Debug, PartialEq, Eq)]
pub enum Reply {
    /// To `Resolve`: the entry, or why there is none.
    Resolved(Result<Entry, ErrorKind>),
    /// To `Read`: the text, or `None` where the file could not be read as
    /// text.
    Text(Option<String>),
    /// To `List`: the entries in the order the disk gave them, or why the
    /// directory could not be listed.
    Listed(Result<Vec<Child>, ErrorKind>),
}

/// A [`Reply`] in contracts.
pub enum ReplyView {
    Resolved(Result<EntryView, ErrorKind>),
    Text(Option<Seq<char>>),
    Listed(Result<Seq<ChildView>, ErrorKind>),
}

/// The result of a `Resolve` in contracts.
pub open spec fn found_view(found: Result<Entry, ErrorKind>) -> Result<EntryView, ErrorKind> {
    match found {
        Ok(entry) => Ok(entry@),
        Err(kind) => Err(kind),
    }
}

/// The result of a `List` in contracts.
pub open spec fn listing_view(listing: Result<Vec<Child>, ErrorKind>) -> Result<
    Seq<ChildView>,
    ErrorKind,
> {
    match listing {
        Ok(children) => Ok(children_view(children@)),
        Err(kind) => Err(kind),
    }
}

/// A path, or why there is none, in contracts.
pub open spec fn path_view(path: Result<AbsPath, ErrorKind>) -> Result<Seq<Seq<char>>, ErrorKind> {
    match path {
        Ok(path) => Ok(path@),
        Err(kind) => Err(kind),
    }
}

impl View for Reply {
    type V = ReplyView;

    open spec fn view(&self) -> ReplyView {
        match self {
            Reply::Resolved(found) => ReplyView::Resolved(found_view(*found)),
            Reply::Text(text) => ReplyView::Text(optional_text(*text)),
            Reply::Listed(listing) => ReplyView::Listed(listing_view(*listing)),
        }
    }
}

impl ReplyView {
    /// What the reply says of a `Resolve`.
    pub open spec fn resolved(self) -> Result<EntryView, ErrorKind> {
        match self {
            ReplyView::Resolved(found) => found,
            _ => Err(ErrorKind::Other),
        }
    }

    /// What the reply says of a `Read`.
    pub open spec fn text(self) -> Option<Seq<char>> {
        match self {
            ReplyView::Text(text) => text,
            _ => None,
        }
    }

    /// What the reply says of a `List`.
    pub open spec fn listed(self) -> Result<Seq<ChildView>, ErrorKind> {
        match self {
            ReplyView::Listed(listing) => listing,
            _ => Err(ErrorKind::Other),
        }
    }
}

impl Reply {
    /// What the reply says of a `Resolve`: a reply of another kind says that
    /// it failed.
    pub fn resolved(self) -> (found: Result<Entry, ErrorKind>)
        ensures
            found_view(found) == self@.resolved(),
    {
        match self {
            Reply::Resolved(found) => found,
            _ => Err(ErrorKind::Other),
        }
    }

    /// What the reply says of a `Read`: a reply of another kind says that it
    /// failed.
    pub fn text(self) -> (text: Option<String>)
        ensures
            optional_text(text) == self@.text(),
    {
        match self {
            Reply::Text(text) => text,
            _ => None,
        }
    }

    /// What the reply says of a `List`: a reply of another kind says that it
    /// failed.
    pub fn listed(self) -> (listing: Result<Vec<Child>, ErrorKind>)
        ensures
            listing_view(listing) == self@.listed(),
    {
        match self {
            Reply::Listed(listing) => listing,
            _ => Err(ErrorKind::Other),
        }
    }
}

/// Where an operation stands: it needs `Ask.1` of the disk and goes on from
/// the state `Ask.0`, or it has ended with `Done.0`.
#[derive(Debug, PartialEq, Eq)]
pub enum Step<S, T> {
    Ask(S, Request),
    Done(T),
}

/// A [`Step`] in contracts, over the state and the outcome as they stand in
/// contracts.
pub enum StepView<S, T> {
    Ask(S, RequestView),
    Done(T),
}

/// The disk in contracts: what it answers to each request while one
/// operation runs.
pub type Disk = spec_fn(RequestView) -> ReplyView;

/// What `disk` holds at `relative` below `base`.
pub open spec fn resolve_on(disk: Disk, base: Seq<Seq<char>>, relative: Seq<char>) -> Result<
    EntryView,
    ErrorKind,
> {
    disk(RequestView::Resolve { base, relative }).resolved()
}

/// The text that `disk` holds at `path`.
pub open spec fn read_on(disk: Disk, path: Seq<Seq<char>>) -> Option<Seq<char>> {
    disk(RequestView::Read { path }).text()
}

/// The entries that `disk` lists for `dir`.
pub open spec fn list_on(disk: Disk, dir: Seq<Seq<char>>) -> Result<Seq<ChildView>, ErrorKind> {
    disk(RequestView::List { dir }).listed()
}

/// Where the operation that moves by `next` ends when `disk` answers its
/// requests, starting from `step`; `None` where it has not ended after
/// `fuel` requests.
pub open spec fn run<S, T>(
    disk: Disk,
    next: spec_fn(S, ReplyView) -> StepView<S, T>,
    step: StepView<S, T>,
    fuel: nat,
) -> Option<T>
    decreases fuel,
{
    match step {
        StepView::Done(outcome) => Some(outcome),
        StepView::Ask(state, request) => if fuel == 0 {
            None
        } else {
            run(disk, next, next(state, disk(request)), (fuel - 1) as nat)
        },
    }
}

} // verus!
