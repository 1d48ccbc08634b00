//! The decisions on what the disk reports of a path: whether it stays inside
//! its root, whether it is a file, and where a directory's index is looked
//! for.

use crate::disk::{
    found_view, path_view, resolve_on, Disk, Entry, EntryView, ErrorKind, Request, RequestView,
    Step, StepView,
};
use crate::path::{within, AbsPath};
use vstd::prelude::*;

verus! {

/// What becomes of an entry that was looked up below `base`: it stands where
/// it lies inside `base`, and is refused as `InvalidInput` where it does not.
/// A lookup that failed keeps its error.
pub open spec fn guarded(base: Seq<Seq<char>>, found: Result<EntryView, ErrorKind>) -> Result<
    EntryView,
    ErrorKind,
> {
    match found {
        Ok(entry) => if within(entry.path, base) {
            Ok(entry)
        } else {
            Err(ErrorKind::InvalidInput)
        },
        Err(kind) => Err(kind),
    }
}

/// What `disk` holds at `relative` below `base`, held to `base`: the entry
/// that the path leads to where it lies inside `base`.
pub open spec fn resolve_within(disk: Disk, base: Seq<Seq<char>>, relative: Seq<char>) -> Result<
    EntryView,
    ErrorKind,
> {
    guarded(base, resolve_on(disk, base, relative))
}

/// A path that leads out of its root, by `..` or by a link, is refused as
/// `InvalidInput`, wherever outside the root it leads.
pub proof fn lemma_escape_is_invalid_input(disk: Disk, base: Seq<Seq<char>>, relative: Seq<char>)
    requires
        resolve_on(disk, base, relative) matches Ok(entry) && !within(entry.path, base),
    ensures
        resolve_within(disk, base, relative) == Err::<EntryView, ErrorKind>(
            ErrorKind::InvalidInput,
        ),
{
}

/// A path that leads to nothing is `NotFound`.
pub proof fn lemma_missing_is_not_found(disk: Disk, base: Seq<Seq<char>>, relative: Seq<char>)
    requires
        resolve_on(disk, base, relative) == Err::<EntryView, ErrorKind>(ErrorKind::NotFound),
    ensures
        resolve_within(disk, base, relative) == Err::<EntryView, ErrorKind>(ErrorKind::NotFound),
{
}

/// Whatever is on the disk and whatever the path, an entry that is let
/// through lies inside the root.
pub proof fn lemma_resolved_inside(disk: Disk, base: Seq<Seq<char>>, relative: Seq<char>)
    ensures
        resolve_within(disk, base, relative) matches Ok(entry) ==> within(entry.path, base),
{
}

/// To lie inside is transitive: what lies inside a directory that lies
/// inside a root lies inside the root.
pub proof fn lemma_within_transitive(
    inner: Seq<Seq<char>>,
    middle: Seq<Seq<char>>,
    outer: Seq<Seq<char>>,
)
    requires
        within(inner, middle),
        within(middle, outer),
    ensures
        within(inner, outer),
{
    assert(outer =~= inner.subrange(0, outer.len() as int)) by {
        assert forall|i: int| 0 <= i < outer.len() implies outer[i] == inner[i] by {
            assert(outer[i] == middle.subrange(0, outer.len() as int)[i]);
            assert(middle[i] == inner.subrange(0, middle.len() as int)[i]);
        }
    }
}

/// What becomes of an entry where only a file will do: a directory is
/// refused as `InvalidInput`.
pub open spec fn file_only(found: Result<EntryView, ErrorKind>) -> Result<
    Seq<Seq<char>>,
    ErrorKind,
> {
    match found {
        Ok(entry) => if entry.is_dir {
            Err(ErrorKind::InvalidInput)
        } else {
            Ok(entry.path)
        },
        Err(kind) => Err(kind),
    }
}

/// Where the content of `entry` is: at a file's own path, and for a directory
/// at `index_file_name` below it, which is still to be looked up.
pub open spec fn index_step(entry: EntryView, index_file_name: Seq<char>) -> StepView<
    Seq<Seq<char>>,
    Seq<Seq<char>>,
> {
    if entry.is_dir {
        StepView::Ask(
            entry.path,
            RequestView::Resolve { base: entry.path, relative: index_file_name },
        )
    } else {
        StepView::Done(entry.path)
    }
}

/// A step of [`handle_index`] in contracts.
pub open spec fn index_step_view(step: Step<AbsPath, AbsPath>) -> StepView<
    Seq<Seq<char>>,
    Seq<Seq<char>>,
> {
    match step {
        Step::Ask(dir, request) => StepView::Ask(dir@, request@),
        Step::Done(path) => StepView::Done(path@),
    }
}

/// Holds the entry that the disk found for a path below `base` to that
/// root: an entry that lies outside `base`, whether the path climbed out
/// with `..` or a link led out, is refused as `InvalidInput`. An entry that
/// does not exist stays `NotFound`.
pub fn safe_join(base: &AbsPath, found: Result<Entry, ErrorKind>) -> (joined: Result<
    Entry,
    ErrorKind,
>)
    ensures
        found_view(joined) == guarded(base@, found_view(found)),
        found matches Ok(entry) && !within(entry.path@, base@) ==> joined == Err::<
            Entry,
            ErrorKind,
        >(ErrorKind::InvalidInput),
        found matches Err(kind) ==> joined == Err::<Entry, ErrorKind>(kind),
{
    match found {
        Ok(entry) => {
            if entry.path.is_within(base) {
                Ok(entry)
            } else {
                Err(ErrorKind::InvalidInput)
            }
        },
        Err(kind) => Err(kind),
    }
}

/// Lets a file through, and refuses a directory as `InvalidInput`.
pub fn ensure_file(maybe_path: Result<Entry, ErrorKind>) -> (file: Result<AbsPath, ErrorKind>)
    ensures
        path_view(file) == file_only(found_view(maybe_path)),
{
    match maybe_path {
        Ok(entry) => {
            if entry.is_dir {
                Err(ErrorKind::InvalidInput)
            } else {
                Ok(entry.path)
            }
        },
        Err(kind) => Err(kind),
    }
}

/// Says where the content of `entry` is: a file is its own content; for a
/// directory the file `index_file_name` below it is asked for, and the
/// directory is the root that the answer has to stay in.
pub fn handle_index(entry: Entry, index_file_name: &str) -> (step: Step<AbsPath, AbsPath>)
    ensures
        index_step_view(step) == index_step(entry@, index_file_name@),
{
    if entry.is_dir {
        let base = entry.path.clone();
        Step::Ask(
            entry.path,
            Request::Resolve { base, relative: String::from_str(index_file_name) },
        )
    } else {
        Step::Done(entry.path)
    }
}

} // verus!
