use vstd::prelude::*;

use crate::note_path::note_path;
use crate::scanner::{lookup_spec, NoteLookupView};
use crate::store::{
    delete_report_spec, get_step_spec, DeleteReport, GetActionView, GetEventView, IoError,
};

verus! {

/// The host filesystem as the note store sees it: each existing file's path
/// maps to its text, or to `None` where the file exists but cannot be read.
pub type Files = Map<Seq<char>, Option<Seq<char>>>;

/// The answer of a metadata probe of `path`.
pub open spec fn probe_answer(files: Files, path: Seq<char>) -> bool {
    files.contains_key(path)
}

/// The answer of opening and reading `path` whole.
pub open spec fn read_answer(files: Files, path: Seq<char>) -> Result<Seq<char>, IoError> {
    if files.contains_key(path) && files[path] is Some {
        Ok(files[path]->0)
    } else {
        Err(IoError)
    }
}

/// The filesystem after `path` was created or truncated and `text` written to it.
pub open spec fn after_write(files: Files, path: Seq<char>, text: Seq<char>) -> Files {
    files.insert(path, Some(text))
}

/// The answer of removing `path`.
pub open spec fn remove_answer(files: Files, path: Seq<char>) -> Result<(), IoError> {
    if files.contains_key(path) {
        Ok(())
    } else {
        Err(IoError)
    }
}

/// The filesystem after `path` was removed.
pub open spec fn after_remove(files: Files, path: Seq<char>) -> Files {
    files.remove(path)
}

/// Setting the note of `dir` to `text`: a write of the text to its note file.
pub open spec fn set_note(files: Files, dir: Seq<char>, text: Seq<char>) -> Files {
    after_write(files, note_path(dir), text)
}

/// Getting the note of `dir`: the steps of `get_step_spec`, each answered by `files`.
pub open spec fn get_note(files: Files, dir: Seq<char>) -> Result<Option<Seq<char>>, IoError> {
    let path = note_path(dir);
    match get_step_spec(GetEventView::Probed(probe_answer(files, path))) {
        GetActionView::Finish(r) => r,
        GetActionView::ReadFile => match get_step_spec(
            GetEventView::Read(read_answer(files, path)),
        ) {
            GetActionView::Finish(r) => r,
            GetActionView::ReadFile => Err(IoError),
        },
    }
}

/// What deleting the note of `dir` reports.
pub open spec fn delete_note_report(files: Files, dir: Seq<char>) -> DeleteReport {
    delete_report_spec(remove_answer(files, note_path(dir)))
}

/// A note that was set is read back exactly.
pub proof fn lemma_set_then_get(files: Files, dir: Seq<char>, text: Seq<char>)
    ensures
        get_note(set_note(files, dir, text), dir) == Ok::<Option<Seq<char>>, IoError>(Some(text)),
{
}

/// A second set replaces the first note whole: getting afterwards yields the
/// second text alone.
pub proof fn lemma_set_overwrites(files: Files, dir: Seq<char>, first: Seq<char>, second: Seq<char>)
    ensures
        get_note(set_note(set_note(files, dir, first), dir, second), dir) == Ok::<
            Option<Seq<char>>,
            IoError,
        >(Some(second)),
{
}

/// Deleting where there is no note is reported as a failure.
pub proof fn lemma_delete_missing_fails(files: Files, dir: Seq<char>)
    requires
        !files.contains_key(note_path(dir)),
    ensures
        delete_note_report(files, dir) == DeleteReport::Failed,
{
}

/// Deleting an existing note is reported as done, and leaves no note behind.
pub proof fn lemma_delete_existing(files: Files, dir: Seq<char>)
    requires
        files.contains_key(note_path(dir)),
    ensures
        delete_note_report(files, dir) == DeleteReport::Deleted,
        get_note(after_remove(files, note_path(dir)), dir) == Ok::<Option<Seq<char>>, IoError>(
            None,
        ),
{
}

/// Where no note file exists, getting gives no note, not an error.
pub proof fn lemma_get_absent(files: Files, dir: Seq<char>)
    requires
        !files.contains_key(note_path(dir)),
    ensures
        get_note(files, dir) == Ok::<Option<Seq<char>>, IoError>(None),
{
}

/// A note file that exists but cannot be read makes getting fail, which a
/// listing shows as a read failure.
pub proof fn lemma_get_unreadable(files: Files, dir: Seq<char>)
    requires
        files.contains_key(note_path(dir)),
        files[note_path(dir)] is None,
    ensures
        get_note(files, dir) == Err::<Option<Seq<char>>, IoError>(IoError),
        lookup_spec(get_note(files, dir)) == NoteLookupView::ReadFailure,
{
}

} // verus!
