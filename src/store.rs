use vstd::prelude::*;

verus! {

/// A failure of the host filesystem other than a plain missing file.
#[derive(Clone, Copy, Debug, PartialEq, Eq, Structural)]
pub struct IoError;

/// What the filesystem answered to the last request made while getting a note.
pub enum GetEvent {
    /// Whether the metadata probe of the note file succeeded.
    Probed(bool),
    /// The full text of the note file, or the failure to open or read it.
    Read(Result<String, IoError>),
}

/// What getting a note does next.
pub enum GetAction {
    /// Open the note file and read it whole.
    ReadFile,
    /// Stop with this result: `Ok(None)` when there is no note.
    Finish(Result<Option<String>, IoError>),
}

pub enum GetEventView {
    Probed(bool),
    Read(Result<Seq<char>, IoError>),
}

pub enum GetActionView {
    ReadFile,
    Finish(Result<Option<Seq<char>>, IoError>),
}

impl View for GetEvent {
    type V = GetEventView;

    open spec fn view(&self) -> GetEventView {
        match self {
            GetEvent::Probed(found) => GetEventView::Probed(*found),
            GetEvent::Read(Ok(t)) => GetEventView::Read(Ok(t@)),
            GetEvent::Read(Err(e)) => GetEventView::Read(Err(*e)),
        }
    }
}

/// The view of the result of getting a note.
pub open spec fn note_result_view(r: Result<Option<String>, IoError>) -> Result<
    Option<Seq<char>>,
    IoError,
> {
    match r {
        Ok(Some(t)) => Ok(Some(t@)),
        Ok(None) => Ok(None),
        Err(e) => Err(e),
    }
}

impl View for GetAction {
    type V = GetActionView;

    open spec fn view(&self) -> GetActionView {
        match self {
            GetAction::ReadFile => GetActionView::ReadFile,
            GetAction::Finish(r) => GetActionView::Finish(note_result_view(*r)),
        }
    }
}

/// How getting a note proceeds: a failed probe means there is no note; a
/// successful one is followed by a read, whose text is the note and whose
/// failure is the result.
pub open spec fn get_step_spec(event: GetEventView) -> GetActionView {
    match event {
        GetEventView::Probed(found) => if found {
            GetActionView::ReadFile
        } else {
            GetActionView::Finish(Ok(None))
        },
        GetEventView::Read(Ok(t)) => GetActionView::Finish(Ok(Some(t))),
        GetEventView::Read(Err(e)) => GetActionView::Finish(Err(e)),
    }
}

/// Decides the next step of getting a note from what the filesystem answered.
pub fn get_step(event: GetEvent) -> (r: GetAction)
    ensures
        r@ == get_step_spec(event@),
{
    match event {
        GetEvent::Probed(found) => if found {
            GetAction::ReadFile
        } else {
            GetAction::Finish(Ok(None))
        },
        GetEvent::Read(Ok(t)) => GetAction::Finish(Ok(Some(t))),
        GetEvent::Read(Err(e)) => GetAction::Finish(Err(e)),
    }
}

/// How a delete went, as reported to the user.
#[derive(Clone, Copy, Debug, PartialEq, Eq, Structural)]
pub enum DeleteReport {
    Deleted,
    Failed,
}

/// A delete is reported as done only where removing the note file succeeded;
/// a missing file is a failure like any other.
pub open spec fn delete_report_spec(removed: Result<(), IoError>) -> DeleteReport {
    match removed {
        Ok(_) => DeleteReport::Deleted,
        Err(_) => DeleteReport::Failed,
    }
}

/// Reports the outcome of removing a note file.
pub fn delete_report(removed: Result<(), IoError>) -> (r: DeleteReport)
    ensures
        r == delete_report_spec(removed),
{
    match removed {
        Ok(_) => DeleteReport::Deleted,
        Err(_) => DeleteReport::Failed,
    }
}

impl DeleteReport {
    /// The line printed for this report.
    pub fn message(&self) -> (r: String)
        ensures
            r@ == match self {
                DeleteReport::Deleted => "Note deleted"@,
                DeleteReport::Failed => "Failed to read notes file"@,
            },
    {
        match self {
            DeleteReport::Deleted => String::from_str("Note deleted"),
            DeleteReport::Failed => String::from_str("Failed to read notes file"),
        }
    }
}

/// What showing the current directory's note prints: the note where there is
/// one, nothing where there is none, and a failure line where it could not be read.
pub fn shown_note(result: Result<Option<String>, IoError>) -> (r: Option<String>)
    ensures
        match note_result_view(result) {
            Ok(Some(t)) => r is Some && r->0@ == t,
            Ok(None) => r is None,
            Err(_) => r is Some && r->0@ == "Failed to read note"@,
        },
{
    match result {
        Ok(Some(t)) => Some(t),
        Ok(None) => None,
        Err(_) => Some(String::from_str("Failed to read note")),
    }
}

} // verus!
