use std::collections::HashMap;

use dirnote::note_path::note_file_path;
use dirnote::note_text::note_text_from_words;
use dirnote::scanner::{list_notes, lookup_from, relative_label, render_line, NoteLookup, RootEntry};
use dirnote::store::{delete_report, get_step, shown_note, DeleteReport, GetAction, GetEvent, IoError};

fn words(ws: &[&str]) -> Vec<String> {
    ws.iter().map(|w| w.to_string()).collect()
}

/// Files by path: `Some(text)` for a readable file, `None` for an unreadable one.
type Files = HashMap<String, Option<String>>;

fn set(files: &mut Files, dir: &str, text: &str) {
    files.insert(note_file_path(dir), Some(text.to_string()));
}

fn get(files: &Files, dir: &str) -> Result<Option<String>, IoError> {
    let path = note_file_path(dir);
    match get_step(GetEvent::Probed(files.contains_key(&path))) {
        GetAction::Finish(r) => r,
        GetAction::ReadFile => {
            let read = match files.get(&path) {
                Some(Some(t)) => Ok(t.clone()),
                _ => Err(IoError),
            };
            match get_step(GetEvent::Read(read)) {
                GetAction::Finish(r) => r,
                GetAction::ReadFile => panic!("a read is followed by a result"),
            }
        }
    }
}

fn delete(files: &mut Files, dir: &str) -> DeleteReport {
    let removed = match files.remove(&note_file_path(dir)) {
        Some(_) => Ok(()),
        None => Err(IoError),
    };
    delete_report(removed)
}

#[test]
fn note_path_joins_file_name() {
    assert_eq!(note_file_path("/home/u/proj"), "/home/u/proj/.dirnote");
    assert_eq!(note_file_path("/home/u/proj/"), "/home/u/proj/.dirnote");
    assert_eq!(note_file_path("/"), "/.dirnote");
    assert_eq!(note_file_path(""), ".dirnote");
}

#[test]
fn multi_word_set_joins_with_single_spaces() {
    assert_eq!(note_text_from_words(&words(&["a", "b", "c"])), "a b c");
}

#[test]
fn note_text_trims_outer_white_space() {
    assert_eq!(note_text_from_words(&words(&[" a ", "b\t"])), "a  b");
    assert_eq!(note_text_from_words(&words(&["  ", "\n"])), "");
    assert_eq!(note_text_from_words(&words(&[])), "");
    assert_eq!(note_text_from_words(&words(&["one"])), "one");
}

#[test]
fn get_step_without_file_has_no_note() {
    assert!(matches!(get_step(GetEvent::Probed(false)), GetAction::Finish(Ok(None))));
}

#[test]
fn get_step_with_file_reads_it() {
    assert!(matches!(get_step(GetEvent::Probed(true)), GetAction::ReadFile));
}

#[test]
fn get_step_returns_read_text() {
    match get_step(GetEvent::Read(Ok("x y".to_string()))) {
        GetAction::Finish(Ok(Some(t))) => assert_eq!(t, "x y"),
        _ => panic!("expected the text read"),
    }
}

#[test]
fn get_step_reports_read_failure() {
    assert!(matches!(get_step(GetEvent::Read(Err(IoError))), GetAction::Finish(Err(IoError))));
}

#[test]
fn round_trip_set_then_get() {
    let mut files = Files::new();
    set(&mut files, "/d", "hello there");
    assert_eq!(get(&files, "/d"), Ok(Some("hello there".to_string())));
}

#[test]
fn round_trip_of_trimmed_words() {
    let mut files = Files::new();
    let text = note_text_from_words(&words(&["  remember", "the", "milk  "]));
    set(&mut files, "/d", &text);
    assert_eq!(get(&files, "/d"), Ok(Some("remember the milk".to_string())));
}

#[test]
fn overwrite_keeps_second_text_only() {
    let mut files = Files::new();
    set(&mut files, "/d", "first");
    set(&mut files, "/d", "second");
    assert_eq!(get(&files, "/d"), Ok(Some("second".to_string())));
}

#[test]
fn delete_without_note_fails() {
    let mut files = Files::new();
    let report = delete(&mut files, "/d");
    assert_eq!(report, DeleteReport::Failed);
    assert_eq!(report.message(), "Failed to read notes file");
}

#[test]
fn delete_existing_note() {
    let mut files = Files::new();
    set(&mut files, "/d", "x");
    let report = delete(&mut files, "/d");
    assert_eq!(report, DeleteReport::Deleted);
    assert_eq!(report.message(), "Note deleted");
    assert_eq!(get(&files, "/d"), Ok(None));
    assert_eq!(delete(&mut files, "/d"), DeleteReport::Failed);
}

#[test]
fn get_absent_note_is_not_an_error() {
    let mut files = Files::new();
    set(&mut files, "/other", "x");
    assert_eq!(get(&files, "/d"), Ok(None));
}

#[test]
fn get_unreadable_note_is_an_error() {
    let mut files = Files::new();
    files.insert(note_file_path("/d"), None);
    assert_eq!(get(&files, "/d"), Err(IoError));
}

#[test]
fn shown_note_outcomes() {
    assert_eq!(shown_note(Ok(Some("n".to_string()))), Some("n".to_string()));
    assert_eq!(shown_note(Ok(None)), None);
    assert_eq!(shown_note(Err(IoError)), Some("Failed to read note".to_string()));
}

#[test]
fn lookup_from_results() {
    match lookup_from(Ok(Some("t".to_string()))) {
        NoteLookup::Note(t) => assert_eq!(t, "t"),
        _ => panic!("expected a note"),
    }
    assert!(matches!(lookup_from(Ok(None)), NoteLookup::Empty));
    assert!(matches!(lookup_from(Err(IoError)), NoteLookup::ReadFailure));
}

#[test]
fn relative_label_strips_root_prefix() {
    assert_eq!(relative_label("/r", "/r/A"), "/A");
    assert_eq!(relative_label("/home/u", "/home/u/src"), "/src");
    assert_eq!(relative_label("/x", "/r/A"), "/r/A");
    assert_eq!(relative_label("/r/A/long", "/r/A"), "/r/A");
}

#[test]
fn listing_three_directories_and_a_file() {
    let entries = vec![
        RootEntry::Dir("/r/A".to_string(), NoteLookup::Note("x".to_string())),
        RootEntry::File("/r/notes.txt".to_string()),
        RootEntry::Dir("/r/B".to_string(), NoteLookup::Empty),
        RootEntry::Dir("/r/C".to_string(), NoteLookup::ReadFailure),
    ];
    let lines = list_notes("/r", &entries);
    let texts: Vec<String> = lines.iter().map(render_line).collect();
    assert_eq!(texts, vec!["/A: x", "/B: ", "/C: Failure reading note"]);
}

#[test]
fn listing_of_files_only_is_empty() {
    let entries = vec![RootEntry::File("/r/a".to_string()), RootEntry::File("/r/b".to_string())];
    assert!(list_notes("/r", &entries).is_empty());
    assert!(list_notes("/r", &Vec::new()).is_empty());
}
