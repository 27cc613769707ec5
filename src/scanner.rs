use vstd::prelude::*;

use crate::store::{note_result_view, IoError};

verus! {

/// The note status of one directory, as a listing shows it.
pub enum NoteLookup {
    Note(String),
    Empty,
    ReadFailure,
}

pub enum NoteLookupView {
    Note(Seq<char>),
    Empty,
    ReadFailure,
}

impl View for NoteLookup {
    type V = NoteLookupView;

    open spec fn view(&self) -> NoteLookupView {
        match self {
            NoteLookup::Note(t) => NoteLookupView::Note(t@),
            NoteLookup::Empty => NoteLookupView::Empty,
            NoteLookup::ReadFailure => NoteLookupView::ReadFailure,
        }
    }
}

impl NoteLookup {
    /// A copy of this status.
    pub fn copied(&self) -> (r: NoteLookup)
        ensures
            r@ == self@,
    {
        match self {
            NoteLookup::Note(t) => NoteLookup::Note(t.clone()),
            NoteLookup::Empty => NoteLookup::Empty,
            NoteLookup::ReadFailure => NoteLookup::ReadFailure,
        }
    }
}

/// The status that the result of getting a note gives.
pub open spec fn lookup_spec(result: Result<Option<Seq<char>>, IoError>) -> NoteLookupView {
    match result {
        Ok(Some(t)) => NoteLookupView::Note(t),
        Ok(None) => NoteLookupView::Empty,
        Err(_) => NoteLookupView::ReadFailure,
    }
}

/// Turns the result of getting a note into the status a listing shows.
pub fn lookup_from(result: Result<Option<String>, IoError>) -> (r: NoteLookup)
    ensures
        r@ == lookup_spec(note_result_view(result)),
{
    match result {
        Ok(Some(t)) => NoteLookup::Note(t),
        Ok(None) => NoteLookup::Empty,
        Err(_) => NoteLookup::ReadFailure,
    }
}

/// One entry of the directory being listed.
pub enum RootEntry {
    /// An entry that is not a directory, by its full path.
    File(String),
    /// A directory, by its full path, with the status of its note.
    Dir(String, NoteLookup),
}

pub enum RootEntryView {
    File(Seq<char>),
    Dir(Seq<char>, NoteLookupView),
}

impl View for RootEntry {
    type V = RootEntryView;

    open spec fn view(&self) -> RootEntryView {
        match self {
            RootEntry::File(p) => RootEntryView::File(p@),
            RootEntry::Dir(p, l) => RootEntryView::Dir(p@, l@),
        }
    }
}

/// One line of a listing: a directory's label and the status of its note.
pub struct ListLine {
    pub label: String,
    pub lookup: NoteLookup,
}

impl View for ListLine {
    type V = (Seq<char>, NoteLookupView);

    open spec fn view(&self) -> (Seq<char>, NoteLookupView) {
        (self.label@, self.lookup@)
    }
}

/// The label of `path` under `root`: what is left of the path once the root is
/// taken off its front as a literal prefix, or the whole path where it does
/// not start with the root.
pub open spec fn relative_label_spec(root: Seq<char>, path: Seq<char>) -> Seq<char> {
    if root.is_prefix_of(path) {
        path.skip(root.len() as int)
    } else {
        path
    }
}

/// The listing of a directory's entries: one line for each directory among
/// them, in the order given; other entries are left out.
pub open spec fn listing(root: Seq<char>, entries: Seq<RootEntryView>) -> Seq<
    (Seq<char>, NoteLookupView),
>
    decreases entries.len(),
{
    if entries.len() == 0 {
        Seq::empty()
    } else {
        let rest = listing(root, entries.drop_last());
        match entries.last() {
            RootEntryView::File(_) => rest,
            RootEntryView::Dir(p, l) => rest.push((relative_label_spec(root, p), l)),
        }
    }
}

/// The number of directories among the entries.
pub open spec fn dir_count(entries: Seq<RootEntryView>) -> nat
    decreases entries.len(),
{
    if entries.len() == 0 {
        0
    } else {
        dir_count(entries.drop_last()) + if entries.last() is Dir {
            1nat
        } else {
            0nat
        }
    }
}

/// A listing holds exactly one line per directory entry, and none for other
/// entries: each directory entry's line carries its label and its status.
pub proof fn lemma_listing_one_line_per_dir(root: Seq<char>, entries: Seq<RootEntryView>)
    ensures
        listing(root, entries).len() == dir_count(entries),
        forall|p: Seq<char>, l: NoteLookupView|
            entries.contains(RootEntryView::Dir(p, l)) ==> #[trigger] listing(root, entries).contains(
                (relative_label_spec(root, p), l),
            ),
        forall|i: int|
            #![trigger listing(root, entries)[i]]
            0 <= i < listing(root, entries).len() ==> exists|p: Seq<char>|
                #![trigger relative_label_spec(root, p)]
                entries.contains(RootEntryView::Dir(p, listing(root, entries)[i].1))
                    && listing(root, entries)[i].0 == relative_label_spec(root, p),
    decreases entries.len(),
{
    if entries.len() > 0 {
        let init = entries.drop_last();
        lemma_listing_one_line_per_dir(root, init);
        let rest = listing(root, init);
        let all = listing(root, entries);
        assert(all.len() >= rest.len());
        assert(forall|j: int| 0 <= j < rest.len() ==> #[trigger] all[j] == rest[j]);
        assert forall|p: Seq<char>, l: NoteLookupView|
            entries.contains(RootEntryView::Dir(p, l)) implies #[trigger] all.contains(
                (relative_label_spec(root, p), l),
            ) by {
            let k = choose|k: int| 0 <= k < entries.len() && entries[k] == RootEntryView::Dir(p, l);
            if k < entries.len() - 1 {
                assert(init[k] == entries[k]);
                assert(init.contains(RootEntryView::Dir(p, l)));
                assert(rest.contains((relative_label_spec(root, p), l)));
                let j = choose|j: int| 0 <= j < rest.len() && rest[j] == (relative_label_spec(root, p), l);
                assert(all[j] == rest[j]);
            } else {
                assert(all[all.len() - 1] == (relative_label_spec(root, p), l));
            }
        }
        assert forall|i: int| #![trigger all[i]] 0 <= i < all.len() implies exists|p: Seq<char>|
            #![trigger relative_label_spec(root, p)]
            entries.contains(RootEntryView::Dir(p, all[i].1)) && all[i].0 == relative_label_spec(
                root,
                p,
            ) by {
            if i < rest.len() {
                assert(all[i] == rest[i]);
                let p = choose|p: Seq<char>|
                    #![trigger relative_label_spec(root, p)]
                    init.contains(RootEntryView::Dir(p, rest[i].1)) && rest[i].0 == relative_label_spec(root, p);
                let k = choose|k: int| 0 <= k < init.len() && init[k] == RootEntryView::Dir(p, rest[i].1);
                assert(entries[k] == init[k]);
                assert(entries.contains(RootEntryView::Dir(p, all[i].1)));
            } else {
                let last = entries.last();
                assert(entries[entries.len() - 1] == last);
                match last {
                    RootEntryView::Dir(p, l) => {
                        assert(entries.contains(RootEntryView::Dir(p, all[i].1)));
                        assert(all[i].0 == relative_label_spec(root, p));
                    },
                    RootEntryView::File(_) => {},
                }
            }
        }
    }
}

/// The text of a listing line: the label, a colon and a space, then the note,
/// nothing, or a failure notice.
pub open spec fn line_text(line: (Seq<char>, NoteLookupView)) -> Seq<char> {
    line.0 + ": "@ + match line.1 {
        NoteLookupView::Note(t) => t,
        NoteLookupView::Empty => Seq::empty(),
        NoteLookupView::ReadFailure => "Failure reading note"@,
    }
}

fn starts_with(s: &str, prefix: &str) -> (r: bool)
    ensures
        r == prefix@.is_prefix_of(s@),
{
    let n = s.unicode_len();
    let m = prefix.unicode_len();
    if m > n {
        return false;
    }
    let mut i: usize = 0;
    while i < m
        invariant
            m <= n,
            n == s@.len(),
            m == prefix@.len(),
            i <= m,
            forall|j: int| 0 <= j < i ==> prefix@[j] == s@[j],
        decreases m - i,
    {
        if s.get_char(i) != prefix.get_char(i) {
            return false;
        }
        i = i + 1;
    }
    assert(prefix@ =~= s@.subrange(0, m as int));
    true
}

/// The label under which a listing shows `path`, a path of an entry of `root`.
pub fn relative_label(root: &str, path: &str) -> (r: String)
    ensures
        r@ == relative_label_spec(root@, path@),
{
    if starts_with(path, root) {
        let n = path.unicode_len();
        let m = root.unicode_len();
        let rest = path.substring_char(m, n);
        assert(rest@ =~= path@.skip(m as int));
        String::from_str(rest)
    } else {
        String::from_str(path)
    }
}

/// Lists the notes of the directories among the entries of `root`.
pub fn list_notes(root: &str, entries: &Vec<RootEntry>) -> (r: Vec<ListLine>)
    ensures
        r@.map_values(|l: ListLine| l@) == listing(root@, entries@.map_values(|e: RootEntry| e@)),
{
    let mut lines: Vec<ListLine> = Vec::new();
    let mut i: usize = 0;
    while i < entries.len()
        invariant
            i <= entries.len(),
            lines@.map_values(|l: ListLine| l@) == listing(
                root@,
                entries@.subrange(0, i as int).map_values(|e: RootEntry| e@),
            ),
        decreases entries.len() - i,
    {
        let ghost before = entries@.subrange(0, i as int).map_values(|e: RootEntry| e@);
        let ghost after = entries@.subrange(0, i + 1).map_values(|e: RootEntry| e@);
        assert(after.drop_last() =~= before);
        assert(after.last() == entries@[i as int]@);
        match &entries[i] {
            RootEntry::File(_) => {},
            RootEntry::Dir(path, lookup) => {
                let line = ListLine { label: relative_label(root, path.as_str()), lookup: lookup.copied() };
                lines.push(line);
                assert(lines@.map_values(|l: ListLine| l@) =~= listing(root@, before).push(
                    line@,
                ));
            },
        }
        i = i + 1;
    }
    assert(entries@.subrange(0, entries.len() as int) =~= entries@);
    lines
}

/// The text printed for one line of a listing.
pub fn render_line(line: &ListLine) -> (r: String)
    ensures
        r@ == line_text(line@),
{
    let mut text = line.label.clone();
    text.append(": ");
    match &line.lookup {
        NoteLookup::Note(t) => text.append(t.as_str()),
        NoteLookup::Empty => {},
        NoteLookup::ReadFailure => text.append("Failure reading note"),
    }
    assert(text@ =~= line_text(line@));
    text
}

} // verus!
