use vstd::prelude::*;

verus! {

/// The name of the hidden file that holds a directory's note.
pub open spec fn note_file_name() -> Seq<char> {
    seq!['.', 'd', 'i', 'r', 'n', 'o', 't', 'e']
}

/// The path of the note file of `dir`: the file name joined onto the directory
/// with one `/`, which is left out where `dir` is empty or already ends in `/`.
pub open spec fn note_path(dir: Seq<char>) -> Seq<char> {
    if dir.len() == 0 || dir.last() == '/' {
        dir + note_file_name()
    } else {
        dir + seq!['/'] + note_file_name()
    }
}

/// Resolves a directory to the path of its note file.
pub fn note_file_path(dir: &str) -> (r: String)
    ensures
        r@ == note_path(dir@),
{
    let n = dir.unicode_len();
    let mut path = String::from_str(dir);
    if n > 0 && dir.get_char(n - 1) != '/' {
        path.append("/");
    }
    path.append(".dirnote");
    proof {
        reveal_strlit("/");
        reveal_strlit(".dirnote");
    }
    assert(".dirnote"@ =~= note_file_name());
    path
}

} // verus!
