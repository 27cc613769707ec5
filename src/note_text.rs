use vstd::prelude::*;

verus! {

/// Unicode's `White_Space` property, which `char::is_whitespace` tests.
pub open spec fn is_white_space(c: char) -> bool {
    ||| '\u{9}' <= c <= '\u{d}'
    ||| c == ' '
    ||| c == '\u{85}'
    ||| c == '\u{a0}'
    ||| c == '\u{1680}'
    ||| '\u{2000}' <= c <= '\u{200a}'
    ||| c == '\u{2028}'
    ||| c == '\u{2029}'
    ||| c == '\u{202f}'
    ||| c == '\u{205f}'
    ||| c == '\u{3000}'
}

/// `s` without its leading white space.
pub open spec fn trim_start(s: Seq<char>) -> Seq<char>
    decreases s.len(),
{
    if s.len() > 0 && is_white_space(s[0]) {
        trim_start(s.drop_first())
    } else {
        s
    }
}

/// `s` without its trailing white space.
pub open spec fn trim_end(s: Seq<char>) -> Seq<char>
    decreases s.len(),
{
    if s.len() > 0 && is_white_space(s.last()) {
        trim_end(s.drop_last())
    } else {
        s
    }
}

/// `s` without leading and trailing white space.
pub open spec fn trimmed(s: Seq<char>) -> Seq<char> {
    trim_end(trim_start(s))
}

/// Each word preceded by one space, all in a row: `[a, b]` gives `" a b"`.
pub open spec fn space_prefixed(words: Seq<Seq<char>>) -> Seq<char>
    decreases words.len(),
{
    if words.len() == 0 {
        Seq::empty()
    } else {
        space_prefixed(words.drop_last()) + seq![' '] + words.last()
    }
}

/// The words with one space between each two of them: `[a, b]` gives `"a b"`.
pub open spec fn space_joined(words: Seq<Seq<char>>) -> Seq<char>
    decreases words.len(),
{
    if words.len() <= 1 {
        if words.len() == 0 {
            Seq::empty()
        } else {
            words[0]
        }
    } else {
        space_joined(words.drop_last()) + seq![' '] + words.last()
    }
}

/// The views of a list of strings.
pub open spec fn word_views(words: Seq<String>) -> Seq<Seq<char>> {
    words.map_values(|w: String| w@)
}

/// The note text that a list of words makes: the words joined with single
/// spaces, then stripped of leading and trailing white space.
pub open spec fn note_text(words: Seq<Seq<char>>) -> Seq<char> {
    trimmed(space_prefixed(words))
}

/// Relies on `str::trim`: the slice without leading and trailing characters
/// that have Unicode's `White_Space` property.
#[verifier::external_body]
fn trim_white_space(s: &str) -> (r: &str)
    ensures
        r@ == trimmed(s@),
{
    s.trim()
}

/// Builds the note text that `set` stores from the words it was given.
pub fn note_text_from_words(words: &Vec<String>) -> (r: String)
    ensures
        r@ == note_text(word_views(words@)),
{
    let mut joined = String::new();
    let mut i: usize = 0;
    while i < words.len()
        invariant
            i <= words.len(),
            joined@ == space_prefixed(word_views(words@.subrange(0, i as int))),
        decreases words.len() - i,
    {
        proof {
            reveal_strlit(" ");
        }
        joined.append(" ");
        joined.append(words[i].as_str());
        assert(word_views(words@.subrange(0, i + 1)).drop_last() =~= word_views(
            words@.subrange(0, i as int),
        ));
        i = i + 1;
    }
    assert(words@.subrange(0, words.len() as int) =~= words@);
    String::from_str(trim_white_space(joined.as_str()))
}

/// Leading white space goes, and text that starts with another character stays.
proof fn lemma_trim_start_space(s: Seq<char>)
    requires
        s.len() > 0,
        !is_white_space(s[0]),
    ensures
        trim_start(seq![' '] + s) == s,
{
    let t = seq![' '] + s;
    assert(t.drop_first() =~= s);
    assert(is_white_space(t[0]));
    assert(trim_start(s) == s);
}

/// Text that ends in a character other than white space has nothing to trim at its end.
proof fn lemma_trim_end_keeps(s: Seq<char>)
    requires
        s.len() > 0,
        !is_white_space(s.last()),
    ensures
        trim_end(s) == s,
{
}

/// The space-prefixed form is one space before the space-joined form.
proof fn lemma_prefixed_is_space_then_joined(words: Seq<Seq<char>>)
    requires
        words.len() > 0,
    ensures
        space_prefixed(words) == seq![' '] + space_joined(words),
    decreases words.len(),
{
    if words.len() == 1 {
        assert(space_prefixed(words.drop_last()) =~= Seq::empty());
        assert(space_prefixed(words) =~= seq![' '] + words[0]);
    } else {
        lemma_prefixed_is_space_then_joined(words.drop_last());
        assert(space_prefixed(words) =~= seq![' '] + space_joined(words));
    }
}

/// The joined words end with the last word.
proof fn lemma_joined_ends_with_last(words: Seq<Seq<char>>)
    requires
        words.len() > 0,
        words.last().len() > 0,
    ensures
        space_joined(words).len() > 0,
        space_joined(words).last() == words.last().last(),
{
}

/// The joined words start with the first word.
proof fn lemma_joined_starts_with_first(words: Seq<Seq<char>>)
    requires
        words.len() > 0,
        words[0].len() > 0,
    ensures
        space_joined(words).len() > 0,
        space_joined(words)[0] == words[0][0],
    decreases words.len(),
{
    if words.len() > 1 {
        lemma_joined_starts_with_first(words.drop_last());
    }
}

/// Words given to `set` are stored joined with single spaces, with no white
/// space before or after, where the first word does not start and the last
/// word does not end with white space.
pub proof fn lemma_words_joined_with_single_spaces(words: Seq<Seq<char>>)
    requires
        words.len() > 0,
        words[0].len() > 0,
        !is_white_space(words[0][0]),
        words.last().len() > 0,
        !is_white_space(words.last().last()),
    ensures
        note_text(words) == space_joined(words),
{
    lemma_prefixed_is_space_then_joined(words);
    lemma_joined_starts_with_first(words);
    lemma_joined_ends_with_last(words);
    lemma_trim_start_space(space_joined(words));
    lemma_trim_end_keeps(space_joined(words));
}

} // verus!
